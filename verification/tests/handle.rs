use ljmrs::{ConnectionType, DeviceHandleInfo, DeviceType, LJMError, LJMErrorCode, LJMLibrary};

#[test]
fn device_types_by_code() {
    assert_eq!(DeviceType::from(4), DeviceType::T4);
    assert_eq!(DeviceType::from(7), DeviceType::T7);
    assert_eq!(DeviceType::from(8), DeviceType::T8);
    assert_eq!(DeviceType::from(200), DeviceType::DIGIT);
    assert_eq!(DeviceType::from(-1), DeviceType::EMULATED(-1));
    assert_eq!(DeviceType::from(-999), DeviceType::EMULATED(-999));
    assert_eq!(DeviceType::from(-1000), DeviceType::UNKNOWN(-1000));
    assert_eq!(DeviceType::from(0), DeviceType::UNKNOWN(0));
    assert_eq!(DeviceType::from(84), DeviceType::UNKNOWN(84));
}

#[test]
fn connection_types_by_code() {
    assert_eq!(ConnectionType::from(1), ConnectionType::USB);
    assert_eq!(ConnectionType::from(3), ConnectionType::ETHERNET);
    assert_eq!(ConnectionType::from(4), ConnectionType::WIFI);
    assert_eq!(ConnectionType::from(0), ConnectionType::UNKNOWN(0));
    assert_eq!(ConnectionType::from(2), ConnectionType::UNKNOWN(2));
    assert_eq!(ConnectionType::from(-3), ConnectionType::UNKNOWN(-3));
}

#[test]
fn device_type_names() {
    assert_eq!(DeviceType::T4.to_string(), "T4");
    assert_eq!(DeviceType::T7.to_string(), "T7");
    assert_eq!(DeviceType::T8.to_string(), "T8");
    assert_eq!(DeviceType::TSERIES.to_string(), "TSERIES");
    assert_eq!(DeviceType::DIGIT.to_string(), "DIGIT");
    assert_eq!(DeviceType::ANY.to_string(), "ANY");
    assert_eq!(DeviceType::EMULATED(-7).to_string(), "EMULATED::[-7]");
    assert_eq!(DeviceType::UNKNOWN(1200).to_string(), "ANY::[1200]");
    assert_eq!(DeviceType::UNKNOWN(0).to_string(), "ANY::[0]");
    assert_eq!(DeviceType::UNKNOWN(i32::MIN).to_string(), "ANY::[-2147483648]");
}

#[test]
fn connection_type_names() {
    assert_eq!(ConnectionType::USB.to_string(), "USB");
    assert_eq!(ConnectionType::WIFI.to_string(), "WIFI");
    assert_eq!(ConnectionType::ETHERNET.to_string(), "ETHERNET");
    assert_eq!(ConnectionType::ANY.to_string(), "ANY");
    assert_eq!(ConnectionType::UNKNOWN(9).to_string(), "ANY");
}

#[test]
fn decimal_text_of_integers() {
    assert_eq!(ljmrs::text::decimal_text(0), "0");
    assert_eq!(ljmrs::text::decimal_text(9), "9");
    assert_eq!(ljmrs::text::decimal_text(10), "10");
    assert_eq!(ljmrs::text::decimal_text(-10), "-10");
    assert_eq!(ljmrs::text::decimal_text(1234567890), "1234567890");
    assert_eq!(ljmrs::text::decimal_text(i64::MAX), "9223372036854775807");
    assert_eq!(ljmrs::text::decimal_text(i64::MIN), "-9223372036854775808");
    assert_eq!(ljmrs::text::unsigned_decimal(u64::MAX), "18446744073709551615");
    assert_eq!(ljmrs::text::unsigned_decimal(100), "100");
}

#[test]
fn handle_info_from_the_six_numbers() {
    let info = LJMLibrary::get_handle_info(7, 3, 470012345, 0x0A000005, 502, 1040, 0, Ok(String::new()))
        .unwrap();
    assert_eq!(
        info,
        DeviceHandleInfo {
            device_type: DeviceType::T7,
            connection_type: ConnectionType::ETHERNET,
            ip_address: 0x0A000005,
            max_bytes_per_megabyte: 1040,
            serial_number: 470012345,
            port: 502,
        }
    );
    assert_eq!(info.to_string(), "T7 on ETHERNET @ 1040B/MB\n167772165:502 => 470012345");
}

#[test]
fn handle_info_of_an_emulated_device() {
    let info = LJMLibrary::get_handle_info(-7, 9, -2, 0, 0, 64, 0, Ok(String::new())).unwrap();
    assert_eq!(info.device_type, DeviceType::EMULATED(-7));
    assert_eq!(info.connection_type, ConnectionType::UNKNOWN(9));
    assert_eq!(info.to_string(), "EMULATED::[-7] on ANY @ 64B/MB\n0:0 => -2");
}

#[test]
fn handle_info_of_a_handle_that_is_not_open() {
    let info = LJMLibrary::get_handle_info(0, 0, 0, 0, 0, 0, 1224, Ok("not open".to_string()));
    assert!(matches!(
        info,
        Err(LJMError::ErrorCode(LJMErrorCode::LJMLibraryError(4), text)) if text == "not open"
    ));
}
