use ljmrs::marshal::{c_string, text_end, ERROR_STRING_SIZE};
use ljmrs::{ConnectionType, DeviceType, EntryPoint, LJMError, LJMErrorCode, LJMLibrary};

#[test]
fn text_gets_its_zero_byte() {
    assert_eq!(c_string(b"AIN0".to_vec()).unwrap(), b"AIN0\0".to_vec());
    assert_eq!(c_string(Vec::new()).unwrap(), vec![0u8]);
    assert_eq!(c_string(vec![255, 1]).unwrap(), vec![255, 1, 0]);
}

#[test]
fn text_with_a_zero_byte_is_refused() {
    assert!(matches!(c_string(b"AI\0N0".to_vec()), Err(LJMError::CStringConversionFailed)));
    assert!(matches!(c_string(b"\0".to_vec()), Err(LJMError::CStringConversionFailed)));
    assert!(matches!(c_string(b"AIN0\0".to_vec()), Err(LJMError::CStringConversionFailed)));
}

#[test]
fn text_ends_at_the_first_zero_byte() {
    assert_eq!(text_end(b"abc\0def\0"), 3);
    assert_eq!(text_end(b"\0abc"), 0);
    assert_eq!(text_end(b"abc"), 3);
    assert_eq!(text_end(b""), 0);
}

#[test]
fn open_hands_over_three_texts() {
    let arguments =
        LJMLibrary::open_jack_call(DeviceType::T7, ConnectionType::USB, b"ANY".to_vec()).unwrap();
    assert_eq!(arguments.device_type, b"T7\0".to_vec());
    assert_eq!(arguments.connection_type, b"USB\0".to_vec());
    assert_eq!(arguments.identifier, b"ANY\0".to_vec());

    let arguments = LJMLibrary::open_jack_call(
        DeviceType::EMULATED(-4),
        ConnectionType::UNKNOWN(12),
        b"-2".to_vec(),
    )
    .unwrap();
    assert_eq!(arguments.device_type, b"EMULATED::[-4]\0".to_vec());
    assert_eq!(arguments.connection_type, b"ANY\0".to_vec());
    assert_eq!(arguments.identifier, b"-2\0".to_vec());
}

#[test]
fn open_refuses_an_identifier_with_a_zero_byte() {
    assert!(matches!(
        LJMLibrary::open_jack_call(DeviceType::ANY, ConnectionType::ANY, b"47\x000".to_vec()),
        Err(LJMError::CStringConversionFailed)
    ));
}

#[test]
fn byte_array_read_gets_a_buffer_of_the_declared_size() {
    let (name, buffer) = LJMLibrary::read_name_byte_array_call(b"LUA_DEBUG_DATA".to_vec(), 5).unwrap();
    assert_eq!(name, b"LUA_DEBUG_DATA\0".to_vec());
    assert_eq!(buffer, vec![0u8; 5]);
    let (_, buffer) = LJMLibrary::read_name_byte_array_call(b"X".to_vec(), 0).unwrap();
    assert!(buffer.is_empty());
    assert!(matches!(
        LJMLibrary::read_name_byte_array_call(b"X\0Y".to_vec(), 5),
        Err(LJMError::CStringConversionFailed)
    ));
}

#[test]
fn status_text_is_the_whole_buffer() {
    let mut buffer = vec![0u8; ERROR_STRING_SIZE];
    buffer[..4].copy_from_slice(b"LJME");
    let text = LJMLibrary::error_to_string(buffer).unwrap();
    assert_eq!(text.len(), 256);
    assert!(text.starts_with("LJME\0"));
    assert_eq!(LJMLibrary::error_to_string(b"abc".to_vec()).unwrap(), "abc");
    assert_eq!(
        LJMLibrary::error_to_string("gr\u{fc}n".as_bytes().to_vec()).unwrap(),
        "gr\u{fc}n"
    );
    assert_eq!(LJMLibrary::error_to_string(Vec::new()).unwrap(), "");
}

#[test]
fn status_text_that_is_no_text_is_a_library_error() {
    let result = LJMLibrary::error_to_string(vec![b'a', 0xff, b'b']);
    match result {
        Err(LJMError::LibraryError(message)) => assert_eq!(
            message,
            "Unable to retrieve buffer pointer. invalid utf-8 sequence of 1 bytes from index 1"
        ),
        other => panic!("{:?}", other),
    }
    let result = LJMLibrary::error_to_string(vec![b'a', 0xe2, 0x82]);
    match result {
        Err(LJMError::LibraryError(message)) => assert_eq!(
            message,
            "Unable to retrieve buffer pointer. incomplete utf-8 byte sequence from index 1"
        ),
        other => panic!("{:?}", other),
    }
}

#[test]
fn address_conversion_hands_over_number_and_buffer() {
    let (number, buffer) = LJMLibrary::number_to_ip_call(0x0A000005).unwrap();
    assert_eq!(number, 167772165u32);
    assert_eq!(buffer, b"000.000.000.000\0".to_vec());
    let (number, _) = LJMLibrary::number_to_ip_call(0).unwrap();
    assert_eq!(number, 0);
    let (number, _) = LJMLibrary::number_to_ip_call(i32::MAX).unwrap();
    assert_eq!(number, 2147483647);
}

#[test]
fn negative_address_is_refused() {
    match LJMLibrary::number_to_ip_call(-1) {
        Err(LJMError::LibraryError(message)) => assert_eq!(
            message,
            "Unable to convert number into C unsigned integer. out of range integral type conversion attempted"
        ),
        other => panic!("{:?}", other),
    }
    assert!(LJMLibrary::number_to_ip_call(i32::MIN).is_err());
}

#[test]
fn dotted_address_is_read_up_to_its_end() {
    let text = LJMLibrary::number_to_ip(b"10.0.0.5\0000.000\0".to_vec(), 0, Ok(String::new())).unwrap();
    assert_eq!(text, "10.0.0.5");
    let text = LJMLibrary::number_to_ip(b"192.168.100.200\0".to_vec(), 0, Ok(String::new())).unwrap();
    assert_eq!(text, "192.168.100.200");
    let text = LJMLibrary::number_to_ip(b"1.2.3.4".to_vec(), 0, Ok(String::new())).unwrap();
    assert_eq!(text, "1.2.3.4");
    let text = LJMLibrary::number_to_ip(b"\0".to_vec(), 0, Ok(String::new())).unwrap();
    assert_eq!(text, "");
}

#[test]
fn dotted_address_with_a_status() {
    let result = LJMLibrary::number_to_ip(b"000.000.000.000\0".to_vec(), 1224, Ok("no".to_string()));
    assert!(matches!(
        result,
        Err(LJMError::ErrorCode(LJMErrorCode::LJMLibraryError(4), text)) if text == "no"
    ));
}

#[test]
fn dotted_address_that_is_no_text_is_a_library_error() {
    for status in [0, 1224] {
        let result = LJMLibrary::number_to_ip(vec![b'1', 0xff, 0, b'2'], status, Ok(String::new()));
        match result {
            Err(LJMError::LibraryError(message)) => assert_eq!(
                message,
                "Unable to retrieve IP pointer. C string contained non-utf8 bytes"
            ),
            other => panic!("{:?}", other),
        }
    }
    // What stands after the end of the text is not read.
    let text = LJMLibrary::number_to_ip(vec![b'1', 0, 0xff], 0, Ok(String::new())).unwrap();
    assert_eq!(text, "1");
}

#[test]
fn entry_points_by_name() {
    assert_eq!(EntryPoint::ErrorToString.symbol(), "LJM_ErrorToString");
    assert_eq!(EntryPoint::NameToAddress.symbol(), "LJM_NameToAddress");
    assert_eq!(EntryPoint::WriteName.symbol(), "LJM_eWriteName");
    assert_eq!(EntryPoint::WriteAddress.symbol(), "LJM_eWriteAddress");
    assert_eq!(EntryPoint::WriteNameByteArray.symbol(), "LJM_eWriteNameByteArray");
    assert_eq!(EntryPoint::ReadNameByteArray.symbol(), "LJM_eReadNameByteArray");
    assert_eq!(EntryPoint::ReadName.symbol(), "LJM_eReadName");
    assert_eq!(EntryPoint::ReadAddress.symbol(), "LJM_eReadAddress");
    assert_eq!(EntryPoint::Open.symbol(), "LJM_OpenS");
    assert_eq!(EntryPoint::Close.symbol(), "LJM_Close");
    assert_eq!(EntryPoint::CloseAll.symbol(), "LJM_CloseAll");
    assert_eq!(EntryPoint::NumberToIp.symbol(), "LJM_NumberToIP");
    assert_eq!(EntryPoint::GetHandleInfo.symbol(), "LJM_GetHandleInfo");
    assert_eq!(EntryPoint::StreamStart.symbol(), "LJM_eStreamStart");
    assert_eq!(EntryPoint::StreamStop.symbol(), "LJM_eStreamStop");
    assert_eq!(EntryPoint::StreamRead.symbol(), "LJM_eStreamRead");
    assert_eq!(EntryPoint::WriteLibraryConfig.symbol(), "LJM_WriteLibraryConfigS");
    assert_eq!(EntryPoint::ReadLibraryConfig.symbol(), "LJM_ReadLibraryConfigS");
}
