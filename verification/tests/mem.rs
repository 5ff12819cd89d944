use ljmrs::marshal::c_string;
use ljmrs::{LJMError, LJMErrorCode, LJMLibrary, LJMSession};

fn assert_error(error: LJMError, error_code: i32) {
    assert!(matches!(
        error,
        LJMError::ErrorCode(
           i, _j
        ) if i == LJMErrorCode::from(error_code)
    ));
}

fn process_image() -> libloading::Library {
    libloading::os::unix::Library::this().into()
}

// Stands in for the device library: no handle is open, so every register
// access is answered with status 1224 and a value left untouched.
fn device_read_name(_handle: i32, name: &[u8]) -> (i32, f64) {
    assert_eq!(name.last(), Some(&0u8));
    (1224, -1.0)
}

fn device_write_name(_handle: i32, name: &[u8], _value: f64) -> i32 {
    assert_eq!(name.last(), Some(&0u8));
    1224
}

fn device_error_text(status: i32) -> Result<String, LJMError> {
    let mut buffer = vec![0u8; ljmrs::marshal::ERROR_STRING_SIZE];
    let text = format!("LJME_{}", status);
    buffer[..text.len()].copy_from_slice(text.as_bytes());
    LJMLibrary::error_to_string(buffer)
}

fn read_name(handle: i32, name: String) -> Result<f64, LJMError> {
    let name = c_string(name.into_bytes())?;
    let (status, value) = device_read_name(handle, &name);
    let description = if LJMLibrary::is_error(status) {
        device_error_text(status)
    } else {
        Ok(String::new())
    };
    LJMLibrary::error_code(value, status, description)
}

fn write_name(handle: i32, name: String, value: u32) -> Result<(), LJMError> {
    let name = c_string(name.into_bytes())?;
    let status = device_write_name(handle, &name, f64::from(value));
    let description = if LJMLibrary::is_error(status) {
        device_error_text(status)
    } else {
        Ok(String::new())
    };
    LJMLibrary::error_code((), status, description)
}

#[test]
fn bad_open() {
    let mut session = LJMSession::new();
    if let Err(error) = LJMLibrary::init(&mut session, Ok(process_image())) {
        panic!("Unable to init LJM. Reason: {:?}", error);
    }

    // Forge a fake handle
    let handle: i32 = -1;
    let result = read_name(handle, "AIN0".to_string());

    assert!(result.is_err());

    let error: LJMError = result.err().unwrap();

    assert_error(error, 1224);
}

#[test]
fn fake_write() {
    let mut session = LJMSession::new();
    if let Err(error) = LJMLibrary::init(&mut session, Ok(process_image())) {
        panic!("Unable to init LJM. Reason: {:?}", error);
    }

    // Forge a fake handle
    let handle: i32 = -1;

    // Forge a pin num. AIN2 with a _RANGE property
    let modbus_range = format!("{}_RANGE", "AIN2");

    let result = write_name(handle, modbus_range, 0);

    assert!(result.is_err());

    let error: LJMError = result.err().unwrap();

    assert_error(error, 1224);
}

#[test]
fn use_after_write() {
    let mut session = LJMSession::new();
    if let Err(error) = LJMLibrary::init(&mut session, Ok(process_image())) {
        panic!("Unable to init LJM. Reason: {:?}", error);
    }

    // Forge a fake handle
    let handle: i32 = -1;

    // Forge a pin num. AIN2 with a _RANGE property
    let modbus_range = format!("{}_RANGE", "AIN2");

    let result = write_name(handle, modbus_range, 0);

    assert!(result.is_err());
    let error: LJMError = result.err().unwrap();
    assert_error(error, 1224);
}

// Drops everything that went to the device in an inner scope, so that
// anything freed twice would show.
#[test]
fn uaw2() {
    let mut session = LJMSession::new();
    if let Err(error) = LJMLibrary::init(&mut session, Ok(process_image())) {
        panic!("Unable to init LJM. Reason: {:?}", error);
    }

    // Forge a fake handle
    let handle: i32 = -1;

    // Block scope to auto-drop this block.
    {
        let handle_ref = &handle;

        // Forge a pin num. AIN2 with a _RANGE property
        let pin = "AIN2".to_string();
        let modbus_range = format!("{}_RANGE", pin);
        let range = 0;

        if let Err(error) = write_name(handle_ref.clone(), modbus_range.clone(), range) {
            println!(
                "Unable to write modbus range {} for {}, on {}. Reason: {:?}",
                range, modbus_range, handle_ref, error
            );

            assert_error(error, 1224);
        }
    }

    assert!(true);
}
