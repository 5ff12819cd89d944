use ljmrs::{LJMError, LJMLibrary, LJMSession};

fn process_image() -> libloading::Library {
    libloading::os::unix::Library::this().into()
}

#[test]
fn new_session_is_uninitialised() {
    let session = LJMSession::new();
    assert!(session.get().is_none());
    assert!(session.module().is_none());
    assert!(matches!(
        LJMLibrary::get_library(&session),
        Err(LJMError::Uninitialized)
    ));
}

#[test]
fn first_init_installs_the_state() {
    let mut session = LJMSession::new();
    assert!(LJMLibrary::init(&mut session, Ok(process_image())).is_ok());
    let state = session.get().expect("state is installed");
    assert!(state.is_initialised());
    assert!(matches!(LJMLibrary::get_library(&session), Ok(Some(_))));
    assert!(session.module().is_none());
    assert!(!LJMLibrary::is_stream_active(&session, 0));
}

#[test]
fn second_init_is_refused_and_hands_its_state_back() {
    let mut session = LJMSession::new();
    LJMLibrary::init(&mut session, Ok(process_image())).unwrap();
    let second = LJMLibrary::init(&mut session, Ok(process_image()));
    match second {
        Err(LJMError::WrapperInvalid(rejected)) => assert!(rejected.is_initialised()),
        other => panic!("{:?}", other),
    }
    assert!(session.get().is_some());
    let third = LJMLibrary::init(&mut session, Ok(process_image()));
    assert!(matches!(third, Err(LJMError::WrapperInvalid(_))));
}

#[test]
fn second_init_keeps_what_the_session_holds() {
    let mut session = LJMSession::new();
    LJMLibrary::init(&mut session, Ok(process_image())).unwrap();
    LJMLibrary::stream_start(&mut session, 3, 2, vec![0], (), 0, Ok(String::new())).unwrap();
    assert!(LJMLibrary::init(&mut session, Ok(process_image())).is_err());
    assert!(LJMLibrary::is_stream_active(&session, 3));
}

#[test]
fn failed_load_is_a_startup_error() {
    let mut session = LJMSession::new();
    let result = LJMLibrary::init(&mut session, Err(libloading::Error::DlOpenUnknown));
    assert!(matches!(
        result,
        Err(LJMError::StartupError(libloading::Error::DlOpenUnknown))
    ));
    assert!(session.get().is_none());
    assert!(LJMLibrary::init(&mut session, Ok(process_image())).is_ok());
    let again = LJMLibrary::init(&mut session, Err(libloading::Error::DlOpenUnknown));
    assert!(matches!(again, Err(LJMError::StartupError(_))));
    assert!(session.get().is_some());
}

#[test]
fn default_paths_by_platform() {
    assert_eq!(LJMLibrary::get_library_path("windows").unwrap(), "LabJackM.dll");
    assert_eq!(
        LJMLibrary::get_library_path("linux").unwrap(),
        "/usr/local/lib/libLabJackM.so"
    );
    assert_eq!(
        LJMLibrary::get_library_path("macos").unwrap(),
        "/usr/local/lib/libLabJackM.dylib"
    );
    assert!(LJMLibrary::get_library_path("freebsd").is_none());
    assert!(LJMLibrary::get_library_path("").is_none());
    assert!(LJMLibrary::get_library_path("Linux").is_none());
}

#[test]
fn explicit_path_wins() {
    assert_eq!(
        LJMLibrary::library_path(Some("/opt/ljm/lib.so".to_string()), "linux").unwrap(),
        "/opt/ljm/lib.so"
    );
    assert_eq!(
        LJMLibrary::library_path(Some("x.dll".to_string()), "plan9").unwrap(),
        "x.dll"
    );
    assert_eq!(
        LJMLibrary::library_path(None, "linux").unwrap(),
        "/usr/local/lib/libLabJackM.so"
    );
    assert!(LJMLibrary::library_path(None, "plan9").is_none());
}

#[test]
fn linked_library_needs_no_loading() {
    let mut session = LJMSession::new();
    assert!(LJMLibrary::init_static(&mut session).is_ok());
    let state = session.get().expect("state is installed");
    assert!(state.is_initialised());
    assert!(matches!(LJMLibrary::get_library(&session), Ok(None)));
    assert!(!LJMLibrary::is_stream_active(&session, 0));
    LJMLibrary::stream_start(&mut session, 3, 2, vec![0], (), 0, Ok(String::new())).unwrap();
    assert!(LJMLibrary::is_stream_active(&session, 3));
}

#[test]
fn second_init_is_refused_whatever_the_binding() {
    let mut session = LJMSession::new();
    LJMLibrary::init_static(&mut session).unwrap();
    assert!(matches!(
        LJMLibrary::init_static(&mut session),
        Err(LJMError::WrapperInvalid(_))
    ));
    match LJMLibrary::init(&mut session, Ok(process_image())) {
        Err(LJMError::WrapperInvalid(rejected)) => assert!(rejected.is_initialised()),
        other => panic!("{:?}", other),
    }
    assert!(matches!(LJMLibrary::get_library(&session), Ok(None)));

    let mut session = LJMSession::new();
    LJMLibrary::init(&mut session, Ok(process_image())).unwrap();
    assert!(matches!(
        LJMLibrary::init_static(&mut session),
        Err(LJMError::WrapperInvalid(_))
    ));
    assert!(matches!(LJMLibrary::get_library(&session), Ok(Some(_))));
}
