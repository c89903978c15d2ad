use rust_notify::lifecycle::WatcherLifecycle;
use rust_notify::selector::error_class;
use rust_notify::selector::falls_back_to_polling;
use rust_notify::selector::initial_backend;
use rust_notify::selector::polling_precheck;
use rust_notify::selector::registration_failure_action;
use rust_notify::selector::BackendChoice;
use rust_notify::selector::ErrorClass;
use rust_notify::selector::IoErrorKind;
use rust_notify::selector::RegistrationAction;
use rust_notify::selector::WatchErrorKind;

#[test]
fn backend_defaults_to_event_driven() {
    assert_eq!(initial_backend(false), BackendChoice::EventDriven);
    assert_eq!(initial_backend(true), BackendChoice::Polling);
}

#[test]
fn only_the_unimplemented_io_error_falls_back() {
    let unimplemented =
        WatchErrorKind::Io { kind: IoErrorKind::OtherIo, raw_code: Some(38) };
    assert!(falls_back_to_polling(&unimplemented));
    let other_code = WatchErrorKind::Io { kind: IoErrorKind::OtherIo, raw_code: Some(13) };
    assert!(!falls_back_to_polling(&other_code));
    let no_code = WatchErrorKind::Io { kind: IoErrorKind::OtherIo, raw_code: None };
    assert!(!falls_back_to_polling(&no_code));
    assert!(!falls_back_to_polling(&WatchErrorKind::PathNotFound));
    assert!(!falls_back_to_polling(&WatchErrorKind::Other));
}

#[test]
fn error_classification_covers_the_taxonomy() {
    assert_eq!(error_class(&WatchErrorKind::PathNotFound), ErrorClass::NotFound);
    assert_eq!(
        error_class(&WatchErrorKind::Io { kind: IoErrorKind::NotFound, raw_code: Some(2) }),
        ErrorClass::NotFound
    );
    assert_eq!(
        error_class(&WatchErrorKind::Io {
            kind: IoErrorKind::PermissionDenied,
            raw_code: Some(13),
        }),
        ErrorClass::PermissionDenied
    );
    assert_eq!(
        error_class(&WatchErrorKind::Io { kind: IoErrorKind::OtherIo, raw_code: None }),
        ErrorClass::Os
    );
    assert_eq!(error_class(&WatchErrorKind::Other), ErrorClass::Os);
}

#[test]
fn generic_missing_path_message_counts_as_not_found() {
    let missing = WatchErrorKind::Generic(
        "Input watch path is neither a file nor a directory.".to_string(),
    );
    assert_eq!(error_class(&missing), ErrorClass::NotFound);
    let other = WatchErrorKind::Generic("some other failure".to_string());
    assert_eq!(error_class(&other), ErrorClass::Os);
}

#[test]
fn polling_requires_existing_paths() {
    assert_eq!(polling_precheck(true), Ok(()));
    assert_eq!(polling_precheck(false), Err(ErrorClass::NotFound));
}

#[test]
fn registration_failures_abort_unless_ignored() {
    let denied = WatchErrorKind::Io { kind: IoErrorKind::PermissionDenied, raw_code: Some(13) };
    assert_eq!(
        registration_failure_action(&denied, false),
        RegistrationAction::Abort(ErrorClass::PermissionDenied)
    );
    assert_eq!(registration_failure_action(&denied, true), RegistrationAction::Skip);
    let missing = WatchErrorKind::PathNotFound;
    assert_eq!(
        registration_failure_action(&missing, false),
        RegistrationAction::Abort(ErrorClass::NotFound)
    );
}

#[test]
fn lifecycle_close_is_terminal() {
    let mut w = WatcherLifecycle::new();
    assert!(w.check_active());
    w.close();
    assert!(!w.check_active());
    w.close();
    assert!(!w.check_active());
}
