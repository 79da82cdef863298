use vmnl::error::VMNLErrorKind;
use vmnl::input::{
    backend_name, begin_mapping_update, callback_message, ensure_options, finish_mapping_update,
    map_error, validate_mapping_text, Connections, GlfwError, JoystickId, JoystickOptions,
    MappingErrorCapture, Platform,
};

fn invalid_message<T>(result: vmnl::error::VMNLResult<T>) -> String {
    match result {
        Err(err) => match err.kind() {
            VMNLErrorKind::InvalidState(message) => message.clone(),
            other => panic!("unexpected error kind {other:?}"),
        },
        Ok(_) => panic!("expected an error"),
    }
}

/// Runs one mapping update the way the backend does: check and begin, let
/// `apply` stand for GLFW (it may report an error into the capture), finish.
fn apply_mappings(
    text: &str,
    capture: &mut MappingErrorCapture,
    apply: impl FnOnce(&str, &mut MappingErrorCapture) -> bool,
) -> vmnl::error::VMNLResult<()> {
    begin_mapping_update(text, capture)?;
    let accepted = apply(text, capture);
    finish_mapping_update(capture, accepted)
}

#[test]
fn callbacks_preserve_intermediate_transitions_for_each_window() {
    let mut connections = Connections::new();
    let first = connections.subscribe().unwrap();
    let second = connections.subscribe().unwrap();
    let expected = vec![
        (JoystickId::Slot16, true),
        (JoystickId::Slot16, false),
        (JoystickId::Slot16, true),
        (JoystickId::Slot1, true),
    ];
    for &(id, connected) in &expected {
        connections.publish((id, connected));
    }
    assert_eq!(connections.events(first), expected);
    connections.clear(first);
    assert_eq!(connections.events(second), expected);
    connections.unsubscribe(first);
    connections.publish((JoystickId::Slot1, false));
    assert_eq!(connections.subscriber_count(), 1);
}

#[test]
fn conflicting_initialization_options_are_rejected() {
    let defaults = JoystickOptions::default();
    assert!(ensure_options(defaults, defaults).is_ok());
    assert!(ensure_options(defaults, JoystickOptions { hat_buttons: false }).is_err());
}

#[test]
fn conflicting_options_report_the_session_message() {
    assert_eq!(
        invalid_message(ensure_options(
            JoystickOptions { hat_buttons: false },
            JoystickOptions::default()
        )),
        "joystick initialization options differ from the active GLFW session"
    );
}

#[test]
fn released_queue_keeps_no_events_and_others_keep_order() {
    let mut connections = Connections::new();
    let first = connections.subscribe().unwrap();
    let second = connections.subscribe().unwrap();
    connections.unsubscribe(second);
    connections.publish((JoystickId::Slot3, true));
    assert_eq!(connections.events(first), vec![(JoystickId::Slot3, true)]);
    assert!(connections.events(second).is_empty());
    assert_eq!(connections.subscriber_count(), 1);
    let third = connections.subscribe().unwrap();
    connections.publish((JoystickId::Slot4, false));
    assert_eq!(
        connections.events(first),
        vec![(JoystickId::Slot3, true), (JoystickId::Slot4, false)]
    );
    assert_eq!(connections.events(third), vec![(JoystickId::Slot4, false)]);
}

#[test]
fn joystick_slots_follow_glfw_indices() {
    assert_eq!(JoystickId::from_index(0), JoystickId::Slot1);
    assert_eq!(JoystickId::from_index(15), JoystickId::Slot16);
}

#[test]
fn maps_glfw_errors_to_vmnl_categories() {
    let cases = [
        (GlfwError::ApiUnavailable, VMNLErrorKind::GlfwUnsupportedPlatform),
        (GlfwError::CursorUnavailable, VMNLErrorKind::GlfwUnsupportedPlatform),
        (GlfwError::FeatureUnavailable, VMNLErrorKind::GlfwUnsupportedPlatform),
        (GlfwError::FeatureUnimplemented, VMNLErrorKind::GlfwUnsupportedPlatform),
        (GlfwError::PlatformUnavailable, VMNLErrorKind::GlfwUnsupportedPlatform),
        (GlfwError::VersionUnavailable, VMNLErrorKind::GlfwVersionMismatch),
        (GlfwError::PlatformError, VMNLErrorKind::GlfwPlatformError),
        (GlfwError::NotInitialized, VMNLErrorKind::GlfwInitFailed),
        (GlfwError::NoWindowContext, VMNLErrorKind::GlfwContextCreationFailed),
        (GlfwError::NoCurrentContext, VMNLErrorKind::GlfwContextCreationFailed),
        (GlfwError::NoError, VMNLErrorKind::GlfwUnknownError),
        (GlfwError::InvalidEnum, VMNLErrorKind::GlfwUnknownError),
        (GlfwError::InvalidValue, VMNLErrorKind::GlfwUnknownError),
        (GlfwError::OutOfMemory, VMNLErrorKind::GlfwUnknownError),
        (GlfwError::FormatUnavailable, VMNLErrorKind::GlfwUnknownError),
        (GlfwError::Unknown(-42), VMNLErrorKind::GlfwUnknownError),
    ];

    for (source, expected) in cases {
        assert_eq!(
            std::mem::discriminant(&map_error(source)),
            std::mem::discriminant(&expected)
        );
    }
}

#[test]
fn unknown_error_message_preserves_raw_code() {
    assert_eq!(
        callback_message(GlfwError::Unknown(-42), "details".to_owned()),
        "GLFW unknown error -42: details"
    );
}

#[test]
fn known_error_message_is_the_description() {
    assert_eq!(
        callback_message(GlfwError::InvalidValue, "details".to_owned()),
        "details"
    );
}

#[test]
fn mapping_capture_records_only_while_active() {
    let mut capture = MappingErrorCapture::new();

    // Recording is initially disabled.
    capture.record(0x0001_0004, "old error".to_owned());
    assert!(capture.error.is_none());

    capture.begin();
    capture.record(0x0001_0004, "broken mapping".to_owned());

    let error = capture.finish();

    assert_eq!(error, Some((0x0001_0004, "broken mapping".to_owned())));
    assert!(!capture.active);
    assert!(capture.error.is_none());

    // A new operation must not inherit the previous error.
    capture.begin();
    assert!(capture.finish().is_none());
}

#[test]
fn mapping_capture_keeps_the_first_error() {
    let mut capture = MappingErrorCapture::new();
    capture.begin();
    capture.record(1, "first".to_owned());
    capture.record(2, "second".to_owned());
    assert_eq!(capture.finish(), Some((1, "first".to_owned())));
}

#[test]
fn mapping_capture_ignores_old_errors_and_rejects_nested_updates() {
    let mut capture = MappingErrorCapture::new();
    capture.record(0x0001_0004, "old error".to_owned());
    let result = apply_mappings("valid", &mut capture, |_, capture| {
        let mut called = false;
        let nested = apply_mappings("nested", capture, |_, _| {
            called = true;
            true
        });
        assert!(nested.is_err());
        assert!(!called);
        assert!(capture.active);
        true
    });
    assert!(result.is_ok());
    assert!(!capture.active);
}

#[test]
fn mapping_callback_error_overrides_true() {
    let mut capture = MappingErrorCapture::new();
    let result = apply_mappings("0, broken, leftx:a0,", &mut capture, |_, capture| {
        capture.record(0x0001_0004, "Invalid value for parameter".to_owned());
        true
    });
    assert_eq!(
        invalid_message(result),
        "GLFW rejected gamepad mappings (65540): Invalid value for parameter"
    );
    assert!(!capture.active);
    assert!(apply_mappings("valid", &mut capture, |_, _| true).is_ok());
}

#[test]
fn runtime_mapping_validation_precedes_backend_and_reports_rejection() {
    for invalid in ["bad\0mapping", "non-ASCII: é"] {
        let mut called = false;
        let mut capture = MappingErrorCapture::new();
        assert!(apply_mappings(invalid, &mut capture, |_, _| {
            called = true;
            true
        })
        .is_err());
        assert!(!called);
    }
    let mut capture = MappingErrorCapture::new();
    assert!(apply_mappings("mapping", &mut capture, |text, _| text == "mapping").is_ok());
    assert_eq!(
        invalid_message(apply_mappings("mapping", &mut capture, |_, _| false)),
        "GLFW rejected gamepad mappings"
    );
}

#[test]
fn invalid_mapping_text_reports_the_rule() {
    assert_eq!(
        invalid_message(validate_mapping_text("bad\0mapping")),
        "gamepad mappings must contain ASCII text without NUL bytes"
    );
    assert!(validate_mapping_text("030000005e0400008e02000045050000,Xbox").is_ok());
}

#[test]
fn nested_update_reports_the_rule() {
    let mut capture = MappingErrorCapture::new();
    capture.begin();
    assert_eq!(
        invalid_message(begin_mapping_update("valid", &mut capture)),
        "gamepad mapping updates cannot be nested inside an error callback"
    );
    assert!(capture.active);
}

#[test]
fn backend_names_match_glfw_platforms() {
    assert_eq!(backend_name(Platform::Any), "any");
    assert_eq!(backend_name(Platform::Null), "null");
    assert_eq!(backend_name(Platform::Wayland), "wayland");
    assert_eq!(backend_name(Platform::X11), "x11");
    assert_eq!(backend_name(Platform::Win32), "win32");
    assert_eq!(backend_name(Platform::MacOS), "cocoa");
}
