use pipewire_capture::error::{ExceptionClass, PortalFailure, PortalResponse};
use pipewire_capture::CaptureError;

fn failure(response: Option<PortalResponse>) -> PortalFailure {
    PortalFailure {
        response,
        message: "Portal request failed".to_string(),
    }
}

#[test]
fn test_error_display() {
    let err = CaptureError::UserCancelled;
    assert_eq!(err.to_string(), "User cancelled window selection");
}

#[test]
fn test_portal_not_available_error() {
    let err = CaptureError::PortalNotAvailable("test reason".to_string());
    assert_eq!(err.to_string(), "Portal not available: test reason");
}

#[test]
fn test_pipewire_error() {
    let err = CaptureError::PipeWire("connection failed".to_string());
    assert_eq!(err.to_string(), "PipeWire error: connection failed");
}

#[test]
fn every_other_error_has_its_message() {
    for (err, expected) in [
        (
            CaptureError::SessionFailed("no bus".to_string()),
            "Session creation failed: no bus",
        ),
        (
            CaptureError::PortalFailed {
                stage: "Start",
                source: failure(Some(PortalResponse::Other)),
            },
            "Portal Start failed: Portal request failed",
        ),
        (
            CaptureError::UnsupportedCompositor {
                backend: "qpainter".to_string(),
                source: failure(Some(PortalResponse::Other)),
            },
            "KDE screen capture requires OpenGL compositing; KWin reports 'qpainter'. \
             Update KDE and your graphics drivers, then log out and back in. \
             If the problem persists, check KWin's logs or use an X11 desktop session.\n\
             Portal Start failed: Portal request failed",
        ),
        (CaptureError::NoStream, "No stream available"),
        (
            CaptureError::DBus("refused".to_string()),
            "D-Bus error: refused",
        ),
        (CaptureError::AlreadyStarted, "Stream already started"),
        (
            CaptureError::ThreadSpawnFailed("out of threads".to_string()),
            "Failed to spawn thread: out of threads",
        ),
        (
            CaptureError::FrameSizeMismatch {
                expected: 8294400,
                actual: 0,
            },
            "Frame size mismatch: expected 8294400, got 0",
        ),
    ] {
        assert_eq!(err.to_string(), expected);
    }
}

#[test]
fn only_an_unsupported_compositor_has_an_exception_of_its_own() {
    let unsupported = CaptureError::UnsupportedCompositor {
        backend: "none".to_string(),
        source: failure(Some(PortalResponse::Other)),
    };
    let (class, message) = unsupported.exception();
    assert_eq!(class, ExceptionClass::UnsupportedCompositorError);
    assert_eq!(message, unsupported.to_string());

    let failed = CaptureError::PortalFailed {
        stage: "Start",
        source: failure(None),
    };
    let (class, message) = failed.exception();
    assert_eq!(class, ExceptionClass::RuntimeError);
    assert_eq!(message, "Portal Start failed: Portal request failed");
}

#[test]
fn portal_messages_name_step_and_cause() {
    let failed = CaptureError::PortalFailed {
        stage: "SelectSources",
        source: failure(None),
    }
    .to_string();
    assert!(failed.contains("SelectSources"));
    assert!(failed.contains("Portal request failed"));
}

#[test]
fn start_failures_are_unexplained_only_without_a_reason() {
    let error = |stage, response| CaptureError::PortalFailed {
        stage,
        source: failure(response),
    };
    assert!(error("Start", Some(PortalResponse::Other)).is_unexplained_start_failure());
    assert!(!error("SelectSources", Some(PortalResponse::Other)).is_unexplained_start_failure());
    assert!(!error("Start", Some(PortalResponse::Cancelled)).is_unexplained_start_failure());
    assert!(!error("Start", None).is_unexplained_start_failure());
    assert!(!CaptureError::NoStream.is_unexplained_start_failure());
}
