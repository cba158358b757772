use pipewire_capture::error::{CaptureError, PortalFailure, PortalResponse};
use pipewire_capture::portal::{
    check_screencast_portal, diagnose_portal_error, portal_error, run_portal_flow, source_request,
    Availability, CursorMode, Descriptor, PersistMode, PortalFlow, PortalReply, PortalResult,
    PortalStream, SourceType,
};
use pipewire_capture::{log_filter, PortalCapture, PortalSession};

type Session = PortalSession<&'static str, &'static str, &'static str>;
type Flow = PortalFlow<i32>;

fn failure(response: Option<PortalResponse>) -> PortalFailure {
    PortalFailure {
        response,
        message: "denied".to_string(),
    }
}

fn result() -> PortalResult<&'static str, &'static str, &'static str> {
    PortalResult {
        fd: Descriptor {
            raw: 11,
            owner: "owner",
        },
        node_id: 84,
        width: 2560,
        height: -1,
        close_tx: "close",
        done_rx: "done",
    }
}

fn session() -> Session {
    PortalCapture::new()
        .select_window(Ok(result()))
        .ok()
        .unwrap()
        .unwrap()
}

fn fail(flow: Flow, response: Option<PortalResponse>) -> Flow {
    run_portal_flow(flow, PortalReply::Failed(failure(response)))
}

fn error_of(flow: Flow) -> CaptureError {
    match flow {
        PortalFlow::Failed { error } => error,
        _ => panic!("the flow has not failed"),
    }
}

/// The flows that hold a session, with the step that their failures name.
fn with_session() -> Vec<(Flow, &'static str)> {
    vec![
        (PortalFlow::SelectSources, "SelectSources"),
        (PortalFlow::ReadSelection, "SelectSources"),
        (PortalFlow::StartPicker, "Start"),
        (PortalFlow::ReadStreams, "Start"),
        (
            PortalFlow::OpenRemote {
                node_id: 84,
                width: 1,
                height: 1,
            },
            "OpenPipeWireRemote",
        ),
    ]
}

#[test]
fn a_session_describes_itself() {
    let mut session = session();
    assert_eq!(session.fd(), 11);
    assert!(session.is_open());
    assert_eq!((session.node_id, session.width, session.height), (84, 2560, -1));
    assert_eq!(
        session.__repr__(),
        "PortalSession(fd=11, node_id=84, size=2560x-1, open=true)"
    );
    session.close();
    assert_eq!(
        session.__repr__(),
        "PortalSession(fd=-1, node_id=84, size=2560x-1, open=false)"
    );
}

#[test]
fn closing_twice_is_closing_once() {
    let mut session = session();
    let request = session.close().unwrap();
    assert_eq!(request.close_tx, "close");
    assert_eq!(request.done_rx, Some("done"));
    assert_eq!(session.fd(), -1);
    assert!(!session.is_open());
    assert!(session.close().is_none());
    assert_eq!(session.fd(), -1);
    assert!(session.abandon().is_none());
}

#[test]
fn an_abandoned_session_signals_once() {
    let mut session = session();
    assert_eq!(session.abandon(), Some("close"));
    assert_eq!(session.abandon(), None);
    assert!(!session.is_open());
}

#[test]
fn cancellation_is_no_error_for_the_caller() {
    let capture = PortalCapture::default();
    let cancelled: Result<Option<Session>, CaptureError> =
        capture.select_window(Err(CaptureError::UserCancelled));
    assert!(matches!(cancelled, Ok(None)));
    let failed: Result<Option<Session>, CaptureError> =
        capture.select_window(Err(CaptureError::NoStream));
    assert!(matches!(failed, Err(CaptureError::NoStream)));
}

#[test]
fn a_portal_error_tells_cancellation_apart() {
    assert!(matches!(
        portal_error("Start", failure(Some(PortalResponse::Cancelled))),
        CaptureError::UserCancelled
    ));
    for response in [None, Some(PortalResponse::Other)] {
        assert_eq!(
            portal_error("CreateSession", failure(response)).to_string(),
            "Portal CreateSession failed: denied"
        );
    }
}

#[test]
fn a_compositor_is_blamed_only_when_it_confirms() {
    let unexplained = || portal_error("Start", failure(Some(PortalResponse::Other)));
    for backend in ["qpainter", "none"] {
        match diagnose_portal_error(unexplained(), Some(backend.to_string())) {
            CaptureError::UnsupportedCompositor {
                backend: named,
                source,
            } => {
                assert_eq!(named, backend);
                assert_eq!(source.message, "denied");
            }
            _ => panic!("the compositor was not blamed"),
        }
    }
    for backend in [None, Some("gl2".to_string()), Some(String::new())] {
        assert!(matches!(
            diagnose_portal_error(unexplained(), backend),
            CaptureError::PortalFailed { stage: "Start", .. }
        ));
    }
    let other_step = portal_error("SelectSources", failure(Some(PortalResponse::Other)));
    assert!(matches!(
        diagnose_portal_error(other_step, Some("none".to_string())),
        CaptureError::PortalFailed { .. }
    ));
    assert!(matches!(
        diagnose_portal_error(CaptureError::UserCancelled, Some("none".to_string())),
        CaptureError::UserCancelled
    ));
}

#[test]
fn a_flow_selects_a_window() {
    let mut flow: Flow = PortalFlow::CreateProxy;
    for _ in 0..5 {
        flow = run_portal_flow(flow, PortalReply::Done);
    }
    assert!(matches!(flow, PortalFlow::ReadStreams));
    flow = run_portal_flow(
        flow,
        PortalReply::Streams(vec![
            PortalStream {
                node_id: 84,
                size: Some((2560, 1440)),
            },
            PortalStream {
                node_id: 85,
                size: None,
            },
        ]),
    );
    assert!(matches!(flow, PortalFlow::OpenRemote { node_id: 84, .. }));
    flow = run_portal_flow(flow, PortalReply::Remote(11));
    assert!(matches!(
        flow,
        PortalFlow::Selected {
            fd: 11,
            node_id: 84,
            width: 2560,
            height: 1440
        }
    ));
}

#[test]
fn a_stream_without_size_is_zero_by_zero() {
    let flow: Flow = run_portal_flow(
        PortalFlow::ReadStreams,
        PortalReply::Streams(vec![PortalStream {
            node_id: 5,
            size: None,
        }]),
    );
    assert!(matches!(
        flow,
        PortalFlow::OpenRemote {
            node_id: 5,
            width: 0,
            height: 0
        }
    ));
}

#[test]
fn no_stream_closes_the_session() {
    let flow: Flow = run_portal_flow(PortalFlow::ReadStreams, PortalReply::Streams(Vec::new()));
    assert!(matches!(flow, PortalFlow::CloseSession { .. }));
    let flow = run_portal_flow(flow, PortalReply::Done);
    assert!(matches!(error_of(flow), CaptureError::NoStream));
}

#[test]
fn failures_before_a_session_have_nothing_to_close() {
    assert_eq!(
        error_of(fail(
            PortalFlow::CreateProxy,
            Some(PortalResponse::Cancelled)
        ))
        .to_string(),
        "Portal not available: denied"
    );
    assert_eq!(
        error_of(fail(PortalFlow::CreateSession, None)).to_string(),
        "Portal CreateSession failed: denied"
    );
    assert!(matches!(
        error_of(fail(
            PortalFlow::CreateSession,
            Some(PortalResponse::Cancelled)
        )),
        CaptureError::UserCancelled
    ));
}

#[test]
fn every_failure_with_a_session_closes_it() {
    for (flow, step) in with_session() {
        let flow = fail(flow, None);
        assert!(matches!(flow, PortalFlow::CloseSession { .. }));
        let error = error_of(run_portal_flow(flow, PortalReply::Done));
        assert_eq!(error.to_string(), format!("Portal {step} failed: denied"));
    }
    for (flow, _) in with_session() {
        let flow = fail(flow, Some(PortalResponse::Cancelled));
        assert!(matches!(flow, PortalFlow::CloseSession { .. }));
        let error = error_of(fail(flow, None));
        assert!(matches!(error, CaptureError::UserCancelled));
    }
}

#[test]
fn only_an_unexplained_start_asks_the_compositor() {
    for (flow, step) in with_session() {
        let closed = run_portal_flow(fail(flow, Some(PortalResponse::Other)), PortalReply::Done);
        assert_eq!(
            matches!(closed, PortalFlow::QueryCompositor { .. }),
            step == "Start"
        );
    }
    let ask = || {
        run_portal_flow(
            fail(PortalFlow::StartPicker, Some(PortalResponse::Other)),
            PortalReply::Done,
        )
    };
    let confirmed = run_portal_flow(ask(), PortalReply::Compositor(Some("none".to_string())));
    assert!(matches!(
        error_of(confirmed),
        CaptureError::UnsupportedCompositor { .. }
    ));
    let silent = run_portal_flow(ask(), PortalReply::Compositor(None));
    assert!(matches!(
        error_of(silent),
        CaptureError::PortalFailed { .. }
    ));
}

#[test]
fn a_reply_to_another_call_changes_nothing() {
    let flow: Flow = run_portal_flow(PortalFlow::CreateProxy, PortalReply::Remote(3));
    assert!(matches!(flow, PortalFlow::CreateProxy));
    let flow: Flow = run_portal_flow(PortalFlow::ReadStreams, PortalReply::Done);
    assert!(matches!(flow, PortalFlow::ReadStreams));
}

#[test]
fn a_window_is_asked_for_with_its_pointer() {
    let request = source_request();
    assert_eq!(request.cursor_mode, CursorMode::Embedded);
    assert_eq!(request.source_type, SourceType::Window);
    assert!(!request.multiple);
    assert_eq!(request.persist_mode, PersistMode::DoNot);
}

#[test]
fn the_portal_is_available_where_it_lists_the_interface() {
    assert!(!check_screencast_portal(None));
    assert!(!check_screencast_portal(Some("<node/>")));
    assert!(check_screencast_portal(Some(
        "<node><interface name=\"org.freedesktop.portal.ScreenCast\"/></node>"
    )));
}

#[test]
fn test_is_available_does_not_panic() {
    let _result = Availability::new().is_available(None);
}

#[test]
fn availability_is_found_out_once() {
    let listed = Some("org.freedesktop.portal.ScreenCast");
    let mut yes = Availability::new();
    assert!(yes.is_available(listed));
    assert!(yes.is_available(None));
    assert_eq!(yes.known, Some(true));
    let mut no = Availability::new();
    assert!(!no.is_available(None));
    assert!(!no.is_available(listed));
}

#[test]
fn a_log_filter_is_for_this_crate() {
    assert_eq!(log_filter("debug"), "pipewire_capture=debug");
}
