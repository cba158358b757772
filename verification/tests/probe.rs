use pipewire_capture::error::PortalFailure;
use pipewire_capture::portal::{CursorMode, PortalReply, PortalStream};
use pipewire_capture::probe::{count_frame, open_portal, probe_source_request, ProbeFlow};

type Flow = ProbeFlow<i32>;

fn failed() -> PortalReply<i32> {
    PortalReply::Failed(PortalFailure {
        response: None,
        message: "denied".to_string(),
    })
}

#[test]
fn a_probe_opens_the_portal() {
    let mut flow: Flow = ProbeFlow::CreateProxy;
    for _ in 0..3 {
        flow = open_portal(flow, PortalReply::Done);
    }
    flow = open_portal(
        flow,
        PortalReply::Streams(vec![PortalStream {
            node_id: 84,
            size: None,
        }]),
    );
    flow = open_portal(flow, PortalReply::Remote(11));
    assert!(matches!(
        flow,
        ProbeFlow::Opened {
            fd: 11,
            node_id: 84,
            width: 0,
            height: 0
        }
    ));
    assert!(matches!(
        open_portal(flow, failed()),
        ProbeFlow::Opened { .. }
    ));
}

#[test]
fn a_failed_probe_says_why() {
    let flows: Vec<Flow> = vec![
        ProbeFlow::CreateProxy,
        ProbeFlow::CreateSession,
        ProbeFlow::SelectSources,
        ProbeFlow::StartPicker,
        ProbeFlow::OpenRemote {
            node_id: 1,
            width: 1,
            height: 1,
        },
    ];
    for flow in flows {
        match open_portal(flow, failed()) {
            ProbeFlow::Failed { message } => assert_eq!(message, "denied"),
            _ => panic!("the probe has not failed"),
        }
    }
    match open_portal::<i32>(ProbeFlow::StartPicker, PortalReply::Streams(Vec::new())) {
        ProbeFlow::Failed { message } => assert_eq!(message, "No stream selected"),
        _ => panic!("the probe has not failed"),
    }
}

#[test]
fn a_probe_hides_the_pointer_and_announces_the_first_frames() {
    assert_eq!(probe_source_request().cursor_mode, CursorMode::Hidden);
    assert_eq!(count_frame(0, 1, true), (1, true));
    assert_eq!(count_frame(4, 2, true), (5, true));
    assert_eq!(count_frame(5, 1, true), (6, false));
    assert_eq!(count_frame(3, 0, true), (3, false));
    assert_eq!(count_frame(3, 1, false), (3, false));
    assert_eq!(count_frame(u32::MAX, 0, true), (u32::MAX, false));
}
