use pipewire_capture::error::CaptureError;
use pipewire_capture::frame::{copy_frame, FrameFormat};
use pipewire_capture::seconds::Seconds;
use pipewire_capture::shared::{
    finish_process, on_core_error, on_format_parsed, on_param_changed, on_process,
    on_state_changed, on_timer, BufferInfo, LoopControl, ProcessStep, SharedState, StreamState,
};
use pipewire_capture::spa;
use pipewire_capture::spa::Chunk;
use pipewire_capture::stream::{duplicate_fd, NewStreamError};
use pipewire_capture::thread::{pipewire_thread, ThreadStep};
use pipewire_capture::CaptureStream;
use std::time::Instant;

type TestStream = CaptureStream<i32, &'static str, &'static str>;

fn seconds(value: f64) -> Seconds {
    Seconds {
        bits: value.to_bits(),
    }
}

fn bgra(width: u32, height: u32) -> FrameFormat {
    FrameFormat {
        width,
        height,
        pixel_format: spa::SPA_VIDEO_FORMAT_BGRA,
    }
}

fn mapped(data_type: u32) -> BufferInfo {
    BufferInfo {
        data_type,
        has_data: true,
        has_chunk: true,
        maxsize: 8,
    }
}

fn new_stream(interval: f64) -> Result<TestStream, NewStreamError<&'static str>> {
    CaptureStream::new(Ok(7), 42, 1, 1, seconds(interval))
}

fn running_stream() -> TestStream {
    let mut stream = new_stream(0.25).ok().unwrap();
    assert!(stream.start().is_ok());
    assert!(stream.thread_spawned(Ok(("thread", "commands"))).is_ok());
    stream
}

#[test]
fn renegotiation_discards_previous_frame_and_throttle() {
    let mut state = SharedState {
        frame_buffer: Some(vec![0; 8]),
        format: Some(FrameFormat {
            width: 2,
            height: 1,
            pixel_format: spa::SPA_VIDEO_FORMAT_BGRA,
        }),
        last_capture_time: Some(Instant::now()),
        ..SharedState::default()
    };
    state.set_format(Some(FrameFormat {
        width: 1,
        height: 1,
        pixel_format: spa::SPA_VIDEO_FORMAT_RGBA,
    }));
    assert!(state.frame_buffer.is_none());
    assert!(state.last_capture_time.is_none());
    assert_eq!(state.format.unwrap().width, 1);
}

#[test]
fn capture_failure_ends_stream_without_leaving_a_stale_frame() {
    let mut state = SharedState {
        frame_buffer: Some(vec![0; 4]),
        ..SharedState::default()
    };
    state.fail("Connection refused".into());
    assert!(state.stream_ended);
    assert!(state.frame_buffer.is_none());
    assert_eq!(state.error.as_deref(), Some("Connection refused"));
}

#[test]
fn a_descriptor_is_not_negative() {
    assert_eq!(duplicate_fd(0), Some(0));
    assert_eq!(duplicate_fd(11), Some(11));
    assert_eq!(duplicate_fd(-1), None);
}

#[test]
fn an_interval_is_finite_and_not_negative() {
    for interval in [0.0, 0.25, 60.0] {
        assert!(new_stream(interval).is_ok());
    }
    for interval in [f64::NAN, f64::INFINITY, -0.25] {
        match new_stream(interval) {
            Err(NewStreamError::Value(message)) => {
                assert_eq!(message, "capture_interval must be finite and non-negative")
            }
            _ => panic!("the interval was accepted"),
        }
    }
}

#[test]
fn a_bad_interval_is_reported_before_a_bad_descriptor() {
    let both: Result<TestStream, NewStreamError<&'static str>> =
        CaptureStream::new(Err("EBADF"), 42, 1, 1, seconds(-1.0));
    assert!(matches!(both, Err(NewStreamError::Value(_))));
    let descriptor: Result<TestStream, NewStreamError<&'static str>> =
        CaptureStream::new(Err("EBADF"), 42, 1, 1, seconds(1.0));
    assert!(matches!(
        descriptor,
        Err(NewStreamError::Descriptor("EBADF"))
    ));
}

#[test]
fn a_started_stream_cannot_be_started_again() {
    let mut stream = new_stream(0.25).ok().unwrap();
    let request = stream.start().ok().unwrap();
    assert_eq!(request.fd, 7);
    assert_eq!(request.node_id, 42);
    assert_eq!(request.capture_interval.bits, 0.25f64.to_bits());
    assert!(stream.thread_spawned(Ok(("thread", "commands"))).is_ok());
    assert!(matches!(stream.start(), Err(CaptureError::AlreadyStarted)));
}

#[test]
fn a_stopped_stream_cannot_be_restarted() {
    let mut stream = running_stream();
    let request = stream.stop().unwrap();
    assert_eq!(request.command_tx, Some("commands"));
    assert_eq!(request.thread_handle, Some("thread"));
    assert!(stream.stop().is_none());
    assert_eq!(
        stream.start().err().unwrap().to_string(),
        "PipeWire error: File descriptor already consumed"
    );
}

#[test]
fn stopping_releases_a_stream_that_was_never_started() {
    let mut stream = new_stream(0.25).ok().unwrap();
    assert!(stream.stop().is_none());
    assert!(matches!(stream.start(), Err(CaptureError::PipeWire(_))));
}

#[test]
fn a_thread_that_does_not_start_leaves_the_stream_without_descriptor() {
    let mut stream = new_stream(0.25).ok().unwrap();
    assert!(stream.start().is_ok());
    assert_eq!(
        stream
            .thread_spawned(Err("Resource temporarily unavailable".to_string()))
            .err()
            .unwrap()
            .to_string(),
        "Failed to spawn thread: Resource temporarily unavailable"
    );
    assert!(matches!(stream.start(), Err(CaptureError::PipeWire(_))));
    assert!(stream.stop().is_none());
}

#[test]
fn frames_come_with_their_negotiated_shape() {
    let stream = running_stream();
    let mut state = SharedState {
        frame_buffer: Some(vec![1, 2, 3, 4, 5, 6, 7, 8]),
        format: Some(bgra(1, 2)),
        ..SharedState::default()
    };
    let frame = stream.get_frame(&state).ok().unwrap().unwrap();
    assert_eq!(frame.data, vec![1, 2, 3, 4, 5, 6, 7, 8]);
    assert_eq!((frame.height, frame.width, frame.channels), (2, 1, 4));

    state.format = Some(bgra(1, 1));
    assert!(matches!(
        stream.get_frame(&state),
        Err(CaptureError::FrameSizeMismatch {
            expected: 4,
            actual: 8
        })
    ));
    state.format = Some(bgra(u32::MAX, u32::MAX));
    assert_eq!(
        stream.get_frame(&state).err().unwrap().to_string(),
        "PipeWire error: Video frame size overflow"
    );
    state.format = None;
    assert!(stream.get_frame(&state).ok().unwrap().is_none());
}

#[test]
fn a_stream_that_does_not_run_has_no_frame() {
    let stream = new_stream(0.25).ok().unwrap();
    let state = SharedState {
        frame_buffer: Some(vec![0; 4]),
        format: Some(bgra(1, 1)),
        ..SharedState::default()
    };
    assert!(stream.get_frame(&state).ok().unwrap().is_none());
}

#[test]
fn a_captured_frame_is_read_back() {
    let stream = running_stream();
    let mut state = SharedState::default();
    assert!(on_param_changed(&mut state, spa::SPA_PARAM_FORMAT, true));
    on_format_parsed(&mut state, 0, bgra(1, 2));
    let step = on_process(
        &mut state,
        seconds(0.25),
        seconds(0.0),
        Some(mapped(spa::SPA_DATA_MEM_FD)),
    );
    let format = match step {
        ProcessStep::Copy(format) => format,
        _ => panic!("the buffer was not taken"),
    };
    let chunk = Chunk {
        offset: 0,
        size: 8,
        stride: 0,
        flags: 0,
    };
    let copied = copy_frame(&[1, 2, 3, 4, 5, 6, 7, 8], &chunk, format);
    assert_eq!(finish_process(&mut state, copied, Instant::now()), None);
    let frame = stream.get_frame(&state).ok().unwrap().unwrap();
    assert_eq!(frame.data, vec![1, 2, 3, 4, 5, 6, 7, 8]);

    // The next buffer comes too early, and the one after that does not.
    let early = on_process(
        &mut state,
        seconds(0.25),
        seconds(0.2),
        Some(mapped(spa::SPA_DATA_MEM_PTR)),
    );
    assert!(matches!(early, ProcessStep::Skip));
    let due = on_process(
        &mut state,
        seconds(0.25),
        seconds(0.25),
        Some(mapped(spa::SPA_DATA_MEM_PTR)),
    );
    assert!(matches!(due, ProcessStep::Copy(_)));
}

#[test]
fn a_dropped_frame_is_told_of_and_leaves_the_state() {
    let mut state = SharedState {
        frame_buffer: Some(vec![1; 4]),
        ..SharedState::default()
    };
    assert_eq!(
        finish_process(
            &mut state,
            Err("Video stride is shorter than a row"),
            Instant::now()
        ),
        Some("Video stride is shorter than a row")
    );
    assert_eq!(finish_process(&mut state, Ok(None), Instant::now()), None);
    assert_eq!(state.frame_buffer, Some(vec![1; 4]));
    assert!(state.last_capture_time.is_none());
}

#[test]
fn a_zero_interval_disables_throttling() {
    let mut state = SharedState {
        format: Some(bgra(1, 2)),
        last_capture_time: Some(Instant::now()),
        ..SharedState::default()
    };
    let step = on_process(
        &mut state,
        seconds(0.0),
        seconds(0.0),
        Some(mapped(spa::SPA_DATA_MEM_PTR)),
    );
    assert!(matches!(step, ProcessStep::Copy(_)));
}

#[test]
fn dma_buffers_end_capture_with_an_error() {
    let mut state = SharedState {
        format: Some(bgra(1, 2)),
        ..SharedState::default()
    };
    let step = on_process(
        &mut state,
        seconds(0.0),
        seconds(0.0),
        Some(mapped(spa::SPA_DATA_DMA_BUF)),
    );
    assert!(matches!(step, ProcessStep::Unsupported));
    assert!(state.stream_ended);
    assert_eq!(
        state.error.as_deref(),
        Some("Unsupported PipeWire buffer type 3: CPU-mapped MemPtr or MemFd is required")
    );
}

#[test]
fn buffers_that_cannot_be_read_are_skipped() {
    let usable = mapped(spa::SPA_DATA_MEM_PTR);
    for buffer in [
        None,
        Some(BufferInfo {
            has_data: false,
            ..usable
        }),
        Some(BufferInfo {
            has_chunk: false,
            ..usable
        }),
        Some(BufferInfo {
            maxsize: 0,
            ..usable
        }),
    ] {
        let mut state = SharedState {
            format: Some(bgra(1, 2)),
            ..SharedState::default()
        };
        let step = on_process(&mut state, seconds(0.0), seconds(0.0), buffer);
        assert!(matches!(step, ProcessStep::Skip));
        assert!(!state.stream_ended);
    }
    let mut unnegotiated = SharedState::default();
    let step = on_process(&mut unnegotiated, seconds(0.0), seconds(0.0), Some(usable));
    assert!(matches!(step, ProcessStep::Skip));
    let mut ended = SharedState {
        format: Some(bgra(1, 2)),
        stream_ended: true,
        ..SharedState::default()
    };
    let step = on_process(&mut ended, seconds(0.0), seconds(0.0), Some(usable));
    assert!(matches!(step, ProcessStep::Skip));
}

#[test]
fn a_closed_window_is_no_failure() {
    for before in [StreamState::Streaming, StreamState::Paused] {
        let stream = running_stream();
        let mut state = SharedState {
            frame_buffer: Some(vec![0; 4]),
            format: Some(bgra(1, 1)),
            ..SharedState::default()
        };
        let control = on_state_changed(&mut state, &before, &StreamState::Unconnected);
        assert_eq!(control, LoopControl::Quit);
        assert!(stream.window_invalid(&state));
        assert_eq!(stream.error(&state), None);
        assert!(stream.get_frame(&state).ok().unwrap().is_none());
    }
}

#[test]
fn a_stream_that_never_ran_could_not_be_negotiated() {
    let stream = running_stream();
    let mut state = SharedState::default();
    let control = on_state_changed(
        &mut state,
        &StreamState::Connecting,
        &StreamState::Unconnected,
    );
    assert_eq!(control, LoopControl::Quit);
    assert!(stream.window_invalid(&state));
    assert_eq!(
        stream.error(&state).as_deref(),
        Some("Stream disconnected before capture started")
    );
}

#[test]
fn a_stream_error_ends_capture() {
    let mut state = SharedState::default();
    let control = on_state_changed(
        &mut state,
        &StreamState::Streaming,
        &StreamState::Error("no more input formats".to_string()),
    );
    assert_eq!(control, LoopControl::Quit);
    assert_eq!(state.error.as_deref(), Some("no more input formats"));
    for now in [
        StreamState::Connecting,
        StreamState::Paused,
        StreamState::Streaming,
    ] {
        let mut state = SharedState::default();
        let control = on_state_changed(&mut state, &StreamState::Unconnected, &now);
        assert_eq!(control, LoopControl::Continue);
        assert!(!state.stream_ended);
    }
}

#[test]
fn a_core_error_ends_capture() {
    let mut state = SharedState::default();
    assert_eq!(
        on_core_error(&mut state, "connection error".to_string()),
        LoopControl::Quit
    );
    assert!(state.stream_ended);
    assert_eq!(state.error.as_deref(), Some("connection error"));
}

#[test]
fn the_timer_quits_on_command_and_after_the_end() {
    let mut state = SharedState::default();
    assert_eq!(on_timer(&state, false), LoopControl::Continue);
    assert_eq!(on_timer(&state, true), LoopControl::Quit);
    state.end();
    assert_eq!(on_timer(&state, false), LoopControl::Quit);
}

#[test]
fn only_format_parameters_renegotiate() {
    let fresh = || SharedState {
        frame_buffer: Some(vec![0; 4]),
        format: Some(bgra(1, 1)),
        ..SharedState::default()
    };
    let mut state = fresh();
    assert!(!on_param_changed(&mut state, 3, true));
    assert!(state.frame_buffer.is_some());
    assert!(!on_param_changed(&mut state, spa::SPA_PARAM_FORMAT, false));
    assert!(state.frame_buffer.is_none());
    assert!(state.format.is_none());

    let mut state = fresh();
    assert!(on_param_changed(&mut state, spa::SPA_PARAM_FORMAT, true));
    on_format_parsed(&mut state, -22, bgra(9, 9));
    assert!(state.format.is_none());
    assert!(state.stream_ended);
    assert_eq!(state.error.as_deref(), Some("Failed to parse video format"));
}

#[test]
fn the_thread_ends_capture_however_it_exits() {
    let mut state = SharedState::default();
    let mut step = ThreadStep::CreateMainLoop;
    for expected in [
        ThreadStep::CreateContext,
        ThreadStep::Connect,
        ThreadStep::SetUpStream,
        ThreadStep::RunMainLoop,
        ThreadStep::Exit,
    ] {
        assert!(!state.stream_ended);
        step = pipewire_thread(&mut state, step, Ok(()));
        assert_eq!(step, expected);
    }
    assert!(state.stream_ended);
    assert_eq!(state.error, None);

    for (step, expected) in [
        (
            ThreadStep::CreateMainLoop,
            "Failed to create PipeWire main loop: refused",
        ),
        (
            ThreadStep::CreateContext,
            "Failed to create PipeWire context: refused",
        ),
        (
            ThreadStep::Connect,
            "Failed to connect to PipeWire: refused",
        ),
        (
            ThreadStep::SetUpStream,
            "Failed to set up PipeWire stream: refused",
        ),
    ] {
        let mut state = SharedState::default();
        let next = pipewire_thread(&mut state, step, Err("refused".to_string()));
        assert_eq!(next, ThreadStep::Exit);
        assert!(state.stream_ended);
        assert_eq!(state.error.as_deref(), Some(expected));
    }
}

#[test]
fn a_later_failure_replaces_an_earlier_one() {
    let mut state = SharedState::default();
    state.fail("first".to_string());
    state.end();
    state.set_format(None);
    state.discard_frame();
    assert_eq!(state.error.as_deref(), Some("first"));
    state.fail("second".to_string());
    assert_eq!(state.error.as_deref(), Some("second"));
    assert!(state.stream_ended);
}

#[test]
fn a_buffer_after_the_end_is_skipped() {
    let mut state = SharedState {
        format: Some(bgra(2, 1)),
        ..SharedState::default()
    };
    state.end();
    let buffer = Some(mapped(spa::SPA_DATA_MEM_FD));
    let step = on_process(&mut state, seconds(0.0), seconds(1.0), buffer);
    assert!(matches!(step, ProcessStep::Skip));
    let unmapped = Some(mapped(spa::SPA_DATA_DMA_BUF));
    let step = on_process(&mut state, seconds(0.0), seconds(1.0), unmapped);
    assert!(matches!(step, ProcessStep::Skip));
    assert!(state.stream_ended && state.frame_buffer.is_none() && state.error.is_none());
}
