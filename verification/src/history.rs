//! What holds of a capture over its whole life: laws over the events that reach the shared state.
use std::time::Instant;

use vstd::prelude::*;

use crate::frame::{CopyOutcome, FrameFormat};
use crate::seconds::Seconds;
use crate::shared::{BufferInfo, ProcessStep, SharedView, StateView};
use crate::spa::Chunk;
use crate::thread::ThreadStep;

verus! {

/// Everything that can happen to the shared state.
pub enum StreamEvent {
    /// The connection reports a failure.
    CoreError(Seq<char>),
    /// The stream changes its state.
    StateChanged { before: StateView, after: StateView },
    /// A parameter of the stream changes.
    ParamChanged(u32),
    /// A changed format was parsed.
    FormatParsed { result: i32, format: FrameFormat },
    /// A buffer was dequeued, with the memory and metadata that it maps.
    Process {
        interval: Seconds,
        since_last: Seconds,
        buffer: Option<BufferInfo>,
        memory: Seq<u8>,
        chunk: Chunk,
        allocated: bool,
        now: Instant,
    },
    /// The capture thread has done a step.
    ThreadStep { step: ThreadStep, outcome: Result<(), Seq<char>> },
    /// The caller has stopped the stream.
    Stopped,
}

impl SharedView {
    /// The state after an event.
    pub open spec fn after(self, event: StreamEvent) -> SharedView {
        match event {
            StreamEvent::CoreError(message) => self.failed(message),
            StreamEvent::StateChanged { before, after } => crate::shared::after_state_change(
                self,
                before,
                after,
            ),
            StreamEvent::ParamChanged(id) => crate::shared::after_param_change(self, id),
            StreamEvent::FormatParsed { result, format } => crate::shared::after_format_parsed(
                self,
                result,
                format,
            ),
            StreamEvent::Process {
                interval,
                since_last,
                buffer,
                memory,
                chunk,
                allocated,
                now,
            } => {
                let looked = crate::shared::after_process(self, interval, since_last, buffer);
                match self.process_step(interval, since_last, buffer) {
                    ProcessStep::Copy(format) => looked.stored(
                        crate::frame::copy_outcome(memory, chunk, format, allocated),
                        now,
                    ),
                    _ => looked,
                }
            },
            StreamEvent::ThreadStep { step, outcome } => step.effect(self, outcome),
            StreamEvent::Stopped => self.without_frame(),
        }
    }

    /// A failure has ended capture; a frame is only there while capture goes on, and has exactly
    /// the size of the negotiated format.
    pub open spec fn consistent(self) -> bool {
        &&& self.error is Some ==> self.ended
        &&& self.frame matches Some(bytes) ==> !self.ended && (self.format matches Some(format)
            && format.byte_count() <= usize::MAX && bytes.len() == format.byte_count())
    }
}

/// The state that a sequence of events leads to.
pub open spec fn history(events: Seq<StreamEvent>) -> SharedView
    decreases events.len(),
{
    if events.len() == 0 {
        SharedView::initial()
    } else {
        history(events.drop_last()).after(events.last())
    }
}

/// Law: every event keeps the shared state consistent.
pub proof fn law_events_keep_state_consistent(shared: SharedView, event: StreamEvent)
    requires
        shared.consistent(),
    ensures
        shared.after(event).consistent(),
{
    if let StreamEvent::Process {
        interval,
        since_last,
        buffer,
        memory,
        chunk,
        allocated,
        now,
    } = event {
        if let ProcessStep::Copy(format) = shared.process_step(interval, since_last, buffer) {
            if crate::frame::copy_outcome(memory, chunk, format, allocated) is Frame {
                crate::frame::law_frame_has_every_byte(memory, chunk, format);
            }
        }
    }
}

/// Law: every state that a stream can get into is consistent.
pub proof fn law_every_history_is_consistent(events: Seq<StreamEvent>)
    ensures
        history(events).consistent(),
    decreases events.len(),
{
    if events.len() > 0 {
        law_every_history_is_consistent(events.drop_last());
        law_events_keep_state_consistent(history(events.drop_last()), events.last());
    }
}

/// Law: a caller never gets an error for the latest frame, and every frame that it gets has the
/// negotiated dimensions with four bytes to a pixel.
pub proof fn law_caller_never_sees_a_mismatch(events: Seq<StreamEvent>, running: bool)
    ensures
        crate::stream::latest_frame(running, history(events)) is Ok,
        crate::stream::latest_frame(running, history(events)) matches Ok(Some(frame)) ==> {
            &&& history(events).format matches Some(format) && frame.height == format.height
                && frame.width == format.width
            &&& frame.channels == 4
            &&& frame.data.len() == frame.height * frame.width * 4
        },
{
    law_every_history_is_consistent(events);
    if let Some(format) = history(events).format {
        assert(format.width * format.height * 4 == format.height * format.width * 4)
            by (nonlinear_arith);
    }
}

/// Law: once capture has ended it stays ended.
pub proof fn law_end_is_final(shared: SharedView, event: StreamEvent)
    requires
        shared.ended,
    ensures
        shared.after(event).ended,
{
}

/// Law: once capture has ended, a caller gets no frame, whatever still happens.
pub proof fn law_no_frame_after_the_end(
    before: Seq<StreamEvent>,
    later: Seq<StreamEvent>,
    running: bool,
)
    requires
        history(before).ended,
    ensures
        history(before + later).ended,
        crate::stream::latest_frame(running, history(before + later)) == Ok::<
            Option<crate::stream::FrameView>,
            crate::error::ErrorView,
        >(None),
    decreases later.len(),
{
    law_every_history_is_consistent(before + later);
    if later.len() == 0 {
        assert(before + later =~= before);
    } else {
        law_no_frame_after_the_end(before, later.drop_last(), running);
        assert((before + later).drop_last() =~= before + later.drop_last());
        law_end_is_final(history(before + later.drop_last()), later.last());
    }
}

/// Law: a failure that was reported is never withdrawn, only followed by another.
pub proof fn law_error_is_never_withdrawn(shared: SharedView, event: StreamEvent)
    requires
        shared.error is Some,
    ensures
        shared.after(event).error is Some,
{
}

/// Whether an event is a failure for the caller to read of, given the state that it meets.
pub open spec fn is_failure(shared: SharedView, event: StreamEvent) -> bool {
    match event {
        StreamEvent::CoreError(_) => true,
        StreamEvent::StateChanged { before, after } => after is Error || (after is Unconnected && !(
        before is Streaming || before is Paused)),
        StreamEvent::ParamChanged(_) => false,
        StreamEvent::FormatParsed { result, .. } => result < 0,
        StreamEvent::Process { interval, since_last, buffer, .. } => shared.process_step(
            interval,
            since_last,
            buffer,
        ) is Unsupported,
        StreamEvent::ThreadStep { step, outcome } => step.prepares() && outcome is Err,
        StreamEvent::Stopped => false,
    }
}

/// Law: an error is there for a failure and for nothing else. A failure leaves an error and ends
/// capture without a frame; every other event leaves the error as it was.
pub proof fn law_errors_are_failures(shared: SharedView, event: StreamEvent)
    ensures
        is_failure(shared, event) ==> shared.after(event).error is Some && shared.after(
            event,
        ).ended && shared.after(event).frame is None,
        !is_failure(shared, event) ==> shared.after(event).error == shared.error,
{
}

/// Law: a window that closes while it is captured ends capture without a failure of its own.
pub proof fn law_closed_window_is_no_failure(shared: SharedView, before: StateView)
    requires
        before is Streaming || before is Paused,
    ensures
        ({
            let closed = shared.after(
                StreamEvent::StateChanged { before, after: StateView::Unconnected },
            );
            closed.ended && closed.frame is None && closed.error == shared.error
        }),
{
}

/// Law: what is read is what was captured. A frame copied out of a buffer is what a running
/// stream hands to its caller next, in the dimensions that it was copied with.
pub proof fn law_captured_frame_is_read_back(
    shared: SharedView,
    interval: Seconds,
    since_last: Seconds,
    buffer: Option<BufferInfo>,
    memory: Seq<u8>,
    chunk: Chunk,
    format: FrameFormat,
    now: Instant,
)
    requires
        shared.process_step(interval, since_last, buffer) == ProcessStep::Copy(format),
        !crate::frame::is_ignored(chunk),
        crate::frame::rejection(memory.len(), chunk, format) is None,
    ensures
        ({
            let captured = shared.after(
                StreamEvent::Process {
                    interval,
                    since_last,
                    buffer,
                    memory,
                    chunk,
                    allocated: true,
                    now,
                },
            );
            &&& crate::stream::latest_frame(true, captured) == Ok::<
                Option<crate::stream::FrameView>,
                crate::error::ErrorView,
            >(
                Some(
                    crate::stream::FrameView {
                        data: crate::frame::frame_of(memory, chunk, format),
                        height: format.height as usize,
                        width: format.width as usize,
                        channels: 4,
                    },
                ),
            )
            &&& captured.last_capture == Some(now)
        }),
{
    crate::frame::law_frame_has_every_byte(memory, chunk, format);
}

/// Law: a buffer that comes too early, or after the end, changes nothing.
pub proof fn law_throttled_buffer_changes_nothing(
    shared: SharedView,
    interval: Seconds,
    since_last: Seconds,
    buffer: Option<BufferInfo>,
    memory: Seq<u8>,
    chunk: Chunk,
    allocated: bool,
    now: Instant,
)
    requires
        shared.ended || shared.throttled(interval, since_last),
    ensures
        shared.after(
            StreamEvent::Process {
                interval,
                since_last,
                buffer,
                memory,
                chunk,
                allocated,
                now,
            },
        ) == shared,
{
}

/// Law: memory that the CPU cannot read through a pointer ends capture. A buffer of such memory
/// that is due gives no frame but a failure that names the kind of the memory.
pub proof fn law_unmapped_buffer_ends_capture(
    shared: SharedView,
    interval: Seconds,
    since_last: Seconds,
    buffer: BufferInfo,
    memory: Seq<u8>,
    chunk: Chunk,
    allocated: bool,
    now: Instant,
)
    requires
        !shared.ended && !shared.throttled(interval, since_last),
        shared.format is Some,
        !crate::shared::is_cpu_mapped(buffer.data_type),
    ensures
        shared.after(
            StreamEvent::Process {
                interval,
                since_last,
                buffer: Some(buffer),
                memory,
                chunk,
                allocated,
                now,
            },
        ) == shared.failed(crate::shared::unsupported_buffer(buffer.data_type)),
{
}

/// Law: an interval of zero disables throttling.
pub proof fn law_zero_interval_never_throttles(
    shared: SharedView,
    interval: Seconds,
    since_last: Seconds,
)
    requires
        interval.units() == 0,
        since_last.is_length(),
    ensures
        !shared.throttled(interval, since_last),
{
}

/// Law: after a format change nothing is throttled and no frame is left, until a buffer of the
/// new format is captured.
pub proof fn law_renegotiation_starts_afresh(
    shared: SharedView,
    result: i32,
    format: FrameFormat,
    interval: Seconds,
    since_last: Seconds,
    running: bool,
)
    requires
        result >= 0,
    ensures
        ({
            let fresh = shared.after(StreamEvent::FormatParsed { result, format });
            &&& !fresh.throttled(interval, since_last)
            &&& fresh.format == Some(format)
            &&& crate::stream::latest_frame(running, fresh) == Ok::<
                Option<crate::stream::FrameView>,
                crate::error::ErrorView,
            >(None)
        }),
{
}

/// Law: only an end ends capture. That is an error, a disconnect, a format that cannot be parsed,
/// a due buffer of memory that cannot be read, a failed preparation, and the end of the main
/// loop. Every other event leaves capture going if it was.
pub proof fn law_only_an_end_ends_capture(shared: SharedView, event: StreamEvent)
    ensures
        shared.after(event).ended <==> shared.ended || match event {
            StreamEvent::CoreError(_) => true,
            StreamEvent::StateChanged { before, after } => after is Error || after is Unconnected,
            StreamEvent::ParamChanged(_) => false,
            StreamEvent::FormatParsed { result, .. } => result < 0,
            StreamEvent::Process { interval, since_last, buffer, .. } => {
                &&& shared.last_capture is None || !since_last.below(interval)
                &&& shared.format is Some
                &&& buffer matches Some(block) && block.data_type != 1 && block.data_type != 2
            },
            StreamEvent::ThreadStep { step, outcome } => step is RunMainLoop || (!(step is Exit)
                && outcome is Err),
            StreamEvent::Stopped => false,
        },
{
}

/// Law: a stream that pauses, connects or streams, and a parameter that is no format, leave
/// everything as it was.
pub proof fn law_running_stream_keeps_its_state(
    shared: SharedView,
    before: StateView,
    after: StateView,
    id: u32,
)
    requires
        !(after is Error),
        !(after is Unconnected),
        id != 4,
    ensures
        shared.after(StreamEvent::StateChanged { before, after }) == shared,
        shared.after(StreamEvent::ParamChanged(id)) == shared,
{
}

/// Law: the error that a caller reads is that of the last failure, in its own words where it has
/// some.
pub proof fn law_error_is_that_of_the_last_failure(shared: SharedView, event: StreamEvent)
    ensures
        shared.after(event).error == match event {
            StreamEvent::CoreError(message) => Some(message),
            StreamEvent::StateChanged { before, after: StateView::Error(message) } => Some(message),
            StreamEvent::StateChanged { before, after: StateView::Unconnected } => if before
                is Streaming || before is Paused {
                shared.error
            } else {
                Some("Stream disconnected before capture started"@)
            },
            StreamEvent::FormatParsed { result, .. } => if result < 0 {
                Some("Failed to parse video format"@)
            } else {
                shared.error
            },
            StreamEvent::Process { interval, since_last, buffer: Some(block), .. } => if !shared.ended
                && (shared.last_capture is None || !since_last.below(interval))
                && shared.format is Some && block.data_type != 1 && block.data_type != 2 {
                Some(
                    "Unsupported PipeWire buffer type "@ + crate::text::decimal(
                        block.data_type as int,
                    ) + ": CPU-mapped MemPtr or MemFd is required"@,
                )
            } else {
                shared.error
            },
            StreamEvent::ThreadStep { step: ThreadStep::CreateMainLoop, outcome: Err(cause) } =>
            Some("Failed to create PipeWire main loop: "@ + cause),
            StreamEvent::ThreadStep { step: ThreadStep::CreateContext, outcome: Err(cause) } =>
            Some("Failed to create PipeWire context: "@ + cause),
            StreamEvent::ThreadStep { step: ThreadStep::Connect, outcome: Err(cause) } => Some(
                "Failed to connect to PipeWire: "@ + cause,
            ),
            StreamEvent::ThreadStep { step: ThreadStep::SetUpStream, outcome: Err(cause) } => Some(
                "Failed to set up PipeWire stream: "@ + cause,
            ),
            _ => shared.error,
        },
{
}

/// Law: the format is the one that was parsed last, until a new one is announced.
pub proof fn law_format_is_the_last_parsed(shared: SharedView, event: StreamEvent)
    ensures
        shared.after(event).format == match event {
            StreamEvent::ParamChanged(id) => if id == 4 {
                None
            } else {
                shared.format
            },
            StreamEvent::FormatParsed { result, format } => if result >= 0 {
                Some(format)
            } else {
                shared.format
            },
            _ => shared.format,
        },
{
}

/// Law: a frame comes from a captured buffer and from nowhere else. It is let go when capture
/// ends, when a format is announced or parsed, and when the caller stops; nothing else touches
/// it. The time of the last capture changes with a capture, and is forgotten with the format.
pub proof fn law_frame_is_that_of_the_last_capture(shared: SharedView, event: StreamEvent)
    ensures
        match event {
            StreamEvent::Process { interval, since_last, buffer, memory, chunk, allocated, now } => {
                let due = !shared.ended && (shared.last_capture is None || !since_last.below(
                    interval,
                )) && shared.format is Some && buffer is Some;
                let block = buffer->0;
                let format = shared.format->0;
                let readable = block.data_type == 1 || block.data_type == 2;
                let copied = due && readable && block.has_data && block.has_chunk && block.maxsize
                    > 0 && !crate::frame::is_ignored(chunk) && crate::frame::rejection(
                    memory.len(),
                    chunk,
                    format,
                ) is None && allocated;
                &&& copied ==> shared.after(event).frame == Some(
                    crate::frame::frame_of(memory, chunk, format),
                ) && shared.after(event).last_capture == Some(now)
                &&& due && !readable ==> shared.after(event).frame is None && shared.after(
                    event,
                ).last_capture == shared.last_capture
                &&& !copied && !(due && !readable) ==> shared.after(event) == shared
            },
            StreamEvent::ParamChanged(id) => if id == 4 {
                shared.after(event).frame is None && shared.after(event).last_capture is None
            } else {
                shared.after(event) == shared
            },
            StreamEvent::FormatParsed { result, .. } => shared.after(event).frame is None
                && shared.after(event).last_capture == if result >= 0 {
                None
            } else {
                shared.last_capture
            },
            StreamEvent::Stopped => shared.after(event).frame is None && shared.after(
                event,
            ).last_capture == shared.last_capture,
            StreamEvent::CoreError(_) => shared.after(event).frame is None && shared.after(
                event,
            ).last_capture == shared.last_capture,
            StreamEvent::StateChanged { before, after } => shared.after(event).last_capture
                == shared.last_capture && shared.after(event).frame == if after is Error || after
                is Unconnected {
                None
            } else {
                shared.frame
            },
            StreamEvent::ThreadStep { step, outcome } => shared.after(event).last_capture
                == shared.last_capture && shared.after(event).frame == if step is RunMainLoop || (
            !(step is Exit) && outcome is Err) {
                None
            } else {
                shared.frame
            },
        },
{
}

/// Law: the pixels that a running stream hands out are those of the captured buffer in the format
/// that was parsed. Whatever the stream did before, the first buffer after a format was parsed is
/// due; each pixel of the answer is blue, green, red and alpha of the pixel at its row and column,
/// read by the parsed pixel format, with full alpha where that format has none.
pub proof fn law_handed_out_pixels_are_read_by_the_parsed_format(
    shared: SharedView,
    result: i32,
    format: FrameFormat,
    interval: Seconds,
    since_last: Seconds,
    buffer: BufferInfo,
    memory: Seq<u8>,
    chunk: Chunk,
    now: Instant,
    row: int,
    column: int,
)
    requires
        !shared.ended,
        result >= 0,
        buffer.data_type == 1 || buffer.data_type == 2,
        buffer.has_data && buffer.has_chunk && buffer.maxsize > 0,
        !crate::frame::is_ignored(chunk),
        crate::frame::rejection(memory.len(), chunk, format) is None,
        0 <= row < format.height,
        0 <= column < format.width,
    ensures
        ({
            let captured = shared.after(StreamEvent::FormatParsed { result, format }).after(
                StreamEvent::Process {
                    interval,
                    since_last,
                    buffer: Some(buffer),
                    memory,
                    chunk,
                    allocated: true,
                    now,
                },
            );
            let stride: int = if chunk.stride == 0 {
                format.width * 4
            } else {
                chunk.stride as int
            };
            let from: int = chunk.offset as int % memory.len() as int + row * stride + column * 4;
            let to: int = (row * format.width + column) * 4;
            let red_first = format.pixel_format == 7 || format.pixel_format == 11;
            let unused_alpha = format.pixel_format == 7 || format.pixel_format == 8;
            &&& crate::stream::latest_frame(true, captured) matches Ok(Some(frame))
            &&& frame.height == format.height && frame.width == format.width && frame.channels == 4
            &&& frame.data.len() == format.width * format.height * 4
            &&& frame.data[to] == memory[if red_first {
                from + 2
            } else {
                from
            }]
            &&& frame.data[to + 1] == memory[from + 1]
            &&& frame.data[to + 2] == memory[if red_first {
                from
            } else {
                from + 2
            }]
            &&& frame.data[to + 3] == if unused_alpha {
                255u8
            } else {
                memory[from + 3]
            }
        }),
{
    crate::frame::law_every_pixel_is_copied(memory, chunk, format, row, column);
    crate::frame::law_frame_has_every_byte(memory, chunk, format);
}

/// Law: a history goes event by event from a state that has received nothing.
pub proof fn law_history_goes_event_by_event(events: Seq<StreamEvent>, event: StreamEvent)
    ensures
        history(Seq::empty()) == SharedView::initial(),
        history(events.push(event)) == history(events).after(event),
{
    assert(events.push(event).drop_last() =~= events);
}

/// Law: a consistent state shows an error only once capture has ended, and a frame only while it
/// goes on, of exactly four bytes for each pixel of the negotiated format.
pub proof fn law_consistent_state_in_full(shared: SharedView)
    requires
        shared.consistent(),
    ensures
        shared.error is Some ==> shared.ended,
        shared.frame is Some ==> !shared.ended && shared.format is Some && shared.frame->0.len()
            == shared.format->0.width * shared.format->0.height * 4,
{
    if let Some(format) = shared.format {
        assert(0 <= format.width * format.height * 4) by (nonlinear_arith)
            requires
                0 <= format.width,
                0 <= format.height,
        ;
    }
}

} // verus!
