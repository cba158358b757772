//! State shared between the caller and the PipeWire thread, and the callbacks that change it.
use std::time::Instant;

use vstd::prelude::*;
use vstd::string::*;

use crate::frame::{CopyOutcome, FrameFormat};
use crate::seconds::Seconds;
use crate::spa::{SPA_DATA_MEM_FD, SPA_DATA_MEM_PTR, SPA_PARAM_FORMAT};
use crate::text::append_unsigned;

verus! {

/// `std::time::Instant`, carried as an opaque point in time.
#[verifier::external_type_specification]
#[verifier::external_body]
pub struct ExInstant(std::time::Instant);

/// State shared between the caller and the PipeWire thread.
pub struct SharedState {
    /// Latest frame (BGRA, height * width * 4 bytes).
    pub frame_buffer: Option<Vec<u8>>,
    /// Format negotiated with PipeWire, independent of portal size hints.
    pub format: Option<FrameFormat>,
    /// The stream has ended (window closed, error, or user stop).
    pub stream_ended: bool,
    /// When the latest frame was captured, for throttling.
    pub last_capture_time: Option<Instant>,
    /// Failure reported by the capture thread.
    pub error: Option<String>,
}

/// The value of a [`SharedState`].
pub struct SharedView {
    pub frame: Option<Seq<u8>>,
    pub format: Option<FrameFormat>,
    pub ended: bool,
    pub last_capture: Option<Instant>,
    pub error: Option<Seq<char>>,
}

impl View for SharedState {
    type V = SharedView;

    open spec fn view(&self) -> SharedView {
        SharedView {
            frame: match self.frame_buffer {
                Some(bytes) => Some(bytes@),
                None => None,
            },
            format: self.format,
            ended: self.stream_ended,
            last_capture: self.last_capture_time,
            error: match self.error {
                Some(message) => Some(message@),
                None => None,
            },
        }
    }
}

/// What the main loop does after a callback.
#[derive(Clone, Copy, Debug, PartialEq, Eq, Structural)]
pub enum LoopControl {
    Continue,
    Quit,
}

/// The states of a PipeWire stream.
#[derive(Debug)]
pub enum StreamState {
    Error(String),
    Unconnected,
    Connecting,
    Paused,
    Streaming,
}

/// The value of a [`StreamState`].
pub enum StateView {
    Error(Seq<char>),
    Unconnected,
    Connecting,
    Paused,
    Streaming,
}

impl View for StreamState {
    type V = StateView;

    open spec fn view(&self) -> StateView {
        match self {
            StreamState::Error(message) => StateView::Error(message@),
            StreamState::Unconnected => StateView::Unconnected,
            StreamState::Connecting => StateView::Connecting,
            StreamState::Paused => StateView::Paused,
            StreamState::Streaming => StateView::Streaming,
        }
    }
}

/// What the first data block of a dequeued buffer says of itself.
#[derive(Clone, Copy, Debug)]
pub struct BufferInfo {
    /// `SPA_DATA_*` identifier.
    pub data_type: u32,
    /// The block has an address in memory.
    pub has_data: bool,
    /// The block has chunk metadata.
    pub has_chunk: bool,
    /// Size of the mapped memory.
    pub maxsize: u32,
}

/// What to do with a dequeued buffer.
#[derive(Clone, Copy, Debug)]
pub enum ProcessStep {
    /// Give it back unread.
    Skip,
    /// Give it back: capture has failed, since its memory cannot be read.
    Unsupported,
    /// Copy a frame of the format out of it.
    Copy(FrameFormat),
}

impl SharedView {
    /// The state of a stream that has not received anything.
    pub open spec fn initial() -> SharedView {
        SharedView { frame: None, format: None, ended: false, last_capture: None, error: None }
    }

    /// Capture fails: it ends with a message and without a frame.
    pub open spec fn failed(self, message: Seq<char>) -> SharedView {
        SharedView { error: Some(message), ended: true, frame: None, ..self }
    }

    /// Capture ends without a frame.
    pub open spec fn closed(self) -> SharedView {
        SharedView { ended: true, frame: None, ..self }
    }

    /// The latest frame is let go.
    pub open spec fn without_frame(self) -> SharedView {
        SharedView { frame: None, ..self }
    }

    /// A format is negotiated or withdrawn: no frame and no throttle is left of the one before.
    pub open spec fn renegotiated(self, format: Option<FrameFormat>) -> SharedView {
        SharedView { frame: None, format, last_capture: None, ..self }
    }

    /// The last capture is too recent for another one.
    pub open spec fn throttled(self, interval: Seconds, since_last: Seconds) -> bool {
        self.last_capture is Some && since_last.below(interval)
    }

    /// What to do with a dequeued buffer.
    pub open spec fn process_step(
        self,
        interval: Seconds,
        since_last: Seconds,
        buffer: Option<BufferInfo>,
    ) -> ProcessStep {
        if self.ended || self.throttled(interval, since_last) {
            ProcessStep::Skip
        } else {
            match (self.format, buffer) {
                (Some(format), Some(buffer)) => if !is_cpu_mapped(buffer.data_type) {
                    ProcessStep::Unsupported
                } else if !buffer.has_data || !buffer.has_chunk || buffer.maxsize == 0 {
                    ProcessStep::Skip
                } else {
                    ProcessStep::Copy(format)
                },
                _ => ProcessStep::Skip,
            }
        }
    }

    /// A copied frame becomes the latest one; anything else leaves the state alone.
    pub open spec fn stored(self, outcome: CopyOutcome, now: Instant) -> SharedView {
        match outcome {
            CopyOutcome::Frame(bytes) => SharedView {
                frame: Some(bytes),
                last_capture: Some(now),
                ..self
            },
            _ => self,
        }
    }
}

/// Whether buffer memory of this kind can be read through a pointer.
pub open spec fn is_cpu_mapped(data_type: u32) -> bool {
    data_type == SPA_DATA_MEM_PTR || data_type == SPA_DATA_MEM_FD
}

/// The failure for buffer memory that cannot be read through a pointer.
pub open spec fn unsupported_buffer(data_type: u32) -> Seq<char> {
    "Unsupported PipeWire buffer type "@ + crate::text::decimal(data_type as int)
        + ": CPU-mapped MemPtr or MemFd is required"@
}

impl Default for SharedState {
    /// The state of a stream that has not received anything.
    fn default() -> (state: SharedState)
        ensures
            state@ == SharedView::initial(),
    {
        SharedState {
            frame_buffer: None,
            format: None,
            stream_ended: false,
            last_capture_time: None,
            error: None,
        }
    }
}

impl SharedState {
    /// Ends capture with a failure that the caller can read.
    pub fn fail(&mut self, message: String)
        ensures
            final(self)@ == old(self)@.failed(message@),
    {
        self.error = Some(message);
        self.stream_ended = true;
        self.frame_buffer = None;
    }

    /// Takes over a negotiated format, or none.
    ///
    /// A frame of the format before is never paired with the new dimensions.
    pub fn set_format(&mut self, format: Option<FrameFormat>)
        ensures
            final(self)@ == old(self)@.renegotiated(format),
    {
        self.frame_buffer = None;
        self.format = format;
        self.last_capture_time = None;
    }

    /// Ends capture without a failure.
    pub fn end(&mut self)
        ensures
            final(self)@ == old(self)@.closed(),
    {
        self.stream_ended = true;
        self.frame_buffer = None;
    }

    /// Lets the latest frame go.
    pub fn discard_frame(&mut self)
        ensures
            final(self)@ == old(self)@.without_frame(),
    {
        self.frame_buffer = None;
    }
}

/// Handles a failure of the connection, which need not come with a change of the stream.
pub fn on_core_error(shared: &mut SharedState, message: String) -> (control: LoopControl)
    ensures
        final(shared)@ == old(shared)@.failed(message@),
        control == LoopControl::Quit,
{
    shared.fail(message);
    LoopControl::Quit
}

/// Handles the timer that looks for a stop command.
pub fn on_timer(shared: &SharedState, stop_requested: bool) -> (control: LoopControl)
    ensures
        control == LoopControl::Quit <==> (stop_requested || shared@.ended),
{
    if stop_requested || shared.stream_ended {
        LoopControl::Quit
    } else {
        LoopControl::Continue
    }
}

/// The shared state after a change of the stream.
pub open spec fn after_state_change(shared: SharedView, before: StateView, now: StateView) -> SharedView {
    match now {
        StateView::Error(message) => shared.failed(message),
        StateView::Unconnected => if before is Streaming || before is Paused {
            shared.closed()
        } else {
            shared.failed("Stream disconnected before capture started"@)
        },
        _ => shared,
    }
}

/// Handles a change of the stream.
///
/// A stream that was running and is disconnected is a closed window. One that is disconnected
/// before it ran could not be negotiated, which is a failure.
pub fn on_state_changed(shared: &mut SharedState, before: &StreamState, now: &StreamState) -> (control:
    LoopControl)
    ensures
        final(shared)@ == after_state_change(old(shared)@, before@, now@),
        control == LoopControl::Quit <==> (now@ is Error || now@ is Unconnected),
{
    match now {
        StreamState::Error(message) => {
            shared.fail(message.clone());
            LoopControl::Quit
        },
        StreamState::Unconnected => {
            let was_running: bool = match before {
                StreamState::Streaming => true,
                StreamState::Paused => true,
                _ => false,
            };
            if was_running {
                shared.end();
            } else {
                shared.fail("Stream disconnected before capture started".to_owned());
            }
            LoopControl::Quit
        },
        StreamState::Streaming => LoopControl::Continue,
        StreamState::Paused => LoopControl::Continue,
        StreamState::Connecting => LoopControl::Continue,
    }
}

/// The shared state after a parameter change, before any format in it is parsed.
pub open spec fn after_param_change(shared: SharedView, id: u32) -> SharedView {
    if id == SPA_PARAM_FORMAT {
        shared.renegotiated(None)
    } else {
        shared
    }
}

/// Handles a parameter change. Returns whether there is a format to parse, which is handed to
/// [`on_format_parsed`].
pub fn on_param_changed(shared: &mut SharedState, id: u32, has_param: bool) -> (parse: bool)
    ensures
        final(shared)@ == after_param_change(old(shared)@, id),
        parse == (id == SPA_PARAM_FORMAT && has_param),
{
    if id != SPA_PARAM_FORMAT {
        return false;
    }
    shared.set_format(None);
    has_param
}

/// The shared state after a format was parsed, with the parser's return value.
pub open spec fn after_format_parsed(
    shared: SharedView,
    result: i32,
    format: FrameFormat,
) -> SharedView {
    if result < 0 {
        shared.failed("Failed to parse video format"@)
    } else {
        shared.renegotiated(Some(format))
    }
}

/// Handles what the parser made of a format. A negative result is a failure to parse.
pub fn on_format_parsed(shared: &mut SharedState, result: i32, format: FrameFormat)
    ensures
        final(shared)@ == after_format_parsed(old(shared)@, result, format),
{
    if result < 0 {
        shared.fail("Failed to parse video format".to_owned());
    } else {
        shared.set_format(Some(format));
    }
}

/// The shared state after a dequeued buffer was looked at.
pub open spec fn after_process(
    shared: SharedView,
    interval: Seconds,
    since_last: Seconds,
    buffer: Option<BufferInfo>,
) -> SharedView {
    match (shared.process_step(interval, since_last, buffer), buffer) {
        (ProcessStep::Unsupported, Some(buffer)) => shared.failed(
            unsupported_buffer(buffer.data_type),
        ),
        _ => shared,
    }
}

/// Decides what to do with a dequeued buffer, given the time since the last capture, where
/// there was one, and the first data block, where there is one.
pub fn on_process(
    shared: &mut SharedState,
    interval: Seconds,
    since_last: Seconds,
    buffer: Option<BufferInfo>,
) -> (step: ProcessStep)
    ensures
        step == old(shared)@.process_step(interval, since_last, buffer),
        final(shared)@ == after_process(old(shared)@, interval, since_last, buffer),
{
    if shared.stream_ended || (shared.last_capture_time.is_some() && since_last.less_than(
        interval,
    )) {
        return ProcessStep::Skip;
    }
    let format: FrameFormat = match shared.format {
        Some(format) => format,
        None => return ProcessStep::Skip,
    };
    let buffer: BufferInfo = match buffer {
        Some(buffer) => buffer,
        None => return ProcessStep::Skip,
    };
    if buffer.data_type != SPA_DATA_MEM_PTR && buffer.data_type != SPA_DATA_MEM_FD {
        let mut message: String = "Unsupported PipeWire buffer type ".to_owned();
        append_unsigned(&mut message, buffer.data_type as u64);
        message.append(": CPU-mapped MemPtr or MemFd is required");
        shared.fail(message);
        return ProcessStep::Unsupported;
    }
    if !buffer.has_data || !buffer.has_chunk || buffer.maxsize == 0 {
        return ProcessStep::Skip;
    }
    ProcessStep::Copy(format)
}

/// Takes over what [`crate::frame::copy_frame`] made of a buffer. Returns the reason for a
/// frame that is dropped.
pub fn finish_process(
    shared: &mut SharedState,
    copied: Result<Option<Vec<u8>>, &'static str>,
    now: Instant,
) -> (dropped: Option<&'static str>)
    ensures
        final(shared)@ == old(shared)@.stored(crate::frame::outcome_of(copied), now),
        match copied {
            Err(message) => dropped == Some(message),
            Ok(_) => dropped is None,
        },
{
    match copied {
        Ok(Some(frame)) => {
            shared.frame_buffer = Some(frame);
            shared.last_capture_time = Some(now);
            None
        },
        Ok(None) => None,
        Err(message) => Some(message),
    }
}

/// Law: the value of a shared state is all that it holds.
pub proof fn law_shared_state_is_its_value(state: SharedState)
    ensures
        state@.frame is Some <==> state.frame_buffer is Some,
        state.frame_buffer matches Some(bytes) ==> state@.frame == Some(bytes@),
        state@.format == state.format,
        state@.ended == state.stream_ended,
        state@.last_capture == state.last_capture_time,
        state@.error is Some <==> state.error is Some,
        state.error matches Some(message) ==> state@.error == Some(message@),
{
}

/// Law: the states of a stream are told apart, and an error keeps its message.
pub proof fn law_stream_states_are_told_apart(state: StreamState)
    ensures
        state matches StreamState::Error(message) ==> state@ == StateView::Error(message@),
        state is Error <==> state@ is Error,
        state is Unconnected <==> state@ is Unconnected,
        state is Connecting <==> state@ is Connecting,
        state is Paused <==> state@ is Paused,
        state is Streaming <==> state@ is Streaming,
{
}

/// Law: a state without anything received has nothing to show.
pub proof fn law_initial_state_is_empty()
    ensures
        SharedView::initial().frame is None,
        SharedView::initial().format is None,
        !SharedView::initial().ended,
        SharedView::initial().last_capture is None,
        SharedView::initial().error is None,
{
}

/// Law: failing, ending, letting a frame go and renegotiating change what they are about, and
/// keep all else. None of them leaves a frame behind.
pub proof fn law_state_changes_touch_what_they_are_about(
    shared: SharedView,
    message: Seq<char>,
    format: Option<FrameFormat>,
)
    ensures
        ({
            let failed = shared.failed(message);
            &&& failed.error == Some(message) && failed.ended && failed.frame is None
            &&& failed.format == shared.format && failed.last_capture == shared.last_capture
        }),
        ({
            let closed = shared.closed();
            &&& closed.ended && closed.frame is None && closed.error == shared.error
            &&& closed.format == shared.format && closed.last_capture == shared.last_capture
        }),
        ({
            let bare = shared.without_frame();
            &&& bare.frame is None && bare.ended == shared.ended && bare.error == shared.error
            &&& bare.format == shared.format && bare.last_capture == shared.last_capture
        }),
        ({
            let fresh = shared.renegotiated(format);
            &&& fresh.frame is None && fresh.format == format && fresh.last_capture is None
            &&& fresh.ended == shared.ended && fresh.error == shared.error
        }),
{
}

/// Law: a stream that pauses, connects or streams changes nothing. Only an error and a disconnect
/// do, and a disconnect is a failure exactly where the stream was neither streaming nor paused.
pub proof fn law_only_error_and_disconnect_matter(
    shared: SharedView,
    before: StateView,
    now: StateView,
)
    ensures
        ({
            let changed = after_state_change(shared, before, now);
            &&& now is Paused || now is Streaming || now is Connecting ==> changed == shared
            &&& now matches StateView::Error(message) ==> changed.error == Some(message)
                && changed.ended && changed.frame is None
            &&& now is Unconnected ==> changed.ended && changed.frame is None && changed.error
                == if before is Streaming || before is Paused {
                shared.error
            } else {
                Some("Stream disconnected before capture started"@)
            }
            &&& changed.format == shared.format && changed.last_capture == shared.last_capture
        }),
{
}

/// Law: a buffer is copied exactly where capture goes on, the last capture is not too recent, a
/// format is negotiated, and the buffer has readable memory of type 1 or 2, an address, metadata
/// and a size. It is copied in the negotiated format as it is. Memory of another kind that is due
/// is unsupported, and everything else is skipped.
pub proof fn law_due_buffer_is_copied_as_negotiated(
    shared: SharedView,
    interval: Seconds,
    since_last: Seconds,
    buffer: Option<BufferInfo>,
)
    ensures
        ({
            let step = shared.process_step(interval, since_last, buffer);
            let due = !shared.ended && (shared.last_capture is None || !since_last.below(interval))
                && shared.format is Some && buffer is Some;
            let readable = buffer matches Some(block) && (block.data_type == 1 || block.data_type
                == 2);
            let whole = buffer matches Some(block) && block.has_data && block.has_chunk
                && block.maxsize > 0;
            &&& step is Copy <==> due && readable && whole
            &&& step matches ProcessStep::Copy(format) ==> shared.format == Some(format)
            &&& step is Unsupported <==> due && !readable
            &&& step is Skip <==> !due || (readable && !whole)
        }),
{
}

/// Law: looking at a buffer changes nothing, unless its memory is unsupported: that is a failure
/// which names the kind of the memory.
pub proof fn law_looking_at_a_buffer_only_fails(
    shared: SharedView,
    interval: Seconds,
    since_last: Seconds,
    buffer: Option<BufferInfo>,
)
    ensures
        ({
            let looked = after_process(shared, interval, since_last, buffer);
            let step = shared.process_step(interval, since_last, buffer);
            &&& !(step is Unsupported) ==> looked == shared
            &&& step is Unsupported ==> looked.ended && looked.frame is None && looked.error
                == Some(
                "Unsupported PipeWire buffer type "@ + crate::text::decimal(
                    buffer->0.data_type as int,
                ) + ": CPU-mapped MemPtr or MemFd is required"@,
            )
            &&& looked.format == shared.format && looked.last_capture == shared.last_capture
        }),
{
}

/// Law: a copied frame becomes the latest one with the time of its capture. A chunk that gave
/// none leaves the state as it was.
pub proof fn law_copied_frame_becomes_the_latest(
    shared: SharedView,
    outcome: CopyOutcome,
    now: Instant,
)
    ensures
        ({
            let stored = shared.stored(outcome, now);
            &&& outcome matches CopyOutcome::Frame(bytes) ==> stored.frame == Some(bytes)
                && stored.last_capture == Some(now)
            &&& !(outcome is Frame) ==> stored == shared
            &&& stored.format == shared.format && stored.ended == shared.ended && stored.error
                == shared.error
        }),
{
}

/// Law: only parameter 4, the format, renegotiates. Until it is parsed there is none, and what
/// was parsed is taken over as it is.
pub proof fn law_format_is_taken_over_as_parsed(
    shared: SharedView,
    id: u32,
    result: i32,
    format: FrameFormat,
)
    ensures
        id != 4 ==> after_param_change(shared, id) == shared,
        id == 4 ==> {
            let pending = after_param_change(shared, id);
            &&& pending.format is None && pending.frame is None && pending.last_capture is None
            &&& pending.ended == shared.ended && pending.error == shared.error
        },
        result >= 0 ==> {
            let parsed = after_format_parsed(shared, result, format);
            &&& parsed.format == Some(format) && parsed.frame is None
            &&& parsed.last_capture is None
            &&& parsed.ended == shared.ended && parsed.error == shared.error
        },
        result < 0 ==> {
            let unparsed = after_format_parsed(shared, result, format);
            &&& unparsed.error == Some("Failed to parse video format"@) && unparsed.ended
            &&& unparsed.frame is None && unparsed.format == shared.format
            &&& unparsed.last_capture == shared.last_capture
        },
{
}

} // verus!
