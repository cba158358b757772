//! The capture stream as its caller sees it.
use vstd::prelude::*;

use crate::error::{CaptureError, ErrorView};
use crate::seconds::Seconds;
use crate::shared::{SharedState, SharedView};

verus! {

/// A capture stream.
///
/// `D` owns the PipeWire descriptor, `T` stands for the capture thread and `C` for the way to
/// send it commands. What the thread reports is in a [`SharedState`] beside it.
pub struct CaptureStream<D, T, C> {
    /// Descriptor of the PipeWire connection (handed over on start).
    fd: Option<D>,
    /// Node ID for the capture stream.
    node_id: u32,
    /// Target interval between captures.
    capture_interval: Seconds,
    /// Whether the stream has been started.
    running: bool,
    /// The capture thread.
    thread_handle: Option<T>,
    /// Where commands to the capture thread go.
    command_tx: Option<C>,
}

/// The value of a [`CaptureStream`].
pub struct StreamView<D, T, C> {
    pub fd: Option<D>,
    pub node_id: u32,
    pub capture_interval: Seconds,
    pub running: bool,
    pub thread_handle: Option<T>,
    pub command_tx: Option<C>,
}

impl<D, T, C> View for CaptureStream<D, T, C> {
    type V = StreamView<D, T, C>;

    closed spec fn view(&self) -> StreamView<D, T, C> {
        StreamView {
            fd: self.fd,
            node_id: self.node_id,
            capture_interval: self.capture_interval,
            running: self.running,
            thread_handle: self.thread_handle,
            command_tx: self.command_tx,
        }
    }
}

/// What the capture thread is started with.
pub struct StartRequest<D> {
    pub fd: D,
    pub node_id: u32,
    pub capture_interval: Seconds,
}

/// What has to be stopped: a command channel to send the stop command to, and a thread to join.
pub struct StopRequest<T, C> {
    pub command_tx: Option<C>,
    pub thread_handle: Option<T>,
}

/// Why a stream cannot be created.
#[derive(Debug)]
pub enum NewStreamError<E> {
    /// An argument is out of range.
    Value(&'static str),
    /// The descriptor could not be duplicated.
    Descriptor(E),
}

/// A captured frame: BGRA bytes in the shape height, width, channels.
pub struct Frame {
    pub data: Vec<u8>,
    pub height: usize,
    pub width: usize,
    pub channels: usize,
}

/// The value of a [`Frame`].
pub struct FrameView {
    pub data: Seq<u8>,
    pub height: usize,
    pub width: usize,
    pub channels: usize,
}

impl View for Frame {
    type V = FrameView;

    open spec fn view(&self) -> FrameView {
        FrameView {
            data: self.data@,
            height: self.height,
            width: self.width,
            channels: self.channels,
        }
    }
}

impl<D, T, C> StreamView<D, T, C> {
    /// A stream that runs has a thread and a command channel, and has handed its descriptor
    /// over; one that does not run has neither.
    pub open spec fn valid(self) -> bool {
        &&& self.running <==> self.thread_handle is Some
        &&& self.running <==> self.command_tx is Some
        &&& self.running ==> self.fd is None
    }

    /// A stream that does not run and has no descriptor left to run with.
    pub open spec fn spent(self) -> bool {
        !self.running && self.fd is None
    }

    /// The stream after its descriptor was taken.
    pub open spec fn without_descriptor(self) -> StreamView<D, T, C> {
        StreamView { fd: None, ..self }
    }

    /// The stream after its thread was started.
    pub open spec fn with_thread(self, thread: T, commands: C) -> StreamView<D, T, C> {
        StreamView {
            running: true,
            thread_handle: Some(thread),
            command_tx: Some(commands),
            ..self
        }
    }

    /// Why the stream cannot be started, or `None` where it can.
    pub open spec fn start_error(self) -> Option<ErrorView> {
        if self.running {
            Some(ErrorView::AlreadyStarted)
        } else if self.fd is None {
            Some(ErrorView::PipeWire("File descriptor already consumed"@))
        } else {
            None
        }
    }

    /// The stream after an attempt to start it, with what became of the thread if it came to
    /// that.
    pub open spec fn after_start(self, spawned: Result<(T, C), Seq<char>>) -> StreamView<D, T, C> {
        if self.start_error() is Some {
            self
        } else {
            match spawned {
                Ok((thread, commands)) => self.without_descriptor().with_thread(thread, commands),
                Err(_) => self.without_descriptor(),
            }
        }
    }

    /// The stream after it was stopped.
    pub open spec fn after_stop(self) -> StreamView<D, T, C> {
        if self.running {
            StreamView {
                fd: None,
                running: false,
                thread_handle: None,
                command_tx: None,
                ..self
            }
        } else {
            self.without_descriptor()
        }
    }
}

/// What a caller that asks for the latest frame gets.
pub open spec fn latest_frame(running: bool, shared: SharedView) -> Result<
    Option<FrameView>,
    ErrorView,
> {
    match (shared.frame, shared.format) {
        (Some(data), Some(format)) => if !running {
            Ok(None)
        } else if format.byte_count() > usize::MAX {
            Err(ErrorView::PipeWire("Video frame size overflow"@))
        } else if data.len() != format.byte_count() {
            Err(
                ErrorView::FrameSizeMismatch {
                    expected: format.byte_count() as usize,
                    actual: data.len() as usize,
                },
            )
        } else {
            Ok(
                Some(
                    FrameView {
                        data,
                        height: format.height as usize,
                        width: format.width as usize,
                        channels: 4,
                    },
                ),
            )
        },
        _ => Ok(None),
    }
}

/// The value of an answer to a request for the latest frame.
pub open spec fn answer_view(answer: Result<Option<Frame>, CaptureError>) -> Result<
    Option<FrameView>,
    ErrorView,
> {
    match answer {
        Ok(Some(frame)) => Ok(Some(frame@)),
        Ok(None) => Ok(None),
        Err(error) => Err(error@),
    }
}

/// The descriptor that duplicating gave, or `None` where it failed: a descriptor is not negative.
pub fn duplicate_fd(returned: i32) -> (descriptor: Option<i32>)
    ensures
        returned >= 0 ==> descriptor == Some(returned),
        returned < 0 ==> descriptor is None,
{
    if returned < 0 {
        None
    } else {
        Some(returned)
    }
}

impl<D, T, C> CaptureStream<D, T, C> {
    /// Creates a stream that owns a duplicate of the caller's descriptor.
    ///
    /// The size hints of the portal have no bearing on it: they may be invalid, and the actual
    /// dimensions are negotiated.
    pub fn new<E>(
        duplicate: Result<D, E>,
        node_id: u32,
        width: u32,
        height: u32,
        capture_interval: Seconds,
    ) -> (stream: Result<CaptureStream<D, T, C>, NewStreamError<E>>)
        ensures
            !capture_interval.is_length() ==> (stream matches Err(NewStreamError::Value(message))
                && message@ == "capture_interval must be finite and non-negative"@),
            capture_interval.is_length() ==> match duplicate {
                Err(error) => stream == Err::<Self, NewStreamError<E>>(
                    NewStreamError::Descriptor(error),
                ),
                Ok(fd) => stream matches Ok(created) && created@ == (StreamView::<D, T, C> {
                    fd: Some(fd),
                    node_id,
                    capture_interval,
                    running: false,
                    thread_handle: None,
                    command_tx: None,
                }) && created@.valid(),
            },
    {
        if !capture_interval.is_valid_length() {
            return Err(NewStreamError::Value("capture_interval must be finite and non-negative"));
        }
        match duplicate {
            Ok(fd) => Ok(
                CaptureStream {
                    fd: Some(fd),
                    node_id,
                    capture_interval,
                    running: false,
                    thread_handle: None,
                    command_tx: None,
                },
            ),
            Err(error) => Err(NewStreamError::Descriptor(error)),
        }
    }

    /// Starts capturing: hands out what the capture thread needs. What becomes of the thread is
    /// told to [`CaptureStream::thread_spawned`].
    pub fn start(&mut self) -> (request: Result<StartRequest<D>, CaptureError>)
        ensures
            match old(self)@.start_error() {
                Some(reason) => {
                    &&& request matches Err(error) && error@ == reason
                    &&& final(self)@ == old(self)@
                },
                None => {
                    &&& request == Ok::<StartRequest<D>, CaptureError>(
                        StartRequest {
                            fd: old(self)@.fd->0,
                            node_id: old(self)@.node_id,
                            capture_interval: old(self)@.capture_interval,
                        },
                    )
                    &&& final(self)@ == old(self)@.without_descriptor()
                },
            },
            old(self)@.valid() ==> final(self)@.valid(),
    {
        if self.running {
            return Err(CaptureError::AlreadyStarted);
        }
        match self.fd.take() {
            Some(fd) => Ok(
                StartRequest {
                    fd,
                    node_id: self.node_id,
                    capture_interval: self.capture_interval,
                },
            ),
            None => Err(CaptureError::PipeWire("File descriptor already consumed".to_owned())),
        }
    }

    /// Takes over the capture thread, or reports that there is none.
    pub fn thread_spawned(&mut self, spawned: Result<(T, C), String>) -> (started: Result<
        (),
        CaptureError,
    >)
        ensures
            match spawned {
                Ok((thread, commands)) => {
                    &&& started is Ok
                    &&& final(self)@ == old(self)@.with_thread(thread, commands)
                },
                Err(cause) => {
                    &&& started matches Err(error) && error@ == ErrorView::ThreadSpawnFailed(
                        cause@,
                    )
                    &&& final(self)@ == old(self)@
                },
            },
            old(self)@.valid() && old(self)@.fd is None ==> final(self)@.valid(),
    {
        match spawned {
            Ok((thread, commands)) => {
                self.thread_handle = Some(thread);
                self.command_tx = Some(commands);
                self.running = true;
                Ok(())
            },
            Err(cause) => Err(CaptureError::ThreadSpawnFailed(cause)),
        }
    }

    /// The latest frame, or `None` if no frame is available.
    pub fn get_frame(&self, shared: &SharedState) -> (answer: Result<Option<Frame>, CaptureError>)
        ensures
            answer_view(answer) == latest_frame(self@.running, shared@),
    {
        if !self.running {
            return Ok(None);
        }
        match (&shared.frame_buffer, shared.format) {
            (Some(buffer), Some(format)) => {
                let expected: usize = match format.frame_len() {
                    Some(expected) => expected,
                    None => return Err(
                        CaptureError::PipeWire("Video frame size overflow".to_owned()),
                    ),
                };
                let data: Vec<u8> = buffer.clone();
                assert(data@ =~= buffer@);
                if data.len() != expected {
                    return Err(
                        CaptureError::FrameSizeMismatch { expected, actual: data.len() },
                    );
                }
                Ok(
                    Some(
                        Frame {
                            data,
                            height: format.height as usize,
                            width: format.width as usize,
                            channels: 4,
                        },
                    ),
                )
            },
            _ => Ok(None),
        }
    }

    /// Whether capture has ended, including by a failure to connect or negotiate.
    pub fn window_invalid(&self, shared: &SharedState) -> (invalid: bool)
        ensures
            invalid == shared@.ended,
    {
        shared.stream_ended
    }

    /// The failure of the capture thread, or `None` for a normal stop or a closed window.
    pub fn error(&self, shared: &SharedState) -> (message: Option<String>)
        ensures
            match shared@.error {
                Some(text) => message matches Some(found) && found@ == text,
                None => message is None,
            },
    {
        match &shared.error {
            Some(text) => Some(text.clone()),
            None => None,
        }
    }

    /// Stops capturing and releases resources, also where the stream was never started.
    /// Returns the thread to stop, where there is one. Once that is done, the latest frame is
    /// let go with [`SharedState::discard_frame`].
    pub fn stop(&mut self) -> (request: Option<StopRequest<T, C>>)
        ensures
            final(self)@ == old(self)@.after_stop(),
            old(self)@.running ==> request == Some(
                StopRequest {
                    command_tx: old(self)@.command_tx,
                    thread_handle: old(self)@.thread_handle,
                },
            ),
            !old(self)@.running ==> request is None,
            old(self)@.valid() ==> final(self)@.valid(),
    {
        self.fd = None;
        if !self.running {
            return None;
        }
        let command_tx: Option<C> = self.command_tx.take();
        let thread_handle: Option<T> = self.thread_handle.take();
        self.running = false;
        Some(StopRequest { command_tx, thread_handle })
    }
}

/// Law: starting and stopping keep a stream valid.
pub proof fn law_stream_stays_valid<D, T, C>(
    stream: StreamView<D, T, C>,
    spawned: Result<(T, C), Seq<char>>,
)
    requires
        stream.valid(),
    ensures
        stream.after_start(spawned).valid(),
        stream.after_stop().valid(),
{
}

/// Law: a stopped stream cannot be restarted. It has no descriptor left, so that starting it
/// fails, and neither an attempt to start it nor another stop changes it.
pub proof fn law_stopped_stream_stays_stopped<D, T, C>(
    stream: StreamView<D, T, C>,
    spawned: Result<(T, C), Seq<char>>,
)
    requires
        stream.valid(),
    ensures
        ({
            let stopped = stream.after_stop();
            &&& stopped.spent()
            &&& stopped.start_error() == Some(
                ErrorView::PipeWire("File descriptor already consumed"@),
            )
            &&& stopped.after_start(spawned) == stopped
            &&& stopped.after_stop() == stopped
        }),
{
}

/// Law: a stopped stream has no frame for its caller, whatever is in the shared state.
pub proof fn law_stopped_stream_has_no_frame<D, T, C>(
    stream: StreamView<D, T, C>,
    shared: SharedView,
)
    ensures
        latest_frame(stream.after_stop().running, shared) == Ok::<Option<FrameView>, ErrorView>(
            None,
        ),
{
}

/// Law: a stream is started at most once. After an attempt that got as far as the thread, any
/// further attempt fails.
pub proof fn law_descriptor_is_used_once<D, T, C>(
    stream: StreamView<D, T, C>,
    spawned: Result<(T, C), Seq<char>>,
)
    requires
        stream.valid(),
    ensures
        stream.after_start(spawned).fd is None || stream.after_start(spawned) == stream,
        stream.after_start(spawned).start_error() is Some,
{
}

/// Law: an answer to a request for the latest frame is seen as it is.
pub proof fn law_answer_is_its_value(answer: Result<Option<Frame>, CaptureError>)
    ensures
        answer matches Ok(None) ==> answer_view(answer) == Ok::<Option<FrameView>, ErrorView>(None),
        answer matches Err(error) ==> answer_view(answer) == Err::<Option<FrameView>, ErrorView>(
            error@,
        ),
        answer matches Ok(Some(frame)) ==> (answer_view(answer) matches Ok(Some(seen))
            && seen.data == frame.data@ && seen.height == frame.height && seen.width == frame.width
            && seen.channels == frame.channels),
{
}

/// Law: a caller gets the latest frame, all of it and as it is, exactly where the stream runs and
/// a frame and a format are there whose sizes agree. Without any of the first three there is
/// nothing to get; where the sizes do not agree, the error gives both.
pub proof fn law_latest_frame_is_handed_out_whole(running: bool, shared: SharedView)
    ensures
        ({
            let answer = latest_frame(running, shared);
            let there = running && shared.frame is Some && shared.format is Some;
            let data = shared.frame->0;
            let format = shared.format->0;
            let bytes: int = format.width * format.height * 4;
            &&& answer == Ok::<Option<FrameView>, ErrorView>(None) <==> !there
            &&& answer is Ok && there <==> there && bytes <= usize::MAX && data.len() == bytes
            &&& answer matches Ok(Some(frame)) ==> frame.data == data && frame.height
                == format.height && frame.width == format.width && frame.channels == 4
            &&& there && bytes > usize::MAX ==> answer == Err::<Option<FrameView>, ErrorView>(
                ErrorView::PipeWire("Video frame size overflow"@),
            )
            &&& there && bytes <= usize::MAX && data.len() != bytes ==> answer == Err::<
                Option<FrameView>,
                ErrorView,
            >(
                ErrorView::FrameSizeMismatch {
                    expected: bytes as usize,
                    actual: data.len() as usize,
                },
            )
        }),
{
    if let Some(format) = shared.format {
        assert(0 <= format.width * format.height * 4) by (nonlinear_arith)
            requires
                0 <= format.width,
                0 <= format.height,
        ;
    }
}

/// Law: a stream can be started exactly where it does not run and has its descriptor. One that
/// runs says so; one without a descriptor says that it was consumed.
pub proof fn law_start_needs_the_descriptor<D, T, C>(stream: StreamView<D, T, C>)
    ensures
        stream.start_error() is None <==> !stream.running && stream.fd is Some,
        stream.running ==> stream.start_error() == Some(ErrorView::AlreadyStarted),
        !stream.running && stream.fd is None ==> stream.start_error() == Some(
            ErrorView::PipeWire("File descriptor already consumed"@),
        ),
{
}

/// Law: starting hands the descriptor over and takes the thread in, stopping lets all three go,
/// and neither changes the node or the interval.
pub proof fn law_start_and_stop_move_what_they_name<D, T, C>(
    stream: StreamView<D, T, C>,
    thread: T,
    commands: C,
)
    ensures
        ({
            let taken = stream.without_descriptor();
            &&& taken.fd is None && taken.running == stream.running
            &&& taken.thread_handle == stream.thread_handle && taken.command_tx
                == stream.command_tx
            &&& taken.node_id == stream.node_id && taken.capture_interval
                == stream.capture_interval
        }),
        ({
            let started = stream.with_thread(thread, commands);
            &&& started.running && started.thread_handle == Some(thread) && started.command_tx
                == Some(commands) && started.fd == stream.fd
            &&& started.node_id == stream.node_id && started.capture_interval
                == stream.capture_interval
        }),
        ({
            let stopped = stream.after_stop();
            &&& stopped.fd is None && !stopped.running
            &&& stream.running ==> stopped.thread_handle is None && stopped.command_tx is None
            &&& !stream.running ==> stopped.thread_handle == stream.thread_handle
                && stopped.command_tx == stream.command_tx
            &&& stopped.node_id == stream.node_id && stopped.capture_interval
                == stream.capture_interval
        }),
{
}

/// Law: a valid stream has a thread and a command channel exactly while it runs, and no
/// descriptor then.
pub proof fn law_valid_stream_runs_with_its_thread<D, T, C>(stream: StreamView<D, T, C>)
    ensures
        stream.valid() <==> (stream.running == (stream.thread_handle is Some) && stream.running
            == (stream.command_tx is Some) && (stream.running ==> stream.fd is None)),
{
}

} // verus!
