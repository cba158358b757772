//! Window selection through the ScreenCast portal: sessions, errors, and the order of the calls.
use vstd::prelude::*;
use vstd::string::*;

use crate::error::{CaptureError, ErrorView, FailureView, PortalFailure, PortalResponse};
use crate::text::{append_signed, append_truth, append_unsigned, contains_text, same_text};

verus! {

/// How long closing a session may take, in seconds.
pub const CLOSE_TIMEOUT_SECS: u64 = 5;

/// How long asking KWin for its compositing backend may take, in seconds.
pub const COMPOSITOR_TIMEOUT_SECS: u64 = 1;

/// A descriptor: its number, and the owner that closes it when dropped.
pub struct Descriptor<D> {
    pub raw: i32,
    pub owner: D,
}

/// A portal session that keeps the screen capture stream alive.
///
/// `D` owns the descriptor, `S` signals that the session is to be closed, and `R` tells when it
/// has been.
pub struct PortalSession<D, S, R> {
    /// The descriptor of the portal, until the session is closed.
    pub fd: Option<Descriptor<D>>,
    /// PipeWire node ID for the stream.
    pub node_id: u32,
    /// Stream width in pixels, as the portal hints.
    pub width: i32,
    /// Stream height in pixels, as the portal hints.
    pub height: i32,
    /// Signals that the session is to be closed. `None` once it has been.
    pub close_tx: Option<S>,
    /// Tells when the session has been closed.
    pub done_rx: Option<R>,
}

/// The value of a [`PortalSession`].
pub struct SessionView<D, S, R> {
    pub fd: Option<Descriptor<D>>,
    pub node_id: u32,
    pub width: i32,
    pub height: i32,
    pub close_tx: Option<S>,
    pub done_rx: Option<R>,
}

impl<D, S, R> View for PortalSession<D, S, R> {
    type V = SessionView<D, S, R>;

    open spec fn view(&self) -> SessionView<D, S, R> {
        SessionView {
            fd: self.fd,
            node_id: self.node_id,
            width: self.width,
            height: self.height,
            close_tx: self.close_tx,
            done_rx: self.done_rx,
        }
    }
}

impl<D, S, R> SessionView<D, S, R> {
    /// The number of the descriptor, or -1 once it is closed.
    pub open spec fn descriptor(self) -> int {
        match self.fd {
            Some(descriptor) => descriptor.raw as int,
            None => -1,
        }
    }

    /// The session has not been closed.
    pub open spec fn open(self) -> bool {
        self.close_tx is Some
    }

    /// The session after it was closed.
    pub open spec fn closed(self) -> SessionView<D, S, R> {
        if self.open() {
            SessionView { fd: None, close_tx: None, done_rx: None, ..self }
        } else {
            SessionView { fd: None, ..self }
        }
    }

    /// The text that describes the session.
    pub open spec fn description(self) -> Seq<char> {
        "PortalSession(fd="@ + crate::text::decimal(self.descriptor()) + ", node_id="@
            + crate::text::decimal(self.node_id as int) + ", size="@ + crate::text::decimal(
            self.width as int,
        ) + "x"@ + crate::text::decimal(self.height as int) + ", open="@ + crate::text::truth(
            self.open(),
        ) + ")"@
    }
}

/// What closing a session takes: a signal to send, and a notification to wait for.
pub struct CloseRequest<S, R> {
    pub close_tx: S,
    pub done_rx: Option<R>,
}

impl<D, S, R> PortalSession<D, S, R> {
    /// Closes the descriptor. Returns the signal to send and the notification to wait for, unless
    /// the session has been closed before.
    pub fn close(&mut self) -> (request: Option<CloseRequest<S, R>>)
        ensures
            final(self)@ == old(self)@.closed(),
            match old(self)@.close_tx {
                Some(close_tx) => request == Some(
                    CloseRequest { close_tx, done_rx: old(self)@.done_rx },
                ),
                None => request is None,
            },
    {
        self.fd = None;
        match self.close_tx.take() {
            Some(close_tx) => Some(CloseRequest { close_tx, done_rx: self.done_rx.take() }),
            None => None,
        }
    }

    /// The borrowed descriptor, or -1 after the session was closed.
    pub fn fd(&self) -> (fd: i32)
        ensures
            fd == self@.descriptor(),
    {
        match &self.fd {
            Some(descriptor) => descriptor.raw,
            None => -1,
        }
    }

    /// Whether the session is still open.
    pub fn is_open(&self) -> (open: bool)
        ensures
            open == self@.open(),
    {
        self.close_tx.is_some()
    }

    /// The text that describes the session.
    pub fn __repr__(&self) -> (text: String)
        ensures
            text@ == self@.description(),
    {
        let mut text: String = "PortalSession(fd=".to_owned();
        append_signed(&mut text, self.fd());
        text.append(", node_id=");
        append_unsigned(&mut text, self.node_id as u64);
        text.append(", size=");
        append_signed(&mut text, self.width);
        text.append("x");
        append_signed(&mut text, self.height);
        text.append(", open=");
        append_truth(&mut text, self.is_open());
        text.append(")");
        text
    }

    /// The signal to send when the session is dropped without having been closed. Nobody waits
    /// for what comes of it.
    pub fn abandon(&mut self) -> (signal: Option<S>)
        ensures
            signal == old(self)@.close_tx,
            final(self)@ == (SessionView::<D, S, R> { close_tx: None, ..old(self)@ }),
    {
        self.close_tx.take()
    }
}

/// What a completed portal flow gives.
pub struct PortalResult<D, S, R> {
    pub fd: Descriptor<D>,
    pub node_id: u32,
    pub width: i32,
    pub height: i32,
    pub close_tx: S,
    pub done_rx: R,
}

/// Portal-based window selection for screen capture.
pub struct PortalCapture;

impl Default for PortalCapture {
    fn default() -> (capture: PortalCapture)
        ensures
            capture == PortalCapture,
    {
        PortalCapture
    }
}

impl PortalCapture {
    /// Creates a `PortalCapture`.
    pub fn new() -> (capture: PortalCapture)
        ensures
            capture == PortalCapture,
    {
        PortalCapture
    }

    /// Turns the end of a portal flow into what the caller gets: a session, `None` where the
    /// user cancelled, or an error.
    pub fn select_window<D, S, R>(
        &self,
        result: Result<PortalResult<D, S, R>, CaptureError>,
    ) -> (selected: Result<Option<PortalSession<D, S, R>>, CaptureError>)
        ensures
            match result {
                Ok(info) => selected matches Ok(Some(session)) && session@ == (SessionView::<
                    D,
                    S,
                    R,
                > {
                    fd: Some(info.fd),
                    node_id: info.node_id,
                    width: info.width,
                    height: info.height,
                    close_tx: Some(info.close_tx),
                    done_rx: Some(info.done_rx),
                }),
                Err(error) => if error@ is UserCancelled {
                    selected matches Ok(None)
                } else {
                    selected == Err::<Option<PortalSession<D, S, R>>, CaptureError>(error)
                },
            },
    {
        match result {
            Ok(info) => Ok(
                Some(
                    PortalSession {
                        fd: Some(info.fd),
                        node_id: info.node_id,
                        width: info.width,
                        height: info.height,
                        close_tx: Some(info.close_tx),
                        done_rx: Some(info.done_rx),
                    },
                ),
            ),
            Err(CaptureError::UserCancelled) => Ok(None),
            Err(error) => Err(error),
        }
    }
}

/// The error that a failed portal call becomes.
pub open spec fn portal_error_view(stage: Seq<char>, source: FailureView) -> ErrorView {
    if source.response == Some(PortalResponse::Cancelled) {
        ErrorView::UserCancelled
    } else {
        ErrorView::PortalFailed { stage, source }
    }
}

/// The error that a failed portal call becomes: cancellation is told apart from failure.
pub fn portal_error(stage: &'static str, source: PortalFailure) -> (error: CaptureError)
    ensures
        error@ == portal_error_view(stage@, source@),
{
    match source.response {
        Some(PortalResponse::Cancelled) => CaptureError::UserCancelled,
        _ => CaptureError::PortalFailed { stage, source },
    }
}

/// Whether KWin cannot provide a stream with this compositing backend.
pub open spec fn cannot_capture(backend: Seq<char>) -> bool {
    backend == "qpainter"@ || backend == "none"@
}

/// The error that is left once KWin was asked for its compositing backend.
pub open spec fn diagnosed(error: ErrorView, backend: Option<Seq<char>>) -> ErrorView {
    match (error, backend) {
        (
            ErrorView::PortalFailed { stage, source },
            Some(backend),
        ) => if error.unexplained_start_failure() && cannot_capture(backend) {
            ErrorView::UnsupportedCompositor { backend, source }
        } else {
            error
        },
        _ => error,
    }
}

/// The characters of an optional text.
pub open spec fn text_view(text: Option<String>) -> Option<Seq<char>> {
    match text {
        Some(text) => Some(text@),
        None => None,
    }
}

/// Explains a failure by the compositing backend that KWin reports, where it reports one.
///
/// KDE gives no reason when KWin refuses a stream. No other error, and no cancellation, is taken
/// for a problem of the compositor.
pub fn diagnose_portal_error(error: CaptureError, backend: Option<String>) -> (diagnosis:
    CaptureError)
    ensures
        diagnosis@ == diagnosed(error@, text_view(backend)),
{
    if !error.is_unexplained_start_failure() {
        return error;
    }
    match backend {
        Some(backend) => {
            let unsupported: bool = same_text(backend.as_str(), "qpainter") || same_text(
                backend.as_str(),
                "none",
            );
            if unsupported {
                match error {
                    CaptureError::PortalFailed {
                        source,
                        ..
                    } => CaptureError::UnsupportedCompositor { backend, source },
                    other => other,
                }
            } else {
                error
            }
        },
        None => error,
    }
}

/// How the pointer appears in a stream.
#[derive(Clone, Copy, Debug, PartialEq, Eq, Structural)]
pub enum CursorMode {
    Hidden,
    Embedded,
    Metadata,
}

/// What the user may choose from.
#[derive(Clone, Copy, Debug, PartialEq, Eq, Structural)]
pub enum SourceType {
    Monitor,
    Window,
    Virtual,
}

/// How long a permission lasts.
#[derive(Clone, Copy, Debug, PartialEq, Eq, Structural)]
pub enum PersistMode {
    DoNot,
    Application,
    ExplicitlyRevoked,
}

/// What a session is asked to select.
#[derive(Clone, Copy, Debug, PartialEq, Eq, Structural)]
pub struct SourceRequest {
    pub cursor_mode: CursorMode,
    pub source_type: SourceType,
    /// Whether more than one source may be selected.
    pub multiple: bool,
    pub persist_mode: PersistMode,
}

/// The selection of one window, with the pointer drawn into it, for this session alone.
pub fn source_request() -> (request: SourceRequest)
    ensures
        request == (SourceRequest {
            cursor_mode: CursorMode::Embedded,
            source_type: SourceType::Window,
            multiple: false,
            persist_mode: PersistMode::DoNot,
        }),
{
    SourceRequest {
        cursor_mode: CursorMode::Embedded,
        source_type: SourceType::Window,
        multiple: false,
        persist_mode: PersistMode::DoNot,
    }
}

/// A stream that the portal offers.
#[derive(Clone, Copy, Debug)]
pub struct PortalStream {
    pub node_id: u32,
    /// Width and height, where the portal knows them.
    pub size: Option<(i32, i32)>,
}

/// A portal flow: the call that comes next, or its end.
pub enum PortalFlow<D> {
    /// Create the proxy of the ScreenCast interface.
    CreateProxy,
    /// Create a session.
    CreateSession,
    /// Ask for the selection of a source.
    SelectSources,
    /// Read the response to that.
    ReadSelection,
    /// Show the window picker.
    StartPicker,
    /// Read the streams that it gave.
    ReadStreams,
    /// Open the PipeWire remote of the session.
    OpenRemote { node_id: u32, width: i32, height: i32 },
    /// Close the session, since the flow has failed.
    CloseSession { error: CaptureError },
    /// Ask KWin for its compositing backend.
    QueryCompositor { error: CaptureError },
    /// A window was selected.
    Selected { fd: D, node_id: u32, width: i32, height: i32 },
    /// The flow has failed.
    Failed { error: CaptureError },
}

/// The value of a [`PortalFlow`].
pub enum FlowView<D> {
    CreateProxy,
    CreateSession,
    SelectSources,
    ReadSelection,
    StartPicker,
    ReadStreams,
    OpenRemote { node_id: u32, width: i32, height: i32 },
    CloseSession { error: ErrorView },
    QueryCompositor { error: ErrorView },
    Selected { fd: D, node_id: u32, width: i32, height: i32 },
    Failed { error: ErrorView },
}

impl<D> View for PortalFlow<D> {
    type V = FlowView<D>;

    open spec fn view(&self) -> FlowView<D> {
        match self {
            PortalFlow::CreateProxy => FlowView::CreateProxy,
            PortalFlow::CreateSession => FlowView::CreateSession,
            PortalFlow::SelectSources => FlowView::SelectSources,
            PortalFlow::ReadSelection => FlowView::ReadSelection,
            PortalFlow::StartPicker => FlowView::StartPicker,
            PortalFlow::ReadStreams => FlowView::ReadStreams,
            PortalFlow::OpenRemote { node_id, width, height } => FlowView::OpenRemote {
                node_id: *node_id,
                width: *width,
                height: *height,
            },
            PortalFlow::CloseSession { error } => FlowView::CloseSession { error: error@ },
            PortalFlow::QueryCompositor { error } => FlowView::QueryCompositor { error: error@ },
            PortalFlow::Selected { fd, node_id, width, height } => FlowView::Selected {
                fd: *fd,
                node_id: *node_id,
                width: *width,
                height: *height,
            },
            PortalFlow::Failed { error } => FlowView::Failed { error: error@ },
        }
    }
}

/// What came of a call.
pub enum PortalReply<D> {
    /// It went well and gives nothing.
    Done,
    /// It failed.
    Failed(PortalFailure),
    /// The streams of the session.
    Streams(Vec<PortalStream>),
    /// The descriptor of the PipeWire remote.
    Remote(D),
    /// The compositing backend that KWin reports, if it answers.
    Compositor(Option<String>),
}

/// The value of a [`PortalReply`].
pub enum ReplyView<D> {
    Done,
    Failed(FailureView),
    Streams(Seq<PortalStream>),
    Remote(D),
    Compositor(Option<Seq<char>>),
}

impl<D> View for PortalReply<D> {
    type V = ReplyView<D>;

    open spec fn view(&self) -> ReplyView<D> {
        match self {
            PortalReply::Done => ReplyView::Done,
            PortalReply::Failed(failure) => ReplyView::Failed(failure@),
            PortalReply::Streams(streams) => ReplyView::Streams(streams@),
            PortalReply::Remote(fd) => ReplyView::Remote(*fd),
            PortalReply::Compositor(backend) => ReplyView::Compositor(text_view(*backend)),
        }
    }
}

/// The size of a stream: zero by zero where the portal does not know it.
pub open spec fn size_hint(stream: PortalStream) -> (i32, i32) {
    match stream.size {
        Some(size) => size,
        None => (0, 0),
    }
}

impl<D> FlowView<D> {
    /// The name of the portal call that is made, as it appears in errors.
    pub open spec fn stage(self) -> Seq<char> {
        match self {
            FlowView::CreateSession => "CreateSession"@,
            FlowView::SelectSources => "SelectSources"@,
            FlowView::ReadSelection => "SelectSources"@,
            FlowView::StartPicker => "Start"@,
            FlowView::ReadStreams => "Start"@,
            FlowView::OpenRemote { .. } => "OpenPipeWireRemote"@,
            _ => ""@,
        }
    }

    /// A session is open, and a failure has to close it.
    pub open spec fn holds_session(self) -> bool {
        match self {
            FlowView::SelectSources => true,
            FlowView::ReadSelection => true,
            FlowView::StartPicker => true,
            FlowView::ReadStreams => true,
            FlowView::OpenRemote { .. } => true,
            _ => false,
        }
    }

    /// The flow is over.
    pub open spec fn over(self) -> bool {
        self is Selected || self is Failed
    }

    /// Whether a reply is one that the call can have.
    pub open spec fn answered_by(self, reply: ReplyView<D>) -> bool {
        match self {
            FlowView::CreateProxy => reply is Done || reply is Failed,
            FlowView::CreateSession => reply is Done || reply is Failed,
            FlowView::SelectSources => reply is Done || reply is Failed,
            FlowView::ReadSelection => reply is Done || reply is Failed,
            FlowView::StartPicker => reply is Done || reply is Failed,
            FlowView::ReadStreams => reply is Streams || reply is Failed,
            FlowView::OpenRemote { .. } => reply is Remote || reply is Failed,
            FlowView::CloseSession { .. } => reply is Done || reply is Failed,
            FlowView::QueryCompositor { .. } => reply is Compositor,
            _ => false,
        }
    }

    /// The flow after a reply. One that the call cannot have leaves it as it is.
    pub open spec fn next(self, reply: ReplyView<D>) -> FlowView<D> {
        match (self, reply) {
            (FlowView::CreateProxy, ReplyView::Done) => FlowView::CreateSession,
            (FlowView::CreateProxy, ReplyView::Failed(failure)) => FlowView::Failed {
                error: ErrorView::PortalNotAvailable(failure.message),
            },
            (FlowView::CreateSession, ReplyView::Done) => FlowView::SelectSources,
            (FlowView::CreateSession, ReplyView::Failed(failure)) => FlowView::Failed {
                error: portal_error_view(self.stage(), failure),
            },
            (FlowView::SelectSources, ReplyView::Done) => FlowView::ReadSelection,
            (FlowView::ReadSelection, ReplyView::Done) => FlowView::StartPicker,
            (FlowView::StartPicker, ReplyView::Done) => FlowView::ReadStreams,
            (FlowView::ReadStreams, ReplyView::Streams(streams)) => if streams.len() == 0 {
                FlowView::CloseSession { error: ErrorView::NoStream }
            } else {
                FlowView::OpenRemote {
                    node_id: streams[0].node_id,
                    width: size_hint(streams[0]).0,
                    height: size_hint(streams[0]).1,
                }
            },
            (
                FlowView::OpenRemote { node_id, width, height },
                ReplyView::Remote(fd),
            ) => FlowView::Selected { fd, node_id, width, height },
            (FlowView::CloseSession { error }, ReplyView::Done) => after_closing(error),
            (FlowView::CloseSession { error }, ReplyView::Failed(_)) => after_closing(error),
            (
                FlowView::QueryCompositor { error },
                ReplyView::Compositor(backend),
            ) => FlowView::Failed { error: diagnosed(error, backend) },
            (_, ReplyView::Failed(failure)) => if self.holds_session() {
                FlowView::CloseSession { error: portal_error_view(self.stage(), failure) }
            } else {
                self
            },
            _ => self,
        }
    }

    /// How many calls are left at most.
    pub open spec fn remaining(self) -> nat {
        match self {
            FlowView::CreateProxy => 9,
            FlowView::CreateSession => 8,
            FlowView::SelectSources => 7,
            FlowView::ReadSelection => 6,
            FlowView::StartPicker => 5,
            FlowView::ReadStreams => 4,
            FlowView::OpenRemote { .. } => 3,
            FlowView::CloseSession { .. } => 2,
            FlowView::QueryCompositor { .. } => 1,
            FlowView::Selected { .. } => 0,
            FlowView::Failed { .. } => 0,
        }
    }
}

/// What follows once a session was closed because of an error: only a start that failed without
/// a reason is looked into.
pub open spec fn after_closing<D>(error: ErrorView) -> FlowView<D> {
    if error.unexplained_start_failure() {
        FlowView::QueryCompositor { error }
    } else {
        FlowView::Failed { error }
    }
}

/// What follows once a session was closed because of an error.
fn session_closed<D>(error: CaptureError) -> (flow: PortalFlow<D>)
    ensures
        flow@ == after_closing::<D>(error@),
{
    if error.is_unexplained_start_failure() {
        PortalFlow::QueryCompositor { error }
    } else {
        PortalFlow::Failed { error }
    }
}

/// The flow after a call with an open session has failed.
fn session_failed<D>(stage: &'static str, failure: PortalFailure) -> (flow: PortalFlow<D>)
    ensures
        flow@ == (FlowView::<D>::CloseSession { error: portal_error_view(stage@, failure@) }),
{
    PortalFlow::CloseSession { error: portal_error(stage, failure) }
}

/// Advances a portal flow by the reply to its call.
///
/// The session is kept until every step has succeeded, so that every failure closes it,
/// cancellation included.
pub fn run_portal_flow<D>(flow: PortalFlow<D>, reply: PortalReply<D>) -> (next: PortalFlow<D>)
    ensures
        next@ == flow@.next(reply@),
{
    match (flow, reply) {
        (PortalFlow::CreateProxy, PortalReply::Done) => PortalFlow::CreateSession,
        (PortalFlow::CreateProxy, PortalReply::Failed(failure)) => PortalFlow::Failed {
            error: CaptureError::PortalNotAvailable(failure.message),
        },
        (PortalFlow::CreateSession, PortalReply::Done) => PortalFlow::SelectSources,
        (PortalFlow::CreateSession, PortalReply::Failed(failure)) => PortalFlow::Failed {
            error: portal_error("CreateSession", failure),
        },
        (PortalFlow::SelectSources, PortalReply::Done) => PortalFlow::ReadSelection,
        (PortalFlow::SelectSources, PortalReply::Failed(failure)) => session_failed(
            "SelectSources",
            failure,
        ),
        (PortalFlow::ReadSelection, PortalReply::Done) => PortalFlow::StartPicker,
        (PortalFlow::ReadSelection, PortalReply::Failed(failure)) => session_failed(
            "SelectSources",
            failure,
        ),
        (PortalFlow::StartPicker, PortalReply::Done) => PortalFlow::ReadStreams,
        (PortalFlow::StartPicker, PortalReply::Failed(failure)) => session_failed(
            "Start",
            failure,
        ),
        (PortalFlow::ReadStreams, PortalReply::Streams(streams)) => {
            if streams.len() == 0 {
                PortalFlow::CloseSession { error: CaptureError::NoStream }
            } else {
                let (width, height): (i32, i32) = match streams[0].size {
                    Some(size) => size,
                    None => (0, 0),
                };
                PortalFlow::OpenRemote { node_id: streams[0].node_id, width, height }
            }
        },
        (PortalFlow::ReadStreams, PortalReply::Failed(failure)) => session_failed(
            "Start",
            failure,
        ),
        (
            PortalFlow::OpenRemote { node_id, width, height },
            PortalReply::Remote(fd),
        ) => PortalFlow::Selected { fd, node_id, width, height },
        (PortalFlow::OpenRemote { .. }, PortalReply::Failed(failure)) => session_failed(
            "OpenPipeWireRemote",
            failure,
        ),
        (PortalFlow::CloseSession { error }, PortalReply::Done) => session_closed(error),
        (PortalFlow::CloseSession { error }, PortalReply::Failed(_)) => session_closed(error),
        (
            PortalFlow::QueryCompositor { error },
            PortalReply::Compositor(backend),
        ) => PortalFlow::Failed { error: diagnose_portal_error(error, backend) },
        (flow, _) => flow,
    }
}

/// Whether introspection data lists the ScreenCast interface.
pub open spec fn lists_screencast(introspection: Option<&str>) -> bool {
    introspection matches Some(xml) && crate::text::has_run(
        xml@,
        "org.freedesktop.portal.ScreenCast"@,
    )
}

/// Whether the introspection data of the desktop portal, where it could be read, lists the
/// ScreenCast interface.
pub fn check_screencast_portal(introspection: Option<&str>) -> (available: bool)
    ensures
        available == lists_screencast(introspection),
        available <==> (introspection matches Some(xml) && crate::text::has_run(
            xml@,
            "org.freedesktop.portal.ScreenCast"@,
        )),
{
    match introspection {
        Some(xml) => contains_text(xml, "org.freedesktop.portal.ScreenCast"),
        None => false,
    }
}

/// Whether the ScreenCast portal is available, as far as that is known.
///
/// It is found out once: the answer does not change during the lifetime of a process.
pub struct Availability {
    pub known: Option<bool>,
}

impl Availability {
    /// The answer that was given before, or else what the introspection data says.
    pub open spec fn answer(self, introspection: Option<&str>) -> bool {
        match self.known {
            Some(answer) => answer,
            None => lists_screencast(introspection),
        }
    }

    /// What is known once the question was asked.
    pub open spec fn asked(self, introspection: Option<&str>) -> Availability {
        Availability { known: Some(self.answer(introspection)) }
    }

    /// Nothing is known yet.
    pub fn new() -> (availability: Availability)
        ensures
            availability.known is None,
    {
        Availability { known: None }
    }

    /// Whether the portal is available: the answer that was given before, or else what the
    /// introspection data says, which becomes the answer for good.
    pub fn is_available(&mut self, introspection: Option<&str>) -> (available: bool)
        ensures
            available == old(self).answer(introspection),
            *final(self) == old(self).asked(introspection),
            old(self).known matches Some(answer) ==> available == answer,
            old(self).known is None ==> (available <==> (introspection matches Some(xml)
                && crate::text::has_run(xml@, "org.freedesktop.portal.ScreenCast"@))),
            final(self).known == Some(available),
    {
        match self.known {
            Some(answer) => answer,
            None => {
                let answer: bool = check_screencast_portal(introspection);
                self.known = Some(answer);
                answer
            },
        }
    }
}

/// Law: the availability of the portal is found out once. Whatever the introspection data says
/// later, the first answer is given again, and nothing more is learned.
pub proof fn law_first_answer_stays(
    availability: Availability,
    first: Option<&str>,
    later: Option<&str>,
)
    ensures
        availability.asked(first).answer(later) == availability.answer(first),
        availability.asked(first).asked(later) == availability.asked(first),
{
}

/// Law: closing a session more than once is safe. After the first time the descriptor is gone
/// and the session is not open, and closing it again changes nothing and asks for nothing.
pub proof fn law_closing_twice_is_closing_once<D, S, R>(session: SessionView<D, S, R>)
    ensures
        session.closed().descriptor() == -1,
        !session.closed().open(),
        session.closed().closed() == session.closed(),
{
}

/// Law: a reply that answers the call brings the flow closer to its end, and within nine calls
/// it is over.
pub proof fn law_flow_makes_progress<D>(flow: FlowView<D>, reply: ReplyView<D>)
    ensures
        flow.remaining() <= 9,
        flow.remaining() == 0 <==> flow.over(),
        flow.answered_by(reply) ==> flow.next(reply).remaining() < flow.remaining(),
        !flow.answered_by(reply) ==> flow.next(reply) == flow,
{
}

/// Law: a flow that holds a session never fails without closing it first.
pub proof fn law_failure_closes_the_session<D>(flow: FlowView<D>, reply: ReplyView<D>)
    requires
        flow.holds_session(),
    ensures
        !(flow.next(reply) is Failed),
        flow.next(reply).holds_session() || flow.next(reply) is Selected || flow.next(
            reply,
        ) is CloseSession,
        reply is Failed ==> flow.next(reply) is CloseSession,
{
}

/// Where a flow is after the replies to its calls.
pub open spec fn flow_history<D>(replies: Seq<ReplyView<D>>) -> FlowView<D>
    decreases replies.len(),
{
    if replies.len() == 0 {
        FlowView::CreateProxy
    } else {
        flow_history(replies.drop_last()).next(replies.last())
    }
}

/// Whether a session is left open by the calls that the replies answer: one was created, and no
/// call was made to close it.
pub open spec fn session_open<D>(replies: Seq<ReplyView<D>>) -> bool
    decreases replies.len(),
{
    if replies.len() == 0 {
        false
    } else {
        let flow = flow_history(replies.drop_last());
        if flow is CreateSession && replies.last() is Done {
            true
        } else if flow is CloseSession && flow.answered_by(replies.last()) {
            false
        } else {
            session_open(replies.drop_last())
        }
    }
}

/// Law: whatever the replies, a session is left open exactly while the flow works with it or is
/// about to close it, and after a window was selected. In particular, a flow that has failed has
/// asked for its session to be closed.
pub proof fn law_no_session_is_leaked<D>(replies: Seq<ReplyView<D>>)
    ensures
        session_open(replies) <==> {
            let flow = flow_history(replies);
            flow.holds_session() || flow is CloseSession || flow is Selected
        },
        flow_history(replies) is Failed ==> !session_open(replies),
    decreases replies.len(),
{
    if replies.len() > 0 {
        law_no_session_is_leaked(replies.drop_last());
    }
}

/// Law: a cancellation ends the flow as one, at whatever call it comes from the creation of the
/// session on. KWin is not asked about it.
pub proof fn law_cancellation_stays_cancellation<D>(
    flow: FlowView<D>,
    failure: FailureView,
    closing: ReplyView<D>,
)
    requires
        flow.holds_session(),
        failure.response == Some(PortalResponse::Cancelled),
        closing is Done || closing is Failed,
    ensures
        flow.next(ReplyView::Failed(failure)) == (FlowView::<D>::CloseSession {
            error: ErrorView::UserCancelled,
        }),
        flow.next(ReplyView::Failed(failure)).next(closing) == (FlowView::<D>::Failed {
            error: ErrorView::UserCancelled,
        }),
        FlowView::<D>::CreateSession.next(ReplyView::Failed(failure)) == (FlowView::<D>::Failed {
            error: ErrorView::UserCancelled,
        }),
{
}

/// Law: KWin is asked only where the start of a stream failed without a reason.
pub proof fn law_only_unexplained_starts_are_diagnosed<D>(flow: FlowView<D>, reply: ReplyView<D>)
    requires
        !(flow is QueryCompositor),
        flow.next(reply) is QueryCompositor,
    ensures
        flow matches FlowView::CloseSession { error } && error.unexplained_start_failure(),
{
}

/// Law: an error is blamed on the compositor exactly where the start of a stream failed without
/// a reason and KWin confirms a backend that cannot be captured. The portal's own failure is
/// kept in it. In every other case, no answer from KWin included, the error stays as it was.
pub proof fn law_diagnosis_needs_confirmation(error: ErrorView, backend: Option<Seq<char>>)
    ensures
        error.unexplained_start_failure() && (backend matches Some(name) && cannot_capture(name))
            ==> diagnosed(error, backend) == (ErrorView::UnsupportedCompositor {
            backend: backend->0,
            source: error->PortalFailed_source,
        }),
        !(error.unexplained_start_failure() && (backend matches Some(name) && cannot_capture(
            name,
        ))) ==> diagnosed(error, backend) == error,
{
}

/// Law: the portal is available exactly where its introspection data could be read and is
/// something, the full name of the ScreenCast interface, and something more. Data without that
/// name does not count, whatever other interface it lists.
pub proof fn law_available_where_screencast_is_named(
    introspection: Option<&str>,
    availability: Availability,
)
    ensures
        lists_screencast(introspection) <==> (introspection matches Some(xml) && exists|
            head: Seq<char>,
            tail: Seq<char>,
        |
            xml@ == #[trigger] (head + "org.freedesktop.portal.ScreenCast"@ + tail)),
        availability.known is None ==> availability.answer(introspection) == lists_screencast(
            introspection,
        ),
        availability.known matches Some(answer) ==> availability.answer(introspection) == answer,
        availability.asked(introspection).known == Some(availability.answer(introspection)),
{
    if let Some(xml) = introspection {
        crate::text::law_run_is_a_part(xml@, "org.freedesktop.portal.ScreenCast"@);
    }
}

/// Law: the compositor is blamed for the backends `qpainter` and `none` and for no other, and only
/// where the start of a stream failed with another response than a cancellation. Then the backend
/// and the portal's failure are kept; in all other cases the error is.
pub proof fn law_only_qpainter_and_none_are_blamed(error: ErrorView, backend: Option<Seq<char>>)
    ensures
        ({
            let unexplained = error is PortalFailed && error->PortalFailed_stage == "Start"@
                && error->PortalFailed_source.response == Some(PortalResponse::Other);
            let blamed = unexplained && (backend == Some("qpainter"@) || backend == Some("none"@));
            &&& blamed ==> diagnosed(error, backend) == (ErrorView::UnsupportedCompositor {
                backend: backend->0,
                source: error->PortalFailed_source,
            })
            &&& !blamed ==> diagnosed(error, backend) == error
            &&& !(error is UnsupportedCompositor) ==> (diagnosed(
                error,
                backend,
            ) is UnsupportedCompositor <==> blamed)
        }),
{
}

/// Law: a failed portal call is a cancellation exactly where the portal says so. Any other failure
/// keeps its step and its cause.
pub proof fn law_failed_call_keeps_step_and_cause(stage: Seq<char>, source: FailureView)
    ensures
        source.response == Some(PortalResponse::Cancelled) ==> portal_error_view(
            stage,
            source,
        ) is UserCancelled,
        source.response != Some(PortalResponse::Cancelled) ==> portal_error_view(stage, source)
            == (ErrorView::PortalFailed { stage, source }),
{
}

/// Law: replies, flows and failures are their values, case by case.
pub proof fn law_replies_and_flows_are_their_values<D>(
    reply: PortalReply<D>,
    flow: PortalFlow<D>,
    failure: PortalFailure,
    text: Option<String>,
)
    ensures
        failure@.response == failure.response && failure@.message == failure.message@,
        text is None <==> text_view(text) is None,
        text matches Some(characters) ==> text_view(text) == Some(characters@),
        match reply {
            PortalReply::Done => reply@ is Done,
            PortalReply::Failed(failed) => reply@ == ReplyView::<D>::Failed(failed@),
            PortalReply::Streams(streams) => reply@ == ReplyView::<D>::Streams(streams@),
            PortalReply::Remote(fd) => reply@ == ReplyView::<D>::Remote(fd),
            PortalReply::Compositor(backend) => reply@ == ReplyView::<D>::Compositor(
                text_view(backend),
            ),
        },
        match flow {
            PortalFlow::CreateProxy => flow@ is CreateProxy,
            PortalFlow::CreateSession => flow@ is CreateSession,
            PortalFlow::SelectSources => flow@ is SelectSources,
            PortalFlow::ReadSelection => flow@ is ReadSelection,
            PortalFlow::StartPicker => flow@ is StartPicker,
            PortalFlow::ReadStreams => flow@ is ReadStreams,
            PortalFlow::OpenRemote { node_id, width, height } => flow@ == (FlowView::<
                D,
            >::OpenRemote { node_id, width, height }),
            PortalFlow::CloseSession { error } => flow@ == (FlowView::<D>::CloseSession {
                error: error@,
            }),
            PortalFlow::QueryCompositor { error } => flow@ == (FlowView::<D>::QueryCompositor {
                error: error@,
            }),
            PortalFlow::Selected { fd, node_id, width, height } => flow@ == (FlowView::<
                D,
            >::Selected { fd, node_id, width, height }),
            PortalFlow::Failed { error } => flow@ == (FlowView::<D>::Failed { error: error@ }),
        },
{
}

/// Law: a flow that goes well creates a proxy and a session, has a window selected and picked, and
/// opens the remote of the first stream, with the size that the portal gives or else zero by zero.
pub proof fn law_successful_flow_selects_the_first_stream<D>(streams: Seq<PortalStream>, fd: D)
    requires
        streams.len() > 0,
    ensures
        ({
            let done = ReplyView::<D>::Done;
            let (width, height): (i32, i32) = match streams[0].size {
                Some(size) => size,
                None => (0i32, 0i32),
            };
            let node_id = streams[0].node_id;
            &&& FlowView::<D>::CreateProxy.next(done) is CreateSession
            &&& FlowView::<D>::CreateSession.next(done) is SelectSources
            &&& FlowView::<D>::SelectSources.next(done) is ReadSelection
            &&& FlowView::<D>::ReadSelection.next(done) is StartPicker
            &&& FlowView::<D>::StartPicker.next(done) is ReadStreams
            &&& FlowView::<D>::ReadStreams.next(ReplyView::Streams(streams)) == (FlowView::<
                D,
            >::OpenRemote { node_id, width, height })
            &&& (FlowView::<D>::OpenRemote { node_id, width, height }).next(ReplyView::Remote(fd))
                == (FlowView::<D>::Selected { fd, node_id, width, height })
        }),
{
}

/// Law: a failed flow ends in the error of the call that failed, under the name of its step. A
/// portal without the interface is not available; a picker without a stream gives none; a
/// cancellation is one at every step.
pub proof fn law_failed_flow_names_its_step<D>(
    failure: FailureView,
    node_id: u32,
    width: i32,
    height: i32,
)
    ensures
        ({
            let failed = ReplyView::<D>::Failed(failure);
            let cancelled = failure.response == Some(PortalResponse::Cancelled);
            let at = |stage: Seq<char>|
                if cancelled {
                    ErrorView::UserCancelled
                } else {
                    ErrorView::PortalFailed { stage, source: failure }
                };
            &&& FlowView::<D>::CreateProxy.next(failed) == (FlowView::<D>::Failed {
                error: ErrorView::PortalNotAvailable(failure.message),
            })
            &&& FlowView::<D>::CreateSession.next(failed) == (FlowView::<D>::Failed {
                error: at("CreateSession"@),
            })
            &&& FlowView::<D>::SelectSources.next(failed) == (FlowView::<D>::CloseSession {
                error: at("SelectSources"@),
            })
            &&& FlowView::<D>::ReadSelection.next(failed) == (FlowView::<D>::CloseSession {
                error: at("SelectSources"@),
            })
            &&& FlowView::<D>::StartPicker.next(failed) == (FlowView::<D>::CloseSession {
                error: at("Start"@),
            })
            &&& FlowView::<D>::ReadStreams.next(failed) == (FlowView::<D>::CloseSession {
                error: at("Start"@),
            })
            &&& (FlowView::<D>::OpenRemote { node_id, width, height }).next(failed) == (FlowView::<
                D,
            >::CloseSession { error: at("OpenPipeWireRemote"@) })
            &&& FlowView::<D>::ReadStreams.next(ReplyView::Streams(Seq::empty())) == (FlowView::<
                D,
            >::CloseSession { error: ErrorView::NoStream })
        }),
{
}

/// Law: once its session is closed, well or not, a failed flow is over with its error, unless the
/// start failed without a reason: then KWin is asked first, and its answer decides.
pub proof fn law_closed_flow_ends_in_its_error<D>(
    error: ErrorView,
    failure: FailureView,
    backend: Option<Seq<char>>,
)
    ensures
        ({
            let closing = FlowView::<D>::CloseSession { error };
            let unexplained = error is PortalFailed && error->PortalFailed_stage == "Start"@
                && error->PortalFailed_source.response == Some(PortalResponse::Other);
            let after = if unexplained {
                FlowView::<D>::QueryCompositor { error }
            } else {
                FlowView::<D>::Failed { error }
            };
            &&& closing.next(ReplyView::Done) == after
            &&& closing.next(ReplyView::Failed(failure)) == after
            &&& (FlowView::<D>::QueryCompositor { error }).next(ReplyView::Compositor(backend)) == (
            FlowView::<D>::Failed { error: diagnosed(error, backend) })
        }),
{
}

/// Law: a flow waits for a reply that its call can have. What the other calls give, and anything
/// once it is over, leaves it where it is.
pub proof fn law_flow_waits_for_its_reply<D>(flow: FlowView<D>, reply: ReplyView<D>)
    ensures
        flow.next(reply) != flow ==> match flow {
            FlowView::ReadStreams => reply is Streams || reply is Failed,
            FlowView::OpenRemote { .. } => reply is Remote || reply is Failed,
            FlowView::QueryCompositor { .. } => reply is Compositor,
            FlowView::Selected { .. } => false,
            FlowView::Failed { .. } => false,
            _ => reply is Done || reply is Failed,
        },
        flow.over() <==> flow is Selected || flow is Failed,
        flow.holds_session() <==> flow is SelectSources || flow is ReadSelection || flow
            is StartPicker || flow is ReadStreams || flow is OpenRemote,
{
}

/// Law: closing a session closes its descriptor and uses its channels up, and leaves what the
/// portal said of the stream.
pub proof fn law_closed_session_keeps_its_stream<D, S, R>(session: SessionView<D, S, R>)
    ensures
        session.open() <==> session.close_tx is Some,
        session.fd is None ==> session.descriptor() == -1,
        session.fd matches Some(descriptor) ==> session.descriptor() == descriptor.raw,
        ({
            let closed = session.closed();
            &&& closed.fd is None && closed.close_tx is None
            &&& closed.done_rx == if session.close_tx is Some {
                None
            } else {
                session.done_rx
            }
            &&& closed.node_id == session.node_id && closed.width == session.width
                && closed.height == session.height
        }),
{
}

/// Law: a session describes its descriptor, its node, its size and whether it is open.
pub proof fn law_session_description_in_full<D, S, R>(session: SessionView<D, S, R>)
    ensures
        session.description() == "PortalSession(fd="@ + crate::text::decimal(
            match session.fd {
                Some(descriptor) => descriptor.raw as int,
                None => -1int,
            },
        ) + ", node_id="@ + crate::text::decimal(session.node_id as int) + ", size="@
            + crate::text::decimal(session.width as int) + "x"@ + crate::text::decimal(
            session.height as int,
        ) + ", open="@ + (if session.close_tx is Some {
            "true"@
        } else {
            "false"@
        }) + ")"@,
{
    crate::text::law_truth_is_a_word();
}

/// Law: a session is its value, field by field.
pub proof fn law_session_is_its_value<D, S, R>(session: PortalSession<D, S, R>)
    ensures
        session@.fd == session.fd,
        session@.node_id == session.node_id,
        session@.width == session.width,
        session@.height == session.height,
        session@.close_tx == session.close_tx,
        session@.done_rx == session.done_rx,
{
}

/// Law: closing may take five seconds, and asking KWin one.
pub proof fn law_waiting_is_bounded()
    ensures
        CLOSE_TIMEOUT_SECS == 5,
        COMPOSITOR_TIMEOUT_SECS == 1,
{
}

} // verus!
