//! Errors of capture operations, and the exceptions that they become.
use vstd::prelude::*;
use vstd::string::*;

use crate::text::{append_unsigned, same_text};

verus! {

/// What a portal answers to a request that it does not grant.
#[derive(Clone, Copy, Debug, PartialEq, Eq, Structural)]
pub enum PortalResponse {
    /// The user dismissed the dialog.
    Cancelled,
    /// The request ended in some other way.
    Other,
}

/// A failed portal call.
#[derive(Debug)]
pub struct PortalFailure {
    /// The response of the portal, where the failure is one.
    pub response: Option<PortalResponse>,
    /// What the failure says of itself.
    pub message: String,
}

/// The value of a [`PortalFailure`].
pub struct FailureView {
    pub response: Option<PortalResponse>,
    pub message: Seq<char>,
}

impl View for PortalFailure {
    type V = FailureView;

    open spec fn view(&self) -> FailureView {
        FailureView { response: self.response, message: self.message@ }
    }
}

/// Errors that can occur during capture operations.
#[derive(Debug)]
pub enum CaptureError {
    PortalNotAvailable(String),
    SessionFailed(String),
    PortalFailed { stage: &'static str, source: PortalFailure },
    UnsupportedCompositor { backend: String, source: PortalFailure },
    UserCancelled,
    NoStream,
    PipeWire(String),
    DBus(String),
    AlreadyStarted,
    ThreadSpawnFailed(String),
    FrameSizeMismatch { expected: usize, actual: usize },
}

/// The value of a [`CaptureError`].
pub enum ErrorView {
    PortalNotAvailable(Seq<char>),
    SessionFailed(Seq<char>),
    PortalFailed { stage: Seq<char>, source: FailureView },
    UnsupportedCompositor { backend: Seq<char>, source: FailureView },
    UserCancelled,
    NoStream,
    PipeWire(Seq<char>),
    DBus(Seq<char>),
    AlreadyStarted,
    ThreadSpawnFailed(Seq<char>),
    FrameSizeMismatch { expected: usize, actual: usize },
}

impl View for CaptureError {
    type V = ErrorView;

    open spec fn view(&self) -> ErrorView {
        match self {
            CaptureError::PortalNotAvailable(reason) => ErrorView::PortalNotAvailable(reason@),
            CaptureError::SessionFailed(reason) => ErrorView::SessionFailed(reason@),
            CaptureError::PortalFailed { stage, source } => ErrorView::PortalFailed {
                stage: stage@,
                source: source@,
            },
            CaptureError::UnsupportedCompositor {
                backend,
                source,
            } => ErrorView::UnsupportedCompositor { backend: backend@, source: source@ },
            CaptureError::UserCancelled => ErrorView::UserCancelled,
            CaptureError::NoStream => ErrorView::NoStream,
            CaptureError::PipeWire(reason) => ErrorView::PipeWire(reason@),
            CaptureError::DBus(reason) => ErrorView::DBus(reason@),
            CaptureError::AlreadyStarted => ErrorView::AlreadyStarted,
            CaptureError::ThreadSpawnFailed(reason) => ErrorView::ThreadSpawnFailed(reason@),
            CaptureError::FrameSizeMismatch { expected, actual } => ErrorView::FrameSizeMismatch {
                expected: *expected,
                actual: *actual,
            },
        }
    }
}

impl ErrorView {
    /// The text that the error shows to a caller.
    pub open spec fn message(self) -> Seq<char> {
        match self {
            ErrorView::PortalNotAvailable(reason) => "Portal not available: "@ + reason,
            ErrorView::SessionFailed(reason) => "Session creation failed: "@ + reason,
            ErrorView::PortalFailed { stage, source } => "Portal "@ + stage + " failed: "@
                + source.message,
            ErrorView::UnsupportedCompositor { backend, source } =>
            "KDE screen capture requires OpenGL compositing; KWin reports '"@ + backend
                + "'. Update KDE and your graphics drivers, then log out and back in. If the problem persists, check KWin's logs or use an X11 desktop session.\nPortal Start failed: "@
                + source.message,
            ErrorView::UserCancelled => "User cancelled window selection"@,
            ErrorView::NoStream => "No stream available"@,
            ErrorView::PipeWire(reason) => "PipeWire error: "@ + reason,
            ErrorView::DBus(reason) => "D-Bus error: "@ + reason,
            ErrorView::AlreadyStarted => "Stream already started"@,
            ErrorView::ThreadSpawnFailed(reason) => "Failed to spawn thread: "@ + reason,
            ErrorView::FrameSizeMismatch { expected, actual } => "Frame size mismatch: expected "@
                + crate::text::decimal(expected as int) + ", got "@ + crate::text::decimal(
                actual as int,
            ),
        }
    }
}

/// The class of the exception that an error is raised as.
#[derive(Clone, Copy, Debug, PartialEq, Eq, Structural)]
pub enum ExceptionClass {
    /// Python's `RuntimeError`.
    RuntimeError,
    /// The subclass of `RuntimeError` for a compositor that cannot be captured.
    UnsupportedCompositorError,
}

/// Two texts put together.
fn joined(head: &str, tail: &str) -> (text: String)
    ensures
        text@ == head@ + tail@,
{
    head.to_owned().concat(tail)
}

impl CaptureError {
    /// The text that the error shows to a caller.
    pub fn to_string(&self) -> (text: String)
        ensures
            text@ == self@.message(),
    {
        match self {
            CaptureError::PortalNotAvailable(reason) => joined(
                "Portal not available: ",
                reason.as_str(),
            ),
            CaptureError::SessionFailed(reason) => joined(
                "Session creation failed: ",
                reason.as_str(),
            ),
            CaptureError::PortalFailed { stage, source } => joined("Portal ", stage).concat(
                " failed: ",
            ).concat(source.message.as_str()),
            CaptureError::UnsupportedCompositor { backend, source } => joined(
                "KDE screen capture requires OpenGL compositing; KWin reports '",
                backend.as_str(),
            ).concat(
                "'. Update KDE and your graphics drivers, then log out and back in. If the problem persists, check KWin's logs or use an X11 desktop session.\nPortal Start failed: ",
            ).concat(source.message.as_str()),
            CaptureError::UserCancelled => "User cancelled window selection".to_owned(),
            CaptureError::NoStream => "No stream available".to_owned(),
            CaptureError::PipeWire(reason) => joined("PipeWire error: ", reason.as_str()),
            CaptureError::DBus(reason) => joined("D-Bus error: ", reason.as_str()),
            CaptureError::AlreadyStarted => "Stream already started".to_owned(),
            CaptureError::ThreadSpawnFailed(reason) => joined(
                "Failed to spawn thread: ",
                reason.as_str(),
            ),
            CaptureError::FrameSizeMismatch { expected, actual } => {
                let mut text: String = "Frame size mismatch: expected ".to_owned();
                append_unsigned(&mut text, *expected as u64);
                text.append(", got ");
                append_unsigned(&mut text, *actual as u64);
                text
            },
        }
    }

    /// The exception that the error is raised as: its class, and its text as the argument.
    pub fn exception(&self) -> (raised: (ExceptionClass, String))
        ensures
            raised.0 == ExceptionClass::UnsupportedCompositorError
                <==> self@ is UnsupportedCompositor,
            raised.0 == ExceptionClass::RuntimeError <==> !(self@ is UnsupportedCompositor),
            raised.1@ == self@.message(),
    {
        let class: ExceptionClass = match self {
            CaptureError::UnsupportedCompositor {
                ..
            } => ExceptionClass::UnsupportedCompositorError,
            _ => ExceptionClass::RuntimeError,
        };
        (class, self.to_string())
    }

    /// Whether the portal refused to start a stream without saying why.
    pub fn is_unexplained_start_failure(&self) -> (unexplained: bool)
        ensures
            unexplained == self@.unexplained_start_failure(),
    {
        match self {
            CaptureError::PortalFailed { stage, source } => match source.response {
                Some(PortalResponse::Other) => same_text(stage, "Start"),
                _ => false,
            },
            _ => false,
        }
    }
}

impl ErrorView {
    /// The portal refused to start a stream and gave no reason.
    pub open spec fn unexplained_start_failure(self) -> bool {
        self matches ErrorView::PortalFailed { stage, source } && stage == "Start"@
            && source.response == Some(PortalResponse::Other)
    }
}

/// What stands between two texts stands in the whole.
proof fn lemma_middle_stands(head: Seq<char>, middle: Seq<char>, tail: Seq<char>)
    ensures
        crate::text::has_run(head + middle + tail, middle),
{
    let whole = head + middle + tail;
    assert(whole.subrange(head.len() as int, (head.len() + middle.len()) as int) =~= middle);
    assert(crate::text::run_at(whole, middle, head.len() as int));
}

/// The advice on an unsupported compositor closes with the words of a failed start.
proof fn lemma_start_failure_is_quoted()
    ensures
        "'. Update KDE and your graphics drivers, then log out and back in. If the problem persists, check KWin's logs or use an X11 desktop session.\nPortal Start failed: "@
            == "'. Update KDE and your graphics drivers, then log out and back in. If the problem persists, check KWin's logs or use an X11 desktop session.\n"@
            + ("Portal "@ + "Start"@ + " failed: "@),
{
    reveal_strlit(
        "'. Update KDE and your graphics drivers, then log out and back in. If the problem persists, check KWin's logs or use an X11 desktop session.\nPortal Start failed: ",
    );
    reveal_strlit(
        "'. Update KDE and your graphics drivers, then log out and back in. If the problem persists, check KWin's logs or use an X11 desktop session.\n",
    );
    reveal_strlit("Portal ");
    reveal_strlit("Start");
    reveal_strlit(" failed: ");
    assert("'. Update KDE and your graphics drivers, then log out and back in. If the problem persists, check KWin's logs or use an X11 desktop session.\nPortal Start failed: "@
        =~= "'. Update KDE and your graphics drivers, then log out and back in. If the problem persists, check KWin's logs or use an X11 desktop session.\n"@
        + ("Portal "@ + "Start"@ + " failed: "@));
}

/// Law: the message of a failed portal step names the step and carries the portal's own message.
/// That of an unsupported compositor names the backend and ends in the message that the failed
/// start has of its own.
pub proof fn law_portal_messages_name_step_and_cause(
    stage: Seq<char>,
    backend: Seq<char>,
    source: FailureView,
)
    ensures
        crate::text::has_run(
            (ErrorView::PortalFailed { stage, source }).message(),
            stage,
        ),
        crate::text::has_run(
            (ErrorView::PortalFailed { stage, source }).message(),
            source.message,
        ),
        crate::text::has_run(
            (ErrorView::UnsupportedCompositor { backend, source }).message(),
            backend,
        ),
        crate::text::has_run(
            (ErrorView::UnsupportedCompositor { backend, source }).message(),
            (ErrorView::PortalFailed { stage: "Start"@, source }).message(),
        ),
{
    let none = Seq::<char>::empty();
    let failed = (ErrorView::PortalFailed { stage, source }).message();
    let end = " failed: "@;
    lemma_middle_stands("Portal "@, stage, end + source.message);
    assert(failed =~= "Portal "@ + stage + (end + source.message));
    lemma_middle_stands("Portal "@ + stage + end, source.message, none);
    assert(failed =~= ("Portal "@ + stage + end) + source.message + none);
    let unsupported = (ErrorView::UnsupportedCompositor { backend, source }).message();
    let start = "KDE screen capture requires OpenGL compositing; KWin reports '"@;
    let advice =
        "'. Update KDE and your graphics drivers, then log out and back in. If the problem persists, check KWin's logs or use an X11 desktop session.\nPortal Start failed: "@;
    lemma_middle_stands(start, backend, advice + source.message);
    assert(unsupported =~= start + backend + (advice + source.message));
    let start_failed = (ErrorView::PortalFailed { stage: "Start"@, source }).message();
    let guidance =
        "'. Update KDE and your graphics drivers, then log out and back in. If the problem persists, check KWin's logs or use an X11 desktop session.\n"@;
    lemma_start_failure_is_quoted();
    lemma_middle_stands(start + backend + guidance, start_failed, none);
    assert(unsupported =~= (start + backend + guidance) + start_failed + none);
}

/// Law: an error is its value: the same case, with the same texts and numbers.
pub proof fn law_error_is_its_value(error: CaptureError)
    ensures
        match error {
            CaptureError::PortalNotAvailable(reason) => error@ == ErrorView::PortalNotAvailable(
                reason@,
            ),
            CaptureError::SessionFailed(reason) => error@ == ErrorView::SessionFailed(reason@),
            CaptureError::PortalFailed { stage, source } => {
                &&& error@ is PortalFailed
                &&& error@->PortalFailed_stage == stage@
                &&& error@->PortalFailed_source.response == source.response
                &&& error@->PortalFailed_source.message == source.message@
            },
            CaptureError::UnsupportedCompositor { backend, source } => {
                &&& error@ is UnsupportedCompositor
                &&& error@->backend == backend@
                &&& error@->UnsupportedCompositor_source.response == source.response
                &&& error@->UnsupportedCompositor_source.message == source.message@
            },
            CaptureError::UserCancelled => error@ is UserCancelled,
            CaptureError::NoStream => error@ is NoStream,
            CaptureError::PipeWire(reason) => error@ == ErrorView::PipeWire(reason@),
            CaptureError::DBus(reason) => error@ == ErrorView::DBus(reason@),
            CaptureError::AlreadyStarted => error@ is AlreadyStarted,
            CaptureError::ThreadSpawnFailed(reason) => error@ == ErrorView::ThreadSpawnFailed(
                reason@,
            ),
            CaptureError::FrameSizeMismatch { expected, actual } => error@ is FrameSizeMismatch
                && error@->expected == expected && error@->actual == actual,
        },
{
}

/// Law: what an error says is what happened, followed by its cause where it has one, word for
/// word.
pub proof fn law_messages_end_in_their_cause(
    cause: Seq<char>,
    stage: Seq<char>,
    backend: Seq<char>,
    source: FailureView,
    expected: usize,
    actual: usize,
)
    ensures
        ErrorView::PortalNotAvailable(cause).message() == "Portal not available: "@ + cause,
        ErrorView::SessionFailed(cause).message() == "Session creation failed: "@ + cause,
        (ErrorView::PortalFailed { stage, source }).message() == "Portal "@ + stage + " failed: "@
            + source.message,
        (ErrorView::UnsupportedCompositor { backend, source }).message()
            == "KDE screen capture requires OpenGL compositing; KWin reports '"@ + backend
            + "'. Update KDE and your graphics drivers, then log out and back in. If the problem persists, check KWin's logs or use an X11 desktop session.\nPortal Start failed: "@
            + source.message,
        ErrorView::UserCancelled.message() == "User cancelled window selection"@,
        ErrorView::NoStream.message() == "No stream available"@,
        ErrorView::PipeWire(cause).message() == "PipeWire error: "@ + cause,
        ErrorView::DBus(cause).message() == "D-Bus error: "@ + cause,
        ErrorView::AlreadyStarted.message() == "Stream already started"@,
        ErrorView::ThreadSpawnFailed(cause).message() == "Failed to spawn thread: "@ + cause,
        (ErrorView::FrameSizeMismatch { expected, actual }).message()
            == "Frame size mismatch: expected "@ + crate::text::decimal(expected as int) + ", got "@
            + crate::text::decimal(actual as int),
{
}

/// Law: a start is unexplained where the portal failed at the step `Start` and answered with
/// neither a grant nor a cancellation. No other error is.
pub proof fn law_unexplained_start_is_another_response_to_start(error: ErrorView)
    ensures
        error.unexplained_start_failure() <==> (error is PortalFailed && error->PortalFailed_stage
            == "Start"@ && error->PortalFailed_source.response == Some(PortalResponse::Other)),
{
}

} // verus!
