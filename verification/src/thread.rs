//! The life of the PipeWire thread.
use vstd::prelude::*;
use vstd::string::*;

use crate::shared::{SharedState, SharedView};

verus! {

/// The steps of the PipeWire thread.
#[derive(Clone, Copy, Debug, PartialEq, Eq, Structural)]
pub enum ThreadStep {
    CreateMainLoop,
    CreateContext,
    /// Connect the context through the descriptor of the portal.
    Connect,
    SetUpStream,
    /// Run the main loop until a callback quits it.
    RunMainLoop,
    /// The thread is over.
    Exit,
}

impl ThreadStep {
    /// The step that follows one that went well.
    pub open spec fn successor(self) -> ThreadStep {
        match self {
            ThreadStep::CreateMainLoop => ThreadStep::CreateContext,
            ThreadStep::CreateContext => ThreadStep::Connect,
            ThreadStep::Connect => ThreadStep::SetUpStream,
            ThreadStep::SetUpStream => ThreadStep::RunMainLoop,
            ThreadStep::RunMainLoop => ThreadStep::Exit,
            ThreadStep::Exit => ThreadStep::Exit,
        }
    }

    /// Whether the step prepares the main loop, so that capture fails if it does.
    pub open spec fn prepares(self) -> bool {
        self != ThreadStep::RunMainLoop && self != ThreadStep::Exit
    }

    /// What the failure of a step is reported as.
    pub open spec fn failure(self, cause: Seq<char>) -> Seq<char> {
        match self {
            ThreadStep::CreateMainLoop => "Failed to create PipeWire main loop: "@ + cause,
            ThreadStep::CreateContext => "Failed to create PipeWire context: "@ + cause,
            ThreadStep::Connect => "Failed to connect to PipeWire: "@ + cause,
            _ => "Failed to set up PipeWire stream: "@ + cause,
        }
    }

    /// The step after this one, given how it went.
    pub open spec fn next(self, outcome: Result<(), Seq<char>>) -> ThreadStep {
        if self.prepares() && outcome is Err {
            ThreadStep::Exit
        } else {
            self.successor()
        }
    }

    /// The shared state after this step, given how it went.
    pub open spec fn effect(self, shared: SharedView, outcome: Result<(), Seq<char>>) -> SharedView {
        match (self, outcome) {
            (ThreadStep::Exit, _) => shared,
            (ThreadStep::RunMainLoop, _) => shared.closed(),
            (_, Err(cause)) => shared.failed(self.failure(cause)),
            (_, Ok(_)) => shared,
        }
    }

    /// How many steps are left at most.
    pub open spec fn remaining(self) -> nat {
        match self {
            ThreadStep::CreateMainLoop => 5,
            ThreadStep::CreateContext => 4,
            ThreadStep::Connect => 3,
            ThreadStep::SetUpStream => 2,
            ThreadStep::RunMainLoop => 1,
            ThreadStep::Exit => 0,
        }
    }
}

/// How a step went, with the text of its failure as characters.
pub open spec fn outcome_view(outcome: Result<(), String>) -> Result<(), Seq<char>> {
    match outcome {
        Ok(_) => Ok(()),
        Err(cause) => Err(cause@),
    }
}

/// Decides what follows a step of the PipeWire thread, given how it went, and records what the
/// caller has to know: a failure to prepare, or that the main loop has come to its end.
pub fn pipewire_thread(
    shared: &mut SharedState,
    step: ThreadStep,
    outcome: Result<(), String>,
) -> (next: ThreadStep)
    ensures
        next == step.next(outcome_view(outcome)),
        final(shared)@ == step.effect(old(shared)@, outcome_view(outcome)),
{
    match step {
        ThreadStep::Exit => ThreadStep::Exit,
        ThreadStep::RunMainLoop => {
            shared.end();
            ThreadStep::Exit
        },
        _ => match outcome {
            Ok(()) => match step {
                ThreadStep::CreateMainLoop => ThreadStep::CreateContext,
                ThreadStep::CreateContext => ThreadStep::Connect,
                ThreadStep::Connect => ThreadStep::SetUpStream,
                _ => ThreadStep::RunMainLoop,
            },
            Err(cause) => {
                let what: &'static str = match step {
                    ThreadStep::CreateMainLoop => "Failed to create PipeWire main loop: ",
                    ThreadStep::CreateContext => "Failed to create PipeWire context: ",
                    ThreadStep::Connect => "Failed to connect to PipeWire: ",
                    _ => "Failed to set up PipeWire stream: ",
                };
                shared.fail(what.to_owned().concat(cause.as_str()));
                ThreadStep::Exit
            },
        },
    }
}

/// Law: the thread takes at most five steps. Each step leaves fewer, until it exits.
pub proof fn law_thread_makes_progress(step: ThreadStep, outcome: Result<(), Seq<char>>)
    ensures
        step.remaining() <= 5,
        step != ThreadStep::Exit ==> step.next(outcome).remaining() < step.remaining(),
        step.remaining() == 0 <==> step == ThreadStep::Exit,
{
}

/// Law: a thread that exits leaves capture ended and without a frame, however it came to exit.
pub proof fn law_thread_exit_ends_capture(
    shared: SharedView,
    step: ThreadStep,
    outcome: Result<(), Seq<char>>,
)
    requires
        step != ThreadStep::Exit,
        step.next(outcome) == ThreadStep::Exit,
    ensures
        step.effect(shared, outcome).ended,
        step.effect(shared, outcome).frame is None,
{
}

/// Law: a step that fails to prepare the main loop leaves an error for the caller; a main loop
/// that comes to its end adds none.
pub proof fn law_thread_error_is_a_preparation_failure(
    shared: SharedView,
    step: ThreadStep,
    outcome: Result<(), Seq<char>>,
)
    ensures
        step.prepares() && outcome is Err ==> step.effect(shared, outcome).error == Some(
            step.failure(outcome->Err_0),
        ),
        !(step.prepares() && outcome is Err) ==> step.effect(shared, outcome).error
            == shared.error,
{
}

/// Law: how a step went is seen as it is.
pub proof fn law_outcome_is_its_value(outcome: Result<(), String>)
    ensures
        outcome is Ok <==> outcome_view(outcome) is Ok,
        outcome matches Err(cause) ==> outcome_view(outcome) == Err::<(), Seq<char>>(cause@),
{
}

/// Law: the thread creates a main loop, a context, a connection and a stream, in this order, and
/// only then runs. A failure on the way is the end of it, and so is the end of the main loop.
pub proof fn law_thread_prepares_in_order(cause: Seq<char>, outcome: Result<(), Seq<char>>)
    ensures
        ThreadStep::CreateMainLoop.next(Ok(())) == ThreadStep::CreateContext,
        ThreadStep::CreateContext.next(Ok(())) == ThreadStep::Connect,
        ThreadStep::Connect.next(Ok(())) == ThreadStep::SetUpStream,
        ThreadStep::SetUpStream.next(Ok(())) == ThreadStep::RunMainLoop,
        ThreadStep::CreateMainLoop.next(Err(cause)) == ThreadStep::Exit,
        ThreadStep::CreateContext.next(Err(cause)) == ThreadStep::Exit,
        ThreadStep::Connect.next(Err(cause)) == ThreadStep::Exit,
        ThreadStep::SetUpStream.next(Err(cause)) == ThreadStep::Exit,
        ThreadStep::RunMainLoop.next(outcome) == ThreadStep::Exit,
        ThreadStep::Exit.next(outcome) == ThreadStep::Exit,
{
}

/// Law: a step that succeeds changes nothing, a step that fails to prepare ends capture with a
/// message that says what failed and why, and a main loop that is over ends capture without one.
pub proof fn law_failed_preparation_says_what_and_why(
    shared: SharedView,
    step: ThreadStep,
    cause: Seq<char>,
    outcome: Result<(), Seq<char>>,
)
    ensures
        step != ThreadStep::RunMainLoop ==> step.effect(shared, Ok(())) == shared,
        ThreadStep::Exit.effect(shared, outcome) == shared,
        ThreadStep::CreateMainLoop.effect(shared, Err(cause)).error == Some(
            "Failed to create PipeWire main loop: "@ + cause,
        ),
        ThreadStep::CreateContext.effect(shared, Err(cause)).error == Some(
            "Failed to create PipeWire context: "@ + cause,
        ),
        ThreadStep::Connect.effect(shared, Err(cause)).error == Some(
            "Failed to connect to PipeWire: "@ + cause,
        ),
        ThreadStep::SetUpStream.effect(shared, Err(cause)).error == Some(
            "Failed to set up PipeWire stream: "@ + cause,
        ),
        ThreadStep::RunMainLoop.effect(shared, outcome).error == shared.error,
        step != ThreadStep::Exit && (step == ThreadStep::RunMainLoop || outcome is Err) ==> {
            let ended = step.effect(shared, outcome);
            &&& ended.ended && ended.frame is None
            &&& ended.format == shared.format && ended.last_capture == shared.last_capture
        },
{
}

} // verus!
