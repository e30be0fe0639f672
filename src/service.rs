use vstd::prelude::*;

verus! {

/// Whether the front is accepting connections.
#[derive(Clone, Copy, Debug, PartialEq, Eq, Structural)]
pub enum ServiceState {
    Stopped,
    Running,
}

/// What came of an attempt to bind and run the listener.
#[derive(Debug)]
pub enum StartOutcome {
    Bound,
    Failed(String),
}

/// What the front does after an attempt to start.
#[derive(Debug)]
pub enum StartAction {
    /// Nothing to report.
    Serve,
    /// Report this message as an error; there is no retry.
    Report(String),
}

/// The text reported when the listener could not be started.
pub open spec fn start_failure_message(cause: Seq<char>) -> Seq<char> {
    "could not start server: "@ + cause
}

/// The state after an attempt to start: running once bound; otherwise stopped.
pub open spec fn state_after(outcome: StartOutcome) -> ServiceState {
    match outcome {
        StartOutcome::Bound => ServiceState::Running,
        StartOutcome::Failed(_) => ServiceState::Stopped,
    }
}

/// Decides the new state and action after an attempt to start the listener:
/// a bind moves the front to running with nothing to report; a failure leaves
/// it stopped, whatever it was before, and reports the cause.
pub fn after_start(outcome: &StartOutcome) -> (r: (ServiceState, StartAction))
    ensures
        r.0 == state_after(*outcome),
        match *outcome {
            StartOutcome::Bound => r.1 is Serve,
            StartOutcome::Failed(cause) => r.1 matches StartAction::Report(m) && m@
                == start_failure_message(cause@),
        },
{
    match outcome {
        StartOutcome::Bound => (ServiceState::Running, StartAction::Serve),
        StartOutcome::Failed(cause) => {
            let mut message = String::new();
            message.append("could not start server: ");
            message.append(cause.as_str());
            assert(message@ =~= start_failure_message(cause@));
            (ServiceState::Stopped, StartAction::Report(message))
        },
    }
}

} // verus!
