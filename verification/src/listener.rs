//! The listening socket: where it is bound, and what follows from each
//! attempt to bind it or to accept on it.
//!
//! As with a connection, the driver owns the socket: it asks `task_for` what
//! to do, does it, and tells `advance` how it ended.

use crate::failure::Failure;
use vstd::prelude::*;

verus! {

/// The port on which the server listens.
pub const PORT: u16 = 8080;

/// What the listener is about to do.
#[derive(Clone, Copy, Debug, PartialEq, Eq, Structural)]
pub enum Phase {
    /// The socket is yet to be bound.
    Binding,
    /// The socket is bound and the next connection is awaited.
    Accepting,
    /// The bind failed: nothing is served.
    Stopped,
}

/// What the driver is to do with the listening socket.
#[derive(Clone, Copy, Debug, PartialEq, Eq, Structural)]
pub enum Task {
    /// Bind to all interfaces on this port.
    Bind(u16),
    /// Wait for the next incoming connection.
    Accept,
    /// Return: the server ends.
    Exit,
}

/// Where the listener stands after an attempt, and what the driver owes for it.
#[derive(Clone, Copy, Debug, PartialEq, Eq)]
pub struct Turn {
    pub phase: Phase,
    /// The fault to report, if the attempt failed.
    pub report: Option<Failure>,
    /// Whether to say that the server is ready.
    pub announce: bool,
    /// Whether to hand the accepted connection to a unit of execution of its
    /// own, for which the listener does not wait.
    pub dispatch: bool,
}

impl Phase {
    /// The phase that follows an attempt. Only a failed bind stops the
    /// listener; a failed accept leaves it accepting.
    pub open spec fn next(self, succeeded: bool) -> Phase {
        match self {
            Phase::Binding => if succeeded {
                Phase::Accepting
            } else {
                Phase::Stopped
            },
            Phase::Accepting => Phase::Accepting,
            Phase::Stopped => Phase::Stopped,
        }
    }

    /// The fault to report after an attempt.
    pub open spec fn report(self, succeeded: bool) -> Option<Failure> {
        if succeeded {
            None
        } else {
            match self {
                Phase::Binding => Some(Failure::Bind),
                Phase::Accepting => Some(Failure::Accept),
                Phase::Stopped => None,
            }
        }
    }

    /// Everything that follows from an attempt made at `self`.
    pub open spec fn turn(self, succeeded: bool) -> Turn {
        Turn {
            phase: self.next(succeeded),
            report: self.report(succeeded),
            announce: self is Binding && succeeded,
            dispatch: self is Accepting && succeeded,
        }
    }

    /// The phase reached from `self` when the attempts end as `outcomes`
    /// says, one after the other.
    pub open spec fn after(self, outcomes: Seq<bool>) -> Phase
        decreases outcomes.len(),
    {
        if outcomes.len() == 0 {
            self
        } else {
            self.next(outcomes[0]).after(outcomes.drop_first())
        }
    }

    /// The number of connections handed on while the attempts made from
    /// `self` end as `outcomes` says.
    pub open spec fn dispatched_along(self, outcomes: Seq<bool>) -> nat
        decreases outcomes.len(),
    {
        if outcomes.len() == 0 {
            0
        } else {
            let rest = self.next(outcomes[0]).dispatched_along(outcomes.drop_first());
            if self.turn(outcomes[0]).dispatch {
                1 + rest
            } else {
                rest
            }
        }
    }
}

/// The number of attempts among `outcomes` that succeeded.
pub open spec fn successes(outcomes: Seq<bool>) -> nat
    decreases outcomes.len(),
{
    if outcomes.len() == 0 {
        0
    } else if outcomes[0] {
        1 + successes(outcomes.drop_first())
    } else {
        successes(outcomes.drop_first())
    }
}

/// The phase in which the listener begins.
pub fn begin() -> (phase: Phase)
    ensures
        phase == Phase::Binding,
{
    Phase::Binding
}

/// The host part of the address to bind: all interfaces.
pub fn host() -> (text: &'static str)
    ensures
        text@ == "0.0.0.0"@,
{
    "0.0.0.0"
}

/// The line that says that the server is ready.
pub fn ready_line() -> (text: &'static str)
    ensures
        text@ == "Server listening on port 8080..."@,
{
    "Server listening on port 8080..."
}

/// What the driver is to do next for a listener in `phase`.
pub fn task_for(phase: Phase) -> (task: Task)
    ensures
        task == (match phase {
            Phase::Binding => Task::Bind(PORT),
            Phase::Accepting => Task::Accept,
            Phase::Stopped => Task::Exit,
        }),
{
    match phase {
        Phase::Binding => Task::Bind(PORT),
        Phase::Accepting => Task::Accept,
        Phase::Stopped => Task::Exit,
    }
}

/// Takes the listener one attempt further; `succeeded` says how the attempt
/// made in `phase` ended.
///
/// A failed bind is reported and stops the listener for good. A successful
/// bind is announced. An accepted connection is dispatched, a failed accept
/// is reported, and in both cases the listener goes on accepting.
pub fn advance(phase: Phase, succeeded: bool) -> (turn: Turn)
    ensures
        turn == phase.turn(succeeded),
{
    match phase {
        Phase::Binding => if succeeded {
            Turn { phase: Phase::Accepting, report: None, announce: true, dispatch: false }
        } else {
            Turn {
                phase: Phase::Stopped,
                report: Some(Failure::Bind),
                announce: false,
                dispatch: false,
            }
        },
        Phase::Accepting => if succeeded {
            Turn { phase: Phase::Accepting, report: None, announce: false, dispatch: true }
        } else {
            Turn {
                phase: Phase::Accepting,
                report: Some(Failure::Accept),
                announce: false,
                dispatch: false,
            }
        },
        Phase::Stopped => Turn {
            phase: Phase::Stopped,
            report: None,
            announce: false,
            dispatch: false,
        },
    }
}

/// The listener stops exactly on the fault that is fatal: the failed bind.
pub proof fn lemma_only_bind_is_fatal(phase: Phase, succeeded: bool)
    ensures
        !(phase is Stopped) ==> (phase.next(succeeded) is Stopped <==> (phase.report(succeeded)
            matches Some(failure) && failure.fatal())),
{
}

/// A listener whose bind failed serves nothing, whatever is tried afterwards.
pub proof fn lemma_stopped_serves_nothing(outcomes: Seq<bool>)
    ensures
        Phase::Stopped.after(outcomes) == Phase::Stopped,
        Phase::Stopped.dispatched_along(outcomes) == 0,
        outcomes.len() >= 1 && !outcomes[0] ==> Phase::Binding.after(outcomes) == Phase::Stopped
            && Phase::Binding.dispatched_along(outcomes) == 0,
    decreases outcomes.len(),
{
    if outcomes.len() >= 1 {
        lemma_stopped_serves_nothing(outcomes.drop_first());
    }
}

/// Once bound, the listener never stops accepting, and it hands on every
/// connection that it accepts: no failed accept costs a later connection.
pub proof fn lemma_accepting_goes_on(outcomes: Seq<bool>)
    ensures
        Phase::Accepting.after(outcomes) == Phase::Accepting,
        Phase::Accepting.dispatched_along(outcomes) == successes(outcomes),
        outcomes.len() >= 1 && outcomes[0] ==> Phase::Binding.after(outcomes) == Phase::Accepting
            && Phase::Binding.dispatched_along(outcomes) == successes(outcomes.drop_first()),
    decreases outcomes.len(),
{
    if outcomes.len() >= 1 {
        lemma_accepting_goes_on(outcomes.drop_first());
    }
}

} // verus!
