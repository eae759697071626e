//! One connection, from its single read to its close.
//!
//! A connection is read once, answered at most once, flushed once and then
//! dropped. The driver owns the stream: it asks `action_for` what to do, does
//! it, and tells `advance` how it ended.

use crate::failure::Failure;
use crate::request::{
    classification_of, classification_of_bytes, classify, lossy_text, Classification,
};
use crate::response::{response_for, response_of};
use vstd::prelude::*;
use vstd::utf8::valid_utf8;

verus! {

/// Capacity of the buffer that the single read of a request fills.
pub const REQUEST_BUFFER_LEN: usize = 1024;

/// What a connection is waiting for.
#[derive(Clone, Copy, Debug, PartialEq, Eq, Structural)]
pub enum Stage {
    /// The single read of the request.
    Reading,
    /// The write of the response to a request of the given class.
    Responding(Classification),
    /// The final flush.
    Flushing,
    /// Nothing: the connection is done and is dropped.
    Closed,
}

/// What the driver is to do with the stream.
#[derive(Debug, PartialEq, Eq)]
pub enum Action {
    /// Read once, into a buffer of this many bytes.
    Read(usize),
    /// Write all of these bytes, in one attempt.
    Write(Vec<u8>),
    /// Flush the stream.
    Flush,
    /// Drop the stream.
    Close,
}

/// Where a connection stands after an operation, and the fault to report, if
/// the operation failed.
#[derive(Clone, Copy, Debug, PartialEq, Eq)]
pub struct Step {
    pub stage: Stage,
    pub report: Option<Failure>,
}

impl Stage {
    /// The stage that follows when the operation awaited at `self` has
    /// succeeded or failed; `class` is the class of what was read.
    ///
    /// A failed read skips the response. A failed write or flush changes
    /// nothing in what follows.
    pub open spec fn next(self, succeeded: bool, class: Classification) -> Stage {
        match self {
            Stage::Reading => if succeeded {
                Stage::Responding(class)
            } else {
                Stage::Flushing
            },
            Stage::Responding(_) => Stage::Flushing,
            Stage::Flushing => Stage::Closed,
            Stage::Closed => Stage::Closed,
        }
    }

    /// The fault to report when the operation awaited at `self` has ended.
    pub open spec fn report(self, succeeded: bool) -> Option<Failure> {
        if succeeded {
            None
        } else {
            match self {
                Stage::Reading => Some(Failure::Read),
                Stage::Responding(class) => Some(Failure::Write(class)),
                Stage::Flushing => Some(Failure::Flush),
                Stage::Closed => None,
            }
        }
    }

    /// An upper bound on the operations still to come.
    pub open spec fn operations_left(self) -> nat {
        match self {
            Stage::Reading => 3,
            Stage::Responding(_) => 2,
            Stage::Flushing => 1,
            Stage::Closed => 0,
        }
    }

    /// The stage reached from `self` when the operations end as `outcomes`
    /// says, one after the other.
    pub open spec fn after(self, class: Classification, outcomes: Seq<bool>) -> Stage
        decreases outcomes.len(),
    {
        if outcomes.len() == 0 {
            self
        } else {
            self.next(outcomes[0], class).after(class, outcomes.drop_first())
        }
    }

    /// The faults reported on the way from `self`, in order, when the
    /// operations end as `outcomes` says.
    pub open spec fn reports_along(self, class: Classification, outcomes: Seq<bool>) -> Seq<
        Failure,
    >
        decreases outcomes.len(),
    {
        if outcomes.len() == 0 {
            Seq::empty()
        } else {
            let rest = self.next(outcomes[0], class).reports_along(class, outcomes.drop_first());
            match self.report(outcomes[0]) {
                Some(failure) => seq![failure] + rest,
                None => rest,
            }
        }
    }

    /// The stages whose operation is carried out on the way from `self`, in
    /// order, when the operations end as `outcomes` says. A closed
    /// connection has none carried out.
    pub open spec fn course(self, class: Classification, outcomes: Seq<bool>) -> Seq<Stage>
        decreases outcomes.len(),
    {
        if outcomes.len() == 0 || self is Closed {
            Seq::empty()
        } else {
            seq![self] + self.next(outcomes[0], class).course(class, outcomes.drop_first())
        }
    }
}

/// The report of one operation: the fault if it failed, nothing if not.
pub open spec fn reported(failure: Failure, succeeded: bool) -> Seq<Failure> {
    if succeeded {
        Seq::empty()
    } else {
        seq![failure]
    }
}

impl Action {
    /// True when `self` is what a connection at `stage` asks of the driver.
    pub open spec fn serves(self, stage: Stage) -> bool {
        match stage {
            Stage::Reading => self == Action::Read(REQUEST_BUFFER_LEN),
            Stage::Responding(class) => self matches Action::Write(bytes) && bytes@ == response_of(
                class,
            ),
            Stage::Flushing => self is Flush,
            Stage::Closed => self is Close,
        }
    }
}

/// The stage in which every connection begins.
pub fn begin() -> (stage: Stage)
    ensures
        stage == Stage::Reading,
{
    Stage::Reading
}

/// What the driver is to do next for a connection at `stage`.
pub fn action_for(stage: Stage) -> (action: Action)
    ensures
        action.serves(stage),
{
    match stage {
        Stage::Reading => Action::Read(REQUEST_BUFFER_LEN),
        Stage::Responding(class) => Action::Write(response_for(class)),
        Stage::Flushing => Action::Flush,
        Stage::Closed => Action::Close,
    }
}

/// Takes a connection one operation further. `succeeded` says how the
/// operation awaited at `stage` ended; `received` holds the bytes that a
/// successful read delivered, possibly none, and is not looked at otherwise.
///
/// A failure is reported and never changes the course: after a failed read
/// no response is written, and the flush follows in every case.
pub fn advance(stage: Stage, succeeded: bool, received: &[u8]) -> (step: Step)
    ensures
        step.stage == stage.next(succeeded, classification_of(lossy_text(received@))),
        valid_utf8(received@) ==> step.stage == stage.next(
            succeeded,
            classification_of_bytes(received@),
        ),
        step.report == stage.report(succeeded),
{
    let report: Option<Failure> = if succeeded {
        None
    } else {
        match stage {
            Stage::Reading => Some(Failure::Read),
            Stage::Responding(class) => Some(Failure::Write(class)),
            Stage::Flushing => Some(Failure::Flush),
            Stage::Closed => None,
        }
    };
    let next: Stage = match stage {
        Stage::Reading => if succeeded {
            Stage::Responding(classify(received))
        } else {
            Stage::Flushing
        },
        Stage::Responding(_) => Stage::Flushing,
        Stage::Flushing => Stage::Closed,
        Stage::Closed => Stage::Closed,
    };
    Step { stage: next, report }
}

/// Every operation brings a connection nearer to its close, and a closed
/// connection stays closed and reports nothing.
pub proof fn lemma_progress(stage: Stage, succeeded: bool, class: Classification)
    ensures
        !(stage is Closed) ==> stage.next(succeeded, class).operations_left()
            < stage.operations_left(),
        stage is Closed ==> stage.next(succeeded, class) is Closed && stage.report(succeeded)
            is None,
{
}

/// A closed connection stays closed, whatever the driver goes on to tell it:
/// nothing more is carried out and nothing more is reported.
pub proof fn lemma_closed_is_final(class: Classification, outcomes: Seq<bool>)
    ensures
        Stage::Closed.after(class, outcomes) == Stage::Closed,
        Stage::Closed.course(class, outcomes) == Seq::<Stage>::empty(),
        Stage::Closed.reports_along(class, outcomes) == Seq::<Failure>::empty(),
    decreases outcomes.len(),
{
    if outcomes.len() > 0 {
        lemma_closed_is_final(class, outcomes.drop_first());
    }
}

/// The course of a whole connection, whatever its operations do.
///
/// After a read that succeeded the response is written once, then the stream
/// is flushed once; the faults reported are a failed write and a failed
/// flush, as far as they occurred. After a read that failed nothing is
/// written and the stream is flushed once; the faults reported are the failed
/// read and a failed flush, if it occurred. In both cases the connection is
/// then closed. So a connection writes one response or none, flushes exactly
/// once, and reports two faults at most, never a failed read together with a
/// failed write.
pub proof fn lemma_course(class: Classification, outcomes: Seq<bool>)
    requires
        outcomes.len() >= 3,
    ensures
        Stage::Reading.after(class, outcomes) == Stage::Closed,
        outcomes[0] ==> Stage::Reading.course(class, outcomes) == seq![
            Stage::Reading,
            Stage::Responding(class),
            Stage::Flushing,
        ],
        outcomes[0] ==> Stage::Reading.reports_along(class, outcomes) == reported(
            Failure::Write(class),
            outcomes[1],
        ) + reported(Failure::Flush, outcomes[2]),
        !outcomes[0] ==> Stage::Reading.course(class, outcomes) == seq![
            Stage::Reading,
            Stage::Flushing,
        ],
        !outcomes[0] ==> Stage::Reading.reports_along(class, outcomes) == seq![Failure::Read]
            + reported(Failure::Flush, outcomes[1]),
{
    let second = outcomes.drop_first();
    let third = second.drop_first();
    let fourth = third.drop_first();
    assert(second[0] == outcomes[1] && third[0] == outcomes[2] && second[1] == outcomes[2]);
    lemma_closed_is_final(class, third);
    lemma_closed_is_final(class, fourth);
    reveal_with_fuel(Stage::after, 4);
    reveal_with_fuel(Stage::course, 4);
    reveal_with_fuel(Stage::reports_along, 4);
    if outcomes[0] {
        assert(Stage::Reading.course(class, outcomes) =~= seq![
            Stage::Reading,
            Stage::Responding(class),
            Stage::Flushing,
        ]);
        assert(Stage::Reading.reports_along(class, outcomes) =~= reported(
            Failure::Write(class),
            outcomes[1],
        ) + reported(Failure::Flush, outcomes[2]));
    } else {
        assert(Stage::Reading.course(class, outcomes) =~= seq![Stage::Reading, Stage::Flushing]);
        assert(Stage::Reading.reports_along(class, outcomes) =~= seq![Failure::Read] + reported(
            Failure::Flush,
            outcomes[1],
        ));
    }
}

} // verus!
