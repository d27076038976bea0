//! The run against the storage service: which operations are attempted, in
//! which order, and when the run stops.
//!
//! The run is a state machine. The driver asks the state which operation is
//! pending, performs it, and records whether it succeeded; the state that
//! comes back says what to do next. The proofs at the end of this file state
//! what every run looks like, whatever the service answers.

use crate::operation::Operation;
use crate::report::{report, report_lines, Outcome};
use vstd::prelude::*;

verus! {

/// How far a run has come.
#[derive(Clone, Copy, PartialEq, Eq, Structural, Debug)]
pub enum Session {
    /// The operation is to be attempted next.
    Pending(Operation),
    /// Every operation has succeeded.
    Completed,
    /// The operation failed, and the run stopped there.
    Failed(Operation),
}

/// What the driver does once an operation has ended.
pub struct Step {
    /// The lines to print, in this order.
    pub lines: Vec<String>,
    /// The state of the run from here on.
    pub session: Session,
}

impl Session {
    /// The state in which every run begins.
    pub open spec fn initial() -> Session {
        Session::Pending(Operation::order()[0])
    }

    /// The operation that the driver is to perform in this state.
    pub open spec fn pending_operation(self) -> Option<Operation> {
        match self {
            Session::Pending(op) => Some(op),
            _ => None,
        }
    }

    /// The state after the pending operation has ended as `succeeded` says.
    /// A run that is over stays as it is.
    pub open spec fn after(self, succeeded: bool) -> Session {
        match self {
            Session::Pending(op) => if !succeeded {
                Session::Failed(op)
            } else {
                match op.successor() {
                    Some(next) => Session::Pending(next),
                    None => Session::Completed,
                }
            },
            _ => self,
        }
    }

    /// The state after the outcomes have been recorded one after the other.
    pub open spec fn after_all(self, outcomes: Seq<bool>) -> Session
        decreases outcomes.len(),
    {
        if outcomes.len() == 0 {
            self
        } else {
            self.after(outcomes[0]).after_all(outcomes.drop_first())
        }
    }

    /// The operations that were performed while the outcomes were recorded
    /// one after the other, in the order in which they were performed.
    pub open spec fn attempts(self, outcomes: Seq<bool>) -> Seq<Operation>
        decreases outcomes.len(),
    {
        if outcomes.len() == 0 {
            Seq::empty()
        } else {
            match self {
                Session::Pending(op) => seq![op] + self.after(outcomes[0]).attempts(
                    outcomes.drop_first(),
                ),
                _ => Seq::empty(),
            }
        }
    }

    /// The state of a run before anything has been attempted.
    pub fn start() -> (session: Session)
        ensures
            session == Session::initial(),
    {
        Session::Pending(Operation::first())
    }

    /// The operation to perform now, or `None` when the run is over.
    pub fn pending(&self) -> (op: Option<Operation>)
        ensures
            op == self.pending_operation(),
    {
        match self {
            Session::Pending(op) => Some(*op),
            _ => None,
        }
    }

    /// Records how the pending operation ended.
    pub fn record(self, succeeded: bool) -> (session: Session)
        ensures
            session == self.after(succeeded),
    {
        match self {
            Session::Pending(op) => {
                if !succeeded {
                    Session::Failed(op)
                } else {
                    match op.next() {
                        Some(next) => Session::Pending(next),
                        None => Session::Completed,
                    }
                }
            },
            _ => self,
        }
    }

    /// Takes in how the pending operation ended: gives the lines to print
    /// for it and the state of the run afterwards. A run that is over
    /// prints nothing and stays as it is.
    pub fn step(self, outcome: &Outcome) -> (step: Step)
        ensures
            step.session == self.after(outcome@ is Succeeded),
            step.lines.deep_view() == match self.pending_operation() {
                Some(op) => report(op, outcome@),
                None => Seq::empty(),
            },
    {
        match self {
            Session::Pending(op) => {
                let lines = report_lines(op, outcome);
                Step { lines, session: self.record(outcome.succeeded()) }
            },
            _ => {
                let lines: Vec<String> = Vec::new();
                assert(lines.deep_view() =~= Seq::<Seq<char>>::empty());
                Step { lines, session: self }
            },
        }
    }
}

/// A run that is over stays over: no further outcome changes its state, and
/// nothing more is performed.
pub proof fn law_finished_run_stays(session: Session, outcomes: Seq<bool>)
    requires
        session.pending_operation() is None,
    ensures
        session.after_all(outcomes) == session,
        session.attempts(outcomes) == Seq::<Operation>::empty(),
    decreases outcomes.len(),
{
    if outcomes.len() > 0 {
        law_finished_run_stays(session, outcomes.drop_first());
    }
}

proof fn lemma_failure_from(op: Operation, outcomes: Seq<bool>, k: int)
    requires
        0 <= k < outcomes.len(),
        op.position() + k < 4,
        !outcomes[k],
        forall|j: int| 0 <= j < k ==> outcomes[j],
    ensures
        Session::Pending(op).attempts(outcomes) == Operation::order().subrange(
            op.position(),
            op.position() + k + 1,
        ),
        Session::Pending(op).after_all(outcomes) == Session::Failed(
            Operation::order()[op.position() + k],
        ),
    decreases k,
{
    let rest = outcomes.drop_first();
    let at = op.position();
    if k == 0 {
        law_finished_run_stays(Session::Failed(op), rest);
        assert(Session::Pending(op).attempts(outcomes) =~= Operation::order().subrange(at, at + 1));
    } else {
        let next = op.successor()->Some_0;
        assert forall|j: int| 0 <= j < k - 1 implies rest[j] by {
            assert(outcomes[j + 1]);
        }
        lemma_failure_from(next, rest, k - 1);
        assert(Session::Pending(op).attempts(outcomes) =~= Operation::order().subrange(
            at,
            at + k + 1,
        ));
    }
}

proof fn lemma_successes_from(op: Operation, outcomes: Seq<bool>)
    requires
        forall|j: int| 0 <= j < outcomes.len() && op.position() + j < 4 ==> outcomes[j],
    ensures
        outcomes.len() >= 4 - op.position() ==> {
            &&& Session::Pending(op).attempts(outcomes) == Operation::order().subrange(
                op.position(),
                4,
            )
            &&& Session::Pending(op).after_all(outcomes) == Session::Completed
        },
        outcomes.len() < 4 - op.position() ==> {
            &&& Session::Pending(op).attempts(outcomes) == Operation::order().subrange(
                op.position(),
                op.position() + outcomes.len(),
            )
            &&& Session::Pending(op).after_all(outcomes) == Session::Pending(
                Operation::order()[op.position() + outcomes.len()],
            )
        },
    decreases outcomes.len(),
{
    let rest = outcomes.drop_first();
    let at = op.position();
    let run = Session::Pending(op).attempts(outcomes);
    if outcomes.len() == 0 {
        assert(run =~= Operation::order().subrange(at, at));
    } else {
        assert(outcomes[0]);
        match op.successor() {
            Some(next) => {
                assert forall|j: int| 0 <= j < rest.len() && next.position() + j < 4 implies rest[j] by {
                    assert(outcomes[j + 1]);
                }
                lemma_successes_from(next, rest);
                if outcomes.len() >= 4 - at {
                    assert(run =~= Operation::order().subrange(at, 4));
                } else {
                    assert(run =~= Operation::order().subrange(at, at + outcomes.len()));
                }
            },
            None => {
                law_finished_run_stays(Session::Completed, rest);
                assert(run =~= Operation::order().subrange(at, 4));
            },
        }
    }
}

/// The operations are attempted in the one fixed order: whatever the
/// service answers, what a run has performed is a beginning of create
/// bucket, delete bucket, list buckets, list objects.
pub proof fn law_fixed_order(outcomes: Seq<bool>)
    ensures
        Session::initial().attempts(outcomes).len() <= 4,
        Session::initial().attempts(outcomes) == Operation::order().take(
            Session::initial().attempts(outcomes).len() as int,
        ),
{
    let first = Operation::order()[0];
    if exists|k: int| 0 <= k < outcomes.len() && k < 4 && !outcomes[k] {
        let k = choose|k: int|
            0 <= k < outcomes.len() && !outcomes[k] && (forall|j: int| 0 <= j < k ==> outcomes[j]);
        lemma_failure_from(first, outcomes, k);
    } else {
        lemma_successes_from(first, outcomes);
    }
}

/// The run halts at the first failure: when the operation at place `k` is
/// the first to fail, the run has performed the operations up to and
/// including that one and no other, whatever outcomes follow, and it ends
/// as failed at that operation.
pub proof fn law_halts_at_first_failure(outcomes: Seq<bool>, k: int)
    requires
        0 <= k < outcomes.len(),
        k < 4,
        !outcomes[k],
        forall|j: int| 0 <= j < k ==> outcomes[j],
    ensures
        Session::initial().attempts(outcomes) == Operation::order().take(k + 1),
        Session::initial().after_all(outcomes) == Session::Failed(Operation::order()[k]),
{
    lemma_failure_from(Operation::order()[0], outcomes, k);
}

/// While every operation succeeds the run goes on: after `n` successes,
/// with `n` below four, the first `n` operations have been performed and
/// the next one in the order is pending.
pub proof fn law_continues_after_success(outcomes: Seq<bool>)
    requires
        outcomes.len() < 4,
        forall|j: int| 0 <= j < outcomes.len() ==> outcomes[j],
    ensures
        Session::initial().attempts(outcomes) == Operation::order().take(outcomes.len() as int),
        Session::initial().after_all(outcomes) == Session::Pending(
            Operation::order()[outcomes.len() as int],
        ),
{
    lemma_successes_from(Operation::order()[0], outcomes);
}

/// Four successes complete the run: all four operations have been
/// performed, in order, and nothing that is recorded afterwards counts.
pub proof fn law_completes_after_four_successes(outcomes: Seq<bool>)
    requires
        outcomes.len() >= 4,
        forall|j: int| 0 <= j < 4 ==> outcomes[j],
    ensures
        Session::initial().attempts(outcomes) == Operation::order(),
        Session::initial().after_all(outcomes) == Session::Completed,
{
    lemma_successes_from(Operation::order()[0], outcomes);
    assert(Operation::order().subrange(0, 4) =~= Operation::order());
}

} // verus!
