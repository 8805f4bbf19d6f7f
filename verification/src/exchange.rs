//! The order of calls that follows the sending of a query: optionally the
//! switch to row-by-row delivery, then the fetch of the first result.
//!
//! The connection is driven from outside. After each call the driver hands
//! the outcome to [`Execution::step`] as a [`Reply`] and carries out the
//! [`Step`] it gets back.

use vstd::prelude::*;
use crate::error::Error;

verus! {

/// The call whose outcome an execution waits for.
#[derive(Clone, Copy, Debug, PartialEq, Eq, Structural)]
pub enum Phase {
    /// The query has been handed to the connection.
    Sending,
    /// Row-by-row delivery has been asked for.
    Enabling,
    /// The first result has been asked for.
    Fetching,
    /// Nothing more is to be done.
    Finished,
}

/// The outcome of one call on the connection. `R` is the connection's
/// result type, `E` its error type.
#[derive(Debug)]
pub enum Reply<R, E> {
    /// Of sending the query.
    Sent(Result<(), E>),
    /// Of switching to row-by-row delivery.
    RowByRowEnabled(Result<(), E>),
    /// Of fetching the next result; `Ok(None)` when the connection has none.
    Fetched(Result<Option<R>, E>),
}

/// What the driver does next.
#[derive(Debug)]
pub enum Step<R, E> {
    /// Switch the connection to row-by-row delivery.
    EnableRowByRowMode,
    /// Fetch the next result.
    GetNextResult,
    /// The execution succeeded with this result.
    Done(R),
    /// The execution failed.
    Failed(Error<E>),
    /// The connection had no result after a query was sent. This breaks
    /// the protocol and is no ordinary failure: the driver must abort.
    MissingResult,
}

/// The progress of one execution.
#[derive(Clone, Copy, Debug, PartialEq, Eq, Structural)]
pub struct Execution {
    pub phase: Phase,
    pub row_by_row: bool,
}

impl Execution {
    /// The execution at the moment its query is handed to the connection.
    pub open spec fn initial(row_by_row: bool) -> Execution {
        Execution { phase: Phase::Sending, row_by_row }
    }

    /// `reply` is the outcome of the call that this execution waits for.
    pub open spec fn awaits<R, E>(self, reply: Reply<R, E>) -> bool {
        match (self.phase, reply) {
            (Phase::Sending, Reply::Sent(_)) => true,
            (Phase::Enabling, Reply::RowByRowEnabled(_)) => true,
            (Phase::Fetching, Reply::Fetched(_)) => true,
            _ => false,
        }
    }

    /// The phase after `reply`.
    pub open spec fn next_phase<R, E>(self, reply: Reply<R, E>) -> Phase {
        match reply {
            Reply::Sent(Ok(_)) => if self.row_by_row {
                Phase::Enabling
            } else {
                Phase::Fetching
            },
            Reply::RowByRowEnabled(Ok(_)) => Phase::Fetching,
            _ => Phase::Finished,
        }
    }

    /// What the driver does after `reply`.
    pub open spec fn next_step<R, E>(self, reply: Reply<R, E>) -> Step<R, E> {
        match reply {
            Reply::Sent(Ok(_)) => if self.row_by_row {
                Step::EnableRowByRowMode
            } else {
                Step::GetNextResult
            },
            Reply::RowByRowEnabled(Ok(_)) => Step::GetNextResult,
            Reply::Fetched(Ok(Some(result))) => Step::Done(result),
            Reply::Fetched(Ok(None)) => Step::MissingResult,
            Reply::Sent(Err(e)) => Step::Failed(Error::DatabaseError(e)),
            Reply::RowByRowEnabled(Err(e)) => Step::Failed(Error::DatabaseError(e)),
            Reply::Fetched(Err(e)) => Step::Failed(Error::DatabaseError(e)),
        }
    }

    /// Starts an execution whose query is being sent.
    pub fn start(row_by_row: bool) -> (execution: Execution)
        ensures
            execution == Execution::initial(row_by_row),
    {
        Execution { phase: Phase::Sending, row_by_row }
    }

    /// Nothing more is to be done.
    pub fn is_finished(&self) -> (finished: bool)
        ensures
            finished == (self.phase == Phase::Finished),
    {
        match self.phase {
            Phase::Finished => true,
            _ => false,
        }
    }

    /// Tells whether `reply` is the outcome that this execution waits for.
    pub fn accepts<R, E>(&self, reply: &Reply<R, E>) -> (accepted: bool)
        ensures
            accepted == self.awaits(*reply),
    {
        match (self.phase, reply) {
            (Phase::Sending, Reply::Sent(_)) => true,
            (Phase::Enabling, Reply::RowByRowEnabled(_)) => true,
            (Phase::Fetching, Reply::Fetched(_)) => true,
            _ => false,
        }
    }

    /// Takes the outcome of the call last asked for and says what to do
    /// next. An error of the connection ends the execution with that
    /// error; a missing result ends it with `Step::MissingResult`.
    pub fn step<R, E>(&mut self, reply: Reply<R, E>) -> (step: Step<R, E>)
        requires
            old(self).awaits(reply),
        ensures
            final(self).phase == old(self).next_phase(reply),
            final(self).row_by_row == old(self).row_by_row,
            step == old(self).next_step(reply),
    {
        match reply {
            Reply::Sent(Ok(_)) => {
                if self.row_by_row {
                    self.phase = Phase::Enabling;
                    Step::EnableRowByRowMode
                } else {
                    self.phase = Phase::Fetching;
                    Step::GetNextResult
                }
            },
            Reply::RowByRowEnabled(Ok(_)) => {
                self.phase = Phase::Fetching;
                Step::GetNextResult
            },
            Reply::Fetched(Ok(Some(result))) => {
                self.phase = Phase::Finished;
                Step::Done(result)
            },
            Reply::Fetched(Ok(None)) => {
                self.phase = Phase::Finished;
                Step::MissingResult
            },
            Reply::Sent(Err(e)) => {
                self.phase = Phase::Finished;
                Step::Failed(Error::DatabaseError(e))
            },
            Reply::RowByRowEnabled(Err(e)) => {
                self.phase = Phase::Finished;
                Step::Failed(Error::DatabaseError(e))
            },
            Reply::Fetched(Err(e)) => {
                self.phase = Phase::Finished;
                Step::Failed(Error::DatabaseError(e))
            },
        }
    }
}

/// The steps that a driver is given, in order, when the calls it makes
/// have the outcomes `replies`. The sequence ends with the replies, or
/// before the first one that the execution does not wait for.
pub open spec fn steps_of<R, E>(state: Execution, replies: Seq<Reply<R, E>>) -> Seq<Step<R, E>>
    decreases replies.len(),
{
    if replies.len() == 0 || !state.awaits(replies[0]) {
        Seq::empty()
    } else {
        let after = Execution {
            phase: state.next_phase(replies[0]),
            row_by_row: state.row_by_row,
        };
        seq![state.next_step(replies[0])] + steps_of(after, replies.drop_first())
    }
}

/// The outcomes of an exchange in which every call succeeds and the fetch
/// yields `result`.
pub open spec fn all_succeed<R, E>(row_by_row: bool, result: R) -> Seq<Reply<R, E>> {
    if row_by_row {
        seq![Reply::Sent(Ok(())), Reply::RowByRowEnabled(Ok(())), Reply::Fetched(Ok(Some(result)))]
    } else {
        seq![Reply::Sent(Ok(())), Reply::Fetched(Ok(Some(result)))]
    }
}

proof fn lemma_steps_unfold<R, E>(state: Execution, replies: Seq<Reply<R, E>>)
    requires
        replies.len() > 0,
        state.awaits(replies[0]),
    ensures
        steps_of(state, replies).len() == 1 + steps_of(
            Execution { phase: state.next_phase(replies[0]), row_by_row: state.row_by_row },
            replies.drop_first(),
        ).len(),
        steps_of(state, replies)[0] == state.next_step(replies[0]),
        forall|i: int|
            1 <= i < steps_of(state, replies).len() ==> (#[trigger] steps_of(state, replies)[i])
                == steps_of(
                Execution { phase: state.next_phase(replies[0]), row_by_row: state.row_by_row },
                replies.drop_first(),
            )[i - 1],
{
}

proof fn lemma_steps_stop<R, E>(state: Execution, replies: Seq<Reply<R, E>>)
    requires
        replies.len() == 0 || !state.awaits(replies[0]),
    ensures
        steps_of(state, replies).len() == 0,
{
}

/// Where every call succeeds and the fetch yields a result, the execution
/// ends with that result: after the send comes the switch to row-by-row
/// delivery if it was asked for, then one fetch, and nothing else.
pub proof fn lemma_exchange_succeeds<R, E>(row_by_row: bool, result: R)
    ensures
        steps_of(Execution::initial(row_by_row), all_succeed::<R, E>(row_by_row, result)) == if row_by_row {
            seq![Step::<R, E>::EnableRowByRowMode, Step::GetNextResult, Step::Done(result)]
        } else {
            seq![Step::<R, E>::GetNextResult, Step::Done(result)]
        },
{
    let replies = all_succeed::<R, E>(row_by_row, result);
    let start = Execution::initial(row_by_row);
    let steps = steps_of(start, replies);
    lemma_steps_unfold(start, replies);
    let second = Execution { phase: start.next_phase(replies[0]), row_by_row };
    let rest = replies.drop_first();
    lemma_steps_unfold(second, rest);
    let third = Execution { phase: second.next_phase(rest[0]), row_by_row };
    let tail = rest.drop_first();
    if row_by_row {
        lemma_steps_unfold(third, tail);
        let last = Execution { phase: third.next_phase(tail[0]), row_by_row };
        lemma_steps_stop(last, tail.drop_first());
        assert(steps =~= seq![
            Step::<R, E>::EnableRowByRowMode,
            Step::GetNextResult,
            Step::Done(result),
        ]);
    } else {
        lemma_steps_stop(third, tail);
        assert(steps =~= seq![Step::<R, E>::GetNextResult, Step::Done(result)]);
    }
}

/// Whatever the connection answers, an execution asks for at most one
/// fetch. With row-by-row delivery the switch is asked for first, directly
/// after the send and directly before the fetch; without it the switch is
/// never asked for and the fetch follows the send.
pub proof fn lemma_row_by_row_precedes_fetch<R, E>(row_by_row: bool, replies: Seq<Reply<R, E>>)
    ensures
        ({
            let steps = steps_of(Execution::initial(row_by_row), replies);
            &&& steps.len() <= if row_by_row { 3int } else { 2int }
            &&& forall|i: int|
                0 <= i < steps.len() && (#[trigger] steps[i]) is GetNextResult ==> if row_by_row {
                    i == 1 && steps[0] is EnableRowByRowMode
                } else {
                    i == 0
                }
            &&& forall|i: int|
                0 <= i < steps.len() && (#[trigger] steps[i]) is EnableRowByRowMode ==> row_by_row
                    && i == 0
        }),
{
    let start = Execution::initial(row_by_row);
    let steps = steps_of(start, replies);
    if replies.len() == 0 || !start.awaits(replies[0]) {
        lemma_steps_stop(start, replies);
    } else {
        lemma_steps_unfold(start, replies);
        let second = Execution { phase: start.next_phase(replies[0]), row_by_row };
        let rest = replies.drop_first();
        if rest.len() == 0 || !second.awaits(rest[0]) {
            lemma_steps_stop(second, rest);
        } else {
            lemma_steps_unfold(second, rest);
            let third = Execution { phase: second.next_phase(rest[0]), row_by_row };
            let tail = rest.drop_first();
            if tail.len() == 0 || !third.awaits(tail[0]) {
                lemma_steps_stop(third, tail);
            } else {
                lemma_steps_unfold(third, tail);
                let last = Execution { phase: third.next_phase(tail[0]), row_by_row };
                assert(last.phase == Phase::Finished);
                lemma_steps_stop(last, tail.drop_first());
            }
        }
    }
}

/// A result, a failure or a missing result is the last step of an
/// execution: nothing is asked of the connection after it. A failure
/// carries the error of the call that failed, unchanged.
pub proof fn lemma_outcome_is_final<R, E>(state: Execution, reply: Reply<R, E>)
    requires
        state.awaits(reply),
    ensures
        ({
            let step = state.next_step(reply);
            let after = Execution { phase: state.next_phase(reply), row_by_row: state.row_by_row };
            &&& (step is Done || step is Failed || step is MissingResult) <==> after.phase
                == Phase::Finished
            &&& after.phase == Phase::Finished ==> forall|later: Reply<R, E>| !after.awaits(later)
            &&& step is Failed <==> (reply matches Reply::Sent(Err(_)) || reply matches Reply::RowByRowEnabled(
                Err(_),
            ) || reply matches Reply::Fetched(Err(_)))
            &&& step is MissingResult <==> reply == Reply::<R, E>::Fetched(Ok(None))
        }),
{
}

} // verus!
