//! The decisions of a migration run.
//!
//! The engine never touches a database. It names the next operation to carry
//! out, is told how that operation went, and names the one after it, until it
//! stops with the run's result. Whoever drives it performs the operations.

use vstd::prelude::*;
use crate::failure::{Failure, MigrateError};
use crate::plan::{
    contiguous, first_gap, lemma_first_gap_unique, resume, spec_first_gap, spec_pending,
    spec_resume, spec_top, top_of, SENTINEL,
};

verus! {

/// How an operation went: the integer it produced, or why it failed. Only the
/// reply to [`Action::ReadVersion`] is read for its integer, the recorded
/// version.
pub type Reply = Result<i64, Failure>;

/// An operation on the database that the engine asks for.
#[derive(Debug, PartialEq, Eq, Structural, Clone, Copy)]
pub enum Action {
    /// Create the version bookkeeping if it is absent, recording the sentinel.
    EnsureStore,
    /// Read the recorded version.
    ReadVersion,
    /// Open a transaction for the migration with this ordinal.
    Begin { ordinal: i64 },
    /// Apply the migration with this ordinal.
    Apply { ordinal: i64 },
    /// Record this ordinal as the version.
    Record { ordinal: i64 },
    /// Commit the transaction of the migration with this ordinal.
    Commit { ordinal: i64 },
    /// Abandon the transaction of the migration with this ordinal.
    Rollback { ordinal: i64 },
    /// Nothing more: the run is over.
    Stop,
}

/// Where a run stands: the operation whose reply the engine waits for.
#[derive(Debug)]
pub enum Phase {
    Ensuring,
    Reading,
    Beginning(i64),
    Applying(i64),
    Recording(i64),
    Committing(i64),
    /// The transaction of this ordinal is being abandoned because of the failure.
    Reverting(i64, Failure),
    Finished(Result<(), MigrateError>),
}

/// The state of one migration run over migrations numbered `0..=top`.
#[derive(Debug)]
pub struct Engine {
    /// The highest registered ordinal, the sentinel when none is registered.
    pub top: i64,
    pub phase: Phase,
}

impl Engine {
    /// The ordinals that the phase refers to lie in `0..=top`.
    pub open spec fn wf(self) -> bool {
        &&& SENTINEL <= self.top
        &&& match self.phase {
            Phase::Ensuring | Phase::Reading => true,
            Phase::Beginning(k)
            | Phase::Applying(k)
            | Phase::Recording(k)
            | Phase::Committing(k)
            | Phase::Reverting(k, _) => 0 <= k <= self.top,
            Phase::Finished(Err(MigrateError::Migration { ordinal, .. })) => 0 <= ordinal
                <= self.top,
            Phase::Finished(_) => true,
        }
    }

    /// An upper bound on the number of operations that a run in this state
    /// still asks for.
    pub open spec fn budget(self) -> nat {
        match self.phase {
            Phase::Finished(_) => 0,
            Phase::Reverting(_, _) => 1,
            Phase::Committing(k) => (2 + 5 * (self.top - k)) as nat,
            Phase::Recording(k) => (3 + 5 * (self.top - k)) as nat,
            Phase::Applying(k) => (4 + 5 * (self.top - k)) as nat,
            Phase::Beginning(k) => (5 + 5 * (self.top - k)) as nat,
            Phase::Reading => (6 + 5 * (self.top + 1)) as nat,
            Phase::Ensuring => (7 + 5 * (self.top + 1)) as nat,
        }
    }

    /// The result of the run, once it is over.
    pub open spec fn spec_outcome(self) -> Option<Result<(), MigrateError>> {
        match self.phase {
            Phase::Finished(result) => Some(result),
            _ => None,
        }
    }

    /// The state in which a run over `ordinals` begins, and its first operation.
    pub open spec fn spec_start(ordinals: Seq<i64>) -> (Engine, Action) {
        if contiguous(ordinals) {
            (Engine { top: spec_top(ordinals), phase: Phase::Ensuring }, Action::EnsureStore)
        } else {
            let position = spec_first_gap(ordinals);
            (
                Engine {
                    top: SENTINEL,
                    phase: Phase::Finished(
                        Err(
                            MigrateError::Config {
                                position: position as usize,
                                ordinal: ordinals[position],
                            },
                        ),
                    ),
                },
                Action::Stop,
            )
        }
    }

    /// The state after `reply` has answered the pending operation, and the
    /// operation to carry out next.
    pub open spec fn spec_step(self, reply: Reply) -> (Engine, Action) {
        let top = self.top;
        match self.phase {
            Phase::Ensuring => match reply {
                Ok(_) => (Engine { top, phase: Phase::Reading }, Action::ReadVersion),
                Err(cause) => (
                    Engine { top, phase: Phase::Finished(Err(MigrateError::Bookkeeping(cause))) },
                    Action::Stop,
                ),
            },
            Phase::Reading => match reply {
                Ok(version) => if spec_pending(version, top) {
                    let next = spec_resume(version) as i64;
                    (Engine { top, phase: Phase::Beginning(next) }, Action::Begin { ordinal: next })
                } else {
                    (Engine { top, phase: Phase::Finished(Ok(())) }, Action::Stop)
                },
                Err(cause) => (
                    Engine { top, phase: Phase::Finished(Err(MigrateError::Bookkeeping(cause))) },
                    Action::Stop,
                ),
            },
            Phase::Beginning(k) => match reply {
                Ok(_) => (Engine { top, phase: Phase::Applying(k) }, Action::Apply { ordinal: k }),
                Err(cause) => (
                    Engine {
                        top,
                        phase: Phase::Finished(Err(MigrateError::Migration { ordinal: k, cause })),
                    },
                    Action::Stop,
                ),
            },
            Phase::Applying(k) => match reply {
                Ok(_) => (Engine { top, phase: Phase::Recording(k) }, Action::Record { ordinal: k }),
                Err(cause) => (
                    Engine { top, phase: Phase::Reverting(k, cause) },
                    Action::Rollback { ordinal: k },
                ),
            },
            Phase::Recording(k) => match reply {
                Ok(_) => (Engine { top, phase: Phase::Committing(k) }, Action::Commit { ordinal: k }),
                Err(cause) => (
                    Engine { top, phase: Phase::Reverting(k, cause) },
                    Action::Rollback { ordinal: k },
                ),
            },
            Phase::Committing(k) => match reply {
                Ok(_) => if k < top {
                    let next = (k + 1) as i64;
                    (Engine { top, phase: Phase::Beginning(next) }, Action::Begin { ordinal: next })
                } else {
                    (Engine { top, phase: Phase::Finished(Ok(())) }, Action::Stop)
                },
                Err(cause) => (
                    Engine { top, phase: Phase::Reverting(k, cause) },
                    Action::Rollback { ordinal: k },
                ),
            },
            Phase::Reverting(k, cause) => (
                Engine {
                    top,
                    phase: Phase::Finished(Err(MigrateError::Migration { ordinal: k, cause })),
                },
                Action::Stop,
            ),
            Phase::Finished(result) => (Engine { top, phase: Phase::Finished(result) }, Action::Stop),
        }
    }

    /// The state after the replies of `replies` have been taken in order.
    pub open spec fn fed(self, replies: Seq<Reply>) -> Engine
        decreases replies.len(),
    {
        if replies.len() == 0 {
            self
        } else {
            self.fed(replies.drop_last()).spec_step(replies.last()).0
        }
    }

    /// Begins a run over the registered ordinals. A sequence that is not
    /// numbered `0, 1, 2, ...` ends the run at once, before any operation.
    pub fn start(ordinals: &Vec<i64>) -> (r: (Engine, Action))
        ensures
            r == Engine::spec_start(ordinals@),
            r.0.wf(),
    {
        match first_gap(ordinals) {
            None => (Engine { top: top_of(ordinals), phase: Phase::Ensuring }, Action::EnsureStore),
            Some(position) => {
                proof {
                    lemma_first_gap_unique(ordinals@, position as int);
                }
                let error = MigrateError::Config { position, ordinal: ordinals[position] };
                (Engine { top: SENTINEL, phase: Phase::Finished(Err(error)) }, Action::Stop)
            },
        }
    }

    /// Takes the reply to the pending operation and names the next one.
    pub fn step(self, reply: Reply) -> (r: (Engine, Action))
        ensures
            r == self.spec_step(reply),
    {
        let top = self.top;
        match self.phase {
            Phase::Ensuring => match reply {
                Ok(_) => (Engine { top, phase: Phase::Reading }, Action::ReadVersion),
                Err(cause) => (
                    Engine { top, phase: Phase::Finished(Err(MigrateError::Bookkeeping(cause))) },
                    Action::Stop,
                ),
            },
            Phase::Reading => match reply {
                Ok(version) => match resume(version, top) {
                    Some(next) => (
                        Engine { top, phase: Phase::Beginning(next) },
                        Action::Begin { ordinal: next },
                    ),
                    None => (Engine { top, phase: Phase::Finished(Ok(())) }, Action::Stop),
                },
                Err(cause) => (
                    Engine { top, phase: Phase::Finished(Err(MigrateError::Bookkeeping(cause))) },
                    Action::Stop,
                ),
            },
            Phase::Beginning(k) => match reply {
                Ok(_) => (Engine { top, phase: Phase::Applying(k) }, Action::Apply { ordinal: k }),
                Err(cause) => (
                    Engine {
                        top,
                        phase: Phase::Finished(Err(MigrateError::Migration { ordinal: k, cause })),
                    },
                    Action::Stop,
                ),
            },
            Phase::Applying(k) => match reply {
                Ok(_) => (Engine { top, phase: Phase::Recording(k) }, Action::Record { ordinal: k }),
                Err(cause) => (
                    Engine { top, phase: Phase::Reverting(k, cause) },
                    Action::Rollback { ordinal: k },
                ),
            },
            Phase::Recording(k) => match reply {
                Ok(_) => (Engine { top, phase: Phase::Committing(k) }, Action::Commit { ordinal: k }),
                Err(cause) => (
                    Engine { top, phase: Phase::Reverting(k, cause) },
                    Action::Rollback { ordinal: k },
                ),
            },
            Phase::Committing(k) => match reply {
                Ok(_) => if k < top {
                    let next: i64 = k + 1;
                    (Engine { top, phase: Phase::Beginning(next) }, Action::Begin { ordinal: next })
                } else {
                    (Engine { top, phase: Phase::Finished(Ok(())) }, Action::Stop)
                },
                Err(cause) => (
                    Engine { top, phase: Phase::Reverting(k, cause) },
                    Action::Rollback { ordinal: k },
                ),
            },
            Phase::Reverting(k, cause) => (
                Engine {
                    top,
                    phase: Phase::Finished(Err(MigrateError::Migration { ordinal: k, cause })),
                },
                Action::Stop,
            ),
            Phase::Finished(result) => (Engine { top, phase: Phase::Finished(result) }, Action::Stop),
        }
    }

    /// The result of the run if it is over, nothing while it is under way.
    pub fn outcome(self) -> (r: Option<Result<(), MigrateError>>)
        ensures
            r == self.spec_outcome(),
    {
        match self.phase {
            Phase::Finished(result) => Some(result),
            _ => None,
        }
    }
}

/// The operation that the engine asks for is the one that its phase waits on.
pub open spec fn awaits(phase: Phase, action: Action) -> bool {
    match phase {
        Phase::Ensuring => action == Action::EnsureStore,
        Phase::Reading => action == Action::ReadVersion,
        Phase::Beginning(k) => action == (Action::Begin { ordinal: k }),
        Phase::Applying(k) => action == (Action::Apply { ordinal: k }),
        Phase::Recording(k) => action == (Action::Record { ordinal: k }),
        Phase::Committing(k) => action == (Action::Commit { ordinal: k }),
        Phase::Reverting(k, _) => action == (Action::Rollback { ordinal: k }),
        Phase::Finished(_) => action == Action::Stop,
    }
}

/// A run begins well-formed and asking for what its phase waits on.
pub proof fn lemma_start(ordinals: Seq<i64>)
    ensures
        Engine::spec_start(ordinals).0.wf(),
        awaits(Engine::spec_start(ordinals).0.phase, Engine::spec_start(ordinals).1),
        contiguous(ordinals) ==> Engine::spec_start(ordinals).0.top == ordinals.len() - 1,
{
    if contiguous(ordinals) && ordinals.len() > 0 {
        assert(ordinals[ordinals.len() - 1] == ordinals.len() - 1);
    }
}

/// Every step keeps the engine well-formed, asks for what the new phase waits
/// on, and uses up budget: a run ends after finitely many operations.
pub proof fn lemma_step(engine: Engine, reply: Reply)
    requires
        engine.wf(),
    ensures
        engine.spec_step(reply).0.wf(),
        engine.spec_step(reply).0.top == engine.top,
        awaits(engine.spec_step(reply).0.phase, engine.spec_step(reply).1),
        !(engine.phase is Finished) ==> engine.spec_step(reply).0.budget() < engine.budget(),
        engine.phase is Finished ==> engine.spec_step(reply).0 == engine,
{
}

/// `result` is what the engine concludes from some sequence of replies to a run
/// over `ordinals`.
pub open spec fn concludes(ordinals: Seq<i64>, result: Result<(), MigrateError>) -> bool {
    exists|replies: Seq<Reply>|
        (#[trigger] Engine::spec_start(ordinals).0.fed(replies)).spec_outcome() == Some(result)
}

/// Taking one more reply is taking a step.
pub proof fn lemma_fed_push(engine: Engine, replies: Seq<Reply>, reply: Reply)
    ensures
        engine.fed(replies.push(reply)) == engine.fed(replies).spec_step(reply).0,
{
    assert(replies.push(reply).drop_last() =~= replies);
}

/// Taking a reply and then more replies is taking a step first.
pub proof fn lemma_fed_first(engine: Engine, reply: Reply, rest: Seq<Reply>)
    ensures
        engine.fed(seq![reply] + rest) == engine.spec_step(reply).0.fed(rest),
    decreases rest.len(),
{
    let whole = seq![reply] + rest;
    if rest.len() == 0 {
        assert(whole.drop_last() =~= Seq::<Reply>::empty());
        assert(engine.fed(whole.drop_last()) == engine);
    } else {
        assert(whole.drop_last() =~= seq![reply] + rest.drop_last());
        lemma_fed_first(engine, reply, rest.drop_last());
    }
}

} // verus!
