//! What holds of every run, whatever the database replies.

use vstd::prelude::*;
use crate::engine::{lemma_start, lemma_step, Engine, Phase, Reply};
use crate::failure::MigrateError;
use crate::plan::{contiguous, spec_pending, spec_resume, spec_top};

verus! {

impl Engine {
    /// The least ordinal that the run may still ask to apply: one more than
    /// the highest when it will ask for none.
    pub open spec fn floor(self) -> int {
        match self.phase {
            Phase::Ensuring | Phase::Reading => 0,
            Phase::Beginning(k) => k as int,
            Phase::Applying(k) | Phase::Recording(k) | Phase::Committing(k) => k + 1,
            Phase::Reverting(_, _) | Phase::Finished(_) => self.top + 1,
        }
    }

    /// The ordinals whose transactions were committed while the replies of
    /// `replies` were taken, in the order in which they were committed.
    pub open spec fn committed(self, replies: Seq<Reply>) -> Seq<i64>
        decreases replies.len(),
    {
        if replies.len() == 0 {
            Seq::empty()
        } else {
            let earlier = self.committed(replies.drop_last());
            match self.fed(replies.drop_last()).phase {
                Phase::Committing(k) => if replies.last() is Ok {
                    earlier.push(k)
                } else {
                    earlier
                },
                _ => earlier,
            }
        }
    }
}

/// Whatever the replies, the engine stays well-formed and the least ordinal
/// that it may still apply never falls.
pub proof fn lemma_fed(engine: Engine, replies: Seq<Reply>, upto: int)
    requires
        engine.wf(),
        0 <= upto <= replies.len(),
    ensures
        engine.fed(replies.take(upto)).wf(),
        engine.fed(replies.take(upto)).top == engine.top,
        engine.fed(replies.take(upto)).floor() >= engine.floor(),
        upto < replies.len() ==> engine.fed(replies.take(upto + 1)) == engine.fed(
            replies.take(upto),
        ).spec_step(replies[upto]).0,
    decreases upto,
{
    if upto > 0 {
        lemma_fed(engine, replies, upto - 1);
        lemma_step(engine.fed(replies.take(upto - 1)), replies[upto - 1]);
        assert(replies.take(upto).drop_last() =~= replies.take(upto - 1));
    }
    if upto < replies.len() {
        assert(replies.take(upto + 1).drop_last() =~= replies.take(upto));
    }
}

/// Whatever the replies, migrations are applied in strictly ascending order:
/// when the run waits for the application of `later` after it has waited for
/// that of `earlier`, then `earlier < later`. No migration is applied twice in
/// one run.
pub proof fn law_applies_in_ascending_order(
    engine: Engine,
    replies: Seq<Reply>,
    i: int,
    j: int,
    earlier: i64,
    later: i64,
)
    requires
        engine.wf(),
        0 <= i < j <= replies.len(),
        engine.fed(replies.take(i)).phase == Phase::Applying(earlier),
        engine.fed(replies.take(j)).phase == Phase::Applying(later),
    ensures
        earlier < later,
{
    lemma_fed(engine, replies, j - 1);
    let before = engine.fed(replies.take(j - 1));
    assert(before.phase == Phase::Beginning(later));
    lemma_between(engine, replies, i, j - 1);
}

/// Between two points of a run the least ordinal still to apply never falls.
proof fn lemma_between(engine: Engine, replies: Seq<Reply>, i: int, j: int)
    requires
        engine.wf(),
        0 <= i <= j <= replies.len(),
    ensures
        engine.fed(replies.take(i)).floor() <= engine.fed(replies.take(j)).floor(),
    decreases j - i,
{
    if i < j {
        lemma_between(engine, replies, i, j - 1);
        lemma_fed(engine, replies, j - 1);
        lemma_step(engine.fed(replies.take(j - 1)), replies[j - 1]);
    }
}

/// The ordinals `from..to` in ascending order.
pub open spec fn range(from: int, to: int) -> Seq<i64> {
    Seq::new((to - from) as nat, |i: int| (from + i) as i64)
}

/// The version that a run read, given the replies it got: the reply to its
/// second operation.
pub open spec fn version_read(replies: Seq<Reply>) -> i64 {
    replies[1]->Ok_0
}

/// What the replies of a run over a well-numbered sequence say of the state
/// it has reached and of what it has committed.
pub open spec fn traced(top: i64, replies: Seq<Reply>, engine: Engine, done: Seq<i64>) -> bool {
    let version = version_read(replies);
    let read = replies.len() >= 2 && replies[0] is Ok && replies[1] is Ok;
    match engine.phase {
        Phase::Ensuring => replies.len() == 0 && done == Seq::<i64>::empty(),
        Phase::Reading => replies.len() == 1 && replies[0] is Ok && done == Seq::<i64>::empty(),
        Phase::Beginning(k)
        | Phase::Applying(k)
        | Phase::Recording(k)
        | Phase::Committing(k)
        | Phase::Reverting(k, _)
        | Phase::Finished(Err(MigrateError::Migration { ordinal: k, .. })) => {
            &&& read
            &&& spec_pending(version, top)
            &&& spec_resume(version) <= k <= top
            &&& done == range(spec_resume(version), k as int)
        },
        Phase::Finished(Ok(_)) => {
            &&& read
            &&& done == if spec_pending(version, top) {
                range(spec_resume(version), top + 1)
            } else {
                Seq::<i64>::empty()
            }
        },
        Phase::Finished(Err(MigrateError::Bookkeeping(_))) => {
            &&& 1 <= replies.len()
            &&& replies[0] is Err || (replies.len() >= 2 && replies[1] is Err)
            &&& done == Seq::<i64>::empty()
        },
        Phase::Finished(Err(MigrateError::Config { .. })) => false,
    }
}

/// Whatever the database replies to a run over a well-numbered sequence, what
/// the run commits is decided by the version it read: it commits the
/// migrations from the one above that version upwards, each once and in
/// ascending order, up to the highest registered when it ends in success and
/// up to the one below `k` when it ends in the failure of migration `k`. It
/// commits nothing when the bookkeeping fails.
pub proof fn law_commits_pending_in_order(ordinals: Seq<i64>, replies: Seq<Reply>)
    requires
        contiguous(ordinals),
    ensures
        traced(
            spec_top(ordinals),
            replies,
            Engine::spec_start(ordinals).0.fed(replies),
            Engine::spec_start(ordinals).0.committed(replies),
        ),
    decreases replies.len(),
{
    let start = Engine::spec_start(ordinals).0;
    lemma_start(ordinals);
    if replies.len() > 0 {
        let before = replies.drop_last();
        law_commits_pending_in_order(ordinals, before);
        lemma_fed(start, replies, replies.len() - 1);
        let engine = start.fed(before);
        let version = version_read(replies);
        match engine.phase {
            Phase::Committing(k) => {
                assert(range(spec_resume(version), k as int).push(k) =~= range(
                    spec_resume(version),
                    k + 1,
                ));
            },
            Phase::Reading => {
                assert(range(spec_resume(version), spec_resume(version)) =~= Seq::<i64>::empty());
            },
            _ => {},
        }
    }
}

/// Migrations are applied without a gap: when the run opens the transaction of
/// a migration other than the one it resumed with, it has just committed the
/// migration below it.
pub proof fn law_applies_without_gap(engine: Engine, reply: Reply, next: i64)
    requires
        engine.wf(),
        !(engine.phase is Reading),
        engine.spec_step(reply).0.phase == Phase::Beginning(next),
    ensures
        engine.phase == Phase::Committing((next - 1) as i64),
        reply is Ok,
{
}

} // verus!
