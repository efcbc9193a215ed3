//! What a migration run achieves on a database that keeps its word.
//!
//! [`Ledger`] is a model, not SQLite: a database whose bookkeeping statements
//! succeed, whose transactions are atomic, and on which only migrations fail.
//! The laws of this module are proved of the engine run against that model.
//! That a real database behaves like the model is not proved here.

use vstd::prelude::*;
use crate::engine::{concludes, lemma_fed_first, lemma_start, lemma_step, Action, Engine, Phase, Reply};
use crate::failure::{Failure, MigrateError};
use crate::plan::{contiguous, spec_pending, SENTINEL};

verus! {

/// What a database holds, as far as a migration run can tell.
#[verifier::ext_equal]
pub struct Ledger {
    /// The version bookkeeping exists.
    pub prepared: bool,
    /// The recorded version.
    pub version: i64,
    /// The ordinals of the migrations whose changes the database holds, in the
    /// order in which they were made.
    pub applied: Seq<i64>,
    /// While a transaction is open: the version and the changes to which a
    /// rollback returns.
    pub saved: Option<(i64, Seq<i64>)>,
}

/// The migrations that fail, each with the failure it reports.
pub type Faults = Map<i64, Failure>;

/// The ordinals `0..=version` in ascending order.
pub open spec fn upto(version: i64) -> Seq<i64> {
    Seq::new((version + 1) as nat, |i: int| i as i64)
}

impl Ledger {
    /// A database that no run has touched.
    pub open spec fn fresh() -> Ledger {
        Ledger { prepared: false, version: SENTINEL, applied: Seq::empty(), saved: None }
    }

    /// The database is at rest and without a gap: no transaction is open, and it
    /// holds the changes of exactly the migrations `0..=version`, in order.
    pub open spec fn settled(self) -> bool {
        &&& self.saved is None
        &&& SENTINEL <= self.version
        &&& self.applied =~= upto(self.version)
        &&& !self.prepared ==> self.version == SENTINEL
    }

    /// The database with its bookkeeping in place.
    pub open spec fn ensured(self) -> Ledger {
        Ledger { prepared: true, ..self }
    }

    /// The database after migration `k` has been applied and recorded.
    pub open spec fn advanced(self, k: i64) -> Ledger {
        Ledger { version: k, applied: self.applied.push(k), ..self }
    }
}

/// The database after an operation, and the reply that the operation gets.
pub open spec fn respond(db: Ledger, action: Action, faults: Faults) -> (Ledger, Reply) {
    match action {
        Action::EnsureStore => (db.ensured(), Ok(0)),
        Action::ReadVersion => (db, Ok(db.version)),
        Action::Begin { ordinal } => (
            Ledger { saved: Some((db.version, db.applied)), ..db },
            Ok(0),
        ),
        Action::Apply { ordinal } => {
            let touched = Ledger { applied: db.applied.push(ordinal), ..db };
            if faults.contains_key(ordinal) {
                (touched, Err(faults[ordinal]))
            } else {
                (touched, Ok(0))
            }
        },
        Action::Record { ordinal } => (Ledger { version: ordinal, ..db }, Ok(0)),
        Action::Commit { ordinal } => (Ledger { saved: None, ..db }, Ok(0)),
        Action::Rollback { ordinal } => match db.saved {
            Some((version, applied)) => (Ledger { version, applied, saved: None, ..db }, Ok(0)),
            None => (db, Ok(0)),
        },
        Action::Stop => (db, Ok(0)),
    }
}

/// The engine and the database once the run that stands at `engine`, about to
/// carry out `action`, is over.
pub open spec fn run(engine: Engine, action: Action, db: Ledger, faults: Faults) -> (Engine, Ledger)
    decreases engine.budget(),
{
    if engine.phase is Finished || !engine.wf() {
        (engine, db)
    } else {
        let (after, reply) = respond(db, action, faults);
        let (next, then) = engine.spec_step(reply);
        run(next, then, after, faults)
    }
}

/// The replies that the database gives in the course of that run.
pub open spec fn replies_of(engine: Engine, action: Action, db: Ledger, faults: Faults) -> Seq<Reply>
    decreases engine.budget(),
{
    if engine.phase is Finished || !engine.wf() {
        Seq::empty()
    } else {
        let (after, reply) = respond(db, action, faults);
        let (next, then) = engine.spec_step(reply);
        seq![reply] + replies_of(next, then, after, faults)
    }
}

/// The result of a whole run over `ordinals` and the database it leaves.
pub open spec fn spec_migrate(ordinals: Seq<i64>, db: Ledger, faults: Faults) -> (
    Result<(), MigrateError>,
    Ledger,
) {
    let (engine, action) = Engine::spec_start(ordinals);
    let (last, after) = run(engine, action, db, faults);
    (last.phase->Finished_0, after)
}

/// Applying the migrations `k..=top` one transaction each, up to the first that
/// fails.
pub open spec fn advance(db: Ledger, k: i64, top: i64, faults: Faults) -> (
    Result<(), MigrateError>,
    Ledger,
)
    decreases top - k,
{
    if k > top {
        (Ok(()), db)
    } else if faults.contains_key(k) {
        (Err(MigrateError::Migration { ordinal: k, cause: faults[k] }), db)
    } else if k == top {
        (Ok(()), db.advanced(k))
    } else {
        advance(db.advanced(k), (k + 1) as i64, top, faults)
    }
}

/// No migration in `from..=to` fails.
pub open spec fn no_fault(faults: Faults, from: int, to: int) -> bool {
    forall|k: i64| from <= k <= to ==> !faults.contains_key(k)
}

proof fn lemma_run_is_advance(top: i64, k: i64, db: Ledger, faults: Faults)
    requires
        0 <= k <= top,
        db.saved is None,
    ensures
        run(Engine { top, phase: Phase::Beginning(k) }, Action::Begin { ordinal: k }, db, faults)
            == (
            Engine { top, phase: Phase::Finished(advance(db, k, top, faults).0) },
            advance(db, k, top, faults).1,
        ),
    decreases top - k,
{
    reveal_with_fuel(run, 6);
    if faults.contains_key(k) {
    } else if k == top {
    } else {
        lemma_run_is_advance(top, (k + 1) as i64, db.advanced(k), faults);
    }
}

proof fn lemma_advance(db: Ledger, k: i64, top: i64, faults: Faults)
    requires
        0 <= k <= top,
        db.settled(),
        db.prepared,
        db.version == k - 1,
    ensures
        advance(db, k, top, faults).1.settled(),
        advance(db, k, top, faults).1.prepared,
        advance(db, k, top, faults).1.version >= db.version,
        no_fault(faults, k as int, top as int) ==> advance(db, k, top, faults).0 is Ok && advance(
            db,
            k,
            top,
            faults,
        ).1.version == top,
    decreases top - k,
{
    if faults.contains_key(k) {
    } else if k == top {
        assert(db.advanced(k).applied =~= upto(k));
    } else {
        let next = db.advanced(k);
        assert(next.applied =~= upto(k));
        lemma_advance(next, (k + 1) as i64, top, faults);
        if no_fault(faults, k as int, top as int) {
            assert(no_fault(faults, k + 1, top as int));
        }
    }
}

proof fn lemma_advance_fails(db: Ledger, k: i64, top: i64, faults: Faults, f: i64)
    requires
        0 <= k <= f <= top,
        db.version == k - 1,
        faults.contains_key(f),
        no_fault(faults, k as int, f - 1),
    ensures
        advance(db, k, top, faults).0 == Err::<(), MigrateError>(
            MigrateError::Migration { ordinal: f, cause: faults[f] },
        ),
        advance(db, k, top, faults).1.version == f - 1,
    decreases top - k,
{
    if k < f {
        assert(!faults.contains_key(k));
        assert(no_fault(faults, k + 1, f - 1));
        lemma_advance_fails(db.advanced(k), (k + 1) as i64, top, faults, f);
    }
}

/// A whole run on a database at rest, written out: a badly numbered sequence
/// is refused before anything happens; otherwise the bookkeeping is put in
/// place and the migrations above the recorded version are applied in order.
pub proof fn lemma_migrate_unfolded(ordinals: Seq<i64>, db: Ledger, faults: Faults)
    requires
        db.settled(),
    ensures
        !contiguous(ordinals) ==> spec_migrate(ordinals, db, faults).0 is Err && spec_migrate(
            ordinals,
            db,
            faults,
        ).0->Err_0 is Config && spec_migrate(ordinals, db, faults).1 == db,
        contiguous(ordinals) && !spec_pending(db.version, (ordinals.len() - 1) as i64)
            ==> spec_migrate(ordinals, db, faults) == (Ok::<(), MigrateError>(()), db.ensured()),
        contiguous(ordinals) && spec_pending(db.version, (ordinals.len() - 1) as i64)
            ==> spec_migrate(ordinals, db, faults) == advance(
            db.ensured(),
            (db.version + 1) as i64,
            (ordinals.len() - 1) as i64,
            faults,
        ),
{
    lemma_start(ordinals);
    reveal_with_fuel(run, 3);
    if contiguous(ordinals) {
        let top = (ordinals.len() - 1) as i64;
        if spec_pending(db.version, top) {
            lemma_run_is_advance(top, (db.version + 1) as i64, db.ensured(), faults);
        }
    }
}

/// Whatever fails, a run leaves the database at rest and without a gap, and
/// never at a lower version than it found.
pub proof fn law_run_keeps_database_settled(ordinals: Seq<i64>, db: Ledger, faults: Faults)
    requires
        db.settled(),
    ensures
        spec_migrate(ordinals, db, faults).1.settled(),
        spec_migrate(ordinals, db, faults).1.version >= db.version,
{
    lemma_migrate_unfolded(ordinals, db, faults);
    if contiguous(ordinals) {
        let top = (ordinals.len() - 1) as i64;
        if spec_pending(db.version, top) {
            lemma_advance(db.ensured(), (db.version + 1) as i64, top, faults);
        }
    }
}

/// When the migrations `0..=n` are registered and none of those still to
/// apply fails, the run succeeds, the recorded version is `n`, and the database
/// holds the changes of the migrations `0..=n` in order.
pub proof fn law_success_reaches_top(ordinals: Seq<i64>, db: Ledger, faults: Faults)
    requires
        contiguous(ordinals),
        ordinals.len() > 0,
        db.settled(),
        db.version <= ordinals.len() - 1,
        no_fault(faults, db.version + 1, ordinals.len() - 1),
    ensures
        spec_migrate(ordinals, db, faults).0 is Ok,
        spec_migrate(ordinals, db, faults).1.version == ordinals.len() - 1,
        spec_migrate(ordinals, db, faults).1.applied == upto((ordinals.len() - 1) as i64),
{
    lemma_start(ordinals);
    lemma_migrate_unfolded(ordinals, db, faults);
    let top = (ordinals.len() - 1) as i64;
    if spec_pending(db.version, top) {
        lemma_advance(db.ensured(), (db.version + 1) as i64, top, faults);
    }
}

/// When migration `k` is the first to fail, the run reports `k` with the
/// failure, the recorded version is `k - 1` (the sentinel for `k = 0`), and the
/// database holds the changes of the migrations below `k` and none of `k`.
pub proof fn law_failure_keeps_prefix(ordinals: Seq<i64>, db: Ledger, faults: Faults, k: i64)
    requires
        contiguous(ordinals),
        db.settled(),
        db.version < k < ordinals.len(),
        faults.contains_key(k),
        no_fault(faults, db.version + 1, k - 1),
    ensures
        spec_migrate(ordinals, db, faults).0 == Err::<(), MigrateError>(
            MigrateError::Migration { ordinal: k, cause: faults[k] },
        ),
        spec_migrate(ordinals, db, faults).1.version == k - 1,
        spec_migrate(ordinals, db, faults).1.applied == upto((k - 1) as i64),
        !spec_migrate(ordinals, db, faults).1.applied.contains(k),
{
    lemma_start(ordinals);
    lemma_migrate_unfolded(ordinals, db, faults);
    let top = (ordinals.len() - 1) as i64;
    lemma_advance(db.ensured(), (db.version + 1) as i64, top, faults);
    lemma_advance_fails(db.ensured(), (db.version + 1) as i64, top, faults, k);
}

/// Running twice in a row is running once: the second run leaves the database
/// as the first left it and ends as the first ended.
pub proof fn law_run_twice_is_run_once(ordinals: Seq<i64>, db: Ledger, faults: Faults)
    requires
        db.settled(),
    ensures
        ({
            let (first, once) = spec_migrate(ordinals, db, faults);
            spec_migrate(ordinals, once, faults) == (first, once)
        }),
{
    let (first, once) = spec_migrate(ordinals, db, faults);
    lemma_migrate_unfolded(ordinals, db, faults);
    law_run_keeps_database_settled(ordinals, db, faults);
    lemma_migrate_unfolded(ordinals, once, faults);
    if contiguous(ordinals) {
        let top = (ordinals.len() - 1) as i64;
        if spec_pending(db.version, top) {
            let from = (db.version + 1) as i64;
            lemma_advance_stops(db.ensured(), from, top, faults);
        }
        assert(once.ensured() == once);
        assert(first is Ok ==> first->Ok_0 == ());
    }
}

/// Where `advance` ends is where another `advance` from the version it left
/// ends too, with the same result.
proof fn lemma_advance_stops(db: Ledger, k: i64, top: i64, faults: Faults)
    requires
        0 <= k <= top,
        db.version == k - 1,
        db.prepared,
    ensures
        ({
            let (result, after) = advance(db, k, top, faults);
            &&& after.prepared
            &&& k - 1 <= after.version <= top
            &&& result is Ok ==> after.version == top
            &&& result is Err ==> after.version < top && advance(
                after,
                (after.version + 1) as i64,
                top,
                faults,
            ) == (result, after)
        }),
    decreases top - k,
{
    if faults.contains_key(k) {
    } else if k == top {
    } else {
        lemma_advance_stops(db.advanced(k), (k + 1) as i64, top, faults);
    }
}

proof fn lemma_run_feeds_replies(engine: Engine, action: Action, db: Ledger, faults: Faults)
    requires
        engine.wf(),
    ensures
        run(engine, action, db, faults).0 == engine.fed(replies_of(engine, action, db, faults)),
        run(engine, action, db, faults).0.phase is Finished,
    decreases engine.budget(),
{
    if !(engine.phase is Finished) {
        let (after, reply) = respond(db, action, faults);
        let (next, then) = engine.spec_step(reply);
        lemma_step(engine, reply);
        lemma_run_feeds_replies(next, then, after, faults);
        lemma_fed_first(engine, reply, replies_of(next, then, after, faults));
    }
}

/// The result of a run against the ledger is what the engine concludes from
/// the replies that the ledger gives: on a database that replies as the ledger
/// does, it is the result of `Migrator::migrate`.
pub proof fn law_ledger_run_is_a_run(ordinals: Seq<i64>, db: Ledger, faults: Faults)
    ensures
        concludes(ordinals, spec_migrate(ordinals, db, faults).0),
{
    let (engine, action) = Engine::spec_start(ordinals);
    lemma_start(ordinals);
    lemma_run_feeds_replies(engine, action, db, faults);
    let replies = replies_of(engine, action, db, faults);
    assert(engine.fed(replies).spec_outcome() == Some(spec_migrate(ordinals, db, faults).0));
}

/// A run on a database that no run has touched succeeds when no migration
/// fails, and leaves the highest registered ordinal recorded.
pub proof fn law_fresh_database_succeeds(ordinals: Seq<i64>, faults: Faults)
    requires
        contiguous(ordinals),
        no_fault(faults, 0, ordinals.len() - 1),
    ensures
        spec_migrate(ordinals, Ledger::fresh(), faults).0 is Ok,
        spec_migrate(ordinals, Ledger::fresh(), faults).1.version == ordinals.len() - 1,
{
    lemma_start(ordinals);
    lemma_migrate_unfolded(ordinals, Ledger::fresh(), faults);
    assert(Ledger::fresh().applied =~= upto(SENTINEL));
    if ordinals.len() > 0 {
        law_success_reaches_top(ordinals, Ledger::fresh(), faults);
    }
}

/// A run on a database that is already at the highest registered ordinal, or
/// beyond it, succeeds and changes nothing, whatever would fail.
pub proof fn law_migrated_database_unchanged(ordinals: Seq<i64>, db: Ledger, faults: Faults)
    requires
        contiguous(ordinals),
        db.settled(),
        db.prepared,
        db.version >= ordinals.len() - 1,
    ensures
        spec_migrate(ordinals, db, faults) == (Ok::<(), MigrateError>(()), db),
{
    lemma_start(ordinals);
    lemma_migrate_unfolded(ordinals, db, faults);
    assert(db.ensured() == db);
}

} // verus!
