//! Carrying out a migration run on a SQLite connection.

use vstd::prelude::*;
use crate::engine::{
    awaits, concludes, lemma_fed_push, lemma_start, lemma_step, Action, Engine, Phase, Reply,
};
use crate::failure::{Failure, MigrateError};
use crate::plan::{contiguous, spec_first_gap};
use crate::sqlite::{describe, execute, execute_batch, query_integer, Param};

verus! {

/// Creates the bookkeeping table if it is absent and records the sentinel in
/// it if it holds no version. Running it again changes nothing.
pub const ENSURE_STORE: &'static str =
    "
    CREATE TABLE IF NOT EXISTS schema_version (
        id      INTEGER PRIMARY KEY CHECK (id = 0),
        version INTEGER NOT NULL
    );
    INSERT OR IGNORE INTO schema_version (id, version) VALUES (0, -1);
    ";

/// Reads the recorded version.
pub const READ_VERSION: &'static str = "SELECT version FROM schema_version WHERE id = 0";

/// Records the bound integer as the version.
pub const RECORD_VERSION: &'static str =
    "INSERT OR REPLACE INTO schema_version (id, version) VALUES (0, ?1)";

/// Opens a transaction.
pub const BEGIN: &'static str = "BEGIN";

/// Makes the changes of the open transaction lasting.
pub const COMMIT: &'static str = "COMMIT";

/// Undoes the changes of the open transaction.
pub const ROLLBACK: &'static str = "ROLLBACK";

/// One forward step of the schema.
pub trait Migration {
    /// Makes the step's changes on `db`. The migrator calls it inside a
    /// transaction and at most once in the life of a database, so it need not
    /// be safe to repeat.
    fn up(&self, db: &rusqlite::Connection) -> (r: Result<(), Failure>);
}

/// The failure that a driver error stands for.
pub(crate) fn failure_of(error: rusqlite::Error) -> (failure: Failure) {
    Failure { message: describe(&error) }
}

/// What the driver handed back, with the driver's error, if it is one, turned
/// into the failure that stands for it.
pub fn failing<T>(result: Result<T, rusqlite::Error>) -> (r: Result<T, Failure>)
    ensures
        match result {
            Ok(value) => r == Ok::<T, Failure>(value),
            Err(_) => r is Err,
        },
{
    match result {
        Ok(value) => Ok(value),
        Err(error) => Err(failure_of(error)),
    }
}

/// The engine's reply for a statement that yields nothing the engine reads.
pub open spec fn spec_acknowledged<T>(result: Result<T, Failure>) -> Reply {
    match result {
        Ok(_) => Ok(0),
        Err(cause) => Err(cause),
    }
}

/// The engine's reply for a statement that yields nothing the engine reads:
/// what the statement yields is dropped, its failure is kept.
pub fn acknowledged<T>(result: Result<T, Failure>) -> (reply: Reply)
    ensures
        reply == spec_acknowledged(result),
{
    match result {
        Ok(_) => Ok(0),
        Err(cause) => Err(cause),
    }
}

/// What a bookkeeping statement yielded, a failure being a bookkeeping error.
pub open spec fn spec_bookkeeping(reply: Reply) -> Result<i64, MigrateError> {
    match reply {
        Ok(value) => Ok(value),
        Err(cause) => Err(MigrateError::Bookkeeping(cause)),
    }
}

/// What a bookkeeping statement yielded, a failure being a bookkeeping error.
pub fn bookkeeping(reply: Reply) -> (r: Result<i64, MigrateError>)
    ensures
        r == spec_bookkeeping(reply),
{
    match reply {
        Ok(value) => Ok(value),
        Err(cause) => Err(MigrateError::Bookkeeping(cause)),
    }
}

/// The version recorded on `db`, with the bookkeeping put in place first if it
/// is absent: the sentinel on a database that no run has touched.
pub fn schema_version(db: &rusqlite::Connection) -> (r: Result<i64, MigrateError>)
    ensures
        r matches Err(error) ==> error is Bookkeeping,
{
    match bookkeeping(acknowledged(failing(execute_batch(db, ENSURE_STORE)))) {
        Err(error) => Err(error),
        Ok(_) => bookkeeping(failing(query_integer(db, READ_VERSION, &Vec::new()))),
    }
}

/// A boxed migration is a migration, so that migrations of different types
/// can be registered with one migrator.
impl Migration for Box<dyn Migration> {
    fn up(&self, db: &rusqlite::Connection) -> (r: Result<(), Failure>) {
        (**self).up(db)
    }
}

/// A migration together with the ordinal it is registered under.
pub struct Registration<M: Migration> {
    pub ordinal: i64,
    pub migration: M,
}

/// The registered migrations in the order of registration.
pub struct Migrator<M: Migration> {
    entries: Vec<Registration<M>>,
}

impl<M: Migration> View for Migrator<M> {
    type V = Seq<i64>;

    /// The declared ordinals in the order of registration.
    closed spec fn view(&self) -> Seq<i64> {
        Seq::new(self.entries@.len(), |i: int| self.entries@[i].ordinal)
    }
}

impl<M: Migration> Migrator<M> {
    /// A migrator with nothing registered.
    pub fn new() -> (r: Self)
        ensures
            r@ == Seq::<i64>::empty(),
    {
        Migrator { entries: Vec::new() }
    }

    /// Registers `migration` behind those already registered, under `ordinal`.
    /// Any ordinal is taken: a run checks the numbering before it touches the
    /// database.
    pub fn register(&mut self, ordinal: i64, migration: M)
        ensures
            final(self)@ == old(self)@.push(ordinal),
    {
        self.entries.push(Registration { ordinal, migration });
        assert(self@ =~= old(self)@.push(ordinal));
    }

    /// The number of registered migrations.
    pub fn len(&self) -> (n: usize)
        ensures
            n == self@.len(),
    {
        self.entries.len()
    }

    /// The declared ordinals in the order of registration.
    pub fn ordinals(&self) -> (r: Vec<i64>)
        ensures
            r@ == self@,
    {
        let mut r: Vec<i64> = Vec::new();
        let mut i: usize = 0;
        while i < self.entries.len()
            invariant
                i <= self.entries.len(),
                r@ == self@.take(i as int),
            decreases self.entries.len() - i,
        {
            r.push(self.entries[i].ordinal);
            assert(self@.take(i + 1) == self@.take(i as int).push(self@[i as int]));
            i += 1;
        }
        r
    }

    /// Carries out `action` on `db` and hands back the reply for the engine:
    /// the version for a read, and for every other operation that succeeds the
    /// plain acknowledgement `Ok(0)`. To stop takes no operation and succeeds.
    fn perform(&self, db: &rusqlite::Connection, action: Action) -> (reply: Reply)
        requires
            action matches Action::Apply { ordinal } ==> 0 <= ordinal < self@.len(),
        ensures
            action == Action::Stop ==> reply == Ok::<i64, Failure>(0),
            reply is Ok && action != Action::ReadVersion ==> reply == Ok::<i64, Failure>(0),
    {
        match action {
            Action::EnsureStore => acknowledged(failing(execute_batch(db, ENSURE_STORE))),
            Action::ReadVersion => failing(query_integer(db, READ_VERSION, &Vec::new())),
            Action::Begin { .. } => acknowledged(failing(execute_batch(db, BEGIN))),
            Action::Apply { ordinal } => acknowledged(
                self.entries[ordinal as usize].migration.up(db),
            ),
            Action::Record { ordinal } => {
                let mut params: Vec<Param> = Vec::new();
                params.push(Param::Integer(ordinal));
                acknowledged(failing(execute(db, RECORD_VERSION, &params)))
            },
            Action::Commit { .. } => acknowledged(failing(execute_batch(db, COMMIT))),
            Action::Rollback { .. } => acknowledged(failing(execute_batch(db, ROLLBACK))),
            Action::Stop => Ok(0),
        }
    }

    /// Brings `db` up to the highest registered ordinal: checks the numbering,
    /// puts the bookkeeping in place, reads the recorded version and applies
    /// each migration above it in ascending order, each in a transaction of its
    /// own that also records its ordinal. The first failure ends the run.
    pub fn migrate(&self, db: &rusqlite::Connection) -> (r: Result<(), MigrateError>)
        ensures
            !contiguous(self@) ==> r == Err::<(), MigrateError>(
                MigrateError::Config {
                    position: spec_first_gap(self@) as usize,
                    ordinal: self@[spec_first_gap(self@)],
                },
            ),
            contiguous(self@) ==> match r {
                Ok(_) => true,
                Err(MigrateError::Bookkeeping(_)) => true,
                Err(MigrateError::Migration { ordinal, .. }) => 0 <= ordinal < self@.len(),
                Err(MigrateError::Config { .. }) => false,
            },
            concludes(self@, r),
    {
        proof {
            lemma_start(self@);
        }
        let ordinals = self.ordinals();
        let started = Engine::start(&ordinals);
        let mut engine = started.0;
        let mut action = started.1;
        let ghost mut replies: Seq<Reply> = Seq::empty();
        while action != Action::Stop
            invariant
                engine.wf(),
                awaits(engine.phase, action),
                engine == Engine::spec_start(self@).0.fed(replies),
                contiguous(self@) ==> engine.top == self@.len() - 1 && !(engine.phase
                    matches Phase::Finished(Err(MigrateError::Config { .. }))),
                !contiguous(self@) ==> engine == Engine::spec_start(self@).0,
            decreases engine.budget(),
        {
            let reply = self.perform(db, action);
            proof {
                lemma_step(engine, reply);
                lemma_fed_push(Engine::spec_start(self@).0, replies, reply);
                replies = replies.push(reply);
            }
            let next = engine.step(reply);
            engine = next.0;
            action = next.1;
        }
        match engine.outcome() {
            Some(result) => result,
            None => vstd::pervasive::unreached(),
        }
    }
}

} // verus!
