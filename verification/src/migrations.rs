//! The migrations of the task tracker's own schema.

use vstd::prelude::*;
use crate::engine::concludes;
use crate::failure::{Failure, MigrateError};
use crate::migrator::{failing, Migration, Migrator};
use crate::sqlite::execute_batch;

verus! {

/// Creates the table of todos.
pub const CREATE_TODOS: &'static str =
    "
            CREATE TABLE todos (
                id          INTEGER NOT NULL UNIQUE,
                title       TEXT NOT NULL,
                path        TEXT NOT NULL,
                scheduled   INTEGER,
                deadline    INTEGER,
                opened      INTEGER NOT NULL,
                closed      INTEGER,

                PRIMARY KEY(id)
            );
            ";

/// The first migration: the table of todos.
pub struct Migration000 {}

impl Migration for Migration000 {
    fn up(&self, db: &rusqlite::Connection) -> (r: Result<(), Failure>) {
        failing(execute_batch(db, CREATE_TODOS))
    }
}

/// The ordinals of the task tracker's migrations, in the order of
/// registration.
pub open spec fn spec_registered() -> Seq<i64> {
    seq![0i64]
}

/// The migrator of the task tracker: its migrations under the ordinals
/// `0, 1, 2, ...`.
pub fn registered() -> (r: Migrator<Migration000>)
    ensures
        r@ == spec_registered(),
{
    let mut migrator = Migrator::new();
    migrator.register(0, Migration000 {  });
    migrator
}

/// Brings `db` up to the task tracker's latest schema: a run of the
/// registered migrations, which are well numbered.
pub fn migrate(db: &rusqlite::Connection) -> (r: Result<(), MigrateError>)
    ensures
        concludes(spec_registered(), r),
        match r {
            Ok(_) => true,
            Err(MigrateError::Bookkeeping(_)) => true,
            Err(MigrateError::Migration { ordinal, .. }) => ordinal == 0,
            Err(MigrateError::Config { .. }) => false,
        },
{
    let migrator = registered();
    assert(migrator@[0] == 0);
    migrator.migrate(db)
}

} // verus!
