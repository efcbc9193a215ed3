//! What every operation on todos needs at hand.

use vstd::prelude::*;
use crate::engine::concludes;
use crate::failure::{ContextError, MigrateError};
use crate::migrations::{migrate, spec_registered};
use crate::migrator::failing;
use crate::sqlite::open_in_memory;

verus! {

/// The database connection, handed explicitly to whatever needs it.
#[derive(Debug)]
pub struct Context {
    pub db: rusqlite::Connection,
}

impl Context {
    /// A context on a new in-memory database with the latest schema: the
    /// database is opened and the registered migrations are run on it. There is
    /// a context when the run succeeds, and the run's error when it does not.
    pub fn new_testing_context() -> (r: Result<Context, ContextError>)
        ensures
            match r {
                Ok(_) => concludes(spec_registered(), Ok::<(), MigrateError>(())),
                Err(ContextError::Migrate(error)) => {
                    &&& concludes(spec_registered(), Err::<(), MigrateError>(error))
                    &&& !(error is Config)
                },
                Err(ContextError::Open(_)) => true,
            },
    {
        match failing(open_in_memory()) {
            Err(cause) => Err(ContextError::Open(cause)),
            Ok(db) => {
                let migrated = migrate(&db);
                assert(migrated is Ok ==> migrated->Ok_0 == ());
                match migrated {
                    Err(error) => Err(ContextError::Migrate(error)),
                    Ok(_) => Ok(Context { db }),
                }
            },
        }
    }
}

} // verus!
