//! What can go wrong while a database is brought up to date.

use vstd::prelude::*;

verus! {

/// Why a single database operation did not succeed.
#[derive(Debug)]
pub struct Failure {
    /// The driver's own description of the fault.
    pub message: String,
}

/// Why a migration run ended early.
#[derive(Debug)]
pub enum MigrateError {
    /// The registered sequence is not numbered `0, 1, 2, ...`: the migration
    /// registered at `position` declares `ordinal`.
    Config { position: usize, ordinal: i64 },
    /// The version bookkeeping could not be created or read.
    Bookkeeping(Failure),
    /// The migration with this ordinal could not be applied and committed.
    Migration { ordinal: i64, cause: Failure },
}

/// Why a todo could not be stored or fetched.
#[derive(Debug)]
pub enum StoreError {
    /// The database refused the statement.
    Database(Failure),
    /// No todo has the identifier asked for.
    NotFound,
}

/// Why no context could be set up.
#[derive(Debug)]
pub enum ContextError {
    /// The database could not be opened.
    Open(Failure),
    /// The database could not be brought to the latest schema.
    Migrate(MigrateError),
}

impl MigrateError {
    /// The ordinal that the error names, if it names one.
    pub open spec fn spec_ordinal(&self) -> Option<i64> {
        match self {
            MigrateError::Config { ordinal, .. } => Some(*ordinal),
            MigrateError::Bookkeeping(_) => None,
            MigrateError::Migration { ordinal, .. } => Some(*ordinal),
        }
    }

    /// The ordinal that the error names: the misplaced one of a configuration
    /// error, the failing one of a migration error.
    pub fn ordinal(&self) -> (r: Option<i64>)
        ensures
            r == self.spec_ordinal(),
    {
        match self {
            MigrateError::Config { ordinal, .. } => Some(*ordinal),
            MigrateError::Bookkeeping(_) => None,
            MigrateError::Migration { ordinal, .. } => Some(*ordinal),
        }
    }
}

} // verus!
