//! A personal task tracker on an embedded SQLite database.
//!
//! The heart of the crate is the schema migration engine. [`plan`] checks the
//! numbering of the registered migrations and picks those still to run,
//! [`engine`] decides what a run does next, [`trace`] states what holds of
//! every run whatever the database replies, [`ledger`] states what a run
//! achieves on a database that keeps its transactions atomic, and [`migrator`]
//! carries a run out on a connection. Around it stand the todos themselves.

pub mod context;
pub mod engine;
pub mod failure;
pub mod id;
pub mod ledger;
pub mod migrations;
pub mod migrator;
pub mod path;
pub mod plan;
pub mod sqlite;
pub mod store;
pub mod timestamp;
pub mod todo;
pub mod trace;
