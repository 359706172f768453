//! Runs an ordered set of named migrations against a document store and
//! keeps a durable record of every attempt.
//!
//! The execution engine is a state machine ([`migrator::run::Run`]): it
//! decides what to do next (write a record, run a migration, wait before a
//! retry, finish) and the embedding code performs that action and reports
//! back what happened. Every decision is verified against the model in
//! [`migrator::model`].
pub mod error;
pub mod migration;
pub mod migration_record;
pub mod migration_status;
pub mod timestamp;
pub mod migrator;
pub mod server;
