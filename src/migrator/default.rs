//! The starting point of a migrator's configuration.
use vstd::prelude::*;

use crate::migrator::with_connection::WithConnection;

verus! {

/// A migrator that is not configured yet.
pub struct DefaultMigrator {}

impl DefaultMigrator {
    pub fn new() -> (r: Self)
        ensures
            r == (DefaultMigrator {}),
    {
        Self {}
    }

    /// Works on `db`.
    pub fn with_conn(self, db: mongodb::Database) -> (r: WithConnection)
        ensures
            r.db == db,
    {
        WithConnection { db }
    }
}

} // verus!
