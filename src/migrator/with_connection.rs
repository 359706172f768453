//! A migrator that knows the database it works on.
use std::time::Duration;
use vstd::prelude::*;

use crate::migrator::shell::ShellConfig;
use crate::migrator::with_retries::{Retry, WithRetries};
use crate::migrator::with_shell_config::WithShellConfig;

verus! {

#[verifier::external_type_specification]
#[verifier::external_body]
pub struct ExDatabase(mongodb::Database);

/// The database that migrations run against and that keeps their records.
pub struct WithConnection {
    pub db: mongodb::Database,
}

impl WithConnection {
    /// Lets migrations run scripts through the shell that `with_shell_config`
    /// describes.
    pub fn with_shell_config(self, with_shell_config: ShellConfig) -> (r: WithShellConfig)
        ensures
            r.with_shell_config == with_shell_config,
            r.with_connection == self,
    {
        WithShellConfig { with_shell_config, with_connection: self }
    }

    /// Tries each failing migration up to `retries_per_migration_count` more
    /// times, waiting `retry_delay` before each new try.
    pub fn with_retries(self, retries_per_migration_count: usize, retry_delay: Duration) -> (r: WithRetries)
        ensures
            r.with_connection == self,
            r.with_retries_per_migration == (Retry { count: retries_per_migration_count, delay: retry_delay }),
    {
        WithRetries {
            with_connection: self,
            with_retries_per_migration: Retry { count: retries_per_migration_count, delay: retry_delay },
        }
    }
}

} // verus!
