//! A migrator whose migrations may run JavaScript through the MongoDB shell.
use vstd::prelude::*;

use crate::migrator::shell::{Shell, ShellConfig};
use crate::migrator::with_connection::WithConnection;

verus! {

/// A connected migrator with a shell configuration.
pub struct WithShellConfig {
    pub with_shell_config: ShellConfig,
    pub with_connection: WithConnection,
}

impl WithShellConfig {
    /// The shell that migrations are given.
    pub fn shell(&self) -> (r: Shell)
        ensures
            r.config == self.with_shell_config,
    {
        Shell::new(self.with_shell_config.clone())
    }
}

} // verus!
