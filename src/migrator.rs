//! Configuration of the migrator, and its execution engine.
pub mod default;
pub mod model;
pub mod plan;
pub mod run;
pub mod shell;
pub mod with_connection;
pub mod with_retries;
pub mod with_shell_config;
