//! Where the MongoDB shell that runs script-based migrations is reached.
use vstd::prelude::*;
use vstd::string::StringExecFns;

verus! {

/// The host and port that the shell connects to.
#[derive(Debug)]
pub struct ShellConfig {
    pub host: String,
    pub port: usize,
}

impl Clone for ShellConfig {
    fn clone(&self) -> (r: Self)
        ensures
            r == *self,
    {
        ShellConfig { host: self.host.clone(), port: self.port }
    }
}

impl Default for ShellConfig {
    /// `localhost`, on MongoDB's default port.
    fn default() -> (r: Self)
        ensures
            r.host@ == "localhost"@,
            r.port == 27017,
    {
        ShellConfig { host: String::from_str("localhost"), port: 27017 }
    }
}

/// A handle on the MongoDB shell, handed to migrations that run scripts.
#[derive(Debug)]
pub struct Shell {
    pub config: ShellConfig,
}

impl Clone for Shell {
    fn clone(&self) -> (r: Self)
        ensures
            r == *self,
    {
        Shell { config: self.config.clone() }
    }
}

impl Default for Shell {
    /// A shell with the default configuration.
    fn default() -> (r: Self)
        ensures
            r.config.host@ == "localhost"@,
            r.config.port == 27017,
    {
        Shell { config: ShellConfig::default() }
    }
}

impl Shell {
    /// A shell that connects as `config` says.
    pub fn new(config: ShellConfig) -> (r: Self)
        ensures
            r.config == config,
    {
        Shell { config }
    }
}

} // verus!
