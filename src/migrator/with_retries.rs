//! A migrator that tries each failing migration again, a bounded number of
//! times.
use std::time::Duration;
use vstd::prelude::*;

use crate::migrator::with_connection::WithConnection;

verus! {

/// How often a failed migration is tried again, and how long to wait before
/// each new try. The policy applies to each migration on its own.
#[derive(Clone, Copy, Debug, Default)]
pub struct Retry {
    pub count: usize,
    pub delay: Duration,
}

/// A connected migrator with a retry policy.
pub struct WithRetries {
    pub with_connection: WithConnection,
    pub with_retries_per_migration: Retry,
}

} // verus!
