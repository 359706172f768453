//! The status of one migration attempt.
use vstd::prelude::*;
use vstd::string::StringExecFns;

verus! {

/// Where a migration attempt stands.
#[derive(Clone, Copy, Debug, PartialEq, Eq, Structural)]
pub enum MigrationStatus {
    /// The migration is running now.
    InProgress,
    /// The migration completed successfully.
    Success,
    /// The migration completed with an error, or was never run because an
    /// earlier one failed.
    Fail,
}

/// The name of a status, as the store keeps it.
pub open spec fn status_name(status: MigrationStatus) -> Seq<char> {
    match status {
        MigrationStatus::InProgress => "InProgress"@,
        MigrationStatus::Success => "Succeeded"@,
        MigrationStatus::Fail => "Failed"@,
    }
}

impl MigrationStatus {
    /// The name of this status, as the store keeps it.
    pub fn name(&self) -> (r: String)
        ensures
            r@ == status_name(*self),
    {
        match self {
            MigrationStatus::InProgress => String::from_str("InProgress"),
            MigrationStatus::Success => String::from_str("Succeeded"),
            MigrationStatus::Fail => String::from_str("Failed"),
        }
    }
}

} // verus!
