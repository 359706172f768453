//! [`MigrationRecord`] is the document kept in the migrations collection for
//! each migration: its status and the timing of its latest attempt.
use vstd::prelude::*;
use vstd::string::StringExecFns;

use crate::migration_status::MigrationStatus;

verus! {

/// The name of the collection that keeps the records when none is chosen.
pub open spec fn default_collection_name() -> Seq<char> {
    "migrations"@
}

/// The collection that keeps the records: the chosen one, or `migrations`.
pub fn collection_name(chosen: &Option<String>) -> (r: String)
    ensures
        r@ == match chosen {
            Some(name) => name@,
            None => default_collection_name(),
        },
{
    match chosen {
        Some(name) => name.clone(),
        None => String::from_str("migrations"),
    }
}

/// The stored state of one migration. Times are milliseconds since the Unix
/// epoch; `end_date` and `duration` are present once the attempt finished.
#[derive(Debug, PartialEq, Eq)]
pub struct MigrationRecord {
    pub _id: String,
    pub start_date: Option<i64>,
    pub end_date: Option<i64>,
    pub status: MigrationStatus,
    pub duration: Option<i64>,
}

/// The record written just before a migration runs.
pub open spec fn started(id: String, at: i64) -> MigrationRecord {
    MigrationRecord {
        _id: id,
        start_date: Some(at),
        end_date: None,
        status: MigrationStatus::InProgress,
        duration: None,
    }
}

/// Milliseconds from the start of `record` until `end`; zero for a record
/// without a start.
pub open spec fn elapsed(record: MigrationRecord, end: i64) -> int {
    match record.start_date {
        Some(start) => end - start,
        None => 0,
    }
}

/// `record` closed at `end` with `status`.
pub open spec fn finished(record: MigrationRecord, end: i64, status: MigrationStatus) -> MigrationRecord {
    MigrationRecord {
        end_date: Some(end),
        status,
        duration: Some(elapsed(record, end) as i64),
        ..record
    }
}

/// The record of a migration that was not run because an earlier one
/// failed: started and failed at the same instant.
pub open spec fn not_executed(id: String, at: i64) -> MigrationRecord {
    finished(started(id, at), at, MigrationStatus::Fail)
}

/// Whether `end` can close `record`: its elapsed time fits the `duration`
/// field.
pub open spec fn can_close_at(record: MigrationRecord, end: i64) -> bool {
    i64::MIN <= elapsed(record, end) <= i64::MAX
}

impl Clone for MigrationRecord {
    fn clone(&self) -> (r: Self)
        ensures
            r == *self,
    {
        MigrationRecord {
            _id: self._id.clone(),
            start_date: self.start_date,
            end_date: self.end_date,
            status: self.status,
            duration: self.duration,
        }
    }
}

impl MigrationRecord {
    /// The record of `migration_name` starting at `at`.
    pub fn migration_start(migration_name: String, at: i64) -> (r: Self)
        ensures
            r == started(migration_name, at),
    {
        MigrationRecord {
            _id: migration_name,
            start_date: Some(at),
            end_date: None,
            status: MigrationStatus::InProgress,
            duration: None,
        }
    }

    /// This record, closed as successful at `end`.
    pub fn migration_succeeded(self, end: i64) -> (r: Self)
        requires
            can_close_at(self, end),
        ensures
            r == finished(self, end, MigrationStatus::Success),
    {
        let duration = self.calc_migration_duration(end);
        MigrationRecord { end_date: Some(end), status: MigrationStatus::Success, duration: Some(duration), ..self }
    }

    /// This record, closed as failed at `end`.
    pub fn migration_failed(self, end: i64) -> (r: Self)
        requires
            can_close_at(self, end),
        ensures
            r == finished(self, end, MigrationStatus::Fail),
    {
        let duration = self.calc_migration_duration(end);
        MigrationRecord { end_date: Some(end), status: MigrationStatus::Fail, duration: Some(duration), ..self }
    }

    /// Milliseconds from the start of this record until `end_date`.
    fn calc_migration_duration(&self, end_date: i64) -> (r: i64)
        requires
            can_close_at(*self, end_date),
        ensures
            r == elapsed(*self, end_date),
    {
        match self.start_date {
            Some(start) => end_date - start,
            None => 0,
        }
    }
}

} // verus!
