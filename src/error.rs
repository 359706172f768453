//! Errors that end a run of migrations.
use vstd::prelude::*;

use crate::migration_record::MigrationRecord;

verus! {

/// One id that occurs more than once in a migration set, with every position
/// where it occurs, in increasing order.
#[derive(Debug)]
pub struct DuplicatedId {
    pub id: String,
    pub positions: Vec<usize>,
}

/// The ids that occur more than once in a migration set, each with all of
/// its positions: a map from id to positions, listed in the order in which
/// the ids first occur.
#[derive(Debug)]
pub struct DuplicatedIds {
    pub entries: Vec<DuplicatedId>,
}

impl View for DuplicatedIds {
    type V = Seq<(String, Seq<usize>)>;

    open spec fn view(&self) -> Seq<(String, Seq<usize>)> {
        self.entries@.map_values(|e: DuplicatedId| (e.id, e.positions@))
    }
}

/// Whether the entry for `id` is in `d`, and at which index.
pub open spec fn entry_index(d: Seq<(String, Seq<usize>)>, id: String, i: int) -> bool {
    0 <= i < d.len() && d[i].0@ == id@
}

impl DuplicatedIds {
    /// The number of duplicated ids.
    pub fn len(&self) -> (r: usize)
        ensures
            r == self@.len(),
    {
        self.entries.len()
    }

    /// Whether no id is duplicated.
    pub fn is_empty(&self) -> (r: bool)
        ensures
            r == (self@.len() == 0),
    {
        self.entries.len() == 0
    }

    /// The positions of `id`, if it is one of the duplicated ids. The ids of
    /// the entries are taken to be distinct, as [`validate`] makes them.
    ///
    /// [`validate`]: crate::migrator::plan::validate
    pub fn get(&self, id: &String) -> (r: Option<&Vec<usize>>)
        ensures
            match r {
                Some(positions) => exists|i: int|
                    #![trigger self@[i]]
                    entry_index(self@, *id, i) && positions@ == self@[i].1,
                None => forall|i: int| 0 <= i < self@.len() ==> self@[i].0@ != id@,
            },
    {
        let mut i: usize = 0;
        while i < self.entries.len()
            invariant
                0 <= i <= self.entries@.len(),
                forall|j: int| 0 <= j < i ==> self@[j].0@ != id@,
            decreases self.entries@.len() - i,
        {
            if self.entries[i].id == *id {
                assert(entry_index(self@, *id, i as int));
                return Some(&self.entries[i].positions);
            }
            i = i + 1;
        }
        None
    }
}

/// What ended a run of migrations. Each variant that names a migration also
/// lists the migrations after it in the run that were not executed.
#[derive(Debug)]
pub enum MigrationExecution {
    /// The record announcing the migration could not be encoded for the
    /// store; the migration was not executed.
    InitialMigrationRecord {
        migration_id: String,
        migration_record: MigrationRecord,
        next_not_executed_migrations_ids: Vec<String>,
        additional_info: String,
    },
    /// The store refused the record announcing the migration; the migration
    /// was not executed.
    InProgressStatusNotSaved {
        migration_id: String,
        next_not_executed_migrations_ids: Vec<String>,
        additional_info: String,
    },
    /// The migration finished, but its final record could not be encoded.
    FinishedButNotSavedDueToSerialization {
        migration_id: String,
        migration_status: String,
        migration_record: MigrationRecord,
        next_not_executed_migrations_ids: Vec<String>,
        additional_info: String,
    },
    /// The migration finished, but the store refused its final record.
    FinishedButNotSavedDueMongoError {
        migration_id: String,
        migration_status: String,
        additional_info: String,
        next_not_executed_migrations_ids: Vec<String>,
    },
    /// The migration failed (after its retries) and was recorded as failed,
    /// as were the migrations after it.
    FinishedAndSavedAsFail { migration_id: String, next_not_executed_migrations_ids: Vec<String> },
    /// Some ids occur more than once in the migration set; nothing was run.
    PassedMigrationsWithDuplicatedIds { duplicates: DuplicatedIds },
    /// No migration of the set has the requested id.
    MigrationFromVecNotFound { migration_id: String },
}

/// [`MigrationExecution`] with its vectors seen as sequences.
pub enum ErrorView {
    InitialMigrationRecord {
        migration_id: String,
        migration_record: MigrationRecord,
        next_not_executed_migrations_ids: Seq<String>,
        additional_info: String,
    },
    InProgressStatusNotSaved {
        migration_id: String,
        next_not_executed_migrations_ids: Seq<String>,
        additional_info: String,
    },
    FinishedButNotSavedDueToSerialization {
        migration_id: String,
        migration_status: Seq<char>,
        migration_record: MigrationRecord,
        next_not_executed_migrations_ids: Seq<String>,
        additional_info: String,
    },
    FinishedButNotSavedDueMongoError {
        migration_id: String,
        migration_status: Seq<char>,
        additional_info: String,
        next_not_executed_migrations_ids: Seq<String>,
    },
    FinishedAndSavedAsFail { migration_id: String, next_not_executed_migrations_ids: Seq<String> },
    PassedMigrationsWithDuplicatedIds { duplicates: Seq<(String, Seq<usize>)> },
    MigrationFromVecNotFound { migration_id: String },
}

impl View for MigrationExecution {
    type V = ErrorView;

    open spec fn view(&self) -> ErrorView {
        match self {
            MigrationExecution::InitialMigrationRecord {
                migration_id,
                migration_record,
                next_not_executed_migrations_ids,
                additional_info,
            } => ErrorView::InitialMigrationRecord {
                migration_id: *migration_id,
                migration_record: *migration_record,
                next_not_executed_migrations_ids: next_not_executed_migrations_ids@,
                additional_info: *additional_info,
            },
            MigrationExecution::InProgressStatusNotSaved {
                migration_id,
                next_not_executed_migrations_ids,
                additional_info,
            } => ErrorView::InProgressStatusNotSaved {
                migration_id: *migration_id,
                next_not_executed_migrations_ids: next_not_executed_migrations_ids@,
                additional_info: *additional_info,
            },
            MigrationExecution::FinishedButNotSavedDueToSerialization {
                migration_id,
                migration_status,
                migration_record,
                next_not_executed_migrations_ids,
                additional_info,
            } => ErrorView::FinishedButNotSavedDueToSerialization {
                migration_id: *migration_id,
                migration_status: migration_status@,
                migration_record: *migration_record,
                next_not_executed_migrations_ids: next_not_executed_migrations_ids@,
                additional_info: *additional_info,
            },
            MigrationExecution::FinishedButNotSavedDueMongoError {
                migration_id,
                migration_status,
                additional_info,
                next_not_executed_migrations_ids,
            } => ErrorView::FinishedButNotSavedDueMongoError {
                migration_id: *migration_id,
                migration_status: migration_status@,
                additional_info: *additional_info,
                next_not_executed_migrations_ids: next_not_executed_migrations_ids@,
            },
            MigrationExecution::FinishedAndSavedAsFail { migration_id, next_not_executed_migrations_ids } => {
                ErrorView::FinishedAndSavedAsFail {
                    migration_id: *migration_id,
                    next_not_executed_migrations_ids: next_not_executed_migrations_ids@,
                }
            },
            MigrationExecution::PassedMigrationsWithDuplicatedIds { duplicates } => {
                ErrorView::PassedMigrationsWithDuplicatedIds { duplicates: duplicates@ }
            },
            MigrationExecution::MigrationFromVecNotFound { migration_id } => {
                ErrorView::MigrationFromVecNotFound { migration_id: *migration_id }
            },
        }
    }
}

} // verus!
