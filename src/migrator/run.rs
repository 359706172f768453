//! The execution engine: one run of `Up` or `Down` over a migration set, or
//! over a single migration of it, as a state machine.
//!
//! A run never performs a side effect itself. It hands out an [`Action`];
//! the embedding code performs it and answers with an [`Event`], which
//! [`Run::step_at`] turns into the next action, until [`Action::Finish`].
//! The embedding code reads the clock and hands the time to each step.
use std::time::Duration;
use vstd::prelude::*;

use crate::timestamp::is_timestamp;
use crate::error::{ErrorView, MigrationExecution};
use crate::migration_record::MigrationRecord;
use crate::migration_status::MigrationStatus;
use crate::migrator::model::{ActionView, EventView, RunView};
use crate::migrator::plan::{
    all_unique, describes_duplicates, execution_order, lemma_run_order_in_range, validate, OperationType,
};
use crate::migrator::with_retries::Retry;

verus! {

/// Where a run stands.
#[derive(Debug)]
pub enum Stage {
    /// Waiting for the stored records.
    Loading,
    /// Waiting for the announcing record of the current migration to be
    /// stored.
    Starting(MigrationRecord),
    /// Waiting for the current migration's operation; the record is the
    /// announcing one.
    Running(MigrationRecord),
    /// Waiting for the final record of the current migration to be stored.
    Finishing(MigrationRecord),
    /// Waiting before the current migration is tried again.
    Waiting,
    /// Waiting for the failed record of the migration at this index of the
    /// run, which is not executed, to be stored.
    Cascading(usize, MigrationRecord),
    /// The run is over.
    Finished,
}

/// What a run asks the embedding code to do next.
#[derive(Debug)]
pub enum Action {
    /// Read every stored record, and answer with [`Event::Loaded`].
    LoadRecords,
    /// Store this record as a new one (replacing any record of the same id),
    /// and answer with [`Event::Saved`], [`Event::NotSerialized`] or
    /// [`Event::NotPersisted`].
    SaveInitial(MigrationRecord),
    /// Run the operation of the migration at this position of the set, and
    /// answer with [`Event::Ran`]. Any failure of the operation, a panic
    /// included, is reported as `Ran(false)`.
    Execute { position: usize, operation: OperationType },
    /// Store this record under its id, creating it if it is missing, and
    /// answer as for `SaveInitial`.
    SaveFinal(MigrationRecord),
    /// Wait this long, and answer with [`Event::Slept`].
    Sleep(Duration),
    /// Store this record under its id, creating it if it is missing, and
    /// answer as for `SaveInitial`.
    SaveCascade(MigrationRecord),
    /// The run is over, with this result.
    Finish(Result<(), MigrationExecution>),
}

impl View for Action {
    type V = ActionView;

    open spec fn view(&self) -> ActionView {
        match self {
            Action::LoadRecords => ActionView::LoadRecords,
            Action::SaveInitial(record) => ActionView::SaveInitial(*record),
            Action::Execute { position, operation } => ActionView::Execute {
                position: *position,
                operation: *operation,
            },
            Action::SaveFinal(record) => ActionView::SaveFinal(*record),
            Action::Sleep(delay) => ActionView::Sleep(*delay),
            Action::SaveCascade(record) => ActionView::SaveCascade(*record),
            Action::Finish(result) => ActionView::Finish(
                match result {
                    Ok(()) => Ok(()),
                    Err(e) => Err(e@),
                },
            ),
        }
    }
}

/// What the embedding code reports after performing an action.
#[derive(Debug)]
pub enum Event {
    /// Every stored record.
    Loaded(Vec<MigrationRecord>),
    /// The record was stored.
    Saved,
    /// The record could not be encoded for the store, for this reason.
    NotSerialized(String),
    /// The store refused the record, for this reason.
    NotPersisted(String),
    /// The operation returned: `true` on success.
    Ran(bool),
    /// The wait is over.
    Slept,
}

impl View for Event {
    type V = EventView;

    open spec fn view(&self) -> EventView {
        match self {
            Event::Loaded(records) => EventView::Loaded(records@),
            Event::Saved => EventView::Saved,
            Event::NotSerialized(info) => EventView::NotSerialized(*info),
            Event::NotPersisted(info) => EventView::NotPersisted(*info),
            Event::Ran(succeeded) => EventView::Ran(*succeeded),
            Event::Slept => EventView::Slept,
        }
    }
}

/// A run that waits for the stored records, before anything was executed.
pub open spec fn loading(
    ids: Seq<String>,
    from: int,
    to: int,
    operation: OperationType,
    retry: Retry,
) -> RunView {
    RunView {
        ids,
        from,
        to,
        operation,
        retry,
        order: Seq::empty(),
        current: 0,
        retries_left: 0,
        stage: Stage::Loading,
    }
}

/// A run that ended at once on a set whose ids repeat: its action reports
/// every repeated id.
pub open spec fn refused_as_duplicated(run: RunView, action: ActionView, ids: Seq<String>) -> bool {
    &&& run.stage is Finished
    &&& action matches ActionView::Finish(Err(ErrorView::PassedMigrationsWithDuplicatedIds { duplicates }))
    &&& describes_duplicates(duplicates, ids)
}

/// One run of migrations.
pub struct Run {
    ids: Vec<String>,
    from: usize,
    to: usize,
    operation: OperationType,
    retry: Retry,
    order: Vec<usize>,
    current: usize,
    retries_left: usize,
    stage: Stage,
}

impl View for Run {
    type V = RunView;

    closed spec fn view(&self) -> RunView {
        RunView {
            ids: self.ids@,
            from: self.from as int,
            to: self.to as int,
            operation: self.operation,
            retry: self.retry,
            order: self.order@,
            current: self.current as int,
            retries_left: self.retries_left as int,
            stage: self.stage,
        }
    }
}

/// The position of the first migration of `ids` whose id is `id`.
fn position_of(ids: &Vec<String>, id: &String) -> (r: Option<usize>)
    ensures
        match r {
            Some(i) => i < ids@.len() && ids@[i as int]@ == id@,
            None => forall|i: int| 0 <= i < ids@.len() ==> ids@[i]@ != id@,
        },
{
    let mut i: usize = 0;
    while i < ids.len()
        invariant
            0 <= i <= ids@.len(),
            forall|j: int| 0 <= j < i ==> ids@[j]@ != id@,
        decreases ids@.len() - i,
    {
        if ids[i] == *id {
            return Some(i);
        }
        i = i + 1;
    }
    None
}

impl Run {
    /// The invariant of a run.
    pub open spec fn wf(&self) -> bool {
        self@.wf()
    }

    /// A run over the positions `from..to` of the migration set `ids`. It
    /// first checks that the ids are distinct; if they are not, it ends at
    /// once and reports every repeated id, before any side effect.
    pub fn new(ids: Vec<String>, from: usize, to: usize, operation: OperationType, retry: Retry) -> (r: (
        Run,
        Action,
    ))
        requires
            from <= to <= ids@.len(),
        ensures
            r.0.wf(),
            all_unique(ids@) ==> r.0@ == loading(ids@, from as int, to as int, operation, retry)
                && r.1@ == ActionView::LoadRecords,
            !all_unique(ids@) ==> refused_as_duplicated(r.0@, r.1@, ids@),
    {
        let checked = validate(&ids);
        assert(ids@.len() == ids.len());
        let run = Run {
            ids,
            from,
            to,
            operation,
            retry,
            order: Vec::new(),
            current: 0,
            retries_left: 0,
            stage: Stage::Loading,
        };
        match checked {
            Ok(()) => (run, Action::LoadRecords),
            Err(e) => (Run { stage: Stage::Finished, ..run }, Action::Finish(Err(e))),
        }
    }

    /// A run of `Up` over the whole set, in its order.
    pub fn up(ids: Vec<String>, retry: Retry) -> (r: (Run, Action))
        ensures
            r.0.wf(),
            all_unique(ids@) ==> r.0@ == loading(ids@, 0, ids@.len() as int, OperationType::Up, retry)
                && r.1@ == ActionView::LoadRecords,
            !all_unique(ids@) ==> refused_as_duplicated(r.0@, r.1@, ids@),
    {
        let to = ids.len();
        Run::new(ids, 0, to, OperationType::Up, retry)
    }

    /// A run of `Down` over the whole set, in reverse order.
    pub fn down(ids: Vec<String>, retry: Retry) -> (r: (Run, Action))
        ensures
            r.0.wf(),
            all_unique(ids@) ==> r.0@ == loading(ids@, 0, ids@.len() as int, OperationType::Down, retry)
                && r.1@ == ActionView::LoadRecords,
            !all_unique(ids@) ==> refused_as_duplicated(r.0@, r.1@, ids@),
    {
        let to = ids.len();
        Run::new(ids, 0, to, OperationType::Down, retry)
    }

    /// A run of the single migration `migration_id` of the set. The ids are
    /// checked first; an id that is not in the set ends the run at once.
    pub fn single(ids: Vec<String>, migration_id: String, operation: OperationType, retry: Retry) -> (r: (
        Run,
        Action,
    ))
        ensures
            r.0.wf(),
            !all_unique(ids@) ==> refused_as_duplicated(r.0@, r.1@, ids@),
            all_unique(ids@) ==> match r.1@ {
                ActionView::LoadRecords => exists|i: int|
                    0 <= i < ids@.len() && ids@[i]@ == migration_id@ && #[trigger] loading(
                        ids@,
                        i,
                        i + 1,
                        operation,
                        retry,
                    ) == r.0@,
                _ => {
                    &&& forall|i: int| 0 <= i < ids@.len() ==> ids@[i]@ != migration_id@
                    &&& r.0@.stage is Finished
                    &&& r.1@ == ActionView::Finish(
                        Err(ErrorView::MigrationFromVecNotFound { migration_id }),
                    )
                },
            },
    {
        let found = position_of(&ids, &migration_id);
        let to = ids.len();
        let (run, action) = Run::new(ids, 0, to, operation, retry);
        match action {
            Action::LoadRecords => match found {
                Some(i) => {
                    let r = (Run { from: i, to: i + 1, ..run }, Action::LoadRecords);
                    assert(loading(r.0.ids@, i as int, i + 1, operation, retry) == r.0@);
                    r
                },
                None => (
                    Run { stage: Stage::Finished, ..run },
                    Action::Finish(Err(MigrationExecution::MigrationFromVecNotFound { migration_id })),
                ),
            },
            other => (run, other),
        }
    }

    /// Whether the run is over.
    pub fn is_finished(&self) -> (r: bool)
        ensures
            r == (self@.stage is Finished),
    {
        match self.stage {
            Stage::Finished => true,
            _ => false,
        }
    }

    /// The id of the `k`-th migration of the run.
    fn id_at(&self, k: usize) -> (r: String)
        requires
            self.wf(),
            k < self@.order.len(),
        ensures
            r == self@.id_at(k as int),
    {
        self.ids[self.order[k]].clone()
    }

    /// The ids of the migrations after the `k`-th in the run.
    fn ids_after(&self, k: usize) -> (r: Vec<String>)
        requires
            self.wf(),
            k < self@.order.len(),
        ensures
            r@ == self@.ids_after(k as int),
    {
        let mut ids: Vec<String> = Vec::new();
        let mut j: usize = k + 1;
        while j < self.order.len()
            invariant
                self.wf(),
                k < j <= self@.order.len(),
                ids@ == self@.ids_after(k as int).subrange(0, j - k - 1),
            decreases self@.order.len() - j,
        {
            let id = self.id_at(j);
            ids.push(id);
            j = j + 1;
        }
        assert(ids@ =~= self@.ids_after(k as int));
        ids
    }

    /// The action that the run waits to see answered.
    fn pending_action(&self) -> (r: Action)
        requires
            self.wf(),
        ensures
            r@ == self@.pending(),
    {
        match &self.stage {
            Stage::Loading => Action::LoadRecords,
            Stage::Starting(record) => Action::SaveInitial(record.clone()),
            Stage::Running(_) => Action::Execute { position: self.order[self.current], operation: self.operation },
            Stage::Finishing(record) => Action::SaveFinal(record.clone()),
            Stage::Waiting => Action::Sleep(self.retry.delay),
            Stage::Cascading(_, record) => Action::SaveCascade(record.clone()),
            Stage::Finished => Action::Finish(Ok(())),
        }
    }

    /// Announces the `k`-th migration of the run.
    fn attempt(&mut self, k: usize, retries_left: usize, now: i64) -> (r: Action)
        requires
            old(self).wf(),
            k < old(self)@.order.len(),
            retries_left <= old(self)@.retry.count,
            is_timestamp(now),
        ensures
            final(self).wf(),
            (final(self)@, r@) == old(self)@.attempt(k as int, retries_left as int, now),
    {
        let record = MigrationRecord::migration_start(self.id_at(k), now);
        self.current = k;
        self.retries_left = retries_left;
        self.stage = Stage::Starting(record.clone());
        Action::SaveInitial(record)
    }

    /// Records the `j`-th migration of the run as failed without running it,
    /// or ends the run past the last one.
    fn cascade(&mut self, j: usize, now: i64) -> (r: Action)
        requires
            old(self).wf(),
            old(self)@.current < j <= old(self)@.order.len(),
            old(self)@.current < old(self)@.order.len(),
            is_timestamp(now),
        ensures
            final(self).wf(),
            (final(self)@, r@) == old(self)@.cascade(j as int, now),
    {
        if j < self.order.len() {
            let started = MigrationRecord::migration_start(self.id_at(j), now);
            let record = started.migration_failed(now);
            self.stage = Stage::Cascading(j, record.clone());
            Action::SaveCascade(record)
        } else {
            let e = MigrationExecution::FinishedAndSavedAsFail {
                migration_id: self.id_at(self.current),
                next_not_executed_migrations_ids: self.ids_after(self.current),
            };
            self.stage = Stage::Finished;
            Action::Finish(Err(e))
        }
    }

    /// Ends the run with the error `e`.
    fn fail(&mut self, e: MigrationExecution) -> (r: Action)
        requires
            old(self).wf(),
        ensures
            final(self).wf(),
            (final(self)@, r@) == old(self)@.finish(Err(e@)),
    {
        self.stage = Stage::Finished;
        Action::Finish(Err(e))
    }

    /// Handles `event` at stage `Loading`.
    fn on_loading(&mut self, event: Event, now: i64) -> (r: Action)
        requires
            old(self)@.stage is Finished,
            old(self)@.with_stage(Stage::Loading).wf(),
            is_timestamp(now),
        ensures
            final(self).wf(),
            (final(self)@, r@) == old(self)@.with_stage(Stage::Loading).next(event@, now),
    {
        match event {
            Event::Loaded(records) => {
                self.order = execution_order(&self.ids, self.from, self.to, &records, self.operation);
                proof {
                    lemma_run_order_in_range(
                        self.ids@,
                        records@,
                        self.from as int,
                        self.to as int,
                        self.operation,
                    );
                }
                if self.order.len() == 0 {
                    Action::Finish(Ok(()))
                } else {
                    self.attempt(0, self.retry.count, now)
                }
            },
            _ => {
                self.stage = Stage::Loading;
                self.pending_action()
            },
        }
    }

    /// Handles `event` at stage `Starting(record)`.
    fn on_starting(&mut self, record: MigrationRecord, event: Event, now: i64) -> (r: Action)
        requires
            old(self)@.stage is Finished,
            old(self)@.with_stage(Stage::Starting(record)).wf(),
            is_timestamp(now),
        ensures
            final(self).wf(),
            (final(self)@, r@) == old(self)@.with_stage(Stage::Starting(record)).next(event@, now),
    {
        let k = self.current;
        match event {
            Event::Saved => {
                self.stage = Stage::Running(record);
                Action::Execute { position: self.order[k], operation: self.operation }
            },
            Event::NotSerialized(info) => {
                let e = MigrationExecution::InitialMigrationRecord {
                    migration_id: self.id_at(k),
                    migration_record: record,
                    next_not_executed_migrations_ids: self.ids_after(k),
                    additional_info: info,
                };
                self.fail(e)
            },
            Event::NotPersisted(info) => {
                let e = MigrationExecution::InProgressStatusNotSaved {
                    migration_id: self.id_at(k),
                    next_not_executed_migrations_ids: self.ids_after(k),
                    additional_info: info,
                };
                self.fail(e)
            },
            _ => {
                self.stage = Stage::Starting(record);
                self.pending_action()
            },
        }
    }

    /// Handles `event` at stage `Running(record)`.
    fn on_running(&mut self, record: MigrationRecord, event: Event, now: i64) -> (r: Action)
        requires
            old(self)@.stage is Finished,
            old(self)@.with_stage(Stage::Running(record)).wf(),
            is_timestamp(now),
        ensures
            final(self).wf(),
            (final(self)@, r@) == old(self)@.with_stage(Stage::Running(record)).next(event@, now),
    {
        match event {
            Event::Ran(succeeded) => {
                let closed = if succeeded {
                    record.migration_succeeded(now)
                } else {
                    record.migration_failed(now)
                };
                self.stage = Stage::Finishing(closed.clone());
                Action::SaveFinal(closed)
            },
            _ => {
                self.stage = Stage::Running(record);
                self.pending_action()
            },
        }
    }

    /// Handles `event` at stage `Finishing(record)`.
    fn on_finishing(&mut self, record: MigrationRecord, event: Event, now: i64) -> (r: Action)
        requires
            old(self)@.stage is Finished,
            old(self)@.with_stage(Stage::Finishing(record)).wf(),
            is_timestamp(now),
        ensures
            final(self).wf(),
            (final(self)@, r@) == old(self)@.with_stage(Stage::Finishing(record)).next(event@, now),
    {
        let k = self.current;
        match event {
            Event::Saved => {
                if record.status == MigrationStatus::Success {
                    if k + 1 < self.order.len() {
                        self.attempt(k + 1, self.retry.count, now)
                    } else {
                        Action::Finish(Ok(()))
                    }
                } else if self.retries_left > 0 {
                    self.retries_left = self.retries_left - 1;
                    self.stage = Stage::Waiting;
                    Action::Sleep(self.retry.delay)
                } else {
                    self.cascade(k + 1, now)
                }
            },
            Event::NotSerialized(info) => {
                let e = MigrationExecution::FinishedButNotSavedDueToSerialization {
                    migration_id: self.id_at(k),
                    migration_status: record.status.name(),
                    migration_record: record,
                    next_not_executed_migrations_ids: self.ids_after(k),
                    additional_info: info,
                };
                self.fail(e)
            },
            Event::NotPersisted(info) => {
                let e = MigrationExecution::FinishedButNotSavedDueMongoError {
                    migration_id: self.id_at(k),
                    migration_status: record.status.name(),
                    additional_info: info,
                    next_not_executed_migrations_ids: self.ids_after(k),
                };
                self.fail(e)
            },
            _ => {
                self.stage = Stage::Finishing(record);
                self.pending_action()
            },
        }
    }

    /// Handles `event` at stage `Cascading(j, record)`.
    fn on_cascading(&mut self, j: usize, record: MigrationRecord, event: Event, now: i64) -> (r: Action)
        requires
            old(self)@.stage is Finished,
            old(self)@.with_stage(Stage::Cascading(j, record)).wf(),
            is_timestamp(now),
        ensures
            final(self).wf(),
            (final(self)@, r@) == old(self)@.with_stage(Stage::Cascading(j, record)).next(event@, now),
    {
        match event {
            Event::Saved => self.cascade(j + 1, now),
            Event::NotSerialized(info) => {
                let e = MigrationExecution::InitialMigrationRecord {
                    migration_id: self.id_at(j),
                    migration_record: record,
                    next_not_executed_migrations_ids: self.ids_after(j),
                    additional_info: info,
                };
                self.fail(e)
            },
            Event::NotPersisted(info) => {
                let e = MigrationExecution::FinishedButNotSavedDueMongoError {
                    migration_id: self.id_at(j),
                    migration_status: MigrationStatus::Fail.name(),
                    additional_info: info,
                    next_not_executed_migrations_ids: self.ids_after(j),
                };
                self.fail(e)
            },
            _ => {
                self.stage = Stage::Cascading(j, record);
                self.pending_action()
            },
        }
    }

    /// Takes in `event`, the answer to the pending action, at time `now`, and
    /// returns the next action.
    pub fn step_at(&mut self, event: Event, now: i64) -> (r: Action)
        requires
            old(self).wf(),
            !(old(self)@.stage is Finished),
            is_timestamp(now),
        ensures
            final(self).wf(),
            (final(self)@, r@) == old(self)@.next(event@, now),
    {
        let mut stage = Stage::Finished;
        std::mem::swap(&mut stage, &mut self.stage);
        assert(old(self)@ == self@.with_stage(stage));
        match stage {
            Stage::Loading => self.on_loading(event, now),
            Stage::Starting(record) => self.on_starting(record, event, now),
            Stage::Running(record) => self.on_running(record, event, now),
            Stage::Finishing(record) => self.on_finishing(record, event, now),
            Stage::Waiting => match event {
                Event::Slept => self.attempt(self.current, self.retries_left, now),
                _ => {
                    self.stage = Stage::Waiting;
                    self.pending_action()
                },
            },
            Stage::Cascading(j, record) => self.on_cascading(j, record, event, now),
            Stage::Finished => Action::Finish(Ok(())),
        }
    }
}

} // verus!
