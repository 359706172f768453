//! The meaning of one step of a run, as spec functions: from the state of the
//! run, the event that answers its last action, and the time now, the next
//! state and the next action.
use std::time::Duration;
use vstd::prelude::*;

use crate::timestamp::is_timestamp;
use crate::error::ErrorView;
use crate::migration_record::{finished, not_executed, started, MigrationRecord};
use crate::migration_status::{status_name, MigrationStatus};
use crate::migrator::plan::{
    lemma_all_succeeded_selects_nothing, run_order, succeeded_only, OperationType,
};
use crate::migrator::run::Stage;
use crate::migrator::with_retries::Retry;

verus! {

/// What a run asks the embedding code to do next.
pub enum ActionView {
    /// Read every stored record.
    LoadRecords,
    /// Store this record, announcing that its migration is about to run.
    SaveInitial(MigrationRecord),
    /// Run the operation of the migration at this position of the set.
    Execute { position: usize, operation: OperationType },
    /// Store this record, the outcome of the migration that just ran,
    /// replacing the announcing one.
    SaveFinal(MigrationRecord),
    /// Wait this long before trying the failed migration again.
    Sleep(Duration),
    /// Store this record of a migration that is not run because an earlier
    /// one failed.
    SaveCascade(MigrationRecord),
    /// The run is over, with this result.
    Finish(Result<(), ErrorView>),
}

/// What the embedding code reports after performing an action.
pub enum EventView {
    /// The stored records (answers `LoadRecords`).
    Loaded(Seq<MigrationRecord>),
    /// The record was stored.
    Saved,
    /// The record could not be encoded for the store, for this reason.
    NotSerialized(String),
    /// The store refused the record, for this reason.
    NotPersisted(String),
    /// The migration's operation returned: successfully or not.
    Ran(bool),
    /// The wait before a retry is over.
    Slept,
}

/// The ids of the migrations at the positions `order[k + 1..]` of `ids`.
pub open spec fn ids_after(ids: Seq<String>, order: Seq<usize>, k: int) -> Seq<String> {
    Seq::new((order.len() - k - 1) as nat, |i: int| ids[order[k + 1 + i] as int])
}

/// The state of a run.
pub struct RunView {
    /// The ids of the migration set, in its order.
    pub ids: Seq<String>,
    /// The range of positions that the run covers.
    pub from: int,
    pub to: int,
    pub operation: OperationType,
    pub retry: Retry,
    /// The positions to execute, in the order of execution; known once the
    /// records are loaded.
    pub order: Seq<usize>,
    /// The index in `order` of the migration being handled.
    pub current: int,
    /// How many more times the current migration may be tried again.
    pub retries_left: int,
    pub stage: Stage,
}

impl RunView {
    /// The invariant of a run.
    pub open spec fn wf(self) -> bool {
        &&& 0 <= self.from <= self.to <= self.ids.len() <= usize::MAX
        &&& self.order.len() <= usize::MAX
        &&& forall|k: int| 0 <= k < self.order.len() ==> #[trigger] self.order[k] < self.ids.len()
        &&& 0 <= self.retries_left <= self.retry.count
        &&& match self.stage {
            Stage::Loading | Stage::Finished => true,
            Stage::Starting(record) | Stage::Running(record) => {
                &&& 0 <= self.current < self.order.len()
                &&& record.start_date is Some
                &&& is_timestamp(record.start_date.unwrap())
            },
            Stage::Finishing(_) | Stage::Waiting => 0 <= self.current < self.order.len(),
            Stage::Cascading(j, _) => 0 <= self.current < j < self.order.len(),
        }
    }

    /// This run at stage `stage`.
    pub open spec fn with_stage(self, stage: Stage) -> RunView {
        RunView { stage, ..self }
    }

    /// The id of the `k`-th migration of the run.
    pub open spec fn id_at(self, k: int) -> String {
        self.ids[self.order[k] as int]
    }

    /// The ids of the migrations that come after the `k`-th in the run.
    pub open spec fn ids_after(self, k: int) -> Seq<String> {
        ids_after(self.ids, self.order, k)
    }

    /// The action that the run waits to see answered.
    pub open spec fn pending(self) -> ActionView {
        match self.stage {
            Stage::Loading => ActionView::LoadRecords,
            Stage::Starting(record) => ActionView::SaveInitial(record),
            Stage::Running(_) => ActionView::Execute {
                position: self.order[self.current],
                operation: self.operation,
            },
            Stage::Finishing(record) => ActionView::SaveFinal(record),
            Stage::Waiting => ActionView::Sleep(self.retry.delay),
            Stage::Cascading(_, record) => ActionView::SaveCascade(record),
            Stage::Finished => ActionView::Finish(Ok(())),
        }
    }

    /// The run ends with `result`.
    pub open spec fn finish(self, result: Result<(), ErrorView>) -> (RunView, ActionView) {
        (RunView { stage: Stage::Finished, ..self }, ActionView::Finish(result))
    }

    /// The `k`-th migration is announced, with `retries_left` tries in hand.
    pub open spec fn attempt(self, k: int, retries_left: int, now: i64) -> (RunView, ActionView) {
        let record = started(self.id_at(k), now);
        (
            RunView { current: k, retries_left, stage: Stage::Starting(record), ..self },
            ActionView::SaveInitial(record),
        )
    }

    /// After the current migration succeeded: the next one, or the end.
    pub open spec fn advance(self, now: i64) -> (RunView, ActionView) {
        if self.current + 1 < self.order.len() {
            self.attempt(self.current + 1, self.retry.count as int, now)
        } else {
            self.finish(Ok(()))
        }
    }

    /// After the current migration failed for good: the `j`-th migration is
    /// recorded as failed without running, or, past the last one, the run
    /// ends with the failure.
    pub open spec fn cascade(self, j: int, now: i64) -> (RunView, ActionView) {
        if j < self.order.len() {
            let record = not_executed(self.id_at(j), now);
            (RunView { stage: Stage::Cascading(j as usize, record), ..self }, ActionView::SaveCascade(record))
        } else {
            self.finish(
                Err(
                    ErrorView::FinishedAndSavedAsFail {
                        migration_id: self.id_at(self.current),
                        next_not_executed_migrations_ids: self.ids_after(self.current),
                    },
                ),
            )
        }
    }

    /// The state and action that follow `event` at time `now`. An event that
    /// does not answer the pending action changes nothing, and the action is
    /// asked for again.
    pub open spec fn next(self, event: EventView, now: i64) -> (RunView, ActionView) {
        let unchanged = (self, self.pending());
        let k = self.current;
        match self.stage {
            Stage::Loading => match event {
                EventView::Loaded(records) => {
                    let order = run_order(self.ids, records, self.from, self.to, self.operation);
                    let loaded = RunView { order, ..self };
                    if order.len() == 0 {
                        loaded.finish(Ok(()))
                    } else {
                        loaded.attempt(0, self.retry.count as int, now)
                    }
                },
                _ => unchanged,
            },
            Stage::Starting(record) => match event {
                EventView::Saved => (RunView { stage: Stage::Running(record), ..self }, ActionView::Execute {
                    position: self.order[k],
                    operation: self.operation,
                }),
                EventView::NotSerialized(info) => self.finish(
                    Err(
                        ErrorView::InitialMigrationRecord {
                            migration_id: self.id_at(k),
                            migration_record: record,
                            next_not_executed_migrations_ids: self.ids_after(k),
                            additional_info: info,
                        },
                    ),
                ),
                EventView::NotPersisted(info) => self.finish(
                    Err(
                        ErrorView::InProgressStatusNotSaved {
                            migration_id: self.id_at(k),
                            next_not_executed_migrations_ids: self.ids_after(k),
                            additional_info: info,
                        },
                    ),
                ),
                _ => unchanged,
            },
            Stage::Running(record) => match event {
                EventView::Ran(succeeded) => {
                    let status = if succeeded {
                        MigrationStatus::Success
                    } else {
                        MigrationStatus::Fail
                    };
                    let record = finished(record, now, status);
                    (RunView { stage: Stage::Finishing(record), ..self }, ActionView::SaveFinal(record))
                },
                _ => unchanged,
            },
            Stage::Finishing(record) => match event {
                EventView::Saved => if record.status == MigrationStatus::Success {
                    self.advance(now)
                } else if self.retries_left > 0 {
                    (
                        RunView {
                            retries_left: self.retries_left - 1,
                            stage: Stage::Waiting,
                            ..self
                        },
                        ActionView::Sleep(self.retry.delay),
                    )
                } else {
                    self.cascade(k + 1, now)
                },
                EventView::NotSerialized(info) => self.finish(
                    Err(
                        ErrorView::FinishedButNotSavedDueToSerialization {
                            migration_id: self.id_at(k),
                            migration_status: status_name(record.status),
                            migration_record: record,
                            next_not_executed_migrations_ids: self.ids_after(k),
                            additional_info: info,
                        },
                    ),
                ),
                EventView::NotPersisted(info) => self.finish(
                    Err(
                        ErrorView::FinishedButNotSavedDueMongoError {
                            migration_id: self.id_at(k),
                            migration_status: status_name(record.status),
                            additional_info: info,
                            next_not_executed_migrations_ids: self.ids_after(k),
                        },
                    ),
                ),
                _ => unchanged,
            },
            Stage::Waiting => match event {
                EventView::Slept => self.attempt(k, self.retries_left, now),
                _ => unchanged,
            },
            Stage::Cascading(j, record) => match event {
                EventView::Saved => self.cascade(j + 1, now),
                EventView::NotSerialized(info) => self.finish(
                    Err(
                        ErrorView::InitialMigrationRecord {
                            migration_id: self.id_at(j as int),
                            migration_record: record,
                            next_not_executed_migrations_ids: self.ids_after(j as int),
                            additional_info: info,
                        },
                    ),
                ),
                EventView::NotPersisted(info) => self.finish(
                    Err(
                        ErrorView::FinishedButNotSavedDueMongoError {
                            migration_id: self.id_at(j as int),
                            migration_status: status_name(MigrationStatus::Fail),
                            additional_info: info,
                            next_not_executed_migrations_ids: self.ids_after(j as int),
                        },
                    ),
                ),
                _ => unchanged,
            },
            Stage::Finished => unchanged,
        }
    }
}

/// The actions with which a run answers `n` events `Saved` in a row, all at
/// time `now`.
pub open spec fn answers_to_saves(run: RunView, n: nat, now: i64) -> Seq<ActionView>
    decreases n,
{
    if n == 0 {
        Seq::empty()
    } else {
        let (after, action) = run.next(EventView::Saved, now);
        seq![action] + answers_to_saves(after, (n - 1) as nat, now)
    }
}

/// A second run over a range whose migrations have all succeeded executes
/// nothing: once the records are loaded, the run ends successfully.
pub proof fn lemma_rerun_after_success_executes_nothing(
    run: RunView,
    records: Seq<MigrationRecord>,
    now: i64,
)
    requires
        run.wf(),
        run.stage is Loading,
        forall|p: int| run.from <= p < run.to ==> succeeded_only(records, #[trigger] run.ids[p]@),
    ensures
        run.next(EventView::Loaded(records), now).1 == ActionView::Finish(Ok(())),
        run.next(EventView::Loaded(records), now).0.stage is Finished,
{
    lemma_all_succeeded_selects_nothing(run.ids, records, run.from, run.to, run.operation);
}

/// A migration whose attempt failed while retries are left is not given up:
/// the run waits the policy's delay, then announces the same migration again
/// with a fresh record, one retry fewer in hand.
pub proof fn lemma_failure_with_retries_left_waits_and_retries(
    run: RunView,
    record: MigrationRecord,
    saved_at: i64,
    slept_at: i64,
)
    requires
        run.wf(),
        run.stage == Stage::Finishing(record),
        record.status == MigrationStatus::Fail,
        run.retries_left > 0,
    ensures
        ({
            let (waiting, wait) = run.next(EventView::Saved, saved_at);
            let (again, announce) = waiting.next(EventView::Slept, slept_at);
            &&& wait == ActionView::Sleep(run.retry.delay)
            &&& announce == ActionView::SaveInitial(started(run.id_at(run.current), slept_at))
            &&& again.current == run.current
            &&& again.retries_left == run.retries_left - 1
            &&& again.order == run.order
        }),
{
}

/// The actions that follow `run.cascade(j, now)`, as long as the store
/// accepts every record.
proof fn lemma_cascade_from(run: RunView, j: int, now: i64)
    requires
        run.wf(),
        !(run.stage is Finished),
        0 <= run.current < run.order.len(),
        run.current < j <= run.order.len(),
    ensures
        seq![run.cascade(j, now).1] + answers_to_saves(
            run.cascade(j, now).0,
            (run.order.len() - j) as nat,
            now,
        ) == Seq::new(
            (run.order.len() - j) as nat,
            |i: int| ActionView::SaveCascade(not_executed(run.id_at(j + i), now)),
        ) + seq![
            ActionView::Finish(
                Err(
                    ErrorView::FinishedAndSavedAsFail {
                        migration_id: run.id_at(run.current),
                        next_not_executed_migrations_ids: run.ids_after(run.current),
                    },
                ),
            ),
        ],
    decreases run.order.len() - j,
{
    let len = run.order.len() as int;
    let finish = ActionView::Finish(
        Err(
            ErrorView::FinishedAndSavedAsFail {
                migration_id: run.id_at(run.current),
                next_not_executed_migrations_ids: run.ids_after(run.current),
            },
        ),
    );
    if j == len {
        assert(seq![run.cascade(j, now).1] + answers_to_saves(run.cascade(j, now).0, 0, now) =~= seq![
            finish,
        ]);
        assert(Seq::new(0, |i: int| ActionView::SaveCascade(not_executed(run.id_at(j + i), now)))
            + seq![finish] =~= seq![finish]);
    } else {
        let cascading = run.cascade(j, now).0;
        assert(cascading.next(EventView::Saved, now) == run.cascade(j + 1, now));
        lemma_cascade_from(run, j + 1, now);
        let rest = answers_to_saves(run.cascade(j + 1, now).0, (len - j - 1) as nat, now);
        assert(answers_to_saves(cascading, (len - j) as nat, now) == seq![
            run.cascade(j + 1, now).1,
        ] + rest);
        assert(seq![run.cascade(j, now).1] + (seq![run.cascade(j + 1, now).1] + rest) =~= Seq::new(
            (len - j) as nat,
            |i: int| ActionView::SaveCascade(not_executed(run.id_at(j + i), now)),
        ) + seq![finish]);
    }
}

/// When the last allowed attempt of a migration fails, each migration after
/// it in the run is recorded as failed, in order and without being executed,
/// and the run then ends with the failure of that migration, listing the
/// ones left unexecuted (as long as the store accepts every record).
pub proof fn lemma_final_failure_cascades(run: RunView, record: MigrationRecord, now: i64)
    requires
        run.wf(),
        run.stage == Stage::Finishing(record),
        record.status == MigrationStatus::Fail,
        run.retries_left == 0,
    ensures
        answers_to_saves(run, (run.order.len() - run.current) as nat, now) == Seq::new(
            (run.order.len() - run.current - 1) as nat,
            |i: int| ActionView::SaveCascade(not_executed(run.id_at(run.current + 1 + i), now)),
        ) + seq![
            ActionView::Finish(
                Err(
                    ErrorView::FinishedAndSavedAsFail {
                        migration_id: run.id_at(run.current),
                        next_not_executed_migrations_ids: run.ids_after(run.current),
                    },
                ),
            ),
        ],
{
    let k = run.current;
    let len = run.order.len() as int;
    assert(run.next(EventView::Saved, now) == run.cascade(k + 1, now));
    lemma_cascade_from(run, k + 1, now);
    assert(answers_to_saves(run, (len - k) as nat, now) == seq![run.cascade(k + 1, now).1]
        + answers_to_saves(run.cascade(k + 1, now).0, (len - k - 1) as nat, now));
    assert(Seq::new(
        (len - k - 1) as nat,
        |i: int| ActionView::SaveCascade(not_executed(run.id_at(k + 1 + i), now)),
    ) =~= Seq::new(
        (len - (k + 1)) as nat,
        |i: int| ActionView::SaveCascade(not_executed(run.id_at((k + 1) + i), now)),
    ));
}

/// The state that a run reaches, and the actions it returns, as it answers
/// each of `events` in turn, all at time `now`.
pub open spec fn drive(run: RunView, events: Seq<EventView>, now: i64) -> (RunView, Seq<ActionView>)
    decreases events.len(),
{
    if events.len() == 0 {
        (run, Seq::empty())
    } else {
        let (after, action) = run.next(events[0], now);
        let (last, actions) = drive(after, events.subrange(1, events.len() as int), now);
        (last, seq![action] + actions)
    }
}

/// `s` repeated `n` times.
pub open spec fn repeated<A>(s: Seq<A>, n: nat) -> Seq<A>
    decreases n,
{
    if n == 0 {
        Seq::empty()
    } else {
        s + repeated(s, (n - 1) as nat)
    }
}

/// What the embedding code reports for one failed attempt that may be
/// retried: the announcing record stored, the operation failed, the final
/// record stored, the wait over.
pub open spec fn failed_attempt_events() -> Seq<EventView> {
    seq![EventView::Saved, EventView::Ran(false), EventView::Saved, EventView::Slept]
}

/// The actions of one failed attempt of the current migration that is
/// retried, when every event comes at time `now`: it is executed, recorded as
/// failed, the run waits the policy's delay, and the migration is announced
/// again.
pub open spec fn failed_attempt_actions(run: RunView, now: i64) -> Seq<ActionView> {
    let announced = started(run.id_at(run.current), now);
    seq![
        ActionView::Execute { position: run.order[run.current], operation: run.operation },
        ActionView::SaveFinal(finished(announced, now, MigrationStatus::Fail)),
        ActionView::Sleep(run.retry.delay),
        ActionView::SaveInitial(announced),
    ]
}

/// A run that has just announced its current migration at time `now`.
pub open spec fn announced_at(run: RunView, now: i64) -> bool {
    &&& run.wf()
    &&& is_timestamp(now)
    &&& run.stage == Stage::Starting(started(run.id_at(run.current), now))
}

proof fn lemma_drive_append(run: RunView, first: Seq<EventView>, then: Seq<EventView>, now: i64)
    ensures
        drive(run, first + then, now) == ({
            let (middle, actions) = drive(run, first, now);
            let (last, more) = drive(middle, then, now);
            (last, actions + more)
        }),
    decreases first.len(),
{
    if first.len() == 0 {
        assert(first + then =~= then);
        assert(Seq::<ActionView>::empty() + drive(run, then, now).1 =~= drive(run, then, now).1);
    } else {
        let after = run.next(first[0], now).0;
        let rest = first.subrange(1, first.len() as int);
        assert((first + then).subrange(1, (first + then).len() as int) =~= rest + then);
        assert((first + then)[0] == first[0]);
        lemma_drive_append(after, rest, then, now);
        let (middle, actions) = drive(after, rest, now);
        let (last, more) = drive(middle, then, now);
        assert(seq![run.next(first[0], now).1] + (actions + more) =~= (seq![
            run.next(first[0], now).1,
        ] + actions) + more);
    }
}

/// `n` failed attempts of the announced migration, each retried: the run
/// executes it `n` times and waits `n` times, and ends where it began with
/// `n` retries fewer in hand.
proof fn lemma_failed_attempts(run: RunView, n: nat, now: i64)
    requires
        announced_at(run, now),
        n <= run.retries_left,
    ensures
        drive(run, repeated(failed_attempt_events(), n), now) == (
            RunView { retries_left: run.retries_left - n, ..run },
            repeated(failed_attempt_actions(run, now), n),
        ),
    decreases n,
{
    if n == 0 {
        assert(RunView { retries_left: run.retries_left - n, ..run } == run);
    } else {
        let once = RunView { retries_left: run.retries_left - 1, ..run };
        let e = failed_attempt_events();
        let s1 = run.next(EventView::Saved, now);
        let s2 = s1.0.next(EventView::Ran(false), now);
        let s3 = s2.0.next(EventView::Saved, now);
        let s4 = s3.0.next(EventView::Slept, now);
        assert(s4.0 == once);
        let e1 = e.subrange(1, 4);
        let e2 = e1.subrange(1, 3);
        let e3 = e2.subrange(1, 2);
        let e4 = e3.subrange(1, 1);
        assert(e1 =~= seq![EventView::Ran(false), EventView::Saved, EventView::Slept]);
        assert(e2 =~= seq![EventView::Saved, EventView::Slept]);
        assert(e3 =~= seq![EventView::Slept]);
        assert(e4 =~= Seq::<EventView>::empty());
        assert(drive(s4.0, e4, now) == (s4.0, Seq::<ActionView>::empty()));
        assert(drive(s3.0, e3, now) == (s4.0, seq![s4.1] + Seq::<ActionView>::empty()));
        assert(drive(s2.0, e2, now) == (s4.0, seq![s3.1] + (seq![s4.1] + Seq::<ActionView>::empty())));
        assert(drive(s1.0, e1, now) == (
            s4.0,
            seq![s2.1] + (seq![s3.1] + (seq![s4.1] + Seq::<ActionView>::empty())),
        ));
        assert(drive(run, e, now) == (
            s4.0,
            seq![s1.1] + (seq![s2.1] + (seq![s3.1] + (seq![s4.1] + Seq::<ActionView>::empty()))),
        ));
        assert(seq![s1.1] + (seq![s2.1] + (seq![s3.1] + (seq![s4.1] + Seq::<ActionView>::empty())))
            =~= failed_attempt_actions(run, now));
        lemma_drive_append(run, e, repeated(e, (n - 1) as nat), now);
        lemma_failed_attempts(once, (n - 1) as nat, now);
        assert(failed_attempt_actions(once, now) == failed_attempt_actions(run, now));
        assert(RunView { retries_left: once.retries_left - (n - 1), ..once } == RunView {
            retries_left: run.retries_left - n,
            ..run
        });
    }
}

/// A migration that fails `failures` times, no more than its retries allow,
/// and then succeeds: the run executes it `failures + 1` times, waits the
/// policy's delay after each failure and never after the success, keeps one
/// record of it (written last as successful), and goes on as after a first
/// success.
pub proof fn lemma_retried_migration_succeeds(run: RunView, failures: nat, now: i64)
    requires
        announced_at(run, now),
        failures <= run.retries_left,
    ensures
        ({
            let rest = RunView { retries_left: run.retries_left - failures, ..run };
            let announced = started(run.id_at(run.current), now);
            drive(
                run,
                repeated(failed_attempt_events(), failures) + seq![
                    EventView::Saved,
                    EventView::Ran(true),
                    EventView::Saved,
                ],
                now,
            ) == (
                rest.advance(now).0,
                repeated(failed_attempt_actions(run, now), failures) + seq![
                    ActionView::Execute { position: run.order[run.current], operation: run.operation },
                    ActionView::SaveFinal(finished(announced, now, MigrationStatus::Success)),
                    rest.advance(now).1,
                ],
            )
        }),
{
    let rest = RunView { retries_left: run.retries_left - failures, ..run };
    let tail = seq![EventView::Saved, EventView::Ran(true), EventView::Saved];
    lemma_drive_append(run, repeated(failed_attempt_events(), failures), tail, now);
    lemma_failed_attempts(run, failures, now);
    let s1 = rest.next(EventView::Saved, now);
    let s2 = s1.0.next(EventView::Ran(true), now);
    let s3 = s2.0.next(EventView::Saved, now);
    assert(s3 == rest.advance(now));
    let t1 = tail.subrange(1, 3);
    let t2 = t1.subrange(1, 2);
    let t3 = t2.subrange(1, 1);
    assert(t1 =~= seq![EventView::Ran(true), EventView::Saved]);
    assert(t2 =~= seq![EventView::Saved]);
    assert(t3 =~= Seq::<EventView>::empty());
    assert(drive(s3.0, t3, now) == (s3.0, Seq::<ActionView>::empty()));
    assert(drive(s2.0, t2, now) == (s3.0, seq![s3.1] + Seq::<ActionView>::empty()));
    assert(drive(s1.0, t1, now) == (s3.0, seq![s2.1] + (seq![s3.1] + Seq::<ActionView>::empty())));
    assert(drive(rest, tail, now) == (
        s3.0,
        seq![s1.1] + (seq![s2.1] + (seq![s3.1] + Seq::<ActionView>::empty())),
    ));
    assert(repeated(failed_attempt_actions(run, now), failures) + (seq![s1.1] + (seq![s2.1] + (seq![
        s3.1,
    ] + Seq::<ActionView>::empty()))) =~= repeated(failed_attempt_actions(run, now), failures)
        + seq![s1.1, s2.1, s3.1]);
}

/// The actions with which a run answers `n` events `Saved` in a row.
proof fn lemma_drive_saves(run: RunView, n: nat, now: i64)
    ensures
        drive(run, repeated(seq![EventView::Saved], n), now).1 == answers_to_saves(run, n, now),
    decreases n,
{
    if n > 0 {
        let events = repeated(seq![EventView::Saved], n);
        assert(events.subrange(1, events.len() as int) =~= repeated(
            seq![EventView::Saved],
            (n - 1) as nat,
        ));
        assert(events[0] == EventView::Saved);
        lemma_drive_saves(run.next(EventView::Saved, now).0, (n - 1) as nat, now);
    }
}

/// A migration whose operation fails on every attempt is executed once and
/// then once per retry, with a wait of the policy's delay before each retry;
/// then it is recorded as failed, each migration after it in the run is
/// recorded as failed in order without being executed, and the run ends with
/// the failure of that migration, listing the ones left unexecuted (as long
/// as the store accepts every record).
pub proof fn lemma_failing_migration_gives_up_and_cascades(run: RunView, now: i64)
    requires
        announced_at(run, now),
    ensures
        ({
            let retries = run.retries_left as nat;
            let later = (run.order.len() - run.current - 1) as nat;
            let announced = started(run.id_at(run.current), now);
            drive(
                run,
                repeated(failed_attempt_events(), retries) + seq![EventView::Saved, EventView::Ran(false)]
                    + repeated(seq![EventView::Saved], later + 1),
                now,
            ).1 == repeated(failed_attempt_actions(run, now), retries) + seq![
                ActionView::Execute { position: run.order[run.current], operation: run.operation },
                ActionView::SaveFinal(finished(announced, now, MigrationStatus::Fail)),
            ] + Seq::new(
                later,
                |i: int| ActionView::SaveCascade(not_executed(run.id_at(run.current + 1 + i), now)),
            ) + seq![
                ActionView::Finish(
                    Err(
                        ErrorView::FinishedAndSavedAsFail {
                            migration_id: run.id_at(run.current),
                            next_not_executed_migrations_ids: run.ids_after(run.current),
                        },
                    ),
                ),
            ]
        }),
{
    let retries = run.retries_left as nat;
    let later = (run.order.len() - run.current - 1) as nat;
    let announced = started(run.id_at(run.current), now);
    let failed = finished(announced, now, MigrationStatus::Fail);
    let attempts = repeated(failed_attempt_events(), retries);
    let last = seq![EventView::Saved, EventView::Ran(false)];
    let saves = repeated(seq![EventView::Saved], later + 1);
    lemma_drive_append(run, attempts + last, saves, now);
    lemma_drive_append(run, attempts, last, now);
    lemma_failed_attempts(run, retries, now);
    let spent = RunView { retries_left: 0, ..run };
    assert(RunView { retries_left: run.retries_left - retries, ..run } == spent);
    let s1 = spent.next(EventView::Saved, now);
    let s2 = s1.0.next(EventView::Ran(false), now);
    assert(s2.0 == spent.with_stage(Stage::Finishing(failed)));
    let l1 = last.subrange(1, 2);
    let l2 = l1.subrange(1, 1);
    assert(l1 =~= seq![EventView::Ran(false)]);
    assert(l2 =~= Seq::<EventView>::empty());
    assert(drive(s2.0, l2, now) == (s2.0, Seq::<ActionView>::empty()));
    assert(drive(s1.0, l1, now) == (s2.0, seq![s2.1] + Seq::<ActionView>::empty()));
    assert(drive(spent, last, now) == (s2.0, seq![s1.1] + (seq![s2.1] + Seq::<ActionView>::empty())));
    lemma_drive_saves(s2.0, later + 1, now);
    lemma_final_failure_cascades(s2.0, failed, now);
    assert(seq![s1.1] + (seq![s2.1] + Seq::<ActionView>::empty()) =~= seq![s1.1, s2.1]);
    assert(s2.0.id_at(s2.0.current) == run.id_at(run.current));
    assert(s2.0.ids_after(s2.0.current) == run.ids_after(run.current));
    let cascade = Seq::new(
        later,
        |i: int| ActionView::SaveCascade(not_executed(run.id_at(run.current + 1 + i), now)),
    );
    assert(Seq::new(
        (s2.0.order.len() - s2.0.current - 1) as nat,
        |i: int| ActionView::SaveCascade(not_executed(s2.0.id_at(s2.0.current + 1 + i), now)),
    ) =~= cascade);
    let finish = seq![
        ActionView::Finish(
            Err(
                ErrorView::FinishedAndSavedAsFail {
                    migration_id: run.id_at(run.current),
                    next_not_executed_migrations_ids: run.ids_after(run.current),
                },
            ),
        ),
    ];
    let rounds = repeated(failed_attempt_actions(run, now), retries);
    assert((rounds + seq![s1.1, s2.1]) + (cascade + finish) =~= rounds + seq![s1.1, s2.1] + cascade
        + finish);
}

} // verus!
