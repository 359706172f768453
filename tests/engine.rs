use std::time::Duration;

use mongodb_migrator::error::MigrationExecution;
use mongodb_migrator::migration_record::MigrationRecord;
use mongodb_migrator::migration_status::MigrationStatus;
use mongodb_migrator::migrator::plan::OperationType;
use mongodb_migrator::migrator::run::{Action, Event, Run};
use mongodb_migrator::migrator::with_retries::Retry;

/// A store and a target collection in memory, and a log of what ran.
struct Sim {
    ids: Vec<String>,
    records: Vec<MigrationRecord>,
    users: Vec<i64>,
    calls: Vec<String>,
    slept: Vec<Duration>,
    now: i64,
    /// How many more times each migration fails before it succeeds.
    failures: Vec<(String, usize)>,
    /// Save actions answered with a fault: (kind of save, id, serialization?).
    fault: Option<(&'static str, String, bool)>,
    actions: Vec<String>,
}

impl Sim {
    fn new(ids: &[&str]) -> Sim {
        Sim {
            ids: ids.iter().map(|s| s.to_string()).collect(),
            records: vec![],
            users: vec![],
            calls: vec![],
            slept: vec![],
            now: 1_000,
            failures: vec![],
            fault: None,
            actions: vec![],
        }
    }

    fn record(&self, id: &str) -> Option<&MigrationRecord> {
        self.records.iter().find(|r| r._id == id)
    }

    fn upsert(&mut self, record: MigrationRecord) {
        match self.records.iter_mut().find(|r| r._id == record._id) {
            Some(r) => *r = record,
            None => self.records.push(record),
        }
    }

    fn count_status(&self, status: MigrationStatus) -> usize {
        self.records.iter().filter(|r| r.status == status).count()
    }

    /// The effect of each test migration on the `users` collection.
    fn apply(&mut self, id: &str, operation: OperationType) -> bool {
        if let Some(entry) = self.failures.iter_mut().find(|(m, _)| m == id) {
            if entry.1 > 0 {
                entry.1 -= 1;
                return false;
            }
        }
        let effect = match (id, operation) {
            ("M0", OperationType::Up) | ("M2", OperationType::Down) => "insert0",
            ("M1", _) => "0to1",
            ("M2", OperationType::Up) | ("M0", OperationType::Down) => "1to2",
            ("M3", OperationType::Up) => return false,
            _ => "none",
        };
        match effect {
            "insert0" => self.users.push(0),
            "0to1" => {
                if let Some(x) = self.users.iter_mut().find(|x| **x == 0) {
                    *x = 1;
                }
            }
            "1to2" => {
                if let Some(x) = self.users.iter_mut().find(|x| **x == 1) {
                    *x = 2;
                }
            }
            _ => {}
        }
        true
    }

    fn save(&mut self, kind: &'static str, record: MigrationRecord) -> Event {
        if let Some((k, id, serialization)) = &self.fault {
            if *k == kind && *id == record._id {
                return if *serialization {
                    Event::NotSerialized("cannot encode".to_string())
                } else {
                    Event::NotPersisted("write refused".to_string())
                };
            }
        }
        self.upsert(record);
        Event::Saved
    }

    /// Performs each action of the run until it finishes.
    fn drive(&mut self, start: (Run, Action)) -> Result<(), MigrationExecution> {
        let (mut run, mut action) = start;
        loop {
            self.actions.push(format!("{:?}", action).split(['(', ' ']).next().unwrap().to_string());
            let event = match action {
                Action::LoadRecords => Event::Loaded(self.records.clone()),
                Action::SaveInitial(record) => self.save("initial", record),
                Action::SaveFinal(record) => self.save("final", record),
                Action::SaveCascade(record) => self.save("cascade", record),
                Action::Execute { position, operation } => {
                    let id = self.ids[position].clone();
                    self.calls.push(format!("{}:{:?}", id, operation));
                    Event::Ran(self.apply(&id, operation))
                }
                Action::Sleep(delay) => {
                    self.slept.push(delay);
                    Event::Slept
                }
                Action::Finish(result) => return result,
            };
            self.now += 7;
            action = run.step_at(event, self.now);
        }
    }

    fn up(&mut self, retry: Retry) -> Result<(), MigrationExecution> {
        let start = Run::up(self.ids.clone(), retry);
        self.drive(start)
    }

    fn down(&mut self, retry: Retry) -> Result<(), MigrationExecution> {
        let start = Run::down(self.ids.clone(), retry);
        self.drive(start)
    }

    fn single(&mut self, id: &str, operation: OperationType) -> Result<(), MigrationExecution> {
        let start = Run::single(self.ids.clone(), id.to_string(), operation, no_retries());
        self.drive(start)
    }
}

fn no_retries() -> Retry {
    Retry { count: 0, delay: Duration::ZERO }
}

fn ids_of(records: &[MigrationRecord]) -> Vec<String> {
    let mut sorted: Vec<&MigrationRecord> = records.iter().collect();
    sorted.sort_by_key(|r| r.end_date);
    sorted.iter().map(|r| r._id.clone()).collect()
}

#[test]
fn migrations_executed_in_specified_order() {
    let mut sim = Sim::new(&["M0", "M1", "M2"]);
    sim.up(no_retries()).unwrap();
    assert_eq!(ids_of(&sim.records), vec!["M0", "M1", "M2"]);
}

#[test]
fn all_migrations_have_success_status() {
    let mut sim = Sim::new(&["M0", "M1", "M2"]);
    sim.up(no_retries()).unwrap();
    assert_eq!(sim.records.len(), 3);
    assert!(sim.records.iter().all(|r| r.status == MigrationStatus::Success));
}

#[test]
fn migrations_not_just_saved_as_executed_but_really_affected_target() {
    let mut sim = Sim::new(&["M0", "M1", "M2"]);
    sim.up(no_retries()).unwrap();
    assert!(sim.users.contains(&2));
}

#[test]
fn migrations_ran_in_particular_order() {
    let mut sim = Sim::new(&["M0", "M1", "M2"]);
    sim.up(no_retries()).unwrap();
    assert!(sim.users.contains(&2));
}

#[test]
fn ran_migrations_saved_in_migrations_folder() {
    let mut sim = Sim::new(&["M0", "M1", "M2"]);
    sim.up(no_retries()).unwrap();
    assert_eq!(sim.records.len(), 3);
}

#[test]
fn all_ran_migrations_are_succeeded() {
    let mut sim = Sim::new(&["M0", "M1", "M2"]);
    sim.up(no_retries()).unwrap();
    assert_eq!(sim.count_status(MigrationStatus::Success), 3);
}

#[test]
fn migrations_executed_in_single_manner() {
    let mut sim = Sim::new(&["M0", "M1", "M2"]);
    sim.single("M0", OperationType::Up).unwrap();
    sim.single("M1", OperationType::Up).unwrap();
    sim.single("M2", OperationType::Up).unwrap();
    assert_eq!(ids_of(&sim.records), vec!["M0", "M1", "M2"]);
}

#[test]
fn picks_only_failed() {
    let mut sim = Sim::new(&["M0", "M3", "M1", "M2"]);
    let succeeded = MigrationRecord::migration_start("M0".to_string(), 10).migration_succeeded(20);
    sim.records.push(succeeded.clone());
    let _ = sim.up(no_retries());
    assert_eq!(sim.record("M0"), Some(&succeeded));
    assert_eq!(sim.count_status(MigrationStatus::Fail), 3);
    assert_eq!(sim.records.len(), 4);
}

#[test]
fn second_up_on_succeeded_set_executes_nothing() {
    let mut sim = Sim::new(&["A", "B", "C"]);
    sim.up(no_retries()).unwrap();
    assert_eq!(sim.calls.len(), 3);
    let before = sim.records.clone();
    sim.calls.clear();
    sim.actions.clear();
    sim.up(no_retries()).unwrap();
    assert!(sim.calls.is_empty());
    assert_eq!(sim.actions, vec!["LoadRecords", "Finish"]);
    assert_eq!(sim.records, before);
}

#[test]
fn failure_stops_the_run_and_cascades() {
    let mut sim = Sim::new(&["A", "B", "C", "D"]);
    sim.failures.push(("B".to_string(), usize::MAX));
    let retry = Retry { count: 1, delay: Duration::from_millis(3) };
    let result = sim.up(retry);
    match result {
        Err(MigrationExecution::FinishedAndSavedAsFail { migration_id, next_not_executed_migrations_ids }) => {
            assert_eq!(migration_id, "B");
            assert_eq!(next_not_executed_migrations_ids, vec!["C", "D"]);
        }
        other => panic!("unexpected result {:?}", other),
    }
    assert_eq!(sim.calls, vec!["A:Up", "B:Up", "B:Up"]);
    assert_eq!(sim.records.len(), 4);
    assert_eq!(sim.count_status(MigrationStatus::Fail), 3);
    assert_eq!(sim.record("A").unwrap().status, MigrationStatus::Success);
    for id in ["C", "D"] {
        let r = sim.record(id).unwrap();
        assert_eq!(r.status, MigrationStatus::Fail);
        assert_eq!(r.start_date, r.end_date);
        assert_eq!(r.duration, Some(0));
    }
}

#[test]
fn failure_of_the_last_migration_lists_nothing_after_it() {
    let mut sim = Sim::new(&["M0", "M3"]);
    match sim.up(no_retries()) {
        Err(MigrationExecution::FinishedAndSavedAsFail { migration_id, next_not_executed_migrations_ids }) => {
            assert_eq!(migration_id, "M3");
            assert!(next_not_executed_migrations_ids.is_empty());
        }
        other => panic!("unexpected result {:?}", other),
    }
    assert_eq!(sim.records.len(), 2);
}

#[test]
fn down_runs_in_reverse_order() {
    let mut sim = Sim::new(&["A", "B", "C"]);
    sim.down(no_retries()).unwrap();
    assert_eq!(sim.calls, vec!["C:Down", "B:Down", "A:Down"]);
}

#[test]
fn single_run_executes_only_that_migration() {
    let mut sim = Sim::new(&["A", "B", "C"]);
    sim.records.push(MigrationRecord::migration_start("A".to_string(), 1).migration_succeeded(2));
    sim.records.push(MigrationRecord::migration_start("C".to_string(), 1).migration_failed(2));
    sim.single("B", OperationType::Up).unwrap();
    assert_eq!(sim.calls, vec!["B:Up"]);
    assert_eq!(sim.record("B").unwrap().status, MigrationStatus::Success);
    assert_eq!(sim.record("C").unwrap().status, MigrationStatus::Fail);
}

#[test]
fn single_run_of_unknown_id_is_not_found() {
    let mut sim = Sim::new(&["A", "B"]);
    match sim.single("Z", OperationType::Down) {
        Err(MigrationExecution::MigrationFromVecNotFound { migration_id }) => assert_eq!(migration_id, "Z"),
        other => panic!("unexpected result {:?}", other),
    }
    assert!(sim.calls.is_empty());
    assert!(sim.records.is_empty());
}

#[test]
fn single_run_checks_ids_first() {
    let mut sim = Sim::new(&["A", "A"]);
    match sim.single("Z", OperationType::Up) {
        Err(MigrationExecution::PassedMigrationsWithDuplicatedIds { duplicates }) => {
            assert_eq!(duplicates.len(), 1)
        }
        other => panic!("unexpected result {:?}", other),
    }
}

#[test]
fn retry_succeeds_on_third_attempt() {
    let mut sim = Sim::new(&["A"]);
    sim.failures.push(("A".to_string(), 2));
    let delay = Duration::from_millis(40);
    sim.up(Retry { count: 2, delay }).unwrap();
    assert_eq!(sim.calls, vec!["A:Up", "A:Up", "A:Up"]);
    assert_eq!(sim.slept, vec![delay, delay]);
    assert!(sim.slept.iter().sum::<Duration>() >= 2 * delay);
    assert_eq!(sim.records.len(), 1);
    assert_eq!(sim.record("A").unwrap().status, MigrationStatus::Success);
}

#[test]
fn retries_exhausted_gives_up() {
    let mut sim = Sim::new(&["A", "B"]);
    sim.failures.push(("A".to_string(), 3));
    let result = sim.up(Retry { count: 2, delay: Duration::from_millis(1) });
    assert!(matches!(result, Err(MigrationExecution::FinishedAndSavedAsFail { .. })));
    assert_eq!(sim.calls, vec!["A:Up", "A:Up", "A:Up"]);
    assert_eq!(sim.slept.len(), 2);
    assert_eq!(sim.record("B").unwrap().status, MigrationStatus::Fail);
}

#[test]
fn rerun_resumes_from_cascaded_failure() {
    let mut sim = Sim::new(&["A", "B", "C", "D"]);
    sim.failures.push(("B".to_string(), 1));
    assert!(sim.up(no_retries()).is_err());
    assert_eq!(sim.calls, vec!["A:Up", "B:Up"]);
    assert_eq!(sim.count_status(MigrationStatus::Fail), 3);
    sim.calls.clear();
    sim.up(no_retries()).unwrap();
    assert_eq!(sim.calls, vec!["B:Up", "C:Up", "D:Up"]);
    assert_eq!(sim.count_status(MigrationStatus::Success), 4);
}

#[test]
fn in_progress_record_is_left_alone() {
    let mut sim = Sim::new(&["A", "B"]);
    sim.records.push(MigrationRecord::migration_start("A".to_string(), 5));
    sim.up(no_retries()).unwrap();
    assert_eq!(sim.calls, vec!["B:Up"]);
}

#[test]
fn empty_set_finishes_at_once() {
    let mut sim = Sim::new(&[]);
    sim.up(no_retries()).unwrap();
    assert_eq!(sim.actions, vec!["LoadRecords", "Finish"]);
}

#[test]
fn records_carry_times_and_duration() {
    let mut sim = Sim::new(&["A"]);
    sim.up(no_retries()).unwrap();
    let r = sim.record("A").unwrap();
    // Loaded at 1007 (start), executed at 1014, ran at 1021 (end).
    assert_eq!(r.start_date, Some(1007));
    assert_eq!(r.end_date, Some(1021));
    assert_eq!(r.duration, Some(14));
}

#[test]
fn initial_record_not_serialized() {
    let mut sim = Sim::new(&["A", "B", "C"]);
    sim.fault = Some(("initial", "B".to_string(), true));
    match sim.up(no_retries()) {
        Err(MigrationExecution::InitialMigrationRecord {
            migration_id,
            migration_record,
            next_not_executed_migrations_ids,
            additional_info,
        }) => {
            assert_eq!(migration_id, "B");
            assert_eq!(migration_record._id, "B");
            assert_eq!(migration_record.status, MigrationStatus::InProgress);
            assert_eq!(next_not_executed_migrations_ids, vec!["C"]);
            assert_eq!(additional_info, "cannot encode");
        }
        other => panic!("unexpected result {:?}", other),
    }
    assert_eq!(sim.calls, vec!["A:Up"]);
}

#[test]
fn initial_record_not_persisted() {
    let mut sim = Sim::new(&["A", "B"]);
    sim.fault = Some(("initial", "A".to_string(), false));
    sim.failures.push(("A".to_string(), 0));
    match sim.up(Retry { count: 3, delay: Duration::from_millis(1) }) {
        Err(MigrationExecution::InProgressStatusNotSaved { migration_id, next_not_executed_migrations_ids, .. }) => {
            assert_eq!(migration_id, "A");
            assert_eq!(next_not_executed_migrations_ids, vec!["B"]);
        }
        other => panic!("unexpected result {:?}", other),
    }
    assert!(sim.calls.is_empty());
    assert!(sim.slept.is_empty());
}

#[test]
fn final_record_not_serialized() {
    let mut sim = Sim::new(&["A", "B"]);
    sim.fault = Some(("final", "A".to_string(), true));
    match sim.up(no_retries()) {
        Err(MigrationExecution::FinishedButNotSavedDueToSerialization {
            migration_id,
            migration_status,
            migration_record,
            ..
        }) => {
            assert_eq!(migration_id, "A");
            assert_eq!(migration_status, "Succeeded");
            assert_eq!(migration_record.status, MigrationStatus::Success);
        }
        other => panic!("unexpected result {:?}", other),
    }
    assert_eq!(sim.calls, vec!["A:Up"]);
}

#[test]
fn final_record_not_persisted() {
    let mut sim = Sim::new(&["M3", "B"]);
    sim.fault = Some(("final", "M3".to_string(), false));
    match sim.up(no_retries()) {
        Err(MigrationExecution::FinishedButNotSavedDueMongoError {
            migration_id,
            migration_status,
            next_not_executed_migrations_ids,
            ..
        }) => {
            assert_eq!(migration_id, "M3");
            assert_eq!(migration_status, "Failed");
            assert_eq!(next_not_executed_migrations_ids, vec!["B"]);
        }
        other => panic!("unexpected result {:?}", other),
    }
}

#[test]
fn cascade_record_not_persisted() {
    let mut sim = Sim::new(&["M3", "B", "C"]);
    sim.fault = Some(("cascade", "B".to_string(), false));
    match sim.up(no_retries()) {
        Err(MigrationExecution::FinishedButNotSavedDueMongoError {
            migration_id,
            migration_status,
            next_not_executed_migrations_ids,
            ..
        }) => {
            assert_eq!(migration_id, "B");
            assert_eq!(migration_status, "Failed");
            assert_eq!(next_not_executed_migrations_ids, vec!["C"]);
        }
        other => panic!("unexpected result {:?}", other),
    }
}

#[test]
fn unexpected_event_repeats_the_action() {
    let (mut run, action) = Run::up(vec!["A".to_string()], no_retries());
    assert!(matches!(action, Action::LoadRecords));
    let again = run.step_at(Event::Saved, 5);
    assert!(matches!(again, Action::LoadRecords));
    let next = run.step_at(Event::Loaded(vec![]), 6);
    match next {
        Action::SaveInitial(record) => {
            assert_eq!(record._id, "A");
            assert_eq!(record.start_date, Some(6));
        }
        other => panic!("unexpected action {:?}", other),
    }
    assert!(!run.is_finished());
}
