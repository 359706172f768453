use std::time::Duration;

use mongodb_migrator::error::MigrationExecution;
use mongodb_migrator::migration::migration_id_from_type_name;
use mongodb_migrator::migration_record::{collection_name, MigrationRecord};
use mongodb_migrator::migration_status::MigrationStatus;
use mongodb_migrator::migrator::plan::{execution_order, is_pending, select_pending, validate, OperationType};
use mongodb_migrator::migrator::shell::{Shell, ShellConfig};
use mongodb_migrator::migrator::with_retries::Retry;
use mongodb_migrator::timestamp::{is_valid_timestamp, MAX_TIMESTAMP_MILLIS};

fn ids(names: &[&str]) -> Vec<String> {
    names.iter().map(|s| s.to_string()).collect()
}

#[test]
fn validation_fails_when_passed_with_duplicates() {
    let res = validate(&ids(&["M0", "M0", "M0"]));
    match res {
        Err(MigrationExecution::PassedMigrationsWithDuplicatedIds { duplicates }) => {
            assert_eq!(duplicates.len(), 1);
            assert_eq!(duplicates.get(&"M0".to_string()).unwrap().len(), 3);
        }
        _ => unreachable!(),
    }
}

#[test]
fn validation_passes_since_all_unique() {
    let res = validate(&ids(&["M0", "M1", "M2"]));
    assert!(res.is_ok());
}

#[test]
fn validation_reports_every_duplicate_with_positions() {
    let res = validate(&ids(&["a", "b", "a", "c", "b", "a"]));
    match res {
        Err(MigrationExecution::PassedMigrationsWithDuplicatedIds { duplicates }) => {
            assert_eq!(duplicates.len(), 2);
            assert_eq!(duplicates.get(&"a".to_string()), Some(&vec![0, 2, 5]));
            assert_eq!(duplicates.get(&"b".to_string()), Some(&vec![1, 4]));
            assert_eq!(duplicates.get(&"c".to_string()), None);
            assert!(!duplicates.is_empty());
        }
        _ => unreachable!(),
    }
}

#[test]
fn validation_of_empty_set_passes() {
    assert!(validate(&vec![]).is_ok());
}

#[test]
fn id_is_last_segment_of_type_name() {
    assert_eq!(migration_id_from_type_name("tests::utils::M0"), "M0");
    assert_eq!(migration_id_from_type_name("M1"), "M1");
    assert_eq!(migration_id_from_type_name(""), "");
    assert_eq!(migration_id_from_type_name("a::"), "");
    assert_eq!(migration_id_from_type_name("a:::b"), ":b");
    assert_eq!(migration_id_from_type_name("crate::m::Wrapper<x::Y>"), "Y>");
}

#[test]
fn pending_selection_skips_succeeded_and_in_progress() {
    let records = vec![
        MigrationRecord::migration_start("a".to_string(), 1).migration_succeeded(2),
        MigrationRecord::migration_start("b".to_string(), 1).migration_failed(2),
        MigrationRecord::migration_start("c".to_string(), 1),
    ];
    assert!(!is_pending(&records, &"a".to_string()));
    assert!(is_pending(&records, &"b".to_string()));
    assert!(!is_pending(&records, &"c".to_string()));
    assert!(is_pending(&records, &"d".to_string()));
    let set = ids(&["a", "b", "c", "d", "e"]);
    assert_eq!(select_pending(&set, 0, 5, &records), vec![1, 3, 4]);
    assert_eq!(select_pending(&set, 2, 4, &records), vec![3]);
    assert_eq!(select_pending(&set, 2, 2, &records), Vec::<usize>::new());
    assert_eq!(execution_order(&set, 0, 5, &records, OperationType::Up), vec![1, 3, 4]);
    assert_eq!(execution_order(&set, 0, 5, &records, OperationType::Down), vec![4, 3, 1]);
}

#[test]
fn record_lifecycle() {
    let start = MigrationRecord::migration_start("m".to_string(), 100);
    assert_eq!(start.status, MigrationStatus::InProgress);
    assert_eq!(start.end_date, None);
    assert_eq!(start.duration, None);
    let done = start.clone().migration_succeeded(350);
    assert_eq!(done.status, MigrationStatus::Success);
    assert_eq!(done.start_date, Some(100));
    assert_eq!(done.end_date, Some(350));
    assert_eq!(done.duration, Some(250));
    let failed = start.migration_failed(101);
    assert_eq!(failed.status, MigrationStatus::Fail);
    assert_eq!(failed.duration, Some(1));
    let no_start = MigrationRecord {
        _id: "n".to_string(),
        start_date: None,
        end_date: None,
        status: MigrationStatus::InProgress,
        duration: None,
    };
    assert_eq!(no_start.migration_failed(5).duration, Some(0));
}

#[test]
fn timestamps_lie_between_epoch_and_bound() {
    assert!(is_valid_timestamp(0));
    assert!(is_valid_timestamp(1_700_000_000_000));
    assert!(is_valid_timestamp(MAX_TIMESTAMP_MILLIS));
    assert!(!is_valid_timestamp(-1));
    assert!(!is_valid_timestamp(MAX_TIMESTAMP_MILLIS + 1));
    assert!(!is_valid_timestamp(i64::MAX));
}

#[test]
fn status_names() {
    assert_eq!(MigrationStatus::InProgress.name(), "InProgress");
    assert_eq!(MigrationStatus::Success.name(), "Succeeded");
    assert_eq!(MigrationStatus::Fail.name(), "Failed");
}

#[test]
fn collection_name_defaults_to_migrations() {
    assert_eq!(collection_name(&None), "migrations");
    assert_eq!(collection_name(&Some("history".to_string())), "history");
}

#[test]
fn shell_config_defaults() {
    let config = ShellConfig::default();
    assert_eq!(config.host, "localhost");
    assert_eq!(config.port, 27017);
    let shell = Shell::default();
    assert_eq!(shell.config.port, 27017);
    let custom = Shell::new(ShellConfig { host: "db".to_string(), port: 1 });
    assert_eq!(custom.config.host, "db");
}

#[test]
fn retry_default_is_no_retry() {
    let retry = Retry::default();
    assert_eq!(retry.count, 0);
    assert_eq!(retry.delay, Duration::ZERO);
}
