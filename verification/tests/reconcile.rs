use migration_core::provider::{error_on_changed_provider, ProviderMismatch};
use migration_core::reconcile::{has_applied, unapplied_migrations};
use migration_core::record::{MigrationEntry, MigrationRecord};
use migration_core::timestamp::Timestamp;

fn at(seconds: i64) -> Timestamp {
    Timestamp::from_unix(seconds, 0).unwrap()
}

fn entry(name: &str) -> MigrationEntry {
    MigrationEntry::new(name.to_string(), format!("-- {}", name))
}

fn applied(name: &str) -> MigrationRecord {
    let mut record = MigrationRecord::started(name.to_string(), at(100));
    record.finished_at = Some(at(200));
    record
}

fn rolled_back(name: &str, finished: bool) -> MigrationRecord {
    let mut record = MigrationRecord::started(name.to_string(), at(100));
    if finished {
        record.finished_at = Some(at(200));
    }
    record.rolled_back_at = Some(at(300));
    record
}

fn names(entries: &[MigrationEntry]) -> Vec<String> {
    entries.iter().map(|e| e.name.clone()).collect()
}

#[test]
fn empty_history_selects_whole_directory_in_order() {
    let directory = vec![entry("m1"), entry("m2"), entry("m3")];
    let pending = unapplied_migrations(&directory, &[]);
    assert_eq!(pending, directory);
}

#[test]
fn applied_migration_is_skipped() {
    let directory = vec![entry("m1"), entry("m2")];
    let pending = unapplied_migrations(&directory, &[applied("m1")]);
    assert_eq!(names(&pending), vec!["m2".to_string()]);
    assert_eq!(pending[0].script, "-- m2");
}

#[test]
fn rolled_back_migration_is_selected_again() {
    let directory = vec![entry("m1"), entry("m2")];
    let history = vec![rolled_back("m1", true), applied("m2")];
    let pending = unapplied_migrations(&directory, &history);
    assert_eq!(names(&pending), vec!["m1".to_string()]);
    let unfinished = vec![rolled_back("m1", false)];
    assert_eq!(names(&unapplied_migrations(&directory, &unfinished)).len(), 2);
}

#[test]
fn rolled_back_then_applied_again_is_skipped() {
    let directory = vec![entry("m1")];
    let history = vec![rolled_back("m1", true), applied("m1")];
    assert!(unapplied_migrations(&directory, &history).is_empty());
}

#[test]
fn selection_keeps_directory_order() {
    let directory = vec![entry("d"), entry("a"), entry("c"), entry("b")];
    let history = vec![applied("a"), applied("zzz")];
    let pending = unapplied_migrations(&directory, &history);
    assert_eq!(names(&pending), vec!["d".to_string(), "c".to_string(), "b".to_string()]);
}

#[test]
fn empty_directory_selects_nothing() {
    assert!(unapplied_migrations(&[], &[applied("m1")]).is_empty());
    assert!(unapplied_migrations(&[], &[]).is_empty());
}

#[test]
fn has_applied_goes_by_name_and_state() {
    let history = vec![applied("m1"), rolled_back("m2", true)];
    assert!(has_applied(&history, &"m1".to_string()));
    assert!(!has_applied(&history, &"m2".to_string()));
    assert!(!has_applied(&history, &"m3".to_string()));
    assert!(!has_applied(&[], &"m1".to_string()));
}

#[test]
fn provider_guard_admits_same_or_missing_marker() {
    let provider = "postgresql".to_string();
    assert_eq!(error_on_changed_provider(&None, &provider), Ok(()));
    assert_eq!(error_on_changed_provider(&Some("postgresql".to_string()), &provider), Ok(()));
}

#[test]
fn provider_guard_refuses_other_marker() {
    let provider = "postgresql".to_string();
    assert_eq!(
        error_on_changed_provider(&Some("sqlite".to_string()), &provider),
        Err(ProviderMismatch { expected: "sqlite".to_string(), actual: "postgresql".to_string() })
    );
}
