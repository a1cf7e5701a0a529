use migration_core::engine::{Engine, Phase};
use migration_core::failures::FoundFailedMigrations;
use migration_core::protocol::{Action, ApplyMigrationsOutput, EngineError, Event, RecordHandle};
use migration_core::provider::ProviderMismatch;
use migration_core::record::{MigrationEntry, MigrationRecord};
use migration_core::timestamp::Timestamp;

/// A directory, a history and scripts, all in memory.
struct Fake {
    marker: Option<String>,
    directory: Vec<MigrationEntry>,
    history: Vec<(String, MigrationRecord)>,
    failing: Vec<(String, String)>,
    broken: Option<Action>,
    initialized: bool,
    clock: i64,
    executed: Vec<String>,
    successful_steps: Vec<String>,
    asked: Vec<String>,
}

fn fake(directory: &[&str]) -> Fake {
    Fake {
        marker: None,
        directory: directory
            .iter()
            .map(|name| MigrationEntry::new(name.to_string(), format!("-- script of {}", name)))
            .collect(),
        history: Vec::new(),
        failing: Vec::new(),
        broken: None,
        initialized: true,
        clock: 1_600_000_000,
        executed: Vec::new(),
        successful_steps: Vec::new(),
        asked: Vec::new(),
    }
}

fn kind(action: &Action) -> &'static str {
    match action {
        Action::ReadProviderMarker => "marker",
        Action::AcquireLock => "lock",
        Action::InitializeHistory => "init",
        Action::ListDirectory => "directory",
        Action::ListHistory => "history",
        Action::RecordStarted { .. } => "started",
        Action::ApplyScript { .. } => "apply",
        Action::RecordSucceeded { .. } => "succeeded",
        Action::RecordFinished { .. } => "finished",
        Action::RecordFailed { .. } => "failed",
        Action::Finish(_) => "finish",
    }
}

impl Fake {
    fn now(&mut self) -> Timestamp {
        self.clock += 1;
        Timestamp::from_unix(self.clock, 0).unwrap()
    }

    fn with_record(mut self, name: &str, finished: bool, rolled_back: bool) -> Fake {
        let mut record = MigrationRecord::started(name.to_string(), self.now());
        if finished {
            record.finished_at = Some(self.now());
        }
        if rolled_back {
            record.rolled_back_at = Some(self.now());
        }
        let id = format!("old-{}", self.history.len());
        self.history.push((id, record));
        self
    }

    fn records(&self) -> Vec<MigrationRecord> {
        self.history.iter().map(|(_, record)| record.clone()).collect()
    }

    fn answer(&mut self, action: &Action) -> Event {
        self.asked.push(kind(action).to_string());
        if let Some(broken) = &self.broken {
            if kind(broken) == kind(action) {
                return Event::Failed(format!("{} is broken", kind(action)));
            }
        }
        match action {
            Action::ReadProviderMarker => Event::ProviderMarker(self.marker.clone()),
            Action::AcquireLock => Event::LockAcquired,
            Action::InitializeHistory => Event::HistoryInitialized,
            Action::ListDirectory => Event::DirectoryListed(self.directory.clone()),
            Action::ListHistory => {
                if self.initialized {
                    Event::HistoryListed(self.records())
                } else {
                    Event::HistoryNotInitialized
                }
            }
            Action::RecordStarted { name, script } => {
                assert_eq!(script, &format!("-- script of {}", name));
                let id = format!("id-{}", self.history.len());
                let record = MigrationRecord::started(name.clone(), self.now());
                self.history.push((id.clone(), record));
                Event::MigrationStarted(RecordHandle { id })
            }
            Action::ApplyScript { name, script } => {
                assert_eq!(script, &format!("-- script of {}", name));
                self.executed.push(name.clone());
                match self.failing.iter().find(|(failing, _)| failing == name) {
                    Some((_, message)) => Event::Failed(message.clone()),
                    None => Event::ScriptApplied,
                }
            }
            Action::RecordSucceeded { handle } => {
                self.successful_steps.push(handle.id.clone());
                Event::Recorded
            }
            Action::RecordFinished { handle } => {
                let now = self.now();
                for (id, record) in self.history.iter_mut() {
                    if *id == handle.id {
                        record.finished_at = Some(now);
                    }
                }
                Event::Recorded
            }
            Action::RecordFailed { handle, logs } => {
                for (id, record) in self.history.iter_mut() {
                    if *id == handle.id {
                        record.logs = Some(logs.clone());
                    }
                }
                Event::Recorded
            }
            Action::Finish(_) => unreachable!(),
        }
    }

    fn run(&mut self, provider: &str) -> Result<ApplyMigrationsOutput, EngineError> {
        let (mut engine, mut action) = Engine::start(provider.to_string());
        let mut steps = 0;
        loop {
            if let Action::Finish(outcome) = action {
                assert!(engine.is_finished());
                return outcome;
            }
            assert!(!engine.is_finished());
            let event = self.answer(&action);
            let next = engine.step(event);
            engine = next.0;
            action = next.1;
            steps += 1;
            assert!(steps < 1000);
        }
    }
}

fn applied(names: &[&str]) -> Result<ApplyMigrationsOutput, EngineError> {
    Ok(ApplyMigrationsOutput {
        applied_migration_names: names.iter().map(|name| name.to_string()).collect(),
    })
}

#[test]
fn empty_history_applies_directory_in_order() {
    let mut world = fake(&["m1", "m2", "m3"]);
    assert_eq!(world.run("postgresql"), applied(&["m1", "m2", "m3"]));
    assert_eq!(world.executed, vec!["m1", "m2", "m3"]);
    assert_eq!(world.history.len(), 3);
    assert!(world.records().iter().all(|record| record.is_applied()));
    assert_eq!(world.successful_steps, vec!["id-0", "id-1", "id-2"]);
}

#[test]
fn run_asks_in_the_order_of_the_phases() {
    let mut world = fake(&["m1"]);
    assert_eq!(world.run("postgresql"), applied(&["m1"]));
    assert_eq!(
        world.asked,
        vec![
            "marker", "lock", "init", "directory", "history", "started", "apply", "succeeded",
            "finished"
        ]
    );
}

#[test]
fn second_run_applies_nothing() {
    let mut world = fake(&["m1", "m2", "m3"]);
    assert_eq!(world.run("postgresql"), applied(&["m1", "m2", "m3"]));
    let history = world.records();
    assert_eq!(world.run("postgresql"), applied(&[]));
    assert_eq!(world.records(), history);
    assert_eq!(world.executed.len(), 3);
}

#[test]
fn applied_migration_is_not_run_again() {
    let mut world = fake(&["m1", "m2"]).with_record("m1", true, false);
    assert_eq!(world.run("postgresql"), applied(&["m2"]));
    assert_eq!(world.executed, vec!["m2"]);
    assert_eq!(world.history.len(), 2);
}

#[test]
fn rolled_back_migration_is_applied_again() {
    let mut world = fake(&["m1"]).with_record("m1", true, true);
    assert_eq!(world.run("postgresql"), applied(&["m1"]));
    assert_eq!(world.executed, vec!["m1"]);
    assert_eq!(world.history.len(), 2);
    assert!(world.history[0].1.is_rolled_back());
    assert!(world.history[1].1.is_applied());
}

#[test]
fn failed_attempt_blocks_the_run() {
    let mut world = fake(&["m0", "m1"]).with_record("m0", false, false);
    let started = world.history[0].1.started_at.to_text();
    let history = world.records();
    match world.run("postgresql") {
        Err(EngineError::FoundFailedMigrations(FoundFailedMigrations { details })) => {
            assert!(details.contains("m0"));
            assert!(details.contains(&started));
            assert_eq!(details, format!("The `m0` migration started at {} failed\n", started));
        }
        other => panic!("unexpected outcome: {:?}", other),
    }
    assert!(world.executed.is_empty());
    assert_eq!(world.records(), history);
    assert_eq!(world.asked, vec!["marker", "lock", "init", "directory", "history"]);
}

#[test]
fn failed_attempt_blocks_even_an_empty_directory() {
    let mut world = fake(&[]).with_record("m0", false, false);
    assert!(matches!(world.run("postgresql"), Err(EngineError::FoundFailedMigrations(_))));
}

#[test]
fn failing_script_halts_the_batch() {
    let mut world = fake(&["m1", "m2", "m3"]);
    world.failing.push(("m2".to_string(), "syntax error".to_string()));
    assert_eq!(
        world.run("postgresql"),
        Err(EngineError::ScriptExecution("syntax error".to_string()))
    );
    assert_eq!(world.executed, vec!["m1", "m2"]);
    assert_eq!(world.history.len(), 2);
    let first = &world.history[0].1;
    assert_eq!(first.migration_name, "m1");
    assert!(first.is_applied());
    assert_eq!(first.logs, None);
    let second = &world.history[1].1;
    assert_eq!(second.migration_name, "m2");
    assert!(second.is_failed());
    assert_eq!(second.finished_at, None);
    assert_eq!(second.logs, Some("syntax error".to_string()));
    assert_eq!(world.successful_steps, vec!["id-0"]);
}

#[test]
fn run_after_a_failing_script_is_blocked() {
    let mut world = fake(&["m1", "m2"]);
    world.failing.push(("m2".to_string(), "  boom \n".to_string()));
    assert!(matches!(world.run("postgresql"), Err(EngineError::ScriptExecution(_))));
    world.failing.clear();
    match world.run("postgresql") {
        Err(EngineError::FoundFailedMigrations(found)) => {
            assert!(found.details.starts_with("The `m2` migration started at "));
            assert!(found.details.ends_with(" failed with the following logs:\nboom\n"));
        }
        other => panic!("unexpected outcome: {:?}", other),
    }
    assert_eq!(world.executed, vec!["m1", "m2"]);
}

#[test]
fn changed_provider_stops_before_the_lock() {
    let mut world = fake(&["m1"]);
    world.marker = Some("sqlite".to_string());
    assert_eq!(
        world.run("postgresql"),
        Err(EngineError::ProviderMismatch(ProviderMismatch {
            expected: "sqlite".to_string(),
            actual: "postgresql".to_string(),
        }))
    );
    assert_eq!(world.asked, vec!["marker"]);
    assert!(world.history.is_empty());
}

#[test]
fn same_provider_marker_is_admitted() {
    let mut world = fake(&["m1"]);
    world.marker = Some("postgresql".to_string());
    assert_eq!(world.run("postgresql"), applied(&["m1"]));
}

#[test]
fn empty_directory_is_no_error() {
    let mut world = fake(&[]);
    assert_eq!(world.run("postgresql"), applied(&[]));
    assert!(world.history.is_empty());
}

#[test]
fn missing_history_table_is_an_error() {
    let mut world = fake(&["m1"]);
    world.initialized = false;
    assert_eq!(world.run("postgresql"), Err(EngineError::PersistenceNotInitialized));
    assert!(world.executed.is_empty());
}

#[test]
fn each_failed_request_has_its_error() {
    let cases: Vec<(Action, EngineError, usize)> = vec![
        (
            Action::ReadProviderMarker,
            EngineError::DirectoryUnreadable("marker is broken".to_string()),
            1,
        ),
        (Action::AcquireLock, EngineError::LockAcquisition("lock is broken".to_string()), 2),
        (Action::InitializeHistory, EngineError::PersistenceInit("init is broken".to_string()), 3),
        (
            Action::ListDirectory,
            EngineError::DirectoryUnreadable("directory is broken".to_string()),
            4,
        ),
        (Action::ListHistory, EngineError::Persistence("history is broken".to_string()), 5),
        (
            Action::RecordStarted { name: String::new(), script: String::new() },
            EngineError::Persistence("started is broken".to_string()),
            6,
        ),
        (
            Action::RecordSucceeded { handle: RecordHandle { id: String::new() } },
            EngineError::Persistence("succeeded is broken".to_string()),
            8,
        ),
        (
            Action::RecordFinished { handle: RecordHandle { id: String::new() } },
            EngineError::Persistence("finished is broken".to_string()),
            9,
        ),
    ];
    for (broken, error, asked) in cases {
        let mut world = fake(&["m1", "m2"]);
        world.broken = Some(broken);
        assert_eq!(world.run("postgresql"), Err(error));
        assert_eq!(world.asked.len(), asked);
    }
}

#[test]
fn failure_to_record_a_failure_is_what_is_returned() {
    let mut world = fake(&["m1"]);
    world.failing.push(("m1".to_string(), "boom".to_string()));
    world.broken = Some(Action::RecordFailed {
        handle: RecordHandle { id: String::new() },
        logs: String::new(),
    });
    assert_eq!(
        world.run("postgresql"),
        Err(EngineError::Persistence("failed is broken".to_string()))
    );
}

#[test]
fn step_by_step_through_one_migration() {
    let (engine, action) = Engine::start("mysql".to_string());
    assert_eq!(action, Action::ReadProviderMarker);
    assert_eq!(engine.phase(), Phase::CheckingProvider);
    let (engine, action) = engine.step(Event::ProviderMarker(None));
    assert_eq!(action, Action::AcquireLock);
    let (engine, action) = engine.step(Event::LockAcquired);
    assert_eq!(action, Action::InitializeHistory);
    let (engine, action) = engine.step(Event::HistoryInitialized);
    assert_eq!(action, Action::ListDirectory);
    let entry = MigrationEntry::new("m1".to_string(), "create table a ()".to_string());
    let (engine, action) = engine.step(Event::DirectoryListed(vec![entry]));
    assert_eq!(action, Action::ListHistory);
    assert_eq!(engine.phase(), Phase::ListingHistory);
    let (engine, action) = engine.step(Event::HistoryListed(vec![]));
    assert_eq!(
        action,
        Action::RecordStarted { name: "m1".to_string(), script: "create table a ()".to_string() }
    );
    let handle = RecordHandle { id: "7".to_string() };
    let (engine, action) = engine.step(Event::MigrationStarted(handle.clone()));
    assert_eq!(
        action,
        Action::ApplyScript { name: "m1".to_string(), script: "create table a ()".to_string() }
    );
    assert_eq!(engine.phase(), Phase::Applying);
    let (engine, action) = engine.step(Event::ScriptApplied);
    assert_eq!(action, Action::RecordSucceeded { handle: handle.clone() });
    let (engine, action) = engine.step(Event::Recorded);
    assert_eq!(action, Action::RecordFinished { handle });
    assert_eq!(engine.applied_count(), 0);
    let (engine, action) = engine.step(Event::Recorded);
    assert_eq!(action, Action::Finish(applied(&["m1"])));
    assert_eq!(engine.applied_count(), 1);
    assert!(engine.is_finished());
}

#[test]
fn unexpected_answer_ends_the_run() {
    let (engine, _) = Engine::start("mysql".to_string());
    let (engine, action) = engine.step(Event::LockAcquired);
    assert_eq!(action, Action::Finish(Err(EngineError::UnexpectedEvent)));
    assert!(engine.is_finished());
    let (engine, action) = engine.step(Event::ProviderMarker(None));
    assert_eq!(action, Action::Finish(Err(EngineError::UnexpectedEvent)));
    assert!(engine.is_finished());
}

#[test]
fn script_failure_is_kept_as_logs_word_for_word() {
    let (engine, _) = Engine::start("mysql".to_string());
    let (engine, _) = engine.step(Event::ProviderMarker(None));
    let (engine, _) = engine.step(Event::LockAcquired);
    let (engine, _) = engine.step(Event::HistoryInitialized);
    let entries = vec![
        MigrationEntry::new("m1".to_string(), "a".to_string()),
        MigrationEntry::new("m2".to_string(), "b".to_string()),
    ];
    let (engine, _) = engine.step(Event::DirectoryListed(entries));
    let (engine, _) = engine.step(Event::HistoryListed(vec![]));
    let handle = RecordHandle { id: "h".to_string() };
    let (engine, _) = engine.step(Event::MigrationStarted(handle.clone()));
    let (engine, action) = engine.step(Event::Failed("  ERROR: no such table\n".to_string()));
    assert_eq!(
        action,
        Action::RecordFailed { handle, logs: "  ERROR: no such table\n".to_string() }
    );
    assert_eq!(engine.phase(), Phase::MarkingFailed);
    let (engine, action) = engine.step(Event::Recorded);
    assert_eq!(
        action,
        Action::Finish(Err(EngineError::ScriptExecution("  ERROR: no such table\n".to_string())))
    );
    assert!(engine.is_finished());
}
