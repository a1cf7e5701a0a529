//! What passes between the engine and the code that drives it: the requests
//! that the engine makes of its collaborators, and their answers.

use crate::failures::FoundFailedMigrations;
use crate::provider::{MismatchView, ProviderMismatch};
use crate::record::{entry_views, record_views, EntryView, MigrationEntry, MigrationRecord, RecordView};
use vstd::prelude::*;

verus! {

/// What the history hands out for an attempt that has started, and takes back
/// to mark that attempt.
#[derive(Debug, Clone, PartialEq, Eq)]
pub struct RecordHandle {
    pub id: String,
}

impl View for RecordHandle {
    type V = Seq<char>;

    open spec fn view(&self) -> Seq<char> {
        self.id@
    }
}

impl RecordHandle {
    pub fn duplicate(&self) -> (copy: RecordHandle)
        ensures
            copy@ == self@,
    {
        RecordHandle { id: self.id.clone() }
    }
}

/// The names of the migrations that a run applied, in the order in which it
/// applied them.
#[derive(Debug, Clone, PartialEq, Eq)]
pub struct ApplyMigrationsOutput {
    pub applied_migration_names: Vec<String>,
}

/// A list of names as contracts see it.
pub open spec fn name_views(names: Seq<String>) -> Seq<Seq<char>> {
    names.map_values(|name: String| name@)
}

impl View for ApplyMigrationsOutput {
    type V = Seq<Seq<char>>;

    open spec fn view(&self) -> Seq<Seq<char>> {
        name_views(self.applied_migration_names@)
    }
}

/// Why a run ended without having applied all that was to be applied.
#[derive(Debug, Clone, PartialEq, Eq)]
pub enum EngineError {
    /// The directory was generated for another provider. Nothing was touched.
    ProviderMismatch(ProviderMismatch),
    /// The directory could not be read.
    DirectoryUnreadable(String),
    /// The lock on the database could not be taken. The history is untouched.
    LockAcquisition(String),
    /// The history table could not be set up.
    PersistenceInit(String),
    /// The history table is not there.
    PersistenceNotInitialized,
    /// The history could not be read or written.
    Persistence(String),
    /// An earlier run left an attempt that neither finished nor was rolled back.
    FoundFailedMigrations(FoundFailedMigrations),
    /// The script of a migration failed. Its record holds the message.
    ScriptExecution(String),
    /// The driver answered a request that the engine had not made.
    UnexpectedEvent,
}

/// An `EngineError` as contracts see it.
pub enum ErrorView {
    ProviderMismatch(MismatchView),
    DirectoryUnreadable(Seq<char>),
    LockAcquisition(Seq<char>),
    PersistenceInit(Seq<char>),
    PersistenceNotInitialized,
    Persistence(Seq<char>),
    FoundFailedMigrations(Seq<char>),
    ScriptExecution(Seq<char>),
    UnexpectedEvent,
}

impl View for EngineError {
    type V = ErrorView;

    open spec fn view(&self) -> ErrorView {
        match *self {
            EngineError::ProviderMismatch(mismatch) => ErrorView::ProviderMismatch(mismatch@),
            EngineError::DirectoryUnreadable(message) => ErrorView::DirectoryUnreadable(message@),
            EngineError::LockAcquisition(message) => ErrorView::LockAcquisition(message@),
            EngineError::PersistenceInit(message) => ErrorView::PersistenceInit(message@),
            EngineError::PersistenceNotInitialized => ErrorView::PersistenceNotInitialized,
            EngineError::Persistence(message) => ErrorView::Persistence(message@),
            EngineError::FoundFailedMigrations(found) => ErrorView::FoundFailedMigrations(
                found.details@,
            ),
            EngineError::ScriptExecution(message) => ErrorView::ScriptExecution(message@),
            EngineError::UnexpectedEvent => ErrorView::UnexpectedEvent,
        }
    }
}

/// What the engine asks its driver to do next.
#[derive(Debug, PartialEq, Eq)]
pub enum Action {
    /// Read the provider marker of the directory, if it has one.
    ReadProviderMarker,
    /// Take the lock on the database.
    AcquireLock,
    /// Make sure that the history table exists.
    InitializeHistory,
    /// List the migrations of the directory, in its order.
    ListDirectory,
    /// List the records of the history.
    ListHistory,
    /// Record that the migration `name` is started, with its script.
    RecordStarted { name: String, script: String },
    /// Run the script of the migration `name`.
    ApplyScript { name: String, script: String },
    /// Record that the step of the attempt `handle` succeeded.
    RecordSucceeded { handle: RecordHandle },
    /// Record that the attempt `handle` is finished.
    RecordFinished { handle: RecordHandle },
    /// Record `logs` as what the attempt `handle` failed with.
    RecordFailed { handle: RecordHandle, logs: String },
    /// The run is over: release the lock and hand this to the caller.
    Finish(Result<ApplyMigrationsOutput, EngineError>),
}

/// An `Action` as contracts see it.
pub enum ActionView {
    ReadProviderMarker,
    AcquireLock,
    InitializeHistory,
    ListDirectory,
    ListHistory,
    RecordStarted { name: Seq<char>, script: Seq<char> },
    ApplyScript { name: Seq<char>, script: Seq<char> },
    RecordSucceeded { handle: Seq<char> },
    RecordFinished { handle: Seq<char> },
    RecordFailed { handle: Seq<char>, logs: Seq<char> },
    Finish(Result<Seq<Seq<char>>, ErrorView>),
}

impl ActionView {
    /// Whether the request reads or writes the history, or runs a script.
    pub open spec fn touches_database(self) -> bool {
        match self {
            ActionView::ReadProviderMarker => false,
            ActionView::AcquireLock => false,
            ActionView::ListDirectory => false,
            ActionView::Finish(_) => false,
            _ => true,
        }
    }
}

impl View for Action {
    type V = ActionView;

    open spec fn view(&self) -> ActionView {
        match *self {
            Action::ReadProviderMarker => ActionView::ReadProviderMarker,
            Action::AcquireLock => ActionView::AcquireLock,
            Action::InitializeHistory => ActionView::InitializeHistory,
            Action::ListDirectory => ActionView::ListDirectory,
            Action::ListHistory => ActionView::ListHistory,
            Action::RecordStarted { name, script } => ActionView::RecordStarted {
                name: name@,
                script: script@,
            },
            Action::ApplyScript { name, script } => ActionView::ApplyScript {
                name: name@,
                script: script@,
            },
            Action::RecordSucceeded { handle } => ActionView::RecordSucceeded { handle: handle@ },
            Action::RecordFinished { handle } => ActionView::RecordFinished { handle: handle@ },
            Action::RecordFailed { handle, logs } => ActionView::RecordFailed {
                handle: handle@,
                logs: logs@,
            },
            Action::Finish(outcome) => ActionView::Finish(
                match outcome {
                    Ok(output) => Ok(output@),
                    Err(error) => Err(error@),
                },
            ),
        }
    }
}

/// What a collaborator answered to the request that the engine made last.
#[derive(Debug, Clone, PartialEq, Eq)]
pub enum Event {
    /// The provider marker of the directory, or none where it has none.
    ProviderMarker(Option<String>),
    /// The lock is held.
    LockAcquired,
    /// The history table exists.
    HistoryInitialized,
    /// The migrations of the directory, in its order.
    DirectoryListed(Vec<MigrationEntry>),
    /// The records of the history.
    HistoryListed(Vec<MigrationRecord>),
    /// The history could not be listed: its table is not there.
    HistoryNotInitialized,
    /// The start of the attempt is recorded, under this handle.
    MigrationStarted(RecordHandle),
    /// The script ran to its end.
    ScriptApplied,
    /// The mark that was asked for is recorded.
    Recorded,
    /// The request failed, with this message.
    Failed(String),
}

/// An `Event` as contracts see it.
pub enum EventView {
    ProviderMarker(Option<Seq<char>>),
    LockAcquired,
    HistoryInitialized,
    DirectoryListed(Seq<EntryView>),
    HistoryListed(Seq<RecordView>),
    HistoryNotInitialized,
    MigrationStarted(Seq<char>),
    ScriptApplied,
    Recorded,
    Failed(Seq<char>),
}

impl View for Event {
    type V = EventView;

    open spec fn view(&self) -> EventView {
        match *self {
            Event::ProviderMarker(marker) => EventView::ProviderMarker(
                match marker {
                    Some(recorded) => Some(recorded@),
                    None => None,
                },
            ),
            Event::LockAcquired => EventView::LockAcquired,
            Event::HistoryInitialized => EventView::HistoryInitialized,
            Event::DirectoryListed(entries) => EventView::DirectoryListed(entry_views(entries@)),
            Event::HistoryListed(records) => EventView::HistoryListed(record_views(records@)),
            Event::HistoryNotInitialized => EventView::HistoryNotInitialized,
            Event::MigrationStarted(handle) => EventView::MigrationStarted(handle@),
            Event::ScriptApplied => EventView::ScriptApplied,
            Event::Recorded => EventView::Recorded,
            Event::Failed(message) => EventView::Failed(message@),
        }
    }
}

} // verus!
