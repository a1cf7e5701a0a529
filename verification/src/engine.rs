//! The engine: one run over a directory and a history, as a state machine.
//!
//! The engine itself reads no file and touches no database. It says what is to
//! be done next, and is told how that went.

use crate::failures::{detect_failed_migrations, failure_details, has_failed};
use crate::protocol::{
    name_views, Action, ActionView, ApplyMigrationsOutput, EngineError, ErrorView, Event,
    EventView, RecordHandle,
};
use crate::provider::{error_on_changed_provider, provider_admitted, MismatchView};
use crate::reconcile::{unapplied, unapplied_migrations};
use crate::record::{entry_views, EntryView, MigrationEntry};
use vstd::prelude::*;

verus! {

/// Where a run stands: which answer the engine is waiting for.
#[derive(Debug, Clone, Copy, PartialEq, Eq, Structural)]
pub enum Phase {
    /// Waiting for the provider marker of the directory.
    CheckingProvider,
    /// Waiting for the lock on the database.
    AcquiringLock,
    /// Waiting for the history table to be set up.
    InitializingHistory,
    /// Waiting for the listing of the directory.
    ListingDirectory,
    /// Waiting for the records of the history.
    ListingHistory,
    /// Waiting for the start of the current migration to be recorded.
    Starting,
    /// Waiting for the script of the current migration to run.
    Applying,
    /// Waiting for the successful step to be recorded.
    MarkingStep,
    /// Waiting for the end of the current migration to be recorded.
    MarkingFinished,
    /// Waiting for the failure of the current migration to be recorded.
    MarkingFailed,
    /// The run is over.
    Finished,
}

/// The state of a run as contracts see it.
pub struct EngineView {
    pub phase: Phase,
    /// The provider of the database that the engine is connected to.
    pub provider: Seq<char>,
    /// The migrations of the directory, once it is listed.
    pub entries: Seq<EntryView>,
    /// The migrations that this run is to apply, in order.
    pub pending: Seq<EntryView>,
    /// How many of `pending` are applied and recorded as finished.
    pub next: int,
    /// The handle of the attempt under way.
    pub handle: Option<Seq<char>>,
    /// What the script of the current migration failed with.
    pub failure: Option<Seq<char>>,
    /// The names of the migrations applied so far.
    pub applied: Seq<Seq<char>>,
}

impl EngineView {
    /// The state of a run before anything has happened.
    pub open spec fn initial(provider: Seq<char>) -> EngineView {
        EngineView {
            phase: Phase::CheckingProvider,
            provider,
            entries: Seq::empty(),
            pending: Seq::empty(),
            next: 0,
            handle: None,
            failure: None,
            applied: Seq::empty(),
        }
    }

    /// Whether a migration is under way.
    pub open spec fn in_migration(self) -> bool {
        self.phase == Phase::Starting || self.has_attempt()
    }

    /// Whether an attempt is recorded as started and not yet closed.
    pub open spec fn has_attempt(self) -> bool {
        self.phase == Phase::Applying || self.phase == Phase::MarkingStep || self.phase
            == Phase::MarkingFinished || self.phase == Phase::MarkingFailed
    }

    /// Whether the run holds the lock on the database.
    pub open spec fn holds_lock(self) -> bool {
        self.phase != Phase::CheckingProvider && self.phase != Phase::AcquiringLock && self.phase
            != Phase::Finished
    }

    /// What holds of every state that a run can reach.
    pub open spec fn well_formed(self) -> bool {
        &&& 0 <= self.next <= self.pending.len()
        &&& self.in_migration() ==> self.next < self.pending.len()
        &&& self.has_attempt() ==> self.handle is Some
        &&& self.phase == Phase::MarkingFailed ==> self.failure is Some
    }

    /// The migration under way.
    pub open spec fn current(self) -> EntryView {
        self.pending[self.next]
    }

    /// The same state in another phase.
    pub open spec fn at(self, phase: Phase) -> EngineView {
        EngineView { phase, ..self }
    }

    /// The run ends with `error`.
    pub open spec fn halt(self, error: ErrorView) -> (EngineView, ActionView) {
        (self.at(Phase::Finished), ActionView::Finish(Err(error)))
    }

    /// Turns to the next pending migration, or ends the run where none is left.
    pub open spec fn proceed(self) -> (EngineView, ActionView) {
        if self.next < self.pending.len() {
            (
                self.at(Phase::Starting),
                ActionView::RecordStarted { name: self.current().name, script: self.current().script },
            )
        } else {
            (self.at(Phase::Finished), ActionView::Finish(Ok(self.applied)))
        }
    }

    /// What a failed request means in each phase.
    pub open spec fn failure_of(self, message: Seq<char>) -> ErrorView {
        match self.phase {
            Phase::CheckingProvider | Phase::ListingDirectory => ErrorView::DirectoryUnreadable(
                message,
            ),
            Phase::AcquiringLock => ErrorView::LockAcquisition(message),
            Phase::InitializingHistory => ErrorView::PersistenceInit(message),
            Phase::Finished => ErrorView::UnexpectedEvent,
            _ => ErrorView::Persistence(message),
        }
    }

    /// The state after `event`, and what the engine asks for next.
    pub open spec fn advance(self, event: EventView) -> (EngineView, ActionView) {
        match (self.phase, event) {
            (Phase::CheckingProvider, EventView::ProviderMarker(marker)) => {
                if provider_admitted(marker, self.provider) {
                    (self.at(Phase::AcquiringLock), ActionView::AcquireLock)
                } else {
                    self.halt(
                        ErrorView::ProviderMismatch(
                            MismatchView { expected: marker.unwrap(), actual: self.provider },
                        ),
                    )
                }
            },
            (Phase::AcquiringLock, EventView::LockAcquired) => (
                self.at(Phase::InitializingHistory),
                ActionView::InitializeHistory,
            ),
            (Phase::InitializingHistory, EventView::HistoryInitialized) => (
                self.at(Phase::ListingDirectory),
                ActionView::ListDirectory,
            ),
            (Phase::ListingDirectory, EventView::DirectoryListed(entries)) => (
                EngineView { phase: Phase::ListingHistory, entries, ..self },
                ActionView::ListHistory,
            ),
            (Phase::ListingHistory, EventView::HistoryListed(records)) => {
                if has_failed(records) {
                    self.halt(ErrorView::FoundFailedMigrations(failure_details(records)))
                } else {
                    (EngineView { pending: unapplied(self.entries, records), next: 0, ..self }).proceed()
                }
            },
            (Phase::ListingHistory, EventView::HistoryNotInitialized) => self.halt(
                ErrorView::PersistenceNotInitialized,
            ),
            (Phase::Starting, EventView::MigrationStarted(handle)) => (
                EngineView { phase: Phase::Applying, handle: Some(handle), ..self },
                ActionView::ApplyScript { name: self.current().name, script: self.current().script },
            ),
            (Phase::Applying, EventView::ScriptApplied) => (
                self.at(Phase::MarkingStep),
                ActionView::RecordSucceeded { handle: self.handle.unwrap() },
            ),
            (Phase::Applying, EventView::Failed(message)) => (
                EngineView { phase: Phase::MarkingFailed, failure: Some(message), ..self },
                ActionView::RecordFailed { handle: self.handle.unwrap(), logs: message },
            ),
            (Phase::MarkingStep, EventView::Recorded) => (
                self.at(Phase::MarkingFinished),
                ActionView::RecordFinished { handle: self.handle.unwrap() },
            ),
            (Phase::MarkingFinished, EventView::Recorded) => (EngineView {
                applied: self.applied.push(self.current().name),
                next: self.next + 1,
                handle: None,
                ..self
            }).proceed(),
            (Phase::MarkingFailed, EventView::Recorded) => self.halt(
                ErrorView::ScriptExecution(self.failure.unwrap()),
            ),
            (_, EventView::Failed(message)) => self.halt(self.failure_of(message)),
            _ => self.halt(ErrorView::UnexpectedEvent),
        }
    }
}

/// A run of the engine.
pub struct Engine {
    phase: Phase,
    provider: String,
    entries: Vec<MigrationEntry>,
    pending: Vec<MigrationEntry>,
    next: usize,
    handle: Option<RecordHandle>,
    failure: Option<String>,
    applied: Vec<String>,
}

impl View for Engine {
    type V = EngineView;

    closed spec fn view(&self) -> EngineView {
        EngineView {
            phase: self.phase,
            provider: self.provider@,
            entries: entry_views(self.entries@),
            pending: entry_views(self.pending@),
            next: self.next as int,
            handle: match self.handle {
                Some(handle) => Some(handle@),
                None => None,
            },
            failure: match self.failure {
                Some(message) => Some(message@),
                None => None,
            },
            applied: name_views(self.applied@),
        }
    }
}

impl Engine {
    #[verifier::type_invariant]
    spec fn sound(self) -> bool {
        self@.well_formed()
    }

    /// Begins a run against a database of `provider`. The first thing to do
    /// is to read the provider marker of the directory.
    pub fn start(provider: String) -> (begun: (Engine, Action))
        ensures
            begun.0@ == EngineView::initial(provider@),
            begun.0@.well_formed(),
            begun.1@ == ActionView::ReadProviderMarker,
    {
        let engine = Engine {
            phase: Phase::CheckingProvider,
            provider,
            entries: Vec::new(),
            pending: Vec::new(),
            next: 0,
            handle: None,
            failure: None,
            applied: Vec::new(),
        };
        proof {
            assert(entry_views(engine.entries@) =~= Seq::<EntryView>::empty());
            assert(entry_views(engine.pending@) =~= Seq::<EntryView>::empty());
            assert(name_views(engine.applied@) =~= Seq::<Seq<char>>::empty());
        }
        (engine, Action::ReadProviderMarker)
    }

    pub fn phase(&self) -> (phase: Phase)
        ensures
            phase == self@.phase,
    {
        self.phase
    }

    pub fn is_finished(&self) -> (done: bool)
        ensures
            done == (self@.phase == Phase::Finished),
    {
        match self.phase {
            Phase::Finished => true,
            _ => false,
        }
    }

    /// How many migrations this run has applied so far.
    pub fn applied_count(&self) -> (count: usize)
        ensures
            count == self@.applied.len(),
    {
        self.applied.len()
    }

    /// Takes the answer to the request made last, and says what is to be done
    /// next. Once the result is `Action::Finish`, the run is over.
    pub fn step(self, event: Event) -> (next: (Engine, Action))
        ensures
            (next.0@, next.1@) == self@.advance(event@),
            next.0@.well_formed(),
    {
        proof {
            use_type_invariant(&self);
        }
        match self.phase {
            Phase::CheckingProvider => match event {
                Event::ProviderMarker(marker) => {
                    match error_on_changed_provider(&marker, &self.provider) {
                        Ok(()) => self.turn_to(Phase::AcquiringLock, Action::AcquireLock),
                        Err(mismatch) => self.halt(EngineError::ProviderMismatch(mismatch)),
                    }
                },
                Event::Failed(message) => self.halt(EngineError::DirectoryUnreadable(message)),
                _ => self.halt(EngineError::UnexpectedEvent),
            },
            Phase::AcquiringLock => match event {
                Event::LockAcquired => self.turn_to(
                    Phase::InitializingHistory,
                    Action::InitializeHistory,
                ),
                Event::Failed(message) => self.halt(EngineError::LockAcquisition(message)),
                _ => self.halt(EngineError::UnexpectedEvent),
            },
            Phase::InitializingHistory => match event {
                Event::HistoryInitialized => self.turn_to(
                    Phase::ListingDirectory,
                    Action::ListDirectory,
                ),
                Event::Failed(message) => self.halt(EngineError::PersistenceInit(message)),
                _ => self.halt(EngineError::UnexpectedEvent),
            },
            Phase::ListingDirectory => match event {
                Event::DirectoryListed(listed) => {
                    let Engine { phase: _, provider, entries: _, pending, next, handle, failure, applied } =
                        self;
                    (
                        Engine {
                            phase: Phase::ListingHistory,
                            provider,
                            entries: listed,
                            pending,
                            next,
                            handle,
                            failure,
                            applied,
                        },
                        Action::ListHistory,
                    )
                },
                Event::Failed(message) => self.halt(EngineError::DirectoryUnreadable(message)),
                _ => self.halt(EngineError::UnexpectedEvent),
            },
            Phase::ListingHistory => match event {
                Event::HistoryListed(records) => {
                    match detect_failed_migrations(records.as_slice()) {
                        Err(found) => self.halt(EngineError::FoundFailedMigrations(found)),
                        Ok(()) => {
                            let selected = unapplied_migrations(
                                self.entries.as_slice(),
                                records.as_slice(),
                            );
                            let Engine {
                                phase,
                                provider,
                                entries,
                                pending: _,
                                next: _,
                                handle,
                                failure,
                                applied,
                            } = self;
                            let ready = Engine {
                                phase,
                                provider,
                                entries,
                                pending: selected,
                                next: 0,
                                handle,
                                failure,
                                applied,
                            };
                            ready.proceed()
                        },
                    }
                },
                Event::HistoryNotInitialized => self.halt(EngineError::PersistenceNotInitialized),
                Event::Failed(message) => self.halt(EngineError::Persistence(message)),
                _ => self.halt(EngineError::UnexpectedEvent),
            },
            Phase::Starting => match event {
                Event::MigrationStarted(token) => {
                    let Engine { phase: _, provider, entries, pending, next, handle: _, failure, applied } =
                        self;
                    let name = pending[next].name.clone();
                    let script = pending[next].script.clone();
                    assert(entry_views(pending@)[next as int] == pending@[next as int]@);
                    (
                        Engine {
                            phase: Phase::Applying,
                            provider,
                            entries,
                            pending,
                            next,
                            handle: Some(token),
                            failure,
                            applied,
                        },
                        Action::ApplyScript { name, script },
                    )
                },
                Event::Failed(message) => self.halt(EngineError::Persistence(message)),
                _ => self.halt(EngineError::UnexpectedEvent),
            },
            Phase::Applying => match event {
                Event::ScriptApplied => {
                    let handle = self.current_handle();
                    self.turn_to(Phase::MarkingStep, Action::RecordSucceeded { handle })
                },
                Event::Failed(message) => {
                    let token = self.current_handle();
                    let Engine { phase: _, provider, entries, pending, next, handle, failure: _, applied } =
                        self;
                    let logs = message.clone();
                    (
                        Engine {
                            phase: Phase::MarkingFailed,
                            provider,
                            entries,
                            pending,
                            next,
                            handle,
                            failure: Some(message),
                            applied,
                        },
                        Action::RecordFailed { handle: token, logs },
                    )
                },
                _ => self.halt(EngineError::UnexpectedEvent),
            },
            Phase::MarkingStep => match event {
                Event::Recorded => {
                    let handle = self.current_handle();
                    self.turn_to(Phase::MarkingFinished, Action::RecordFinished { handle })
                },
                Event::Failed(message) => self.halt(EngineError::Persistence(message)),
                _ => self.halt(EngineError::UnexpectedEvent),
            },
            Phase::MarkingFinished => match event {
                Event::Recorded => {
                    let Engine { phase: _, provider, entries, pending, next, handle: _, failure, applied } =
                        self;
                    let mut applied = applied;
                    let ghost before = applied@;
                    assert(next < pending.len());
                    applied.push(pending[next].name.clone());
                    proof {
                        assert(entry_views(pending@)[next as int] == pending@[next as int]@);
                        assert(name_views(applied@) =~= name_views(before).push(
                            pending@[next as int].name@,
                        ));
                    }
                    let ready = Engine {
                        phase: Phase::ListingHistory,
                        provider,
                        entries,
                        pending,
                        next: next + 1,
                        handle: None,
                        failure,
                        applied,
                    };
                    ready.proceed()
                },
                Event::Failed(message) => self.halt(EngineError::Persistence(message)),
                _ => self.halt(EngineError::UnexpectedEvent),
            },
            Phase::MarkingFailed => match event {
                Event::Recorded => {
                    proof {
                        use_type_invariant(&self);
                    }
                    let message = match &self.failure {
                        Some(message) => message.clone(),
                        None => String::new(),
                    };
                    self.halt(EngineError::ScriptExecution(message))
                },
                Event::Failed(message) => self.halt(EngineError::Persistence(message)),
                _ => self.halt(EngineError::UnexpectedEvent),
            },
            Phase::Finished => self.halt(EngineError::UnexpectedEvent),
        }
    }

    fn current_handle(&self) -> (handle: RecordHandle)
        requires
            self@.has_attempt(),
        ensures
            Some(handle@) == self@.handle,
    {
        proof {
            use_type_invariant(self);
        }
        match &self.handle {
            Some(handle) => handle.duplicate(),
            None => RecordHandle { id: String::new() },
        }
    }

    fn halt(self, error: EngineError) -> (next: (Engine, Action))
        ensures
            (next.0@, next.1@) == self@.halt(error@),
    {
        proof {
            use_type_invariant(&self);
        }
        let Engine { phase: _, provider, entries, pending, next, handle, failure, applied } = self;
        (
            Engine { phase: Phase::Finished, provider, entries, pending, next, handle, failure, applied },
            Action::Finish(Err(error)),
        )
    }

    fn turn_to(self, phase: Phase, action: Action) -> (next: (Engine, Action))
        requires
            self@.at(phase).well_formed(),
        ensures
            next.0@ == self@.at(phase),
            next.1 == action,
    {
        let Engine { phase: _, provider, entries, pending, next, handle, failure, applied } = self;
        (Engine { phase, provider, entries, pending, next, handle, failure, applied }, action)
    }

    fn proceed(self) -> (next: (Engine, Action))
        requires
            0 <= self@.next <= self@.pending.len(),
        ensures
            (next.0@, next.1@) == self@.proceed(),
    {
        let Engine { phase: _, provider, entries, pending, next, handle, failure, applied } = self;
        if next < pending.len() {
            let name = pending[next].name.clone();
            let script = pending[next].script.clone();
            assert(entry_views(pending@)[next as int] == pending@[next as int]@);
            (
                Engine {
                    phase: Phase::Starting,
                    provider,
                    entries,
                    pending,
                    next,
                    handle,
                    failure,
                    applied,
                },
                Action::RecordStarted { name, script },
            )
        } else {
            let mut names: Vec<String> = Vec::new();
            let mut i: usize = 0;
            while i < applied.len()
                invariant
                    i <= applied.len(),
                    name_views(names@) == name_views(applied@).take(i as int),
                decreases applied.len() - i,
            {
                let ghost before = names@;
                names.push(applied[i].clone());
                assert(name_views(names@) =~= name_views(before).push(applied@[i as int]@));
                assert(name_views(applied@).take(i + 1) =~= name_views(applied@).take(i as int).push(
                    applied@[i as int]@,
                ));
                i = i + 1;
            }
            assert(name_views(applied@).take(i as int) =~= name_views(applied@));
            (
                Engine {
                    phase: Phase::Finished,
                    provider,
                    entries,
                    pending,
                    next,
                    handle,
                    failure,
                    applied,
                },
                Action::Finish(Ok(ApplyMigrationsOutput { applied_migration_names: names })),
            )
        }
    }
}

} // verus!
