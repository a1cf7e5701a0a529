//! A model of what stands around the engine: a directory, a history that keeps
//! what it is told, and scripts that succeed or fail. It says what a whole run
//! comes to, so that the guarantees of the engine can be stated of runs and
//! not only of steps.

use crate::engine::EngineView;
use crate::failures::{failure_details, has_failed};
use crate::protocol::{ActionView, ErrorView, EventView};
use crate::provider::{provider_admitted, MismatchView};
use crate::reconcile::unapplied;
use crate::record::{EntryView, RecordView};
use crate::timestamp::Timestamp;
use vstd::prelude::*;

verus! {

/// A record of the history together with the handle it was started under.
pub struct Stored {
    pub handle: Seq<char>,
    pub record: RecordView,
}

/// How a run ends: with the names it applied, or with an error.
pub type Outcome = Result<Seq<Seq<char>>, ErrorView>;

/// The collaborators of the engine. The lock is free and the history can be
/// read and written; a script fails where `failing` holds its migration's name.
pub struct World {
    /// The provider marker of the directory.
    pub marker: Option<Seq<char>>,
    /// The migrations of the directory, in its order.
    pub directory: Seq<EntryView>,
    /// The history, oldest attempt first.
    pub history: Seq<Stored>,
    /// The handle that the history gives to its attempt of each index.
    pub handles: spec_fn(int) -> Seq<char>,
    /// The time of each write to the history.
    pub clock: spec_fn(int) -> Timestamp,
    /// How many writes have been stamped.
    pub ticks: int,
    /// The migrations whose script fails, each with the message it fails with.
    pub failing: Map<Seq<char>, Seq<char>>,
    /// The names of the migrations whose script was run, in order.
    pub executed: Seq<Seq<char>>,
}

impl World {
    /// The history gives each attempt a handle of its own.
    pub open spec fn well_formed(self) -> bool {
        &&& forall|i: int, j: int|
            0 <= i && 0 <= j && i != j ==> #[trigger] (self.handles)(i) != #[trigger] (self.handles)(
                j,
            )
        &&& forall|i: int|
            0 <= i < self.history.len() ==> (#[trigger] self.history[i]).handle == (self.handles)(i)
    }

    /// The records of the history.
    pub open spec fn records(self) -> Seq<RecordView> {
        self.history.map_values(|stored: Stored| stored.record)
    }

    /// The handle that the next attempt gets.
    pub open spec fn next_handle(self) -> Seq<char> {
        (self.handles)(self.history.len() as int)
    }

    /// The history with a new attempt of the migration `name`, started now.
    pub open spec fn record_started(self, name: Seq<char>) -> World {
        World {
            history: self.history.push(
                Stored {
                    handle: self.next_handle(),
                    record: RecordView {
                        name,
                        started_at: (self.clock)(self.ticks),
                        finished_at: None,
                        rolled_back_at: None,
                        logs: None,
                    },
                },
            ),
            ticks: self.ticks + 1,
            ..self
        }
    }

    /// The history with the attempt `handle` marked as finished now.
    pub open spec fn record_finished(self, handle: Seq<char>) -> World {
        World {
            history: Seq::new(
                self.history.len(),
                |i: int|
                    if self.history[i].handle == handle {
                        Stored {
                            record: RecordView {
                                finished_at: Some((self.clock)(self.ticks)),
                                ..self.history[i].record
                            },
                            ..self.history[i]
                        }
                    } else {
                        self.history[i]
                    },
            ),
            ticks: self.ticks + 1,
            ..self
        }
    }

    /// The history with `logs` kept for the attempt `handle`.
    pub open spec fn record_failed(self, handle: Seq<char>, logs: Seq<char>) -> World {
        World {
            history: Seq::new(
                self.history.len(),
                |i: int|
                    if self.history[i].handle == handle {
                        Stored {
                            record: RecordView { logs: Some(logs), ..self.history[i].record },
                            ..self.history[i]
                        }
                    } else {
                        self.history[i]
                    },
            ),
            ..self
        }
    }

    /// The world after the script of the migration `name` was run.
    pub open spec fn script_run(self, name: Seq<char>) -> World {
        World { executed: self.executed.push(name), ..self }
    }

    /// What the collaborators do on a request of the engine, and answer.
    pub open spec fn answer(self, action: ActionView) -> (World, EventView) {
        match action {
            ActionView::ReadProviderMarker => (self, EventView::ProviderMarker(self.marker)),
            ActionView::AcquireLock => (self, EventView::LockAcquired),
            ActionView::InitializeHistory => (self, EventView::HistoryInitialized),
            ActionView::ListDirectory => (self, EventView::DirectoryListed(self.directory)),
            ActionView::ListHistory => (self, EventView::HistoryListed(self.records())),
            ActionView::RecordStarted { name, script } => (
                self.record_started(name),
                EventView::MigrationStarted(self.next_handle()),
            ),
            ActionView::ApplyScript { name, script } => if self.failing.contains_key(name) {
                (self.script_run(name), EventView::Failed(self.failing[name]))
            } else {
                (self.script_run(name), EventView::ScriptApplied)
            },
            ActionView::RecordSucceeded { handle } => (self, EventView::Recorded),
            ActionView::RecordFinished { handle } => (
                self.record_finished(handle),
                EventView::Recorded,
            ),
            ActionView::RecordFailed { handle, logs } => (
                self.record_failed(handle, logs),
                EventView::Recorded,
            ),
            ActionView::Finish(outcome) => (self, EventView::Recorded),
        }
    }

    /// The world after the migration `name` was started, run and finished.
    pub open spec fn after_success(self, name: Seq<char>) -> World {
        self.record_started(name).script_run(name).record_finished(self.next_handle())
    }

    /// The world after the migration `name` was started and its script failed.
    pub open spec fn after_failure(self, name: Seq<char>) -> World {
        self.record_started(name).script_run(name).record_failed(
            self.next_handle(),
            self.failing[name],
        )
    }

    /// What applying `pending` from its index `next` on comes to, one
    /// migration after the other, up to the first whose script fails.
    pub open spec fn apply_from(
        self,
        pending: Seq<EntryView>,
        next: int,
        applied: Seq<Seq<char>>,
    ) -> (Outcome, World)
        decreases pending.len() - next,
    {
        if next < 0 || next >= pending.len() {
            (Ok(applied), self)
        } else {
            let name = pending[next].name;
            if self.failing.contains_key(name) {
                (Err(ErrorView::ScriptExecution(self.failing[name])), self.after_failure(name))
            } else {
                self.after_success(name).apply_from(pending, next + 1, applied.push(name))
            }
        }
    }

    /// What a run against a database of `provider` comes to.
    pub open spec fn outcome(self, provider: Seq<char>) -> (Outcome, World) {
        if !provider_admitted(self.marker, provider) {
            (
                Err(
                    ErrorView::ProviderMismatch(
                        MismatchView { expected: self.marker.unwrap(), actual: provider },
                    ),
                ),
                self,
            )
        } else if has_failed(self.records()) {
            (Err(ErrorView::FoundFailedMigrations(failure_details(self.records()))), self)
        } else {
            self.apply_from(unapplied(self.directory, self.records()), 0, Seq::empty())
        }
    }
}

/// Drives the engine against the world: the world answers each request, the
/// engine takes the answer, until the run is over or `fuel` steps are made.
pub open spec fn drive(engine: EngineView, action: ActionView, world: World, fuel: nat) -> (
    Option<Outcome>,
    World,
)
    decreases fuel,
{
    match action {
        ActionView::Finish(outcome) => (Some(outcome), world),
        _ => if fuel == 0 {
            (None, world)
        } else {
            let (answered, event) = world.answer(action);
            let (engine, action) = engine.advance(event);
            drive(engine, action, answered, (fuel - 1) as nat)
        },
    }
}

/// A whole run of at most `fuel` steps, from its first request on.
pub open spec fn run(provider: Seq<char>, world: World, fuel: nat) -> (Option<Outcome>, World) {
    drive(EngineView::initial(provider), ActionView::ReadProviderMarker, world, fuel)
}

} // verus!
