//! What holds of every run of the engine.

use crate::engine::{EngineView, Phase};
use crate::failures::{failure_details, has_failed};
use crate::model::{drive, run, Stored, World};
use crate::protocol::{ActionView, ErrorView, EventView};
use crate::provider::provider_admitted;
use crate::reconcile::{
    is_applied_name, lemma_unapplied_is_all, lemma_unapplied_is_none, lemma_unapplied_members,
    unapplied,
};
use crate::record::{entry_names, EntryView, RecordView};
use vstd::prelude::*;

verus! {

/// The record that a migration leaves once it was started, run and finished.
pub open spec fn finished_attempt(world: World, name: Seq<char>) -> Stored {
    Stored {
        handle: world.next_handle(),
        record: RecordView {
            name,
            started_at: (world.clock)(world.ticks),
            finished_at: Some((world.clock)(world.ticks + 1)),
            rolled_back_at: None,
            logs: None,
        },
    }
}

/// The record that a migration leaves once it was started and its script
/// failed with `logs`.
pub open spec fn failed_attempt(world: World, name: Seq<char>, logs: Seq<char>) -> Stored {
    Stored {
        handle: world.next_handle(),
        record: RecordView {
            name,
            started_at: (world.clock)(world.ticks),
            finished_at: None,
            rolled_back_at: None,
            logs: Some(logs),
        },
    }
}

/// A migration that succeeds adds one finished record to the history and
/// changes no other.
pub proof fn lemma_after_success(world: World, name: Seq<char>)
    requires
        world.well_formed(),
    ensures
        world.after_success(name) == (World {
            history: world.history.push(finished_attempt(world, name)),
            ticks: world.ticks + 2,
            executed: world.executed.push(name),
            ..world
        }),
        world.after_success(name).well_formed(),
{
    let after = world.after_success(name);
    let expected = world.history.push(finished_attempt(world, name));
    let n = world.history.len() as int;
    assert forall|i: int| 0 <= i < expected.len() implies after.history[i] == expected[i] by {
        if i < n {
            assert(world.history[i].handle == (world.handles)(i));
            assert((world.handles)(i) != (world.handles)(n));
        }
    }
    assert(after.history =~= expected);
}

/// A migration whose script fails adds one record to the history, without an
/// end and with the script's message as its logs, and changes no other.
pub proof fn lemma_after_failure(world: World, name: Seq<char>)
    requires
        world.well_formed(),
    ensures
        world.after_failure(name) == (World {
            history: world.history.push(failed_attempt(world, name, world.failing[name])),
            ticks: world.ticks + 1,
            executed: world.executed.push(name),
            ..world
        }),
        world.after_failure(name).well_formed(),
{
    let after = world.after_failure(name);
    let expected = world.history.push(failed_attempt(world, name, world.failing[name]));
    let n = world.history.len() as int;
    assert forall|i: int| 0 <= i < expected.len() implies after.history[i] == expected[i] by {
        if i < n {
            assert(world.history[i].handle == (world.handles)(i));
            assert((world.handles)(i) != (world.handles)(n));
        }
    }
    assert(after.history =~= expected);
}

/// The index of the first migration of `pending`, from `next` on, whose script
/// fails, or the length of `pending` where every script succeeds.
pub open spec fn first_failing(
    failing: Map<Seq<char>, Seq<char>>,
    pending: Seq<EntryView>,
    next: int,
) -> int
    decreases pending.len() - next,
{
    if next < 0 || next >= pending.len() {
        pending.len() as int
    } else if failing.contains_key(pending[next].name) {
        next
    } else {
        first_failing(failing, pending, next + 1)
    }
}

/// One past the index of the last migration of `pending` that is attempted.
pub open spec fn attempted_end(
    failing: Map<Seq<char>, Seq<char>>,
    pending: Seq<EntryView>,
    next: int,
) -> int {
    let stop = first_failing(failing, pending, next);
    if stop < pending.len() {
        stop + 1
    } else {
        stop
    }
}

/// What applying the pending migrations leaves behind. The migrations before
/// the first whose script fails are applied in order, each leaving a finished
/// record. The failing one leaves a record without an end that holds the
/// script's message, and the run ends with that message. No later migration is
/// attempted, and no earlier record is touched.
pub proof fn lemma_apply_from(
    world: World,
    pending: Seq<EntryView>,
    next: int,
    applied: Seq<Seq<char>>,
)
    requires
        world.well_formed(),
        0 <= next <= pending.len(),
    ensures
        ({
            let failing = first_failing(world.failing, pending, next);
            let end = attempted_end(world.failing, pending, next);
            let (outcome, after) = world.apply_from(pending, next, applied);
            let base = world.history.len() as int;
            &&& next <= failing <= pending.len()
            &&& after.well_formed()
            &&& after.marker == world.marker
            &&& after.directory == world.directory
            &&& after.failing == world.failing
            &&& failing == pending.len() ==> outcome == Ok::<Seq<Seq<char>>, ErrorView>(
                applied + entry_names(pending.subrange(next, pending.len() as int)),
            )
            &&& failing < pending.len() ==> outcome == Err::<Seq<Seq<char>>, ErrorView>(
                ErrorView::ScriptExecution(world.failing[pending[failing].name]),
            )
            &&& after.history.len() == base + end - next
            &&& after.history.take(base) == world.history
            &&& forall|j: int|
                base <= j < base + failing - next ==> (#[trigger] after.history[j]).record.is_applied()
                    && after.history[j].record.name == pending[j - base + next].name
            &&& failing < pending.len() ==> {
                let left = after.history[base + failing - next].record;
                &&& left.name == pending[failing].name
                &&& left.is_failed()
                &&& left.logs == Some(world.failing[pending[failing].name])
            }
            &&& after.executed == world.executed + entry_names(pending.subrange(next, end))
        }),
    decreases pending.len() - next,
{
    let base = world.history.len() as int;
    let end = attempted_end(world.failing, pending, next);
    let (outcome, after) = world.apply_from(pending, next, applied);
    if next >= pending.len() {
        assert(pending.subrange(next, pending.len() as int) =~= Seq::<EntryView>::empty());
        assert(entry_names(Seq::<EntryView>::empty()) =~= Seq::<Seq<char>>::empty());
        assert(applied + Seq::<Seq<char>>::empty() =~= applied);
        assert(world.executed + Seq::<Seq<char>>::empty() =~= world.executed);
        assert(world.history.take(base) =~= world.history);
    } else {
        let name = pending[next].name;
        if world.failing.contains_key(name) {
            lemma_after_failure(world, name);
            assert(pending.subrange(next, next + 1) =~= seq![pending[next]]);
            assert(entry_names(seq![pending[next]]) =~= seq![name]);
            assert(world.executed.push(name) =~= world.executed + seq![name]);
            assert(after.history.take(base) =~= world.history);
        } else {
            lemma_after_success(world, name);
            let between = world.after_success(name);
            lemma_apply_from(between, pending, next + 1, applied.push(name));
            let rest = pending.subrange(next + 1, pending.len() as int);
            assert(pending.subrange(next, pending.len() as int) =~= seq![pending[next]] + rest);
            assert(entry_names(seq![pending[next]] + rest) =~= seq![name] + entry_names(rest));
            assert(applied.push(name) + entry_names(rest) =~= applied + (seq![name] + entry_names(
                rest,
            )));
            let tail = pending.subrange(next + 1, end);
            assert(pending.subrange(next, end) =~= seq![pending[next]] + tail);
            assert(entry_names(seq![pending[next]] + tail) =~= seq![name] + entry_names(tail));
            assert(world.executed.push(name) + entry_names(tail) =~= world.executed + (seq![name]
                + entry_names(tail)));
            assert(after.history.take(base) =~= between.history.take(base + 1).take(base));
            assert(between.history.take(base) =~= world.history);
            assert forall|j: int| base <= j < base + first_failing(world.failing, pending, next) - next implies (
            #[trigger] after.history[j]).record.is_applied() && after.history[j].record.name
                == pending[j - base + next].name by {
                if j == base {
                    assert(after.history.take(base + 1)[base] == between.history[base]);
                }
            }
        }
    }
}

/// Once the pending migrations are chosen, the engine applies them as
/// `World::apply_from` says, in four steps for each.
pub proof fn lemma_drive_applies(engine: EngineView, world: World, fuel: nat)
    requires
        0 <= engine.next <= engine.pending.len(),
        world.well_formed(),
        fuel >= 4 * (engine.pending.len() - engine.next),
    ensures
        drive(engine.proceed().0, engine.proceed().1, world, fuel) == (
            Some(world.apply_from(engine.pending, engine.next, engine.applied).0),
            world.apply_from(engine.pending, engine.next, engine.applied).1,
        ),
    decreases engine.pending.len() - engine.next,
{
    reveal_with_fuel(drive, 5);
    if engine.next < engine.pending.len() {
        let name = engine.current().name;
        let script = engine.current().script;
        let handle = world.next_handle();
        let started = world.record_started(name);
        let (starting, ask_start) = engine.proceed();
        assert(ask_start == ActionView::RecordStarted { name, script });
        let (applying, ask_apply) = starting.advance(EventView::MigrationStarted(handle));
        assert(ask_apply == ActionView::ApplyScript { name, script });
        let ran = started.script_run(name);
        if world.failing.contains_key(name) {
            let message = world.failing[name];
            let (marking, ask_mark) = applying.advance(EventView::Failed(message));
            assert(ask_mark == ActionView::RecordFailed { handle, logs: message });
            let (ended, last) = marking.advance(EventView::Recorded);
            assert(last == ActionView::Finish(Err(ErrorView::ScriptExecution(message))));
            assert(ran.record_failed(handle, message) == world.after_failure(name));
        } else {
            let (stepping, ask_step) = applying.advance(EventView::ScriptApplied);
            assert(ask_step == ActionView::RecordSucceeded { handle });
            let (finishing, ask_finish) = stepping.advance(EventView::Recorded);
            assert(ask_finish == ActionView::RecordFinished { handle });
            let after = ran.record_finished(handle);
            assert(after == world.after_success(name));
            let onward = EngineView {
                applied: engine.applied.push(name),
                next: engine.next + 1,
                handle: None,
                ..finishing
            };
            assert(finishing.advance(EventView::Recorded) == onward.proceed());
            lemma_after_success(world, name);
            lemma_drive_applies(onward, after, (fuel - 4) as nat);
        }
    }
}

/// A run comes to what `World::outcome` says: five steps lead up to the first
/// migration, and four more are made for each.
pub proof fn lemma_run_outcome(provider: Seq<char>, world: World, fuel: nat)
    requires
        world.well_formed(),
        fuel >= 5 + 4 * unapplied(world.directory, world.records()).len(),
    ensures
        run(provider, world, fuel) == (
            Some(world.outcome(provider).0),
            world.outcome(provider).1,
        ),
{
    reveal_with_fuel(drive, 6);
    let begun = EngineView::initial(provider);
    if provider_admitted(world.marker, provider) {
        let (locking, _) = begun.advance(EventView::ProviderMarker(world.marker));
        let (preparing, _) = locking.advance(EventView::LockAcquired);
        let (listing, _) = preparing.advance(EventView::HistoryInitialized);
        let (reading, ask) = listing.advance(EventView::DirectoryListed(world.directory));
        assert(ask == ActionView::ListHistory);
        if !has_failed(world.records()) {
            let ready = EngineView {
                pending: unapplied(world.directory, world.records()),
                next: 0,
                ..reading
            };
            assert(reading.advance(EventView::HistoryListed(world.records())) == ready.proceed());
            lemma_drive_applies(ready, world, (fuel - 5) as nat);
        }
    }
}

/// Nothing is read from or written to the database but under the lock: the
/// lock is held only once it was taken, it is then held up to the end of the
/// run, and every request that touches the history or runs a script is made
/// while it is held.
pub proof fn lemma_database_is_touched_under_lock(engine: EngineView, event: EventView)
    ensures
        !EngineView::initial(engine.provider).holds_lock(),
        engine.advance(event).0.holds_lock() ==> engine.holds_lock() || (engine.phase
            == Phase::AcquiringLock && event == EventView::LockAcquired),
        engine.holds_lock() ==> engine.advance(event).0.holds_lock() || engine.advance(event).1 is Finish,
        engine.advance(event).1.touches_database() ==> engine.advance(event).0.holds_lock(),
{
}

/// A request that fails ends the run at once, with the error of the phase
/// and the message as it came. The one exception is a script that fails: its
/// message is first recorded as the logs of the attempt, and then ends the run.
pub proof fn lemma_failed_request_ends_run(engine: EngineView, message: Seq<char>)
    requires
        engine.well_formed(),
    ensures
        engine.phase != Phase::Applying ==> engine.advance(EventView::Failed(message)).1
            == ActionView::Finish(Err(engine.failure_of(message))),
        engine.phase == Phase::Applying ==> {
            let (marking, ask) = engine.advance(EventView::Failed(message));
            &&& ask == ActionView::RecordFailed { handle: engine.handle.unwrap(), logs: message }
            &&& marking.advance(EventView::Recorded).1 == ActionView::Finish(
                Err(ErrorView::ScriptExecution(message)),
            )
        },
        engine.advance(EventView::Failed(message)).0.well_formed(),
{
}

/// Each step leaves the engine in a state that a run can reach, and a run
/// that is over stays over.
pub proof fn lemma_step_keeps_well_formed(engine: EngineView, event: EventView)
    requires
        engine.well_formed(),
    ensures
        engine.advance(event).0.well_formed(),
        engine.advance(event).1 is Finish <==> engine.advance(event).0.phase == Phase::Finished,
        engine.phase == Phase::Finished ==> engine.advance(event).1 is Finish,
{
}

/// A history with a failed attempt stops the run before anything is applied:
/// the run ends with the report on the failed attempts, no script is run and
/// the history stays as it was, whatever the directory holds.
pub proof fn lemma_failed_attempt_blocks_run(provider: Seq<char>, world: World, fuel: nat)
    requires
        provider_admitted(world.marker, provider),
        has_failed(world.records()),
        fuel >= 5,
    ensures
        run(provider, world, fuel) == (
            Some(
                Err::<Seq<Seq<char>>, ErrorView>(
                    ErrorView::FoundFailedMigrations(failure_details(world.records())),
                ),
            ),
            world,
        ),
{
    reveal_with_fuel(drive, 6);
    let begun = EngineView::initial(provider);
    let (locking, _) = begun.advance(EventView::ProviderMarker(world.marker));
    let (preparing, _) = locking.advance(EventView::LockAcquired);
    let (listing, _) = preparing.advance(EventView::HistoryInitialized);
    let (reading, ask) = listing.advance(EventView::DirectoryListed(world.directory));
    assert(ask == ActionView::ListHistory);
}

/// A directory that was generated for another provider stops the run at its
/// first step: nothing is locked, read or written.
pub proof fn lemma_changed_provider_blocks_run(provider: Seq<char>, world: World, fuel: nat)
    requires
        !provider_admitted(world.marker, provider),
        fuel >= 1,
    ensures
        run(provider, world, fuel).0 matches Some(Err(ErrorView::ProviderMismatch(mismatch)))
            && Some(mismatch.expected) == world.marker && mismatch.actual == provider,
        run(provider, world, fuel).1 == world,
{
    reveal_with_fuel(drive, 2);
}

/// A run that succeeds applies the migrations that the history does not hold
/// as applied, all of them and in the order of the directory, and runs the
/// script of no other.
pub proof fn lemma_applies_in_directory_order(provider: Seq<char>, world: World)
    requires
        world.well_formed(),
        world.outcome(provider).0 is Ok,
    ensures
        world.outcome(provider).0 == Ok::<Seq<Seq<char>>, ErrorView>(
            entry_names(unapplied(world.directory, world.records())),
        ),
        world.outcome(provider).1.executed == world.executed + entry_names(
            unapplied(world.directory, world.records()),
        ),
{
    let pending = unapplied(world.directory, world.records());
    lemma_apply_from(world, pending, 0, Seq::empty());
    assert(pending.subrange(0, pending.len() as int) =~= pending);
    assert(Seq::<Seq<char>>::empty() + entry_names(pending) =~= entry_names(pending));
}

/// On an empty history, where no script fails, a run applies the whole
/// directory in its order.
pub proof fn lemma_first_run_applies_directory(provider: Seq<char>, world: World)
    requires
        world.well_formed(),
        world.history.len() == 0,
        provider_admitted(world.marker, provider),
        forall|i: int|
            0 <= i < world.directory.len() ==> !world.failing.contains_key(
                (#[trigger] world.directory[i]).name,
            ),
    ensures
        world.outcome(provider).0 == Ok::<Seq<Seq<char>>, ErrorView>(
            entry_names(world.directory),
        ),
{
    lemma_unapplied_is_all(world.directory, world.records());
    lemma_none_failing(world.failing, world.directory, 0);
    lemma_apply_from(world, world.directory, 0, Seq::empty());
    assert(world.directory.subrange(0, world.directory.len() as int) =~= world.directory);
    assert(Seq::<Seq<char>>::empty() + entry_names(world.directory) =~= entry_names(
        world.directory,
    ));
}

proof fn lemma_none_failing(failing: Map<Seq<char>, Seq<char>>, pending: Seq<EntryView>, next: int)
    requires
        0 <= next <= pending.len(),
        forall|i: int| 0 <= i < pending.len() ==> !failing.contains_key((#[trigger] pending[i]).name),
    ensures
        first_failing(failing, pending, next) == pending.len(),
    decreases pending.len() - next,
{
    if next < pending.len() {
        lemma_none_failing(failing, pending, next + 1);
    }
}

/// A second run right after one that succeeded, on the same directory, finds
/// nothing to apply: it succeeds with an empty list and leaves the history
/// as it is.
pub proof fn lemma_second_run_applies_nothing(provider: Seq<char>, world: World)
    requires
        world.well_formed(),
        world.outcome(provider).0 is Ok,
    ensures
        world.outcome(provider).1.well_formed(),
        unapplied(world.outcome(provider).1.directory, world.outcome(provider).1.records())
            == Seq::<EntryView>::empty(),
        world.outcome(provider).1.outcome(provider) == (
            Ok::<Seq<Seq<char>>, ErrorView>(Seq::empty()),
            world.outcome(provider).1,
        ),
{
    let pending = unapplied(world.directory, world.records());
    let after = world.outcome(provider).1;
    let base = world.history.len() as int;
    lemma_apply_from(world, pending, 0, Seq::empty());
    lemma_unapplied_members(world.directory, world.records());
    assert forall|j: int| 0 <= j < base implies after.history[j] == world.history[j] by {
        assert(after.history.take(base)[j] == after.history[j]);
    }
    assert(!has_failed(after.records())) by {
        if has_failed(after.records()) {
            let j = choose|j: int|
                0 <= j < after.records().len() && (#[trigger] after.records()[j]).is_failed();
            if j < base {
                assert(world.records()[j].is_failed());
            } else {
                assert(after.history[j].record.is_applied());
            }
        }
    }
    assert forall|i: int| 0 <= i < after.directory.len() implies is_applied_name(
        after.records(),
        (#[trigger] after.directory[i]).name,
    ) by {
        let entry = world.directory[i];
        if is_applied_name(world.records(), entry.name) {
            let k = choose|k: int|
                0 <= k < world.records().len() && (#[trigger] world.records()[k]).is_applied()
                    && world.records()[k].name == entry.name;
            assert(after.records()[k].is_applied() && after.records()[k].name == entry.name);
        } else {
            assert(pending.contains(entry));
            let p = choose|p: int| 0 <= p < pending.len() && pending[p] == entry;
            assert(after.history[base + p].record.is_applied());
            assert(after.records()[base + p].is_applied() && after.records()[base + p].name
                == entry.name);
        }
    }
    lemma_unapplied_is_none(after.directory, after.records());
}

/// Driving the engine twice in a row over the same directory, where the first
/// run succeeds, applies nothing the second time: the second run succeeds
/// with an empty list, runs no script and leaves the history as the first
/// run left it.
pub proof fn lemma_engine_is_idempotent(provider: Seq<char>, world: World, fuel: nat)
    requires
        world.well_formed(),
        fuel >= 5 + 4 * unapplied(world.directory, world.records()).len(),
        run(provider, world, fuel).0 matches Some(Ok(_)),
    ensures
        run(provider, run(provider, world, fuel).1, fuel) == (
            Some(Ok::<Seq<Seq<char>>, ErrorView>(Seq::empty())),
            run(provider, world, fuel).1,
        ),
{
    lemma_run_outcome(provider, world, fuel);
    lemma_second_run_applies_nothing(provider, world);
    let after = world.outcome(provider).1;
    lemma_run_outcome(provider, after, fuel);
}

/// A run runs the script of no migration that the history holds as applied.
pub proof fn lemma_applied_is_not_run_again(provider: Seq<char>, world: World, name: Seq<char>)
    requires
        world.well_formed(),
        is_applied_name(world.records(), name),
    ensures
        world.outcome(provider).1.executed.len() >= world.executed.len(),
        world.outcome(provider).1.executed.take(world.executed.len() as int) == world.executed,
        forall|k: int|
            world.executed.len() <= k < world.outcome(provider).1.executed.len() ==> (
            #[trigger] world.outcome(provider).1.executed[k]) != name,
{
    let pending = unapplied(world.directory, world.records());
    let after = world.outcome(provider).1;
    let seen = world.executed.len() as int;
    if provider_admitted(world.marker, provider) && !has_failed(world.records()) {
        lemma_apply_from(world, pending, 0, Seq::empty());
        lemma_unapplied_members(world.directory, world.records());
        let end = attempted_end(world.failing, pending, 0);
        assert(after.executed.take(seen) =~= world.executed);
        assert forall|k: int| seen <= k < after.executed.len() implies (
        #[trigger] after.executed[k]) != name by {
            assert(after.executed[k] == entry_names(pending.subrange(0, end))[k - seen]);
            assert(pending.subrange(0, end)[k - seen] == pending[k - seen]);
        }
    } else {
        assert(world.executed.take(seen) =~= world.executed);
    }
}

/// A script that fails halts the run. The migrations before it are applied
/// and recorded as finished; the failing one is recorded without an end, with
/// the script's message as its logs; the run ends with that message; and no
/// later migration is attempted or recorded.
pub proof fn lemma_failure_halts_run(provider: Seq<char>, world: World)
    requires
        world.well_formed(),
        provider_admitted(world.marker, provider),
        !has_failed(world.records()),
        first_failing(world.failing, unapplied(world.directory, world.records()), 0) < unapplied(
            world.directory,
            world.records(),
        ).len(),
    ensures
        ({
            let pending = unapplied(world.directory, world.records());
            let failing = first_failing(world.failing, pending, 0);
            let (outcome, after) = world.outcome(provider);
            let base = world.history.len() as int;
            &&& outcome == Err::<Seq<Seq<char>>, ErrorView>(
                ErrorView::ScriptExecution(world.failing[pending[failing].name]),
            )
            &&& after.history.len() == base + failing + 1
            &&& after.history.take(base) == world.history
            &&& forall|j: int|
                base <= j < base + failing ==> (#[trigger] after.history[j]).record.is_applied()
                    && after.history[j].record.name == pending[j - base].name
            &&& after.history[base + failing].record.name == pending[failing].name
            &&& after.history[base + failing].record.is_failed()
            &&& after.history[base + failing].record.logs == Some(
                world.failing[pending[failing].name],
            )
            &&& after.executed == world.executed + entry_names(pending.subrange(0, failing + 1))
        }),
{
    let pending = unapplied(world.directory, world.records());
    lemma_apply_from(world, pending, 0, Seq::empty());
}

} // verus!
