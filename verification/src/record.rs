//! What the engine reads: the migrations of a directory and the records of the
//! history table.

use crate::timestamp::Timestamp;
use vstd::prelude::*;

verus! {

/// One migration of the directory: its name, which also gives its place in the
/// order, and the text of its script.
#[derive(Debug, Clone, PartialEq, Eq)]
pub struct MigrationEntry {
    pub name: String,
    pub script: String,
}

/// A `MigrationEntry` as contracts see it.
pub struct EntryView {
    pub name: Seq<char>,
    pub script: Seq<char>,
}

impl View for MigrationEntry {
    type V = EntryView;

    open spec fn view(&self) -> EntryView {
        EntryView { name: self.name@, script: self.script@ }
    }
}

impl MigrationEntry {
    pub fn new(name: String, script: String) -> (entry: MigrationEntry)
        ensures
            entry@ == (EntryView { name: name@, script: script@ }),
    {
        MigrationEntry { name, script }
    }

    /// A copy with the same name and script.
    pub fn duplicate(&self) -> (copy: MigrationEntry)
        ensures
            copy@ == self@,
    {
        MigrationEntry { name: self.name.clone(), script: self.script.clone() }
    }
}

/// One attempt to apply a migration, as the history table holds it.
#[derive(Debug, Clone, PartialEq, Eq)]
pub struct MigrationRecord {
    pub migration_name: String,
    pub started_at: Timestamp,
    pub finished_at: Option<Timestamp>,
    pub rolled_back_at: Option<Timestamp>,
    pub logs: Option<String>,
}

/// A `MigrationRecord` as contracts see it.
pub struct RecordView {
    pub name: Seq<char>,
    pub started_at: Timestamp,
    pub finished_at: Option<Timestamp>,
    pub rolled_back_at: Option<Timestamp>,
    pub logs: Option<Seq<char>>,
}

impl RecordView {
    /// The migration ran to its end and still counts.
    pub open spec fn is_applied(self) -> bool {
        self.finished_at is Some && self.rolled_back_at is None
    }

    /// The migration was rolled back: it counts as never having run.
    pub open spec fn is_rolled_back(self) -> bool {
        self.rolled_back_at is Some
    }

    /// The attempt neither finished nor was rolled back: it is in flight, or
    /// it failed.
    pub open spec fn is_failed(self) -> bool {
        self.finished_at is None && self.rolled_back_at is None
    }
}

impl View for MigrationRecord {
    type V = RecordView;

    open spec fn view(&self) -> RecordView {
        RecordView {
            name: self.migration_name@,
            started_at: self.started_at,
            finished_at: self.finished_at,
            rolled_back_at: self.rolled_back_at,
            logs: match self.logs {
                Some(text) => Some(text@),
                None => None,
            },
        }
    }
}

impl MigrationRecord {
    /// The record of an attempt that has just started.
    pub fn started(migration_name: String, started_at: Timestamp) -> (record: MigrationRecord)
        ensures
            record@ == (RecordView {
                name: migration_name@,
                started_at,
                finished_at: None,
                rolled_back_at: None,
                logs: None,
            }),
    {
        MigrationRecord {
            migration_name,
            started_at,
            finished_at: None,
            rolled_back_at: None,
            logs: None,
        }
    }

    pub fn is_applied(&self) -> (b: bool)
        ensures
            b == self@.is_applied(),
    {
        self.finished_at.is_some() && self.rolled_back_at.is_none()
    }

    pub fn is_rolled_back(&self) -> (b: bool)
        ensures
            b == self@.is_rolled_back(),
    {
        self.rolled_back_at.is_some()
    }

    pub fn is_failed(&self) -> (b: bool)
        ensures
            b == self@.is_failed(),
    {
        self.finished_at.is_none() && self.rolled_back_at.is_none()
    }
}

/// The entries of a directory listing as contracts see them.
pub open spec fn entry_views(entries: Seq<MigrationEntry>) -> Seq<EntryView> {
    entries.map_values(|e: MigrationEntry| e@)
}

/// The records of a history as contracts see them.
pub open spec fn record_views(records: Seq<MigrationRecord>) -> Seq<RecordView> {
    records.map_values(|r: MigrationRecord| r@)
}

/// The names of `entries`, in their order.
pub open spec fn entry_names(entries: Seq<EntryView>) -> Seq<Seq<char>> {
    entries.map_values(|e: EntryView| e.name)
}

/// Every state of a record is exactly one of applied, rolled back and failed.
pub proof fn lemma_record_state_is_one_of_three(record: RecordView)
    ensures
        record.is_applied() || record.is_rolled_back() || record.is_failed(),
        !(record.is_applied() && record.is_rolled_back()),
        !(record.is_applied() && record.is_failed()),
        !(record.is_rolled_back() && record.is_failed()),
{
}

} // verus!
