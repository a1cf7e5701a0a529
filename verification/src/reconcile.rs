//! Which migrations of the directory are still to be applied.

use crate::record::{entry_views, record_views, EntryView, MigrationEntry, MigrationRecord, RecordView};
use vstd::prelude::*;

verus! {

/// Whether the history holds an applied record of the migration `name`.
pub open spec fn is_applied_name(records: Seq<RecordView>, name: Seq<char>) -> bool {
    exists|i: int|
        0 <= i < records.len() && (#[trigger] records[i]).is_applied() && records[i].name == name
}

/// Whether the history holds a record of the migration `name` that was not
/// rolled back.
pub open spec fn is_kept_name(records: Seq<RecordView>, name: Seq<char>) -> bool {
    exists|i: int|
        0 <= i < records.len() && !(#[trigger] records[i]).is_rolled_back() && records[i].name
            == name
}

/// The entries of the directory that the history does not hold as applied, in
/// the order of the directory.
pub open spec fn unapplied(entries: Seq<EntryView>, records: Seq<RecordView>) -> Seq<EntryView> {
    entries.filter(|e: EntryView| !is_applied_name(records, e.name))
}

/// Every selected migration is one of the directory that the history does not
/// hold as applied, and every such migration of the directory is selected.
pub proof fn lemma_unapplied_members(entries: Seq<EntryView>, records: Seq<RecordView>)
    ensures
        forall|k: int|
            0 <= k < unapplied(entries, records).len() ==> !is_applied_name(
                records,
                (#[trigger] unapplied(entries, records)[k]).name,
            ) && entries.contains(unapplied(entries, records)[k]),
        forall|i: int|
            0 <= i < entries.len() && !is_applied_name(records, (#[trigger] entries[i]).name)
                ==> unapplied(entries, records).contains(entries[i]),
        unapplied(entries, records).len() <= entries.len(),
    decreases entries.len(),
{
    reveal(Seq::filter);
    if entries.len() > 0 {
        let front = entries.drop_last();
        let last = entries.last();
        lemma_unapplied_members(front, records);
        let chosen = unapplied(entries, records);
        let before = unapplied(front, records);
        assert forall|k: int| 0 <= k < chosen.len() implies !is_applied_name(
            records,
            (#[trigger] chosen[k]).name,
        ) && entries.contains(chosen[k]) by {
            if k < before.len() {
                assert(chosen[k] == before[k]);
                let i = choose|i: int| 0 <= i < front.len() && front[i] == before[k];
                assert(entries[i] == chosen[k]);
            } else {
                assert(entries[entries.len() - 1] == chosen[k]);
            }
        }
        assert forall|i: int|
            0 <= i < entries.len() && !is_applied_name(
                records,
                (#[trigger] entries[i]).name,
            ) implies chosen.contains(entries[i]) by {
            if i < front.len() {
                assert(front[i] == entries[i]);
                let k = choose|k: int| 0 <= k < before.len() && before[k] == front[i];
                assert(chosen[k] == entries[i]);
            } else {
                assert(chosen[chosen.len() - 1] == entries[i]);
            }
        }
    }
}

/// The selection keeps the order of the directory: of two selected
/// migrations, the one that is selected first stands first in the directory.
pub proof fn lemma_unapplied_keeps_order(
    entries: Seq<EntryView>,
    records: Seq<RecordView>,
    a: int,
    b: int,
)
    requires
        0 <= a < b < unapplied(entries, records).len(),
    ensures
        exists|i: int, j: int|
            0 <= i < j < entries.len() && #[trigger] entries[i] == unapplied(entries, records)[a]
                && #[trigger] entries[j] == unapplied(entries, records)[b],
    decreases entries.len(),
{
    reveal(Seq::filter);
    let chosen = unapplied(entries, records);
    let front = entries.drop_last();
    let before = unapplied(front, records);
    if b < before.len() {
        lemma_unapplied_keeps_order(front, records, a, b);
        let (i, j) = choose|i: int, j: int|
            0 <= i < j < front.len() && #[trigger] front[i] == before[a] && #[trigger] front[j]
                == before[b];
        assert(entries[i] == chosen[a] && entries[j] == chosen[b]);
    } else {
        lemma_unapplied_members(front, records);
        assert(chosen[a] == before[a]);
        let i = choose|i: int| 0 <= i < front.len() && front[i] == before[a];
        let j = entries.len() - 1;
        assert(entries[i] == chosen[a] && entries[j] == chosen[b]);
    }
}

/// Where the history holds no applied record of any migration of the
/// directory, as where it is empty, the whole directory is selected.
pub proof fn lemma_unapplied_is_all(entries: Seq<EntryView>, records: Seq<RecordView>)
    requires
        forall|i: int|
            0 <= i < entries.len() ==> !is_applied_name(records, (#[trigger] entries[i]).name),
    ensures
        unapplied(entries, records) == entries,
    decreases entries.len(),
{
    reveal(Seq::filter);
    if entries.len() > 0 {
        let front = entries.drop_last();
        assert forall|i: int| 0 <= i < front.len() implies !is_applied_name(
            records,
            (#[trigger] front[i]).name,
        ) by {
            assert(front[i] == entries[i]);
        }
        lemma_unapplied_is_all(front, records);
        assert(!is_applied_name(records, entries[entries.len() - 1].name));
        assert(front.push(entries.last()) =~= entries);
    } else {
        assert(unapplied(entries, records) =~= entries);
    }
}

/// Where the history holds every migration of the directory as applied,
/// nothing is selected.
pub proof fn lemma_unapplied_is_none(entries: Seq<EntryView>, records: Seq<RecordView>)
    requires
        forall|i: int|
            0 <= i < entries.len() ==> is_applied_name(records, (#[trigger] entries[i]).name),
    ensures
        unapplied(entries, records) == Seq::<EntryView>::empty(),
    decreases entries.len(),
{
    reveal(Seq::filter);
    if entries.len() > 0 {
        let front = entries.drop_last();
        assert forall|i: int| 0 <= i < front.len() implies is_applied_name(
            records,
            (#[trigger] front[i]).name,
        ) by {
            assert(front[i] == entries[i]);
        }
        lemma_unapplied_is_none(front, records);
        assert(is_applied_name(records, entries[entries.len() - 1].name));
    } else {
        assert(unapplied(entries, records) =~= Seq::<EntryView>::empty());
    }
}

/// A migration whose every record was rolled back is selected again, whether
/// or not those records hold an end.
pub proof fn lemma_rolled_back_is_unapplied(
    entries: Seq<EntryView>,
    records: Seq<RecordView>,
    i: int,
)
    requires
        0 <= i < entries.len(),
        forall|k: int|
            0 <= k < records.len() && (#[trigger] records[k]).name == entries[i].name
                ==> records[k].is_rolled_back(),
    ensures
        !is_applied_name(records, entries[i].name),
        unapplied(entries, records).contains(entries[i]),
{
    lemma_unapplied_members(entries, records);
}

/// On a history without a failed attempt, a record that was not rolled back
/// is an applied one: to skip what was not rolled back is to skip what is
/// applied.
pub proof fn lemma_kept_is_applied(records: Seq<RecordView>, name: Seq<char>)
    requires
        forall|k: int| 0 <= k < records.len() ==> !(#[trigger] records[k]).is_failed(),
    ensures
        is_kept_name(records, name) == is_applied_name(records, name),
{
    if is_kept_name(records, name) {
        let k = choose|k: int|
            0 <= k < records.len() && !(#[trigger] records[k]).is_rolled_back() && records[k].name
                == name;
        assert(records[k].is_applied());
    }
    if is_applied_name(records, name) {
        let k = choose|k: int|
            0 <= k < records.len() && (#[trigger] records[k]).is_applied() && records[k].name
                == name;
        assert(!records[k].is_rolled_back());
    }
}

/// Looks for an applied record of the migration `name`.
pub fn has_applied(records: &[MigrationRecord], name: &String) -> (found: bool)
    ensures
        found == is_applied_name(record_views(records@), name@),
{
    let ghost views = record_views(records@);
    let mut i: usize = 0;
    while i < records.len()
        invariant
            i <= records.len(),
            views == record_views(records@),
            forall|k: int| 0 <= k < i ==> !((#[trigger] views[k]).is_applied() && views[k].name == name@),
        decreases records.len() - i,
    {
        let record = &records[i];
        assert(views[i as int] == record@);
        if record.is_applied() && record.migration_name == *name {
            return true;
        }
        i = i + 1;
    }
    false
}

/// Selects the migrations that are still to be applied. The order of the
/// directory is kept.
pub fn unapplied_migrations(
    migrations_from_filesystem: &[MigrationEntry],
    migrations_from_database: &[MigrationRecord],
) -> (pending: Vec<MigrationEntry>)
    ensures
        entry_views(pending@) == unapplied(
            entry_views(migrations_from_filesystem@),
            record_views(migrations_from_database@),
        ),
{
    let ghost entries = entry_views(migrations_from_filesystem@);
    let ghost records = record_views(migrations_from_database@);
    let ghost keep = |e: EntryView| !is_applied_name(records, e.name);
    let mut pending: Vec<MigrationEntry> = Vec::new();
    let mut i: usize = 0;
    proof {
        reveal(Seq::filter);
        assert(entries.take(0).filter(keep) =~= Seq::<EntryView>::empty());
        assert(entry_views(pending@) =~= Seq::<EntryView>::empty());
    }
    while i < migrations_from_filesystem.len()
        invariant
            i <= migrations_from_filesystem.len(),
            entries == entry_views(migrations_from_filesystem@),
            records == record_views(migrations_from_database@),
            keep == |e: EntryView| !is_applied_name(records, e.name),
            entry_views(pending@) == entries.take(i as int).filter(keep),
        decreases migrations_from_filesystem.len() - i,
    {
        let entry = &migrations_from_filesystem[i];
        proof {
            reveal(Seq::filter);
            assert(entries.take(i + 1).drop_last() =~= entries.take(i as int));
            assert(entries.take(i + 1).last() == entry@);
        }
        if !has_applied(migrations_from_database, &entry.name) {
            let ghost before = pending@;
            let copy = entry.duplicate();
            pending.push(copy);
            assert(entry_views(pending@) =~= entry_views(before).push(entry@));
        }
        i = i + 1;
    }
    assert(entries.take(i as int) =~= entries);
    pending
}

} // verus!
