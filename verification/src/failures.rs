//! The check that runs before anything is applied: a migration that was
//! started and neither finished nor rolled back blocks every later run.

use crate::record::{record_views, MigrationRecord, RecordView};
use crate::text::{lemma_occurs_between, lemma_occurs_in_part, occurs_in, trim, trimmed};
use vstd::prelude::*;

verus! {

/// The history holds attempts that neither finished nor were rolled back.
/// `details` names each of them on a line of its own.
#[derive(Debug, Clone, PartialEq, Eq)]
pub struct FoundFailedMigrations {
    pub details: String,
}

/// Whether some record of `records` is in flight or failed.
pub open spec fn has_failed(records: Seq<RecordView>) -> bool {
    exists|i: int| 0 <= i < records.len() && (#[trigger] records[i]).is_failed()
}

/// What a report says of the logs of a failed attempt: nothing where there are
/// none or only white space, else their trimmed text under a heading.
pub open spec fn logs_excerpt(logs: Option<Seq<char>>) -> Seq<char> {
    match logs {
        Some(text) => if trimmed(text).len() > 0 {
            " with the following logs:\n"@ + trimmed(text)
        } else {
            Seq::empty()
        },
        None => Seq::empty(),
    }
}

/// The line of a report that tells of one failed attempt.
pub open spec fn failure_line(record: RecordView) -> Seq<char> {
    "The `"@ + record.name + "` migration started at "@ + record.started_at.text() + " failed"@
        + logs_excerpt(record.logs) + "\n"@
}

/// The report on `records`: one line for each failed attempt, in the order
/// of the history.
pub open spec fn failure_details(records: Seq<RecordView>) -> Seq<char>
    decreases records.len(),
{
    if records.len() == 0 {
        Seq::empty()
    } else if records.last().is_failed() {
        failure_details(records.drop_last()) + failure_line(records.last())
    } else {
        failure_details(records.drop_last())
    }
}

/// The report tells of every failed attempt: it holds the line of each, and
/// with it the name of the migration and the time at which it was started.
pub proof fn lemma_details_mention_failed(records: Seq<RecordView>, i: int)
    requires
        0 <= i < records.len(),
        records[i].is_failed(),
    ensures
        occurs_in(failure_line(records[i]), failure_details(records)),
        occurs_in(records[i].name, failure_details(records)),
        occurs_in(records[i].started_at.text(), failure_details(records)),
    decreases records.len(),
{
    let line = failure_line(records[i]);
    let details = failure_details(records);
    let front = records.drop_last();
    if i == records.len() - 1 {
        lemma_occurs_between(failure_details(front), line, Seq::empty());
        assert(failure_details(front) + line + Seq::<char>::empty() =~= details);
    } else {
        assert(front[i] == records[i]);
        lemma_details_mention_failed(front, i);
        if records.last().is_failed() {
            lemma_occurs_between(Seq::empty(), failure_details(front), failure_line(records.last()));
            assert(Seq::<char>::empty() + failure_details(front) + failure_line(records.last())
                =~= details);
            lemma_occurs_in_part(line, failure_details(front), details);
        }
    }
    let record = records[i];
    let tail = " failed"@ + logs_excerpt(record.logs) + "\n"@;
    lemma_occurs_between("The `"@, record.name, "` migration started at "@ + record.started_at.text() + tail);
    assert("The `"@ + record.name + ("` migration started at "@ + record.started_at.text() + tail)
        =~= line);
    lemma_occurs_in_part(record.name, line, details);
    lemma_occurs_between(
        "The `"@ + record.name + "` migration started at "@,
        record.started_at.text(),
        tail,
    );
    assert("The `"@ + record.name + "` migration started at "@ + record.started_at.text() + tail
        =~= line);
    lemma_occurs_in_part(record.started_at.text(), line, details);
}

/// Writes the report line of one failed attempt.
pub fn describe_failure(record: &MigrationRecord) -> (line: String)
    ensures
        line@ == failure_line(record@),
{
    let mut line = String::new();
    line.append("The `");
    line.append(record.migration_name.as_str());
    line.append("` migration started at ");
    let started = record.started_at.to_text();
    line.append(started.as_str());
    line.append(" failed");
    match &record.logs {
        Some(text) => {
            let excerpt = trim(text.as_str());
            if !excerpt.is_empty() {
                line.append(" with the following logs:\n");
                line.append(excerpt);
            }
        },
        None => {},
    }
    line.append("\n");
    assert(line@ =~= failure_line(record@));
    line
}

/// Succeeds where no record of the history is in flight or failed; else fails
/// with the report on those that are.
pub fn detect_failed_migrations(migrations_from_database: &[MigrationRecord]) -> (outcome: Result<
    (),
    FoundFailedMigrations,
>)
    ensures
        outcome is Ok <==> !has_failed(record_views(migrations_from_database@)),
        outcome matches Err(found) ==> found.details@ == failure_details(
            record_views(migrations_from_database@),
        ),
{
    let ghost views = record_views(migrations_from_database@);
    let mut details = String::new();
    let mut found = false;
    let mut i: usize = 0;
    while i < migrations_from_database.len()
        invariant
            i <= migrations_from_database.len(),
            views == record_views(migrations_from_database@),
            details@ == failure_details(views.take(i as int)),
            found == has_failed(views.take(i as int)),
        decreases migrations_from_database.len() - i,
    {
        let record = &migrations_from_database[i];
        proof {
            let before = views.take(i as int);
            let upto = views.take(i + 1);
            assert(upto.drop_last() =~= before);
            assert(upto.last() == record@);
            if record@.is_failed() {
                assert(upto[i as int].is_failed());
            } else if has_failed(upto) {
                let k = choose|k: int| 0 <= k < upto.len() && (#[trigger] upto[k]).is_failed();
                assert(before[k].is_failed());
            }
            if has_failed(before) {
                let k = choose|k: int| 0 <= k < before.len() && (#[trigger] before[k]).is_failed();
                assert(upto[k].is_failed());
            }
        }
        if record.is_failed() {
            let line = describe_failure(record);
            details.append(line.as_str());
            found = true;
        }
        i = i + 1;
    }
    assert(views.take(i as int) =~= views);
    if found {
        Err(FoundFailedMigrations { details })
    } else {
        Ok(())
    }
}

} // verus!
