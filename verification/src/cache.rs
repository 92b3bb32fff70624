//! The imported diaries and the ledger that says whether they must be read again.
//!
//! The ledger holds one row for each author whose file was read. It is fresh while no
//! file has changed since the rows were written; otherwise every file is read again
//! and the ledger is written anew.

use vstd::prelude::*;
use crate::wire::names_view;

verus! {

/// One entry of an imported diary.
#[derive(Debug)]
pub struct CommonDiaryItem {
    pub title: Option<String>,
    pub content: String,
    pub iso_date: Option<String>,
    pub date_raw: Option<String>,
    pub weather: Option<String>,
    pub tags: Option<Vec<String>>,
}

/// An imported diary: the collection that one source file holds.
#[derive(Debug)]
pub struct CommonDiary {
    pub author: String,
    pub title: Option<String>,
    pub count: u32,
    pub items: Vec<CommonDiaryItem>,
}

/// A source file as the directory shows it. `modified` is the time of its last change
/// in nanoseconds since 1970, `None` where it could not be read.
#[derive(Debug)]
pub struct SourceFile {
    pub name: String,
    pub modified: Option<i64>,
}

/// One row of the ledger, as it is persisted: the author, the diary, and the date and
/// time at which the row was written, as a text. `data` is `None` where the diary
/// could not be read back.
#[derive(Debug)]
pub struct LedgerRow {
    pub source_key: String,
    pub data: Option<CommonDiary>,
    pub last_modified: String,
}

/// What reading one source file gave: the diary, or the reason why it is none.
#[derive(Debug)]
pub struct SourceReading {
    pub name: String,
    pub outcome: Result<CommonDiary, String>,
}

/// A source file that was left out of a rebuild, and why.
#[derive(Debug)]
pub struct SkippedSource {
    pub name: String,
    pub reason: String,
}

/// The instant that a text denotes, in nanoseconds since 1970, or `None` where it
/// denotes none that can be so counted: what `chrono::DateTime::parse_from_rfc3339`
/// reads from the text, as `timestamp_nanos_opt` counts it.
pub uninterp spec fn instant_of_text(text: Seq<char>) -> Option<i64>;

/// Calls `chrono::DateTime::parse_from_rfc3339` and, on what it reads,
/// `timestamp_nanos_opt`. The result is `instant_of_text` of the text.
#[verifier::external_body]
pub(crate) fn read_instant(text: &str) -> (r: Option<i64>)
    ensures
        r == instant_of_text(text@),
{
    chrono::DateTime::parse_from_rfc3339(text).ok()?.timestamp_nanos_opt()
}

/// The latest time recorded in the rows: `None` where there is no row, or where the
/// date of some row cannot be read.
pub open spec fn watermark(rows: Seq<LedgerRow>) -> Option<i64>
    decreases rows.len(),
{
    if rows.len() == 0 {
        None
    } else {
        match instant_of_text(rows.last().last_modified@) {
            None => None,
            Some(t) => if rows.len() == 1 {
                Some(t)
            } else {
                match watermark(rows.drop_last()) {
                    None => None,
                    Some(w) => Some(
                        if w >= t {
                            w
                        } else {
                            t
                        },
                    ),
                }
            },
        }
    }
}

/// Whether a file's last change is known and lies not after `mark`.
pub open spec fn settled_by(modified: Option<i64>, mark: i64) -> bool {
    match modified {
        Some(m) => m <= mark,
        None => false,
    }
}

/// Whether every file was last changed at a time that can be read and that is not
/// after `mark`.
pub open spec fn none_newer(files: Seq<SourceFile>, mark: i64) -> bool {
    forall|i: int| 0 <= i < files.len() ==> settled_by((#[trigger] files[i]).modified, mark)
}

/// Whether a ledger of `row_count` rows whose latest time is `mark` can be served as
/// it is: there are no source files; or there is a row for every file, the latest
/// time can be read, and no file was changed after it.
pub open spec fn fresh_by(files: Seq<SourceFile>, row_count: nat, mark: Option<i64>) -> bool {
    files.len() == 0 || (row_count == files.len() && match mark {
        Some(m) => none_newer(files, m),
        None => false,
    })
}

/// Whether the ledger can be served as it is: there are no source files; or there is
/// a row for every file, and no file was changed after the latest time in the rows.
pub open spec fn is_fresh(files: Seq<SourceFile>, rows: Seq<LedgerRow>) -> bool {
    fresh_by(files, rows.len(), watermark(rows))
}

/// The latest time recorded in the rows.
pub fn latest_modified(rows: &Vec<LedgerRow>) -> (r: Option<i64>)
    ensures
        r == watermark(rows@),
{
    if rows.len() == 0 {
        return None;
    }
    let mut latest: i64 = match read_instant(rows[0].last_modified.as_str()) {
        None => {
            proof {
                reveal_with_fuel(watermark, 2);
                lemma_undated_row(rows@, 0);
            }
            return None;
        },
        Some(t) => t,
    };
    proof {
        assert(rows@.take(1).len() == 1);
        assert(rows@.take(1).last() == rows@[0]);
    }
    let mut i: usize = 1;
    while i < rows.len()
        invariant
            1 <= i <= rows.len(),
            watermark(rows@.take(i as int)) == Some(latest),
        decreases rows.len() - i,
    {
        proof {
            let next = rows@.take(i as int + 1);
            assert(next.last() == rows@[i as int]);
            assert(next.drop_last() =~= rows@.take(i as int));
        }
        match read_instant(rows[i].last_modified.as_str()) {
            None => {
                proof {
                    lemma_undated_row(rows@, i as int);
                }
                return None;
            },
            Some(t) => {
                if t > latest {
                    latest = t;
                }
            },
        }
        i = i + 1;
    }
    proof {
        assert(rows@.take(i as int) =~= rows@);
    }
    Some(latest)
}

/// A row whose date cannot be read leaves the ledger without a watermark.
pub proof fn lemma_undated_row(rows: Seq<LedgerRow>, i: int)
    requires
        0 <= i < rows.len(),
        instant_of_text(rows[i].last_modified@).is_none(),
    ensures
        watermark(rows).is_none(),
    decreases rows.len(),
{
    if i < rows.len() - 1 {
        lemma_undated_row(rows.drop_last(), i);
    }
}

/// Tells whether a ledger of `row_count` rows, whose latest time is `mark`, can be
/// served against these files. `mark` is `None` where the ledger is empty or one of
/// its dates cannot be read.
pub fn fresh_against(files: &Vec<SourceFile>, row_count: usize, mark: Option<i64>) -> (r: bool)
    ensures
        r == fresh_by(files@, row_count as nat, mark),
{
    if files.len() == 0 {
        return true;
    }
    if row_count != files.len() {
        return false;
    }
    let latest = match mark {
        None => {
            return false;
        },
        Some(latest) => latest,
    };
    let mut i: usize = 0;
    while i < files.len()
        invariant
            i <= files.len(),
            row_count == files.len(),
            mark == Some(latest),
            forall|k: int| 0 <= k < i ==> settled_by((#[trigger] files@[k]).modified, latest),
        decreases files.len() - i,
    {
        match files[i].modified {
            None => {
                proof {
                    assert(!settled_by(files@[i as int].modified, latest));
                }
                return false;
            },
            Some(m) => {
                if m > latest {
                    proof {
                        assert(!settled_by(files@[i as int].modified, latest));
                    }
                    return false;
                }
            },
        }
        i = i + 1;
    }
    true
}

/// Tells whether the ledger can be served without reading any file again.
pub fn is_cache_up_to_date(files: &Vec<SourceFile>, rows: &Vec<LedgerRow>) -> (r: bool)
    ensures
        r == is_fresh(files@, rows@),
{
    if files.len() == 0 {
        return true;
    }
    fresh_against(files, rows.len(), latest_modified(rows))
}

/// Whether some row is kept under `key`.
pub open spec fn has_key(rows: Seq<LedgerRow>, key: Seq<char>) -> bool {
    exists|i: int| 0 <= i < rows.len() && (#[trigger] rows[i]).source_key@ == key
}

/// Whether no two rows are kept under the same key.
pub open spec fn unique_keys(rows: Seq<LedgerRow>) -> bool {
    forall|i: int, j: int|
        0 <= i < j < rows.len() ==> (#[trigger] rows[i]).source_key@ != (#[trigger] rows[j]).source_key@
}

/// The rows after `row` was written: in the place of the row with the same key, or
/// behind all others where there was none.
pub open spec fn upserted(rows: Seq<LedgerRow>, row: LedgerRow) -> Seq<LedgerRow> {
    if has_key(rows, row.source_key@) {
        rows.map_values(
            |old_row: LedgerRow|
                if old_row.source_key@ == row.source_key@ {
                    row
                } else {
                    old_row
                },
        )
    } else {
        rows.push(row)
    }
}

/// The row that a rebuild writes for a diary: under its author, dated with the text
/// of the rebuild's time.
pub open spec fn row_for(diary: CommonDiary, written_at: String) -> LedgerRow {
    LedgerRow { source_key: diary.author, data: Some(diary), last_modified: written_at }
}

/// The ledger that a rebuild writes from the readings of all source files: it starts
/// empty, and each diary that was read is written under its author, in the order of
/// the files. A file that could not be read leaves no trace in it.
pub open spec fn rebuilt_rows(readings: Seq<SourceReading>, written_at: String) -> Seq<LedgerRow>
    decreases readings.len(),
{
    if readings.len() == 0 {
        Seq::empty()
    } else {
        let prior = rebuilt_rows(readings.drop_last(), written_at);
        match readings.last().outcome {
            Ok(diary) => upserted(prior, row_for(diary, written_at)),
            Err(_) => prior,
        }
    }
}

/// The files that a rebuild leaves out, each with the reason, in the order of the
/// files.
pub open spec fn skipped_sources(readings: Seq<SourceReading>) -> Seq<SkippedSource>
    decreases readings.len(),
{
    if readings.len() == 0 {
        Seq::empty()
    } else {
        let prior = skipped_sources(readings.drop_last());
        match readings.last().outcome {
            Ok(_) => prior,
            Err(reason) => prior.push(SkippedSource { name: readings.last().name, reason }),
        }
    }
}

/// Writing a row keeps the keys apart, and adds a row exactly where the key is new.
pub proof fn lemma_upserted(rows: Seq<LedgerRow>, row: LedgerRow)
    requires
        unique_keys(rows),
    ensures
        unique_keys(upserted(rows, row)),
        has_key(upserted(rows, row), row.source_key@),
        upserted(rows, row).len() == if has_key(rows, row.source_key@) {
            rows.len()
        } else {
            rows.len() + 1
        },
        forall|i: int|
            0 <= i < upserted(rows, row).len() ==> #[trigger] upserted(rows, row)[i] == row || (i
                < rows.len() && upserted(rows, row)[i] == rows[i]),
{
    let after = upserted(rows, row);
    if has_key(rows, row.source_key@) {
        let at = choose|i: int| 0 <= i < rows.len() && (#[trigger] rows[i]).source_key@ == row.source_key@;
        assert(after[at] == row);
        assert forall|i: int, j: int| 0 <= i < j < after.len() implies (#[trigger] after[i]).source_key@
            != (#[trigger] after[j]).source_key@ by {
            assert(rows[i].source_key@ != rows[j].source_key@);
        }
    } else {
        assert(after[rows.len() as int] == row);
        assert forall|i: int, j: int| 0 <= i < j < after.len() implies (#[trigger] after[i]).source_key@
            != (#[trigger] after[j]).source_key@ by {
            if j < rows.len() {
                assert(rows[i].source_key@ != rows[j].source_key@);
            } else {
                assert(rows[i].source_key@ != row.source_key@);
            }
        }
    }
}

/// Writes `row` into the ledger: over the row with the same key, or behind the others.
fn upsert(rows: &mut Vec<LedgerRow>, row: LedgerRow)
    requires
        unique_keys(old(rows)@),
    ensures
        final(rows)@ == upserted(old(rows)@, row),
        unique_keys(final(rows)@),
{
    proof {
        lemma_upserted(rows@, row);
    }
    let mut i: usize = 0;
    while i < rows.len()
        invariant
            i <= rows.len(),
            rows@ == old(rows)@,
            unique_keys(rows@),
            forall|k: int| 0 <= k < i ==> (#[trigger] rows@[k]).source_key@ != row.source_key@,
        decreases rows.len() - i,
    {
        if rows[i].source_key == row.source_key {
            let ghost before = rows@;
            rows[i] = row;
            proof {
                assert(has_key(before, row.source_key@));
                assert forall|k: int| 0 <= k < before.len() implies rows@[k] == #[trigger] upserted(
                    before,
                    row,
                )[k] by {
                    if k != i {
                        if k < i {
                            assert(before[k].source_key@ != before[i as int].source_key@);
                        } else {
                            assert(before[i as int].source_key@ != before[k].source_key@);
                        }
                    }
                }
                assert(rows@ =~= upserted(before, row));
            }
            return ;
        }
        i = i + 1;
    }
    proof {
        assert(!has_key(rows@, row.source_key@));
    }
    rows.push(row);
}

/// What a rebuild gives: the ledger written anew, and the files that were left out.
#[derive(Debug)]
pub struct Rebuild {
    pub rows: Vec<LedgerRow>,
    pub skipped: Vec<SkippedSource>,
}

/// Rebuilds the ledger from the readings of all source files. `written_at` is the
/// date and time of the rebuild, as the text that the rows are to carry.
///
/// The old ledger plays no part: the new one holds a row for every diary that was
/// read, under its author and dated `written_at`, and nothing else. A file that could
/// not be read is left out and reported; it does not stop the others.
pub fn refresh_common_diaries_cache(readings: Vec<SourceReading>, written_at: &String) -> (r:
    Rebuild)
    ensures
        r.rows@ == rebuilt_rows(readings@, *written_at),
        r.skipped@ == skipped_sources(readings@),
        unique_keys(r.rows@),
{
    let mut rest = readings;
    let mut rows: Vec<LedgerRow> = Vec::new();
    let mut skipped: Vec<SkippedSource> = Vec::new();
    let ghost mut done: int = 0;
    proof {
        assert(readings@.take(0) =~= Seq::<SourceReading>::empty());
        assert(readings@.skip(0) =~= readings@);
    }
    while rest.len() > 0
        invariant
            0 <= done <= readings@.len(),
            rest@ == readings@.skip(done),
            rows@ == rebuilt_rows(readings@.take(done), *written_at),
            skipped@ == skipped_sources(readings@.take(done)),
            unique_keys(rows@),
        decreases rest.len(),
    {
        let reading = rest.remove(0);
        proof {
            let next = readings@.take(done + 1);
            assert(reading == readings@[done]);
            assert(next.last() == readings@[done]);
            assert(next.drop_last() =~= readings@.take(done));
            assert(rest@ =~= readings@.skip(done + 1));
        }
        match reading.outcome {
            Ok(diary) => {
                let source_key = diary.author.clone();
                let last_modified = written_at.clone();
                upsert(&mut rows, LedgerRow { source_key, data: Some(diary), last_modified });
            },
            Err(reason) => {
                skipped.push(SkippedSource { name: reading.name, reason });
            },
        }
        proof {
            done = done + 1;
        }
    }
    proof {
        assert(readings@.take(done) =~= readings@);
    }
    Rebuild { rows, skipped }
}

/// Whether `row` is what a rebuild dated `written_at` writes for the diary of
/// `reading`.
pub open spec fn writes(reading: SourceReading, row: LedgerRow, written_at: String) -> bool {
    match reading.outcome {
        Ok(diary) => row == row_for(diary, written_at),
        Err(_) => false,
    }
}

/// Whether no two readings hold diaries of the same author.
pub open spec fn distinct_authors(readings: Seq<SourceReading>) -> bool {
    forall|i: int, j: int|
        0 <= i < j < readings.len() ==> match ((#[trigger] readings[i]).outcome, (#[trigger] readings[j]).outcome) {
            (Ok(a), Ok(b)) => a.author@ != b.author@,
            _ => true,
        }
}

/// The number of readings that hold a diary.
pub open spec fn parsed_count(readings: Seq<SourceReading>) -> nat
    decreases readings.len(),
{
    if readings.len() == 0 {
        0
    } else {
        parsed_count(readings.drop_last()) + if readings.last().outcome is Ok {
            1nat
        } else {
            0nat
        }
    }
}

/// A rebuild from files of distinct authors writes one row for each diary that was
/// read, dated `written_at`, and reports every other file: rows and reports together are as
/// many as the files.
pub proof fn lemma_rebuild_accounts_for_every_file(readings: Seq<SourceReading>, written_at: String)
    requires
        distinct_authors(readings),
    ensures
        rebuilt_rows(readings, written_at).len() == parsed_count(readings),
        skipped_sources(readings).len() + parsed_count(readings) == readings.len(),
        unique_keys(rebuilt_rows(readings, written_at)),
        forall|i: int|
            0 <= i < rebuilt_rows(readings, written_at).len() ==> exists|j: int|
                0 <= j < readings.len() && writes(
                    #[trigger] readings[j],
                    #[trigger] rebuilt_rows(readings, written_at)[i],
                    written_at,
                ),
    decreases readings.len(),
{
    if readings.len() > 0 {
        let shorter = readings.drop_last();
        let prior = rebuilt_rows(shorter, written_at);
        let last = readings.len() - 1;
        assert forall|i: int, j: int| 0 <= i < j < shorter.len() implies match (
            (#[trigger] shorter[i]).outcome,
            (#[trigger] shorter[j]).outcome,
        ) {
            (Ok(a), Ok(b)) => a.author@ != b.author@,
            _ => true,
        } by {
            assert(shorter[i] == readings[i] && shorter[j] == readings[j]);
        }
        lemma_rebuild_accounts_for_every_file(shorter, written_at);
        match readings.last().outcome {
            Ok(diary) => {
                let row = row_for(diary, written_at);
                if has_key(prior, row.source_key@) {
                    let at = choose|i: int|
                        0 <= i < prior.len() && (#[trigger] prior[i]).source_key@ == row.source_key@;
                    let from = choose|j: int|
                        0 <= j < shorter.len() && writes(#[trigger] shorter[j], prior[at], written_at);
                    assert(shorter[from] == readings[from]);
                    assert(readings[last] == readings.last());
                    assert(false);
                }
                lemma_upserted(prior, row);
                let after = rebuilt_rows(readings, written_at);
                assert(after == prior.push(row));
                assert forall|i: int| 0 <= i < after.len() implies exists|j: int|
                    0 <= j < readings.len() && writes(#[trigger] readings[j], #[trigger] after[i], written_at) by {
                    if i < prior.len() {
                        let from = choose|j: int|
                            0 <= j < shorter.len() && writes(#[trigger] shorter[j], prior[i], written_at);
                        assert(shorter[from] == readings[from]);
                        assert(writes(readings[from], after[i], written_at));
                    } else {
                        assert(writes(readings[last], after[i], written_at));
                    }
                }
            },
            Err(_) => {
                let after = rebuilt_rows(readings, written_at);
                assert forall|i: int| 0 <= i < after.len() implies exists|j: int|
                    0 <= j < readings.len() && writes(#[trigger] readings[j], #[trigger] after[i], written_at) by {
                    let from = choose|j: int|
                        0 <= j < shorter.len() && writes(#[trigger] shorter[j], prior[i], written_at);
                    assert(shorter[from] == readings[from]);
                    assert(writes(readings[from], after[i], written_at));
                }
            },
        }
    }
}

/// A row with its date set to `written_at`.
pub open spec fn redated(row: LedgerRow, written_at: String) -> LedgerRow {
    LedgerRow { last_modified: written_at, ..row }
}

/// A rebuild gives the same ledger whenever it runs on the same readings: the time of
/// the rebuild sets the dates of the rows and nothing else.
pub proof fn lemma_rebuild_depends_on_readings_alone(
    readings: Seq<SourceReading>,
    first: String,
    second: String,
)
    ensures
        rebuilt_rows(readings, second) == rebuilt_rows(readings, first).map_values(
            |row: LedgerRow| redated(row, second),
        ),
        first == second ==> rebuilt_rows(readings, second) == rebuilt_rows(readings, first),
    decreases readings.len(),
{
    let redate = |row: LedgerRow| redated(row, second);
    if readings.len() == 0 {
        assert(rebuilt_rows(readings, second) =~= rebuilt_rows(readings, first).map_values(redate));
    } else {
        let shorter = readings.drop_last();
        lemma_rebuild_depends_on_readings_alone(shorter, first, second);
        let before = rebuilt_rows(shorter, first);
        let after = rebuilt_rows(shorter, second);
        assert(after == before.map_values(redate));
        match readings.last().outcome {
            Ok(diary) => {
                let old_row = row_for(diary, first);
                let new_row = row_for(diary, second);
                assert(new_row == redate(old_row));
                let key = old_row.source_key@;
                if has_key(before, key) {
                    let at = choose|i: int| 0 <= i < before.len() && (#[trigger] before[i]).source_key@ == key;
                    assert(after[at].source_key@ == key);
                    assert(has_key(after, key));
                } else {
                    if has_key(after, key) {
                        let at = choose|i: int| 0 <= i < after.len() && (#[trigger] after[i]).source_key@ == key;
                        assert(before[at].source_key@ == key);
                        assert(false);
                    }
                }
                assert(upserted(after, new_row) =~= upserted(before, old_row).map_values(redate));
            },
            Err(_) => {},
        }
    }
}

/// Rows that all carry the same date have the instant of that date as their
/// watermark.
pub proof fn lemma_watermark_of_even_rows(rows: Seq<LedgerRow>, written_at: String, mark: i64)
    requires
        rows.len() > 0,
        instant_of_text(written_at@) == Some(mark),
        forall|i: int| 0 <= i < rows.len() ==> (#[trigger] rows[i]).last_modified == written_at,
    ensures
        watermark(rows) == Some(mark),
    decreases rows.len(),
{
    if rows.len() > 1 {
        lemma_watermark_of_even_rows(rows.drop_last(), written_at, mark);
    }
}

/// Where every reading holds a diary, all of them count.
pub proof fn lemma_all_parsed_count(readings: Seq<SourceReading>)
    requires
        forall|i: int| 0 <= i < readings.len() ==> (#[trigger] readings[i]).outcome is Ok,
    ensures
        parsed_count(readings) == readings.len(),
    decreases readings.len(),
{
    if readings.len() > 0 {
        lemma_all_parsed_count(readings.drop_last());
    }
}

/// After a rebuild the ledger is fresh, as long as the files stay as they were read:
/// every file was read as a diary, no two of the same author, and none was changed
/// after `now`, the instant of the rebuild, which `written_at` denotes.
pub proof fn lemma_fresh_after_rebuild(
    files: Seq<SourceFile>,
    readings: Seq<SourceReading>,
    written_at: String,
    now: i64,
)
    requires
        instant_of_text(written_at@) == Some(now),
        readings.len() == files.len(),
        forall|i: int| 0 <= i < readings.len() ==> (#[trigger] readings[i]).outcome is Ok,
        distinct_authors(readings),
        none_newer(files, now),
    ensures
        is_fresh(files, rebuilt_rows(readings, written_at)),
{
    if files.len() > 0 {
        let rows = rebuilt_rows(readings, written_at);
        lemma_rebuild_accounts_for_every_file(readings, written_at);
        lemma_all_parsed_count(readings);
        assert forall|i: int| 0 <= i < rows.len() implies (#[trigger] rows[i]).last_modified
            == written_at by {
            let from = choose|j: int|
                0 <= j < readings.len() && writes(#[trigger] readings[j], rows[i], written_at);
            assert(writes(readings[from], rows[i], written_at));
        }
        lemma_watermark_of_even_rows(rows, written_at, now);
    }
}

/// The ledger is stale as soon as one file is changed after its watermark, or can no
/// longer be dated.
pub proof fn lemma_stale_after_change(files: Seq<SourceFile>, rows: Seq<LedgerRow>, changed: int)
    requires
        0 <= changed < files.len(),
        match watermark(rows) {
            Some(mark) => !settled_by(files[changed].modified, mark),
            None => true,
        },
    ensures
        !is_fresh(files, rows),
{
}

/// Every file that was not read as a diary is reported, whatever the authors of the
/// others: reports and diaries together are as many as the files.
pub proof fn lemma_every_failure_is_reported(readings: Seq<SourceReading>)
    ensures
        skipped_sources(readings).len() + parsed_count(readings) == readings.len(),
    decreases readings.len(),
{
    if readings.len() > 0 {
        lemma_every_failure_is_reported(readings.drop_last());
    }
}

/// A rebuild that read at least one diary leaves a ledger that is not empty, whatever
/// the authors.
pub proof fn lemma_rebuilt_holds_a_row(readings: Seq<SourceReading>, written_at: String)
    requires
        parsed_count(readings) > 0,
    ensures
        rebuilt_rows(readings, written_at).len() > 0,
    decreases readings.len(),
{
    if readings.len() > 0 {
        let shorter = readings.drop_last();
        let prior = rebuilt_rows(shorter, written_at);
        match readings.last().outcome {
            Ok(diary) => {
                let row = row_for(diary, written_at);
                if has_key(prior, row.source_key@) {
                    let at = choose|i: int|
                        0 <= i < prior.len() && (#[trigger] prior[i]).source_key@ == row.source_key@;
                    assert(prior.len() > 0);
                }
            },
            Err(_) => {
                lemma_rebuilt_holds_a_row(shorter, written_at);
            },
        }
    }
}

/// One corrupt file among the source files: the rebuild reports exactly that one, and
/// with two files or more the ledger is not empty. Where the other files are of
/// distinct authors, the rebuild writes a row for each of them.
pub proof fn lemma_one_corrupt_source(readings: Seq<SourceReading>, written_at: String, corrupt: int)
    requires
        0 <= corrupt < readings.len(),
        forall|i: int|
            0 <= i < readings.len() ==> ((#[trigger] readings[i]).outcome is Err <==> i == corrupt),
    ensures
        skipped_sources(readings).len() == 1,
        readings.len() >= 2 ==> rebuilt_rows(readings, written_at).len() > 0,
        distinct_authors(readings) ==> rebuilt_rows(readings, written_at).len() == readings.len()
            - 1,
{
    lemma_count_but_one(readings, corrupt);
    lemma_every_failure_is_reported(readings);
    if readings.len() >= 2 {
        lemma_rebuilt_holds_a_row(readings, written_at);
    }
    if distinct_authors(readings) {
        lemma_rebuild_accounts_for_every_file(readings, written_at);
    }
}

/// Where exactly one reading holds no diary, all but one count.
proof fn lemma_count_but_one(readings: Seq<SourceReading>, corrupt: int)
    requires
        0 <= corrupt < readings.len(),
        forall|i: int|
            0 <= i < readings.len() ==> ((#[trigger] readings[i]).outcome is Err <==> i == corrupt),
    ensures
        parsed_count(readings) == readings.len() - 1,
    decreases readings.len(),
{
    let shorter = readings.drop_last();
    if corrupt == readings.len() - 1 {
        assert forall|i: int| 0 <= i < shorter.len() implies (#[trigger] shorter[i]).outcome is Ok by {
            assert(shorter[i] == readings[i]);
        }
        lemma_all_parsed_count(shorter);
    } else {
        assert forall|i: int| 0 <= i < shorter.len() implies ((#[trigger] shorter[i]).outcome is Err
            <==> i == corrupt) by {
            assert(shorter[i] == readings[i]);
        }
        lemma_count_but_one(shorter, corrupt);
        assert(readings.last() == readings[readings.len() - 1]);
    }
}

/// The diaries that the rows hold, in the order of the rows. A row whose data cannot
/// be read holds none.
pub open spec fn served_diaries(rows: Seq<LedgerRow>) -> Seq<CommonDiary>
    decreases rows.len(),
{
    if rows.len() == 0 {
        Seq::empty()
    } else {
        let prior = served_diaries(rows.drop_last());
        match rows.last().data {
            Some(diary) => prior.push(diary),
            None => prior,
        }
    }
}

/// Takes the diaries out of the rows of the ledger, in the order of the rows, and
/// passes over the rows whose data cannot be read.
pub fn load_all_common_diaries_from_cache(rows: Vec<LedgerRow>) -> (diaries: Vec<CommonDiary>)
    ensures
        diaries@ == served_diaries(rows@),
{
    let mut rest = rows;
    let mut diaries: Vec<CommonDiary> = Vec::new();
    let ghost mut done: int = 0;
    proof {
        assert(rows@.take(0) =~= Seq::<LedgerRow>::empty());
        assert(rows@.skip(0) =~= rows@);
    }
    while rest.len() > 0
        invariant
            0 <= done <= rows@.len(),
            rest@ == rows@.skip(done),
            diaries@ == served_diaries(rows@.take(done)),
        decreases rest.len(),
    {
        let row = rest.remove(0);
        proof {
            let next = rows@.take(done + 1);
            assert(row == rows@[done]);
            assert(next.last() == rows@[done]);
            assert(next.drop_last() =~= rows@.take(done));
            assert(rest@ =~= rows@.skip(done + 1));
        }
        match row.data {
            Some(diary) => {
                diaries.push(diary);
            },
            None => {},
        }
        proof {
            done = done + 1;
        }
    }
    proof {
        assert(rows@.take(done) =~= rows@);
    }
    diaries
}

/// How a listing is answered.
#[derive(Debug)]
pub enum Listing {
    /// From the ledger as it stands: these are its diaries.
    Served(Vec<CommonDiary>),
    /// By reading every source file again and writing the ledger anew.
    Rebuild,
}

/// Answers a listing from the ledger where it is fresh and holds a diary; otherwise
/// asks for a rebuild. An empty answer from a ledger that counts as fresh is not
/// trusted: it may be a ledger caught between being cleared and being written.
pub fn list_common_diaries(files: &Vec<SourceFile>, rows: Vec<LedgerRow>) -> (r: Listing)
    ensures
        match r {
            Listing::Served(diaries) => is_fresh(files@, rows@) && diaries@ == served_diaries(rows@)
                && diaries@.len() > 0,
            Listing::Rebuild => !is_fresh(files@, rows@) || served_diaries(rows@).len() == 0,
        },
{
    if !is_cache_up_to_date(files, &rows) {
        return Listing::Rebuild;
    }
    let diaries = load_all_common_diaries_from_cache(rows);
    if diaries.len() == 0 {
        Listing::Rebuild
    } else {
        Listing::Served(diaries)
    }
}

/// An entry of the directory of source files.
#[derive(Debug)]
pub struct DirEntry {
    pub name: String,
    pub is_file: bool,
}

/// Whether a file name has the extension `json`: it ends in `.json` and has something
/// before that.
pub open spec fn has_json_extension(name: Seq<char>) -> bool {
    name.len() > 5 && name.subrange(name.len() - 5, name.len() as int) == ".json"@
}

/// Whether a directory entry is a source file: a file whose name has the extension
/// `json`.
pub open spec fn is_source_file(entry: DirEntry) -> bool {
    entry.is_file && has_json_extension(entry.name@)
}

/// The names of the source files among the entries, in the order of the entries.
pub open spec fn source_file_names(entries: Seq<DirEntry>) -> Seq<Seq<char>>
    decreases entries.len(),
{
    if entries.len() == 0 {
        Seq::empty()
    } else {
        let prior = source_file_names(entries.drop_last());
        if is_source_file(entries.last()) {
            prior.push(entries.last().name@)
        } else {
            prior
        }
    }
}

/// Tells whether a directory entry is a source file.
pub fn is_common_diary_file(entry: &DirEntry) -> (r: bool)
    ensures
        r == is_source_file(*entry),
{
    if !entry.is_file {
        return false;
    }
    let name = entry.name.as_str();
    let len = name.unicode_len();
    if len <= 5 {
        return false;
    }
    name.substring_char(len - 5, len).eq(".json")
}

/// Picks the source files out of the entries of the directory.
pub fn list_common_diary_files(entries: &Vec<DirEntry>) -> (names: Vec<String>)
    ensures
        names_view(names) == source_file_names(entries@),
{
    let mut names: Vec<String> = Vec::new();
    let mut i: usize = 0;
    proof {
        assert(entries@.take(0) =~= Seq::<DirEntry>::empty());
        assert(names_view(names) =~= Seq::<Seq<char>>::empty());
    }
    while i < entries.len()
        invariant
            i <= entries.len(),
            names_view(names) == source_file_names(entries@.take(i as int)),
        decreases entries.len() - i,
    {
        proof {
            let next = entries@.take(i as int + 1);
            assert(next.last() == entries@[i as int]);
            assert(next.drop_last() =~= entries@.take(i as int));
        }
        if is_common_diary_file(&entries[i]) {
            let ghost before = names_view(names);
            names.push(entries[i].name.clone());
            proof {
                assert(names_view(names) =~= before.push(entries@[i as int].name@));
            }
        }
        i = i + 1;
    }
    proof {
        assert(entries@.take(i as int) =~= entries@);
    }
    names
}

} // verus!
