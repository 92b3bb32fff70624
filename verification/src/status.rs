//! The state of the ledger against the directory of source files, and the words in
//! which it is reported.

use vstd::prelude::*;
use crate::cache::LedgerRow;

verus! {

/// Whether `a` comes before `b` where texts are ordered character by character, a
/// text before every text that it begins.
pub open spec fn text_before(a: Seq<char>, b: Seq<char>) -> bool
    decreases a.len(),
{
    if b.len() == 0 {
        false
    } else if a.len() == 0 {
        true
    } else if a[0] != b[0] {
        a[0] < b[0]
    } else {
        text_before(a.drop_first(), b.drop_first())
    }
}

/// Tells whether `a` comes before `b` in the order of texts.
pub fn is_text_before(a: &str, b: &str) -> (r: bool)
    ensures
        r == text_before(a@, b@),
{
    let a_len = a.unicode_len();
    let b_len = b.unicode_len();
    let mut i: usize = 0;
    proof {
        assert(a@.skip(0) =~= a@);
        assert(b@.skip(0) =~= b@);
    }
    while i < a_len && i < b_len
        invariant
            i <= a_len,
            i <= b_len,
            a_len == a@.len(),
            b_len == b@.len(),
            text_before(a@, b@) == text_before(a@.skip(i as int), b@.skip(i as int)),
        decreases a_len - i,
    {
        let in_a = a.get_char(i);
        let in_b = b.get_char(i);
        proof {
            assert(a@.skip(i as int)[0] == a@[i as int]);
            assert(b@.skip(i as int)[0] == b@[i as int]);
            assert(a@.skip(i as int).drop_first() =~= a@.skip(i as int + 1));
            assert(b@.skip(i as int).drop_first() =~= b@.skip(i as int + 1));
        }
        if in_a != in_b {
            return in_a < in_b;
        }
        i = i + 1;
    }
    proof {
        assert(a@.skip(i as int).len() == a_len - i);
        assert(b@.skip(i as int).len() == b_len - i);
    }
    i < b_len
}

/// The greatest of the dates of the rows, as texts are ordered; the empty text where
/// there is no row.
pub open spec fn greatest_date(rows: Seq<LedgerRow>) -> Seq<char>
    decreases rows.len(),
{
    if rows.len() == 0 {
        Seq::empty()
    } else {
        let prior = greatest_date(rows.drop_last());
        if text_before(prior, rows.last().last_modified@) {
            rows.last().last_modified@
        } else {
            prior
        }
    }
}

/// Finds the greatest of the dates of the rows, as texts are ordered.
pub fn latest_date(rows: &Vec<LedgerRow>) -> (text: String)
    ensures
        text@ == greatest_date(rows@),
{
    let mut text = String::new();
    let mut i: usize = 0;
    proof {
        assert(rows@.take(0) =~= Seq::<LedgerRow>::empty());
    }
    while i < rows.len()
        invariant
            i <= rows.len(),
            text@ == greatest_date(rows@.take(i as int)),
        decreases rows.len() - i,
    {
        proof {
            let next = rows@.take(i as int + 1);
            assert(next.last() == rows@[i as int]);
            assert(next.drop_last() =~= rows@.take(i as int));
        }
        if is_text_before(text.as_str(), rows[i].last_modified.as_str()) {
            text = rows[i].last_modified.clone();
        }
        i = i + 1;
    }
    proof {
        assert(rows@.take(i as int) =~= rows@);
    }
    text
}

/// A date and time as it is shown, year to second, or `None` where the text denotes
/// none: what `chrono::DateTime::parse_from_rfc3339` reads from the text, written by
/// its `format` with `%Y-%m-%d %H:%M:%S`.
pub uninterp spec fn displayed_date(text: Seq<char>) -> Option<Seq<char>>;

/// Calls `chrono::DateTime::parse_from_rfc3339` and, on what it reads, `format` with
/// `%Y-%m-%d %H:%M:%S`. The result is `displayed_date` of the text.
#[verifier::external_body]
pub(crate) fn display_date(text: &str) -> (r: Option<String>)
    ensures
        match r {
            Some(shown) => displayed_date(text@) == Some(shown@),
            None => displayed_date(text@).is_none(),
        },
{
    let read = chrono::DateTime::parse_from_rfc3339(text).ok()?;
    Some(read.format("%Y-%m-%d %H:%M:%S").to_string())
}

/// The date of the last writing as it is shown: the greatest date of the rows, year
/// to second; or that text as it stands, where it denotes no date.
pub open spec fn date_shown(rows: Seq<LedgerRow>) -> Seq<char> {
    match displayed_date(greatest_date(rows)) {
        Some(shown) => shown,
        None => greatest_date(rows),
    }
}

/// The state of the ledger against the directory of source files.
#[derive(Debug, PartialEq, Eq)]
pub enum CacheStatus {
    /// No row is cached, and this many files wait to be read.
    EmptyWithPending { pending: usize },
    /// No row is cached, and there is no file.
    EmptyNoFiles,
    /// No row is cached, and the directory cannot be listed.
    EmptyUnlisted,
    /// There is a row for every file.
    Complete { cached: usize, updated: String },
    /// The rows are not as many as the files, or the files cannot be counted.
    Incomplete { cached: usize, files: Option<usize>, updated: String },
}

/// The mathematical value of a `CacheStatus`.
pub enum CacheStatusView {
    EmptyWithPending { pending: usize },
    EmptyNoFiles,
    EmptyUnlisted,
    Complete { cached: usize, updated: Seq<char> },
    Incomplete { cached: usize, files: Option<usize>, updated: Seq<char> },
}

impl View for CacheStatus {
    type V = CacheStatusView;

    open spec fn view(&self) -> CacheStatusView {
        match *self {
            CacheStatus::EmptyWithPending { pending } => CacheStatusView::EmptyWithPending {
                pending,
            },
            CacheStatus::EmptyNoFiles => CacheStatusView::EmptyNoFiles,
            CacheStatus::EmptyUnlisted => CacheStatusView::EmptyUnlisted,
            CacheStatus::Complete { cached, updated } => CacheStatusView::Complete {
                cached,
                updated: updated@,
            },
            CacheStatus::Incomplete { cached, files, updated } => CacheStatusView::Incomplete {
                cached,
                files,
                updated: updated@,
            },
        }
    }
}

/// The state of `rows` against a directory of `file_count` files; `None` stands for a
/// directory that cannot be listed.
pub open spec fn cache_status(rows: Seq<LedgerRow>, file_count: Option<usize>) -> CacheStatusView {
    if rows.len() == 0 {
        match file_count {
            None => CacheStatusView::EmptyUnlisted,
            Some(files) => if files > 0 {
                CacheStatusView::EmptyWithPending { pending: files }
            } else {
                CacheStatusView::EmptyNoFiles
            },
        }
    } else if file_count == Some(rows.len() as usize) {
        CacheStatusView::Complete { cached: rows.len() as usize, updated: date_shown(rows) }
    } else {
        CacheStatusView::Incomplete {
            cached: rows.len() as usize,
            files: file_count,
            updated: date_shown(rows),
        }
    }
}

/// Tells how the ledger stands against the directory: how many rows are cached, how
/// many files there are, and when the ledger was last written.
pub fn ledger_status(rows: &Vec<LedgerRow>, file_count: Option<usize>) -> (r: CacheStatus)
    ensures
        r@ == cache_status(rows@, file_count),
{
    let cached = rows.len();
    if cached == 0 {
        return match file_count {
            None => CacheStatus::EmptyUnlisted,
            Some(files) => if files > 0 {
                CacheStatus::EmptyWithPending { pending: files }
            } else {
                CacheStatus::EmptyNoFiles
            },
        };
    }
    let latest = latest_date(rows);
    let updated = match display_date(latest.as_str()) {
        Some(shown) => shown,
        None => latest,
    };
    match file_count {
        Some(files) => if files == cached {
            CacheStatus::Complete { cached, updated }
        } else {
            CacheStatus::Incomplete { cached, files: file_count, updated }
        },
        None => CacheStatus::Incomplete { cached, files: file_count, updated },
    }
}

/// The digit that stands for a number below ten.
pub open spec fn digit(d: nat) -> char {
    if d == 0 {
        '0'
    } else if d == 1 {
        '1'
    } else if d == 2 {
        '2'
    } else if d == 3 {
        '3'
    } else if d == 4 {
        '4'
    } else if d == 5 {
        '5'
    } else if d == 6 {
        '6'
    } else if d == 7 {
        '7'
    } else if d == 8 {
        '8'
    } else {
        '9'
    }
}

/// A number in decimal digits, without leading zeros.
pub open spec fn decimal(n: nat) -> Seq<char>
    decreases n,
{
    if n < 10 {
        seq![digit(n)]
    } else {
        decimal(n / 10).push(digit(n % 10))
    }
}

/// The digit of a number below ten, as a text.
fn digit_text(d: usize) -> (text: &'static str)
    requires
        d < 10,
    ensures
        text@ == seq![digit(d as nat)],
{
    proof {
        reveal_strlit("0");
        reveal_strlit("1");
        reveal_strlit("2");
        reveal_strlit("3");
        reveal_strlit("4");
        reveal_strlit("5");
        reveal_strlit("6");
        reveal_strlit("7");
        reveal_strlit("8");
        reveal_strlit("9");
    }
    let text = if d == 0 {
        "0"
    } else if d == 1 {
        "1"
    } else if d == 2 {
        "2"
    } else if d == 3 {
        "3"
    } else if d == 4 {
        "4"
    } else if d == 5 {
        "5"
    } else if d == 6 {
        "6"
    } else if d == 7 {
        "7"
    } else if d == 8 {
        "8"
    } else {
        "9"
    };
    proof {
        assert(text@ =~= seq![digit(d as nat)]);
    }
    text
}

/// Writes a number in decimal digits.
pub fn decimal_text(n: usize) -> (text: String)
    ensures
        text@ == decimal(n as nat),
    decreases n,
{
    if n < 10 {
        String::from_str(digit_text(n))
    } else {
        let text = decimal_text(n / 10).concat(digit_text(n % 10));
        proof {
            assert(text@ =~= decimal((n / 10) as nat).push(digit((n % 10) as nat)));
        }
        text
    }
}

/// The number of files as the report writes it: the count, or `-1` where the
/// directory cannot be listed.
pub open spec fn file_count_words(files: Option<usize>) -> Seq<char> {
    match files {
        Some(count) => decimal(count as nat),
        None => "-1"@,
    }
}

/// The report of a state of the ledger.
pub open spec fn status_words(status: CacheStatusView) -> Seq<char> {
    match status {
        CacheStatusView::EmptyWithPending { pending } => "有 "@ + decimal(pending as nat)
            + " 个日记文件需要缓存，但当前缓存为空"@,
        CacheStatusView::EmptyNoFiles => "日记目录中没有文件，缓存为空"@,
        CacheStatusView::EmptyUnlisted => "缓存为空，无法读取日记目录"@,
        CacheStatusView::Complete { cached, updated } => "缓存完整：已缓存 "@ + decimal(
            cached as nat,
        ) + " 个日记文件，最后更新于 "@ + updated,
        CacheStatusView::Incomplete { cached, files, updated } => "缓存不完整：已缓存 "@
            + decimal(cached as nat) + " 个日记文件，目录中有 "@ + file_count_words(files)
            + " 个文件，最后更新于 "@ + updated,
    }
}

impl CacheStatus {
    /// The report of the state, in words.
    pub fn message(&self) -> (text: String)
        ensures
            text@ == status_words(self@),
    {
        match self {
            CacheStatus::EmptyWithPending { pending } => String::from_str("有 ").concat(
                decimal_text(*pending).as_str(),
            ).concat(" 个日记文件需要缓存，但当前缓存为空"),
            CacheStatus::EmptyNoFiles => String::from_str("日记目录中没有文件，缓存为空"),
            CacheStatus::EmptyUnlisted => String::from_str("缓存为空，无法读取日记目录"),
            CacheStatus::Complete { cached, updated } => String::from_str(
                "缓存完整：已缓存 ",
            ).concat(decimal_text(*cached).as_str()).concat(" 个日记文件，最后更新于 ").concat(
                updated.as_str(),
            ),
            CacheStatus::Incomplete { cached, files, updated } => {
                let counted = match files {
                    Some(count) => decimal_text(*count),
                    None => String::from_str("-1"),
                };
                String::from_str("缓存不完整：已缓存 ").concat(
                    decimal_text(*cached).as_str(),
                ).concat(" 个日记文件，目录中有 ").concat(counted.as_str()).concat(
                    " 个文件，最后更新于 ",
                ).concat(updated.as_str())
            },
        }
    }
}

/// Reports how the ledger stands against the directory, in words: how many rows are
/// cached, how many files there are, and when the ledger was last written.
pub fn get_common_diaries_cache_status(rows: &Vec<LedgerRow>, file_count: Option<usize>) -> (text:
    String)
    ensures
        text@ == status_words(cache_status(rows@, file_count)),
{
    ledger_status(rows, file_count).message()
}

} // verus!
