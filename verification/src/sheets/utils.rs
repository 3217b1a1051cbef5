//! Addressing the spreadsheet in A1 notation, and reading the values of its cells.
use vstd::prelude::*;
use crate::decimal::{decimal, is_digit, parse_unsigned};
use crate::duration::{Duration, NANOS_PER_MILLI, NANOS_PER_SEC};
use crate::sheets::errors::DeserializeValueError;
use crate::sheets::records::Timestamp;
use crate::sheets::value::{JsonNumber, Value};

verus! {

/// `name!first:last`: every row of the columns `first` to `last` of a sheet.
pub open spec fn table_range_text(name: Seq<char>, first: Seq<char>, last: Seq<char>) -> Seq<
    char,
> {
    name + seq!['!'] + first + seq![':'] + last
}

/// `name!{first}{from}:{last}{to}`: the rows `from` to `to` of the columns `first` to `last`.
pub open spec fn rows_range_text(
    name: Seq<char>,
    first: Seq<char>,
    last: Seq<char>,
    from: nat,
    to: nat,
) -> Seq<char> {
    name + seq!['!'] + first + decimal(from) + seq![':'] + last + decimal(to)
}

/// Whether `c` is an ASCII capital letter, as a column name is made of.
pub open spec fn is_upper(c: char) -> bool {
    'A' <= c && c <= 'Z'
}

/// A column name: one or more ASCII capital letters.
pub open spec fn is_column(s: Seq<char>) -> bool {
    s.len() > 0 && forall|i: int| 0 <= i < s.len() ==> #[trigger] is_upper(s[i])
}

/// A sheet name that a range can be read back from: not empty, without `!`.
pub open spec fn is_sheet_name(s: Seq<char>) -> bool {
    s.len() > 0 && forall|i: int| 0 <= i < s.len() ==> #[trigger] s[i] != '!'
}

/// The index of the first `c` in `s` at or after `from`.
pub open spec fn index_of_from(s: Seq<char>, c: char, from: int) -> Option<int>
    decreases s.len() - from,
{
    if from < 0 || from >= s.len() {
        None
    } else if s[from] == c {
        Some(from)
    } else {
        index_of_from(s, c, from + 1)
    }
}

/// How many ASCII capital letters follow one another from `from` on.
pub open spec fn upper_run(s: Seq<char>, from: int) -> nat
    decreases s.len() - from,
{
    if 0 <= from < s.len() && is_upper(s[from]) {
        1 + upper_run(s, from + 1)
    } else {
        0
    }
}

/// How many ASCII digits follow one another from `from` on.
pub open spec fn digit_run(s: Seq<char>, from: int) -> nat
    decreases s.len() - from,
{
    if 0 <= from < s.len() && is_digit(s[from]) {
        1 + digit_run(s, from + 1)
    } else {
        0
    }
}

/// The rows that a range `sheet!A1:B2` spans, where it has that shape: a sheet
/// name without `!`, then `!`, letters, digits, `:`, letters, digits, and both
/// numbers fit in `usize`.
pub open spec fn range_rows(s: Seq<char>) -> Option<(nat, nat)> {
    match index_of_from(s, '!', 0) {
        None => None,
        Some(b) => {
            let p1 = b + 1;
            let q1 = p1 + upper_run(s, p1);
            let c = q1 + digit_run(s, q1);
            let p2 = c + 1;
            let q2 = p2 + upper_run(s, p2);
            let e = q2 + digit_run(s, q2);
            if b >= 1 && q1 > p1 && c > q1 && c < s.len() && s[c] == ':' && q2 > p2 && e > q2
                && e == s.len() {
                match (
                    parse_unsigned(s.subrange(q1, c), usize::MAX as nat),
                    parse_unsigned(s.subrange(q2, e), usize::MAX as nat),
                ) {
                    (Some(a), Some(z)) => Some((a, z)),
                    _ => None,
                }
            } else {
                None
            }
        },
    }
}


proof fn lemma_index_of_from(s: Seq<char>, c: char, from: int, at: int)
    requires
        0 <= from <= at < s.len(),
        s[at] == c,
        forall|i: int| from <= i < at ==> s[i] != c,
    ensures
        index_of_from(s, c, from) == Some(at),
    decreases at - from,
{
    if from < at {
        lemma_index_of_from(s, c, from + 1, at);
    }
}

proof fn lemma_upper_run(s: Seq<char>, p: int, k: int)
    requires
        0 <= p,
        0 <= k,
        p + k <= s.len(),
        forall|i: int| p <= i < p + k ==> #[trigger] is_upper(s[i]),
        p + k == s.len() || !is_upper(s[p + k]),
    ensures
        upper_run(s, p) == k,
    decreases k,
{
    if k > 0 {
        lemma_upper_run(s, p + 1, k - 1);
    }
}

proof fn lemma_digit_run(s: Seq<char>, p: int, k: int)
    requires
        0 <= p,
        0 <= k,
        p + k <= s.len(),
        forall|i: int| p <= i < p + k ==> #[trigger] is_digit(s[i]),
        p + k == s.len() || !is_digit(s[p + k]),
    ensures
        digit_run(s, p) == k,
    decreases k,
{
    if k > 0 {
        lemma_digit_run(s, p + 1, k - 1);
    }
}

/// Reading the rows back from a range of rows gives those rows.
pub proof fn lemma_rows_range_roundtrip(
    name: Seq<char>,
    first: Seq<char>,
    last: Seq<char>,
    from: nat,
    to: nat,
)
    requires
        is_sheet_name(name),
        is_column(first),
        is_column(last),
        from <= usize::MAX,
        to <= usize::MAX,
    ensures
        range_rows(rows_range_text(name, first, last, from, to)) == Some((from, to)),
{
    let s = rows_range_text(name, first, last, from, to);
    let da = decimal(from);
    let dz = decimal(to);
    crate::decimal::lemma_decimal_spells(from);
    crate::decimal::lemma_decimal_spells(to);
    crate::decimal::lemma_parse_decimal(from, usize::MAX as nat);
    crate::decimal::lemma_parse_decimal(to, usize::MAX as nat);
    let b = name.len() as int;
    let p1 = b + 1;
    let q1 = p1 + first.len();
    let c = q1 + da.len();
    let p2 = c + 1;
    let q2 = p2 + last.len();
    let e = q2 + dz.len();
    assert(s.len() == e);
    assert forall|i: int| 0 <= i < b implies s[i] != '!' by {
        assert(s[i] == name[i]);
    }
    lemma_index_of_from(s, '!', 0, b);
    assert forall|i: int| p1 <= i < q1 implies #[trigger] is_upper(s[i]) by {
        assert(s[i] == first[i - p1]);
    }
    assert(s[q1] == da[0]);
    assert(is_digit(da[0]));
    lemma_upper_run(s, p1, first.len() as int);
    assert forall|i: int| q1 <= i < c implies #[trigger] is_digit(s[i]) by {
        assert(s[i] == da[i - q1]);
    }
    assert(s[c] == ':');
    lemma_digit_run(s, q1, da.len() as int);
    assert forall|i: int| p2 <= i < q2 implies #[trigger] is_upper(s[i]) by {
        assert(s[i] == last[i - p2]);
    }
    assert(s[q2] == dz[0]);
    assert(is_digit(dz[0]));
    lemma_upper_run(s, p2, last.len() as int);
    assert forall|i: int| q2 <= i < e implies #[trigger] is_digit(s[i]) by {
        assert(s[i] == dz[i - q2]);
    }
    lemma_digit_run(s, q2, dz.len() as int);
    assert(s.subrange(q1, c) =~= da);
    assert(s.subrange(q2, e) =~= dz);
}

/// Ranges of the table of one kind of item.
pub trait DataRanges {
    /// The sheet's name.
    spec fn sheet_name_spec() -> Seq<char>;

    /// The first column of the table.
    spec fn first_column_spec() -> Seq<char>;

    /// The last column of the table.
    spec fn last_column_spec() -> Seq<char>;

    /// The sheet's name.
    fn sheet_name() -> (r: &'static str)
        ensures
            r@ == Self::sheet_name_spec(),
    ;

    /// The first column of the table.
    fn first_column() -> (r: &'static str)
        ensures
            r@ == Self::first_column_spec(),
    ;

    /// The last column of the table.
    fn last_column() -> (r: &'static str)
        ensures
            r@ == Self::last_column_spec(),
    ;

    /// The whole table: `sheet!first:last`.
    fn table_range() -> (r: String)
        ensures
            r@ == table_range_text(
                Self::sheet_name_spec(),
                Self::first_column_spec(),
                Self::last_column_spec(),
            ),
    {
        let mut out = String::new();
        out.append(Self::sheet_name());
        crate::text::push_char(&mut out, '!');
        out.append(Self::first_column());
        crate::text::push_char(&mut out, ':');
        out.append(Self::last_column());
        out
    }

    /// One row of the table: `sheet!{first}{row}:{last}{row}`.
    fn row_range(row: usize) -> (r: String)
        ensures
            r@ == rows_range_text(
                Self::sheet_name_spec(),
                Self::first_column_spec(),
                Self::last_column_spec(),
                row as nat,
                row as nat,
            ),
    {
        Self::rows_range(row, row)
    }

    /// The rows `from` to `to` of the table: `sheet!{first}{from}:{last}{to}`.
    fn rows_range(from: usize, to: usize) -> (r: String)
        ensures
            r@ == rows_range_text(
                Self::sheet_name_spec(),
                Self::first_column_spec(),
                Self::last_column_spec(),
                from as nat,
                to as nat,
            ),
    {
        let mut out = String::new();
        out.append(Self::sheet_name());
        crate::text::push_char(&mut out, '!');
        out.append(Self::first_column());
        let a = crate::decimal::usize_to_string(from);
        out.append(a.as_str());
        crate::text::push_char(&mut out, ':');
        out.append(Self::last_column());
        let b = crate::decimal::usize_to_string(to);
        out.append(b.as_str());
        out
    }

    /// One cell of the sheet: `sheet!{col}{row}:{col}{row}`.
    fn cell_range(row: usize, col: &str) -> (r: String)
        ensures
            r@ == rows_range_text(Self::sheet_name_spec(), col@, col@, row as nat, row as nat),
    {
        let mut out = String::new();
        out.append(Self::sheet_name());
        crate::text::push_char(&mut out, '!');
        out.append(col);
        let a = crate::decimal::usize_to_string(row);
        out.append(a.as_str());
        crate::text::push_char(&mut out, ':');
        out.append(col);
        out.append(a.as_str());
        out
    }

    /// One cell of the sheet, with the column given as an owned text.
    fn cell(row: usize, col: String) -> (r: String)
        ensures
            r@ == rows_range_text(Self::sheet_name_spec(), col@, col@, row as nat, row as nat),
    {
        Self::cell_range(row, col.as_str())
    }

    /// The first and last row of a range `sheet!A1:B2`; `None` for any other text.
    fn extract_rows_from_range(range: &str) -> (r: Option<(usize, usize)>)
        ensures
            r matches Some((a, b)) ==> range_rows(range@) == Some((a as nat, b as nat)),
            r is None ==> range_rows(range@) is None,
    {
        rows_of_range(range)
    }
}

pub(crate) fn index_of(s: &Vec<char>, c: char) -> (r: Option<usize>)
    ensures
        r matches Some(i) ==> index_of_from(s@, c, 0) == Some(i as int) && i < s@.len(),
        r is None ==> index_of_from(s@, c, 0) is None,
{
    let mut i: usize = 0;
    while i < s.len()
        invariant
            i <= s@.len(),
            index_of_from(s@, c, 0) == index_of_from(s@, c, i as int),
        decreases s@.len() - i,
    {
        if s[i] == c {
            return Some(i);
        }
        i = i + 1;
    }
    None
}

fn upper_run_at(s: &Vec<char>, from: usize) -> (r: usize)
    requires
        from <= s@.len(),
    ensures
        r == upper_run(s@, from as int),
        from + r <= s@.len(),
{
    let mut i: usize = from;
    while i < s.len() && 'A' <= s[i] && s[i] <= 'Z'
        invariant
            from <= i <= s@.len(),
            upper_run(s@, from as int) == (i - from) + upper_run(s@, i as int),
        decreases s@.len() - i,
    {
        i = i + 1;
    }
    i - from
}

fn digit_run_at(s: &Vec<char>, from: usize) -> (r: usize)
    requires
        from <= s@.len(),
    ensures
        r == digit_run(s@, from as int),
        from + r <= s@.len(),
{
    let mut i: usize = from;
    while i < s.len() && '0' <= s[i] && s[i] <= '9'
        invariant
            from <= i <= s@.len(),
            digit_run(s@, from as int) == (i - from) + digit_run(s@, i as int),
        decreases s@.len() - i,
    {
        i = i + 1;
    }
    i - from
}

pub(crate) fn sub_chars(s: &Vec<char>, a: usize, b: usize) -> (r: Vec<char>)
    requires
        a <= b <= s@.len(),
    ensures
        r@ == s@.subrange(a as int, b as int),
{
    let mut r: Vec<char> = Vec::new();
    let mut k: usize = a;
    while k < b
        invariant
            a <= k <= b <= s@.len(),
            r@ == s@.subrange(a as int, k as int),
        decreases b - k,
    {
        r.push(s[k]);
        assert(s@.subrange(a as int, k + 1) =~= s@.subrange(a as int, k as int).push(s@[k as int]));
        k = k + 1;
    }
    r
}

/// The first and last row of a range `sheet!A1:B2`; `None` for any other text.
pub fn rows_of_range(range: &str) -> (r: Option<(usize, usize)>)
    ensures
        r matches Some((a, b)) ==> range_rows(range@) == Some((a as nat, b as nat)),
        r is None ==> range_rows(range@) is None,
{
    let s = crate::text::chars_of(range);
    let b = match index_of(&s, '!') {
        None => return None,
        Some(b) => b,
    };
    let p1 = b + 1;
    let q1 = p1 + upper_run_at(&s, p1);
    let c = q1 + digit_run_at(&s, q1);
    if !(b >= 1 && q1 > p1 && c > q1 && c < s.len() && s[c] == ':') {
        return None;
    }
    let p2 = c + 1;
    let q2 = p2 + upper_run_at(&s, p2);
    let e = q2 + digit_run_at(&s, q2);
    if !(q2 > p2 && e > q2 && e == s.len()) {
        return None;
    }
    let first = crate::decimal::parse_usize(&sub_chars(&s, q1, c));
    let last = crate::decimal::parse_usize(&sub_chars(&s, q2, e));
    match (first, last) {
        (Some(x), Some(y)) => Some((x, y)),
        _ => None,
    }
}


/// How often `c` occurs in `s`.
pub open spec fn count_of(s: Seq<char>, c: char) -> nat
    decreases s.len(),
{
    if s.len() == 0 {
        0
    } else {
        count_of(s.drop_last(), c) + (if s.last() == c {
            1nat
        } else {
            0nat
        })
    }
}

/// `s.split(c)` where it gives exactly two pieces: the text before and after the one `c`.
pub open spec fn split_once(s: Seq<char>, c: char) -> Option<(Seq<char>, Seq<char>)> {
    if count_of(s, c) == 1 {
        match index_of_from(s, c, 0) {
            Some(i) => Some((s.subrange(0, i), s.subrange(i + 1, s.len() as int))),
            None => None,
        }
    } else {
        None
    }
}

/// How often `c` occurs in `s`.
pub(crate) fn count_in(s: &Vec<char>, c: char) -> (r: usize)
    ensures
        r == count_of(s@, c),
{
    let mut n: usize = 0;
    let mut i: usize = 0;
    while i < s.len()
        invariant
            i <= s@.len(),
            n == count_of(s@.subrange(0, i as int), c),
            n <= i,
        decreases s@.len() - i,
    {
        assert(s@.subrange(0, i + 1).drop_last() =~= s@.subrange(0, i as int));
        if s[i] == c {
            n = n + 1;
        }
        i = i + 1;
    }
    assert(s@.subrange(0, s@.len() as int) =~= s@);
    n
}

fn split_once_chars(s: &Vec<char>, c: char) -> (r: Option<(Vec<char>, Vec<char>)>)
    ensures
        r matches Some((a, b)) ==> split_once(s@, c) == Some((a@, b@)),
        r is None ==> split_once(s@, c) is None,
{
    if count_in(s, c) != 1 {
        return None;
    }
    Some(split_single(s, c))
}

/// The text before and after the one `c` in `s`.
pub(crate) fn split_single(s: &Vec<char>, c: char) -> (r: (Vec<char>, Vec<char>))
    requires
        count_of(s@, c) == 1,
    ensures
        split_once(s@, c) == Some((r.0@, r.1@)),
{
    let n = s.len();
    match index_of(s, c) {
        Some(i) => (sub_chars(s, 0, i), sub_chars(s, i + 1, n)),
        None => {
            proof {
                lemma_count_index(s@, c);
            }
            (Vec::new(), Vec::new())
        },
    }
}

proof fn lemma_count_index(s: Seq<char>, c: char)
    requires
        index_of_from(s, c, 0) is None,
    ensures
        count_of(s, c) == 0,
{
    lemma_no_index_no_count(s, c, s.len() as int);
    assert(s.subrange(0, s.len() as int) =~= s);
}

proof fn lemma_no_index_no_count(s: Seq<char>, c: char, k: int)
    requires
        0 <= k <= s.len(),
        index_of_from(s, c, 0) is None,
    ensures
        count_of(s.subrange(0, k), c) == 0,
    decreases k,
{
    if k > 0 {
        lemma_no_index_no_count(s, c, k - 1);
        assert(s.subrange(0, k).drop_last() =~= s.subrange(0, k - 1));
        lemma_index_none_at(s, c, 0, k - 1);
    }
}

proof fn lemma_index_none_at(s: Seq<char>, c: char, from: int, j: int)
    requires
        0 <= from <= j < s.len(),
        index_of_from(s, c, from) is None,
    ensures
        s[j] != c,
    decreases j - from,
{
    if from < j {
        lemma_index_none_at(s, c, from + 1, j);
    }
}

/// What a duration text `m:s.ms` of a sheet cell holds: the minutes, seconds and
/// milliseconds, each read by `u64::from_str`.
pub open spec fn sheet_duration_fields(s: Seq<char>) -> Option<(nat, nat, nat)> {
    match split_once(s, ':') {
        None => None,
        Some((m, rest)) => match split_once(rest, '.') {
            None => None,
            Some((sec, ms)) => match (
                parse_unsigned(m, u64::MAX as nat),
                parse_unsigned(sec, u64::MAX as nat),
                parse_unsigned(ms, u64::MAX as nat),
            ) {
                (Some(a), Some(b), Some(c)) => Some((a, b, c)),
                _ => None,
            },
        },
    }
}

/// Whether a duration text of a sheet cell can be read without overflow: where
/// it holds three numbers, the seconds they add up to fit in `u64`.
pub fn duration_text_in_range(text: &str) -> (r: bool)
    ensures
        r == duration_text_fits(text@),
{
    let cs = crate::text::chars_of(text);
    let (m, rest) = match split_once_chars(&cs, ':') {
        None => {
            return true;
        },
        Some(p) => p,
    };
    let (sec, ms) = match split_once_chars(&rest, '.') {
        None => {
            return true;
        },
        Some(p) => p,
    };
    match (
        crate::decimal::parse_u64(&m),
        crate::decimal::parse_u64(&sec),
        crate::decimal::parse_u64(&ms),
    ) {
        (Some(a), Some(b), Some(c)) => {
            let total: u128 = (a as u128) * 60 + (b as u128) + (c as u128) / 1000;
            total <= u64::MAX as u128
        },
        _ => true,
    }
}

/// The message when a duration text does not hold exactly one colon.
pub const COLON_MESSAGE: &'static str =
    "String must contain exactly one colon, between the minutes and seconds place";

/// The message when a duration text does not hold exactly one period after the colon.
pub const PERIOD_MESSAGE: &'static str =
    "String must contain exactly one period, between the seconds and milliseconds place";

/// The message when the minutes of a duration text are not a number.
pub const MINUTES_MESSAGE: &'static str = "Minutes part must represent a valid number";

/// The message when the seconds of a duration text are not a number.
pub const SECONDS_MESSAGE: &'static str = "Seconds part must represent a valid number";

/// The message when the milliseconds of a duration text are not a number.
pub const MILLIS_MESSAGE: &'static str = "Milliseconds part must represent a valid number";

/// Whether a duration text of a sheet cell can be read without overflow: where
/// it holds three numbers, the seconds they add up to fit in `u64`.
pub open spec fn duration_text_fits(text: Seq<char>) -> bool {
    sheet_duration_fields(text) matches Some((m, s, ms)) ==> m * 60 + s + ms / 1000 <= u64::MAX
}

/// What reading a duration text `m:s.ms` of a sheet cell gives: exactly one `:`,
/// then exactly one `.`, and three numbers; the milliseconds count as written. A
/// text without one colon, or without one period after it, is `InvalidFormat` of
/// the whole text; a part that is not a number is `InvalidFormat` of the minutes text.
pub open spec fn duration_text_read(text: Seq<char>, r: Result<Duration, DeserializeValueError>) -> bool {
    &&& match split_once(text, ':') {
        None => r matches Err(
            DeserializeValueError::InvalidFormat { input, output_type, message },
        ) && input@ == text && output_type == "Duration" && message == COLON_MESSAGE,
        Some((m, rest)) => match parse_unsigned(m, u64::MAX as nat) {
            None => r matches Err(
                DeserializeValueError::InvalidFormat { input, output_type, message },
            ) && input@ == m && output_type == "u64" && message == MINUTES_MESSAGE,
            Some(_) => match split_once(rest, '.') {
                None => r matches Err(
                    DeserializeValueError::InvalidFormat { input, output_type, message },
                ) && input@ == text && output_type == "Duration" && message
                    == PERIOD_MESSAGE,
                Some((sec, ms)) => match (
                    parse_unsigned(sec, u64::MAX as nat),
                    parse_unsigned(ms, u64::MAX as nat),
                ) {
                    (None, _) => r matches Err(
                        DeserializeValueError::InvalidFormat { input, output_type, message },
                    ) && input@ == m && output_type == "u64" && message == SECONDS_MESSAGE,
                    (Some(_), None) => r matches Err(
                        DeserializeValueError::InvalidFormat { input, output_type, message },
                    ) && input@ == m && output_type == "u64" && message == MILLIS_MESSAGE,
                    (Some(_), Some(_)) => true,
                },
            },
        },
    }
    &&& (sheet_duration_fields(text) matches Some((m, s, ms)) ==> r matches Ok(d)
        && d.secs_spec() == m * 60 + s + ms / 1000 && d.subsec_nanos_spec() == (ms % 1000)
        * (NANOS_PER_MILLI as nat))
}

/// Reads a duration text `m:s.ms` of a sheet cell, as `duration_text_read` says.
pub fn get_duration_from_text(text: &str) -> (r: Result<Duration, DeserializeValueError>)
    requires
        duration_text_fits(text@),
    ensures
        duration_text_read(text@, r),
{
    let cs = crate::text::chars_of(text);
    let (m, rest) = match split_once_chars(&cs, ':') {
        None => {
            return Err(
                DeserializeValueError::InvalidFormat {
                    input: crate::text::string_of(&cs),
                    output_type: "Duration",
                    message: COLON_MESSAGE,
                },
            );
        },
        Some(p) => p,
    };
    let minutes = match crate::decimal::parse_u64(&m) {
        None => {
            return Err(
                DeserializeValueError::InvalidFormat {
                    input: crate::text::string_of(&m),
                    output_type: "u64",
                    message: MINUTES_MESSAGE,
                },
            );
        },
        Some(v) => v,
    };
    let (sec, ms) = match split_once_chars(&rest, '.') {
        None => {
            return Err(
                DeserializeValueError::InvalidFormat {
                    input: crate::text::string_of(&cs),
                    output_type: "Duration",
                    message: PERIOD_MESSAGE,
                },
            );
        },
        Some(p) => p,
    };
    let seconds = match crate::decimal::parse_u64(&sec) {
        None => {
            return Err(
                DeserializeValueError::InvalidFormat {
                    input: crate::text::string_of(&m),
                    output_type: "u64",
                    message: SECONDS_MESSAGE,
                },
            );
        },
        Some(v) => v,
    };
    let millis = match crate::decimal::parse_u64(&ms) {
        None => {
            return Err(
                DeserializeValueError::InvalidFormat {
                    input: crate::text::string_of(&m),
                    output_type: "u64",
                    message: MILLIS_MESSAGE,
                },
            );
        },
        Some(v) => v,
    };
    let a = Duration::from_secs(minutes * 60 + seconds);
    let b = Duration::from_millis(millis);
    assert(a.total_nanos() + b.total_nanos() < (u64::MAX as nat + 1) * (NANOS_PER_SEC as nat))
        by (nonlinear_arith)
        requires
            a.secs_spec() + b.secs_spec() <= u64::MAX,
            a.subsec_nanos_spec() == 0,
            b.subsec_nanos_spec() < 1_000_000_000,
            a.total_nanos() == a.secs_spec() * 1_000_000_000 + a.subsec_nanos_spec(),
            b.total_nanos() == b.secs_spec() * 1_000_000_000 + b.subsec_nanos_spec(),
    ;
    Ok(a.add(b))
}

/// The format of a date and time text in the sheet: `dd-mm-yyyy hh:mm:ss`.
pub const SHEET_DATETIME_FORMAT: &'static str = "%d-%m-%Y %H:%M:%S";

/// The date and time that `chrono::NaiveDateTime::parse_from_str` reads from
/// `text` in `format`, taken as UTC: the seconds since 1970-01-01 and the
/// nanoseconds after them; `None` where it reads none.
pub uninterp spec fn utc_datetime_of(text: Seq<char>, format: Seq<char>) -> Option<(i64, u32)>;

/// Reads a date and time with `chrono::NaiveDateTime::parse_from_str` and takes
/// it as UTC with `TimeZone::from_utc_datetime`. The contract claims only that
/// the answer is a function of the text and the format.
#[verifier::external_body]
pub(crate) fn parse_utc_datetime(text: &str, format: &str) -> (r: Option<(i64, u32)>)
    ensures
        r == utc_datetime_of(text@, format@),
{
    match chrono::NaiveDateTime::parse_from_str(text, format) {
        Ok(naive) => {
            let utc = chrono::TimeZone::from_utc_datetime(&chrono::Utc, &naive);
            Some((utc.timestamp(), utc.timestamp_subsec_nanos()))
        },
        Err(_) => None,
    }
}

/// Reads a date and time cell text `dd-mm-yyyy hh:mm:ss` as a UTC time; a text
/// that does not read gives `ExtractValue` of the cell.
pub fn get_timestamp_from_text(text: &String) -> (r: Result<Timestamp, DeserializeValueError>)
    ensures
        match utc_datetime_of(text@, SHEET_DATETIME_FORMAT@) {
            Some((secs, nanos)) => r matches Ok(t) && t.unix_seconds == secs && t.nanos == nanos,
            None => r matches Err(
                DeserializeValueError::ExtractValue { input_value: Value::String(v), output_type },
            ) && v@ == text@ && output_type == "Timestamp",
        },
{
    match parse_utc_datetime(text.as_str(), SHEET_DATETIME_FORMAT) {
        Some((secs, nanos)) => Ok(Timestamp { unix_seconds: secs, nanos }),
        None => Err(
            DeserializeValueError::ExtractValue {
                input_value: Value::String(text.clone()),
                output_type: "Timestamp",
            },
        ),
    }
}

/// Reads a race-time cell: a number cell by `from_number`, which reads it as
/// a fraction of a day; a text cell as `duration_text_read` says; any other
/// cell gives `UnexpectedValueType`.
pub fn get_duration<F>(value: &Value, from_number: &F) -> (r: Result<Duration, DeserializeValueError>) where
    F: Fn(&Value) -> Result<Duration, DeserializeValueError>,

    requires
        forall|v: &Value| from_number.requires((v,)),
        value matches Value::String(t) ==> duration_text_fits(t@),
    ensures
        value is Number ==> from_number.ensures((value,), r),
        value matches Value::String(t) ==> duration_text_read(t@, r),
        !(value is Number || value is String) ==> (r matches Err(
            DeserializeValueError::UnexpectedValueType { input_value, allowed_inputs, intended_output },
        ) && input_value == *value && allowed_inputs == "Number, String" && intended_output
            == "Duration"),
{
    match value {
        Value::Number(_) => from_number(value),
        Value::String(text) => get_duration_from_text(text.as_str()),
        _ => Err(
            DeserializeValueError::UnexpectedValueType {
                input_value: value.deep_clone(),
                allowed_inputs: "Number, String",
                intended_output: "Duration",
            },
        ),
    }
}

/// Reads a report-time cell: a text cell as a UTC time `dd-mm-yyyy hh:mm:ss`
/// (`ExtractValue` of the cell where it does not read); a number cell by
/// `from_number`, which reads it as days since the sheets' epoch; any other cell
/// gives `UnexpectedValueType`.
pub fn get_timestamp<F>(value: &Value, from_number: &F) -> (r: Result<Timestamp, DeserializeValueError>) where
    F: Fn(&Value) -> Result<Timestamp, DeserializeValueError>,

    requires
        forall|v: &Value| from_number.requires((v,)),
    ensures
        value is Number ==> from_number.ensures((value,), r),
        value matches Value::String(t) ==> match utc_datetime_of(t@, SHEET_DATETIME_FORMAT@) {
            Some((secs, nanos)) => r matches Ok(ts) && ts.unix_seconds == secs && ts.nanos == nanos,
            None => r matches Err(
                DeserializeValueError::ExtractValue { input_value: Value::String(v), output_type },
            ) && v@ == t@ && output_type == "Timestamp",
        },
        !(value is Number || value is String) ==> (r matches Err(
            DeserializeValueError::UnexpectedValueType { input_value, allowed_inputs, intended_output },
        ) && input_value == *value && allowed_inputs == "String, Number" && intended_output
            == "Timestamp"),
{
    match value {
        Value::String(text) => get_timestamp_from_text(text),
        Value::Number(_) => from_number(value),
        _ => Err(
            DeserializeValueError::UnexpectedValueType {
                input_value: value.deep_clone(),
                allowed_inputs: "String, Number",
                intended_output: "Timestamp",
            },
        ),
    }
}

/// The wall-clock reading in Amsterdam at a UTC time, as the seconds since
/// 1970-01-01 that the same reading has in UTC; `None` where `chrono` cannot
/// hold the UTC time or the wall-clock reading.
pub uninterp spec fn amsterdam_wall_seconds(unix_seconds: i64, nanos: u32) -> Option<i64>;

/// Turns a UTC time into the Amsterdam wall-clock reading: the time zone's
/// offset at that time from `DateTime::with_timezone(&chrono_tz::Europe::Amsterdam)`,
/// added to the UTC reading with `NaiveDateTime::checked_add_offset`, which
/// gives `None` where the reading leaves `chrono`'s range. The contract claims
/// only that the answer is a function of the time.
#[verifier::external_body]
fn amsterdam_wall_clock(unix_seconds: i64, nanos: u32) -> (r: Option<i64>)
    ensures
        r == amsterdam_wall_seconds(unix_seconds, nanos),
{
    match chrono::DateTime::from_timestamp(unix_seconds, nanos) {
        Some(utc) => {
            let local = utc.with_timezone(&chrono_tz::Europe::Amsterdam);
            match local.naive_utc().checked_add_offset(chrono::Offset::fix(local.offset())) {
                Some(reading) => Some(reading.and_utc().timestamp()),
                None => None,
            }
        },
        None => None,
    }
}

/// The wall-clock reading in Amsterdam at `timestamp`, as seconds since
/// 1970-01-01 of the same reading in UTC: the time the sheet shows a report at;
/// `None` where `chrono` cannot hold the time or the reading.
pub fn amsterdam_local_seconds(timestamp: Timestamp) -> (r: Option<i64>)
    ensures
        r == amsterdam_wall_seconds(timestamp.unix_seconds, timestamp.nanos),
{
    amsterdam_wall_clock(timestamp.unix_seconds, timestamp.nanos)
}

/// The earliest whole second after 1970-01-01 UTC that `chrono` can hold: the
/// start of 1 January of the year -262143.
pub const CHRONO_MIN_SECONDS: i64 = -8_334_601_228_800;

/// The last whole second after 1970-01-01 UTC that `chrono` can hold: the end
/// of 31 December of the year 262142.
pub const CHRONO_MAX_SECONDS: i64 = 8_210_266_876_799;

/// Whether `chrono` can hold a time this many seconds after 1970-01-01 UTC: its
/// dates run from the year -262143 to the year 262142.
pub open spec fn chrono_holds_seconds(unix_seconds: i64) -> bool {
    CHRONO_MIN_SECONDS <= unix_seconds <= CHRONO_MAX_SECONDS
}

/// Makes a UTC time from whole seconds with `chrono::DateTime::from_timestamp`
/// and reads its seconds and nanoseconds back. The contract claims that it gives
/// the same seconds and no nanoseconds, as the documentation of `from_timestamp`
/// and `timestamp` says, and `None` exactly outside `chrono`'s range of dates,
/// `NaiveDate::MIN` to `NaiveDate::MAX`.
#[verifier::external_body]
fn utc_from_seconds(unix_seconds: i64) -> (r: Option<(i64, u32)>)
    ensures
        r is Some <==> chrono_holds_seconds(unix_seconds),
        r matches Some((s, n)) ==> s == unix_seconds && n == 0,
{
    match chrono::DateTime::from_timestamp(unix_seconds, 0) {
        Some(utc) => Some((utc.timestamp(), utc.timestamp_subsec_nanos())),
        None => None,
    }
}

/// The time `unix_seconds` whole seconds after 1970-01-01 UTC, where `chrono`
/// can hold it.
pub fn timestamp_from_seconds(unix_seconds: i64) -> (r: Option<Timestamp>)
    ensures
        chrono_holds_seconds(unix_seconds) ==> (r matches Some(t) && t.unix_seconds == unix_seconds
            && t.nanos == 0),
        !chrono_holds_seconds(unix_seconds) ==> r is None,
{
    match utc_from_seconds(unix_seconds) {
        Some((secs, nanos)) => Some(Timestamp { unix_seconds: secs, nanos }),
        None => None,
    }
}

/// What reading a cell as an unsigned integer gives: a number that is one, or a
/// text that `u64::from_str` reads as one; else the error for that kind of cell.
pub open spec fn cell_u64(value: Value) -> Result<u64, DeserializeValueError> {
    match value {
        Value::Number(n) => match n.as_u64_spec() {
            Some(v) => Ok(v),
            None => Err(DeserializeValueError::ExtractValue { input_value: value, output_type: "u64" }),
        },
        Value::String(text) => match parse_unsigned(text@, u64::MAX as nat) {
            Some(v) => Ok(v as u64),
            None => Err(DeserializeValueError::TypeConversion { input: text, output_type: "u64" }),
        },
        _ => Err(
            DeserializeValueError::UnexpectedValueType {
                input_value: value,
                allowed_inputs: "Number, String",
                intended_output: "u64",
            },
        ),
    }
}

/// What reading a cell as a text gives: only a text cell is one.
pub open spec fn cell_string(value: Value) -> Result<String, DeserializeValueError> {
    match value {
        Value::String(text) => Ok(text),
        _ => Err(
            DeserializeValueError::UnexpectedValueType {
                input_value: value,
                allowed_inputs: "String",
                intended_output: "String",
            },
        ),
    }
}

/// Reads a cell as an unsigned integer: a number that is one, or a text that
/// `u64::from_str` reads as one.
pub fn get_u64(value: &Value) -> (r: Result<u64, DeserializeValueError>)
    ensures
        r == cell_u64(*value),
{
    match value {
        Value::Number(number) => match number.as_u64() {
            Some(v) => Ok(v),
            None => Err(
                DeserializeValueError::ExtractValue {
                    input_value: value.deep_clone(),
                    output_type: "u64",
                },
            ),
        },
        Value::String(text) => {
            let cs = crate::text::chars_of(text.as_str());
            match crate::decimal::parse_u64(&cs) {
                Some(v) => Ok(v),
                None => Err(
                    DeserializeValueError::TypeConversion { input: text.clone(), output_type: "u64" },
                ),
            }
        },
        _ => Err(
            DeserializeValueError::UnexpectedValueType {
                input_value: value.deep_clone(),
                allowed_inputs: "Number, String",
                intended_output: "u64",
            },
        ),
    }
}

/// Reads a cell as a text: only a text cell is one.
pub fn get_string(value: &Value) -> (r: Result<String, DeserializeValueError>)
    ensures
        r == cell_string(*value),
{
    match value {
        Value::String(name) => Ok(name.clone()),
        val => Err(
            DeserializeValueError::UnexpectedValueType {
                input_value: val.deep_clone(),
                allowed_inputs: "String",
                intended_output: "String",
            },
        ),
    }
}

} // verus!
