//! Reading a race time out of the text that a vision model returns, and the
//! rules around the calls to those models.
pub mod image_plan;
pub mod ocr;
pub mod providers;

use vstd::prelude::*;
use crate::decimal::{is_digit, digit_value, digit_char, decimal, lemma_digit_char, IntErrorKind, int_error_text, int_error_message};
use crate::duration::{Duration, NANOS_PER_MILLI};
use crate::text::{trim, eq_ignore_ascii_case};

verus! {

/// What can go wrong while reading a race time from an image.
#[derive(Debug, PartialEq, Eq)]
pub enum ExtractError {
    /// The HTTP client failed; the text is the client's own description of the failure.
    Http(String),
    /// A provider answered with a status other than success.
    ProviderStatus(String, u16),
    /// A provider's answer could not be decoded.
    ProviderDecode(String, String),
    /// A provider refused the request for now.
    RateLimited(String),
    /// The answer holds no race time.
    YellowMissing,
    /// The text is not a race time `m:ss.mmm`.
    InvalidFormat(String),
    /// The minutes could not be read as a number.
    MinutesParse(String),
    /// The seconds could not be read as a number.
    SecondsParse(String),
    /// The milliseconds could not be read as a number.
    MillisParse(String),
    /// No provider is configured.
    NoProviders,
    /// The image could not be decoded.
    ImageDecode(String),
    /// The image could not be encoded.
    ImageEncode(String),
    /// The image stays too large however far it is scaled down.
    ImageTooLarge,
}


/// The reason phrase that the `http` crate's `StatusCode::canonical_reason` gives
/// for a status code; `None` where it has none or the code is not a status code.
pub uninterp spec fn status_reason(code: u16) -> Option<Seq<char>>;

/// Looks up the reason phrase of a status code with `reqwest::StatusCode::from_u16`
/// and `canonical_reason`. The contract claims only that the phrase is a function
/// of the code.
#[verifier::external_body]
fn canonical_reason(code: u16) -> (r: Option<String>)
    ensures
        match r {
            Some(t) => status_reason(code) == Some(t@),
            None => status_reason(code) is None,
        },
{
    match reqwest::StatusCode::from_u16(code) {
        Ok(status) => match status.canonical_reason() {
            Some(text) => Some(text.to_string()),
            None => None,
        },
        Err(_) => None,
    }
}

/// The text of a status code, as `StatusCode` displays it: the number, a space,
/// and the reason phrase or `<unknown status code>`.
pub open spec fn status_text(code: u16) -> Seq<char> {
    decimal(code as nat) + seq![' '] + match status_reason(code) {
        Some(t) => t,
        None => "<unknown status code>"@,
    }
}

/// The text that describes an error.
pub open spec fn extract_error_text(e: ExtractError) -> Seq<char> {
    match e {
        ExtractError::Http(m) => "http: "@ + m@,
        ExtractError::ProviderStatus(p, code) => "provider "@ + p@ + " non-OK status: "@ + status_text(code),
        ExtractError::ProviderDecode(p, m) => "provider "@ + p@ + " decode: "@ + m@,
        ExtractError::RateLimited(p) => "rate limited by provider "@ + p@,
        ExtractError::YellowMissing => "no yellow time found"@,
        ExtractError::InvalidFormat(m) => "invalid time format: "@ + m@,
        ExtractError::MinutesParse(m) => "minutes parse: "@ + m@,
        ExtractError::SecondsParse(m) => "seconds parse: "@ + m@,
        ExtractError::MillisParse(m) => "milliseconds parse: "@ + m@,
        ExtractError::NoProviders => "no providers configured or available"@,
        ExtractError::ImageDecode(m) => "image decode: "@ + m@,
        ExtractError::ImageEncode(m) => "image encode: "@ + m@,
        ExtractError::ImageTooLarge => "image size still too large after downscaling"@,
    }
}

fn text_of(parts: &str) -> (r: String)
    ensures
        r@ == parts@,
{
    parts.to_string()
}

impl ExtractError {
    /// The text that describes the error.
    pub fn message(&self) -> (r: String)
        ensures
            r@ == extract_error_text(*self),
    {
        match self {
            ExtractError::Http(m) => {
                let mut s = text_of("http: ");
                s.append(m.as_str());
                s
            },
            ExtractError::ProviderStatus(p, code) => {
                let mut s = text_of("provider ");
                s.append(p.as_str());
                s.append(" non-OK status: ");
                let n = crate::decimal::u64_to_string(*code as u64);
                s.append(n.as_str());
                crate::text::push_char(&mut s, ' ');
                match canonical_reason(*code) {
                    Some(t) => s.append(t.as_str()),
                    None => s.append("<unknown status code>"),
                }
                assert(s@ =~= extract_error_text(*self));
                s
            },
            ExtractError::ProviderDecode(p, m) => {
                let mut s = text_of("provider ");
                s.append(p.as_str());
                s.append(" decode: ");
                s.append(m.as_str());
                s
            },
            ExtractError::RateLimited(p) => {
                let mut s = text_of("rate limited by provider ");
                s.append(p.as_str());
                s
            },
            ExtractError::YellowMissing => text_of("no yellow time found"),
            ExtractError::InvalidFormat(m) => {
                let mut s = text_of("invalid time format: ");
                s.append(m.as_str());
                s
            },
            ExtractError::MinutesParse(m) => {
                let mut s = text_of("minutes parse: ");
                s.append(m.as_str());
                s
            },
            ExtractError::SecondsParse(m) => {
                let mut s = text_of("seconds parse: ");
                s.append(m.as_str());
                s
            },
            ExtractError::MillisParse(m) => {
                let mut s = text_of("milliseconds parse: ");
                s.append(m.as_str());
                s
            },
            ExtractError::NoProviders => text_of("no providers configured or available"),
            ExtractError::ImageDecode(m) => {
                let mut s = text_of("image decode: ");
                s.append(m.as_str());
                s
            },
            ExtractError::ImageEncode(m) => {
                let mut s = text_of("image encode: ");
                s.append(m.as_str());
                s
            },
            ExtractError::ImageTooLarge => text_of("image size still too large after downscaling"),
        }
    }
}

/// Whether `c` is in the `regex` crate's class `\d` in Unicode mode: the Unicode
/// general category `Nd`.
pub uninterp spec fn regex_digit(c: char) -> bool;

/// Whether `c` is in the `regex` crate's class `\w` in Unicode mode: letters,
/// marks, `Nd` digits, connector punctuation and join controls.
pub uninterp spec fn regex_word(c: char) -> bool;

/// Tests one character against `\d` with `regex::Regex::is_match`. The contract
/// claims only that the answer is the class's.
#[verifier::external_body]
fn regex_digit_test(c: char) -> (r: bool)
    ensures
        r == regex_digit(c),
{
    match regex::Regex::new(r"\A\d\z") {
        Ok(re) => re.is_match(&c.to_string()),
        Err(_) => false,
    }
}

/// Tests one character against `\w` with `regex::Regex::is_match`. The contract
/// claims only that the answer is the class's.
#[verifier::external_body]
fn regex_word_test(c: char) -> (r: bool)
    ensures
        r == regex_word(c),
{
    match regex::Regex::new(r"\A\w\z") {
        Ok(re) => re.is_match(&c.to_string()),
        Err(_) => false,
    }
}

/// Whether `c` is ASCII.
pub open spec fn is_ascii_char(c: char) -> bool {
    (c as u32) < 128
}

/// Whether `c` is an ASCII letter, digit or `_`.
pub open spec fn is_word_char(c: char) -> bool {
    ||| ('a' <= c && c <= 'z')
    ||| ('A' <= c && c <= 'Z')
    ||| is_digit(c)
    ||| c == '_'
}

/// A digit of the race-time patterns (`\d`): among ASCII characters `0`..`9`,
/// beyond ASCII the Unicode decimal digits.
pub open spec fn pattern_digit(c: char) -> bool {
    if is_ascii_char(c) {
        is_digit(c)
    } else {
        regex_digit(c)
    }
}

/// A word character of the race-time search (`\w`): among ASCII characters the
/// letters, digits and `_`, beyond ASCII the Unicode word characters.
pub open spec fn pattern_word(c: char) -> bool {
    if is_ascii_char(c) {
        is_word_char(c)
    } else {
        regex_word(c)
    }
}

/// The shape of a race time `m:ss.mmm`: one digit of minutes, two of seconds
/// with the first from `0` to `5`, and three of milliseconds, and nothing else.
pub open spec fn is_strict_time(s: Seq<char>) -> bool {
    &&& s.len() == 8
    &&& pattern_digit(s[0])
    &&& s[1] == ':'
    &&& '0' <= s[2] && s[2] <= '5'
    &&& pattern_digit(s[3])
    &&& s[4] == '.'
    &&& pattern_digit(s[5])
    &&& pattern_digit(s[6])
    &&& pattern_digit(s[7])
}

/// A race time `m:ss.mmm` whose digits are all ASCII: one that reads as a number.
pub open spec fn is_ascii_time(s: Seq<char>) -> bool {
    &&& s.len() == 8
    &&& is_digit(s[0])
    &&& s[1] == ':'
    &&& '0' <= s[2] && s[2] <= '5'
    &&& is_digit(s[3])
    &&& s[4] == '.'
    &&& is_digit(s[5])
    &&& is_digit(s[6])
    &&& is_digit(s[7])
}

/// The whole seconds of a race time `m:ss.mmm`.
pub open spec fn strict_secs(s: Seq<char>) -> nat {
    digit_value(s[0]) * 60 + digit_value(s[2]) * 10 + digit_value(s[3])
}

/// The milliseconds of a race time `m:ss.mmm`.
pub open spec fn strict_millis(s: Seq<char>) -> nat {
    digit_value(s[5]) * 100 + digit_value(s[6]) * 10 + digit_value(s[7])
}

/// What reading `s` as a race time gives: its time where its digits are ASCII;
/// `InvalidFormat` with the text where it is not a race time; else the error of
/// the first part, minutes, seconds or milliseconds, whose digits `u64::from_str`
/// refuses.
pub open spec fn parsed_as(s: Seq<char>, r: Result<Duration, ExtractError>) -> bool {
    if is_ascii_time(s) {
        r matches Ok(d) && d.secs_spec() == strict_secs(s) && d.subsec_nanos_spec() == strict_millis(s)
            * (NANOS_PER_MILLI as nat)
    } else if !is_strict_time(s) {
        r matches Err(ExtractError::InvalidFormat(t)) && t@ == s
    } else if !is_digit(s[0]) {
        r matches Err(ExtractError::MinutesParse(m)) && m@ == int_error_text(IntErrorKind::InvalidDigit)
    } else if !is_digit(s[3]) {
        r matches Err(ExtractError::SecondsParse(m)) && m@ == int_error_text(IntErrorKind::InvalidDigit)
    } else {
        r matches Err(ExtractError::MillisParse(m)) && m@ == int_error_text(IntErrorKind::InvalidDigit)
    }
}

/// The text of the error that reading `s` as a race time gives, where it gives one.
pub open spec fn time_error_text(s: Seq<char>) -> Seq<char> {
    if !is_strict_time(s) {
        "invalid time format: "@ + s
    } else if !is_digit(s[0]) {
        "minutes parse: "@ + int_error_text(IntErrorKind::InvalidDigit)
    } else if !is_digit(s[3]) {
        "seconds parse: "@ + int_error_text(IntErrorKind::InvalidDigit)
    } else {
        "milliseconds parse: "@ + int_error_text(IntErrorKind::InvalidDigit)
    }
}

/// `text` padded on the left with `0` to `width` characters, as `{:0>width}` writes it.
pub open spec fn pad_zeros(text: Seq<char>, width: nat) -> Seq<char> {
    if text.len() >= width {
        text
    } else {
        Seq::new((width - text.len()) as nat, |i: int| '0') + text
    }
}

/// The text `m:ss.mmm` of a span of `secs` seconds and `nanos` nanoseconds: the
/// minutes in full, the seconds below a minute in two digits and the whole
/// milliseconds in three.
pub open spec fn duration_text(secs: nat, nanos: nat) -> Seq<char> {
    decimal(secs / 60) + seq![':'] + pad_zeros(decimal(secs % 60), 2) + seq!['.'] + pad_zeros(
        decimal(nanos / (NANOS_PER_MILLI as nat)),
        3,
    )
}

/// Whether a word character stands at index `k` of `t`; none stands outside it.
pub open spec fn word_at(t: Seq<char>, k: int) -> bool {
    0 <= k < t.len() && pattern_word(t[k])
}

/// A word boundary (`\b`) before index `k` of `t`: a word character on one side only.
pub open spec fn boundary(t: Seq<char>, k: int) -> bool {
    word_at(t, k - 1) != word_at(t, k)
}

/// A race time stands at `i` in `t` as a whole word.
pub open spec fn time_word_at(t: Seq<char>, i: int) -> bool {
    &&& 0 <= i
    &&& i + 8 <= t.len()
    &&& is_strict_time(t.subrange(i, i + 8))
    &&& boundary(t, i)
    &&& boundary(t, i + 8)
}

/// The first place at or after `from` where a race time stands as a whole word.
pub open spec fn first_time_word_from(t: Seq<char>, from: int) -> Option<int>
    decreases t.len() - from,
{
    if from < 0 || from + 8 > t.len() {
        None
    } else if time_word_at(t, from) {
        Some(from)
    } else {
        first_time_word_from(t, from + 1)
    }
}

/// A digit character spells its own value back.
proof fn lemma_digit_back(c: char)
    requires
        is_digit(c),
    ensures
        digit_char(digit_value(c)) == c,
        digit_value(c) < 10,
{
}

/// Two zero-padded digits of a number below one hundred.
pub proof fn lemma_pad2(v: nat)
    requires
        v < 100,
    ensures
        pad_zeros(decimal(v), 2) == seq![digit_char(v / 10), digit_char(v % 10)],
{
    reveal_with_fuel(decimal, 2);
    if v < 10 {
        assert(pad_zeros(decimal(v), 2) =~= seq![digit_char(0), digit_char(v)]);
    } else {
        assert(decimal(v / 10) == seq![digit_char(v / 10)]);
        assert(pad_zeros(decimal(v), 2) =~= seq![digit_char(v / 10), digit_char(v % 10)]);
    }
}

/// Three zero-padded digits of a number below one thousand.
pub proof fn lemma_pad3(v: nat)
    requires
        v < 1000,
    ensures
        pad_zeros(decimal(v), 3) == seq![
            digit_char(v / 100),
            digit_char((v / 10) % 10),
            digit_char(v % 10),
        ],
{
    reveal_with_fuel(decimal, 3);
    if v < 10 {
        assert(pad_zeros(decimal(v), 3) =~= seq![digit_char(0), digit_char(0), digit_char(v)]);
    } else if v < 100 {
        assert(decimal(v / 10) == seq![digit_char(v / 10)]);
        assert(pad_zeros(decimal(v), 3) =~= seq![
            digit_char(0),
            digit_char((v / 10) % 10),
            digit_char(v % 10),
        ]);
    } else {
        assert(decimal(v / 100) == seq![digit_char(v / 100)]);
        assert(decimal(v / 10) == seq![digit_char(v / 100), digit_char((v / 10) % 10)]);
        assert(pad_zeros(decimal(v), 3) =~= seq![
            digit_char(v / 100),
            digit_char((v / 10) % 10),
            digit_char(v % 10),
        ]);
    }
}


/// A race time whose digits are ASCII has the shape of one.
pub proof fn lemma_ascii_time_is_strict(s: Seq<char>)
    requires
        is_ascii_time(s),
    ensures
        is_strict_time(s),
{
}

/// Reading a race time and writing it back gives the same text.
pub proof fn lemma_time_text_roundtrip(s: Seq<char>)
    requires
        is_ascii_time(s),
    ensures
        duration_text(strict_secs(s), strict_millis(s) * (NANOS_PER_MILLI as nat)) == s,
{
    let secs = strict_secs(s);
    let ms = strict_millis(s);
    lemma_digit_back(s[0]);
    lemma_digit_back(s[3]);
    lemma_digit_back(s[5]);
    lemma_digit_back(s[6]);
    lemma_digit_back(s[7]);
    assert('0' <= s[2] <= '5');
    assert(is_digit(s[2]));
    lemma_digit_back(s[2]);
    let m = digit_value(s[0]);
    let sec = digit_value(s[2]) * 10 + digit_value(s[3]);
    assert(sec < 60);
    assert(secs / 60 == m);
    assert(secs % 60 == sec);
    assert((ms * 1_000_000) / 1_000_000 == ms) by (nonlinear_arith);
    lemma_pad2(sec);
    lemma_pad3(ms);
    reveal_with_fuel(decimal, 1);
    assert(decimal(m) == seq![s[0]]);
    assert(sec / 10 == digit_value(s[2]));
    assert(sec % 10 == digit_value(s[3]));
    assert(ms / 100 == digit_value(s[5]));
    assert((ms / 10) % 10 == digit_value(s[6]));
    assert(ms % 10 == digit_value(s[7]));
    assert(duration_text(secs, ms * 1_000_000) =~= s);
}

/// Writing a span below ten minutes in whole milliseconds and reading it back
/// gives the same span.
pub proof fn lemma_duration_text_roundtrip(secs: nat, nanos: nat)
    requires
        secs < 600,
        nanos < 1_000_000_000,
        nanos % (NANOS_PER_MILLI as nat) == 0,
    ensures
        is_ascii_time(duration_text(secs, nanos)),
        is_strict_time(duration_text(secs, nanos)),
        strict_secs(duration_text(secs, nanos)) == secs,
        strict_millis(duration_text(secs, nanos)) * (NANOS_PER_MILLI as nat) == nanos,
{
    let m = secs / 60;
    let sec = secs % 60;
    let ms = nanos / 1_000_000;
    lemma_digit_char(m);
    lemma_digit_char(sec / 10);
    lemma_digit_char(sec % 10);
    lemma_digit_char(ms / 100);
    lemma_digit_char((ms / 10) % 10);
    lemma_digit_char(ms % 10);
    lemma_pad2(sec);
    lemma_pad3(ms);
    reveal_with_fuel(decimal, 1);
    let t = duration_text(secs, nanos);
    assert(t =~= seq![
        digit_char(m),
        ':',
        digit_char(sec / 10),
        digit_char(sec % 10),
        '.',
        digit_char(ms / 100),
        digit_char((ms / 10) % 10),
        digit_char(ms % 10),
    ]);
    assert(digit_char(sec / 10) <= '5');
    assert(ms * 1_000_000 == nanos);
    lemma_ascii_time_is_strict(t);
}

/// A race time with nothing around it reads as itself.
pub proof fn lemma_answer_of_time(s: Seq<char>)
    requires
        is_ascii_time(s),
    ensures
        answer_time(s) == Some(s),
{
    crate::text::lemma_trim_unchanged(s);
    assert(crate::text::lower_ascii(s).len() != crate::text::lower_ascii(null_word()).len());
}

/// The word `null`.
pub open spec fn null_word() -> Seq<char> {
    seq!['n', 'u', 'l', 'l']
}

/// The race time that a model's answer holds, as text: the answer without
/// surrounding white space, if it is `null` in any case, holds none; if it is a
/// race time, that time; else the first race time in it that stands as a whole
/// word; else none.
pub open spec fn answer_time(text: Seq<char>) -> Option<Seq<char>> {
    let t = trim(text);
    if eq_ignore_ascii_case(t, null_word()) {
        None
    } else if is_strict_time(t) {
        Some(t)
    } else {
        match first_time_word_from(t, 0) {
            Some(i) => Some(t.subrange(i, i + 8)),
            None => None,
        }
    }
}

fn is_ascii_digit(c: char) -> (r: bool)
    ensures
        r == is_digit(c),
{
    '0' <= c && c <= '9'
}

/// `\d` of the race-time patterns.
fn digit_class(c: char) -> (r: bool)
    ensures
        r == pattern_digit(c),
{
    if (c as u32) < 128 {
        is_ascii_digit(c)
    } else {
        regex_digit_test(c)
    }
}

/// `\w` of the race-time search.
fn word_class(c: char) -> (r: bool)
    ensures
        r == pattern_word(c),
{
    if (c as u32) < 128 {
        ('a' <= c && c <= 'z') || ('A' <= c && c <= 'Z') || is_ascii_digit(c) || c == '_'
    } else {
        regex_word_test(c)
    }
}

fn digit_of(c: char) -> (d: u64)
    requires
        is_digit(c),
    ensures
        d == digit_value(c),
        d < 10,
{
    (c as u32 - 48u32) as u64
}

fn strict_time(s: &Vec<char>) -> (r: bool)
    ensures
        r == is_strict_time(s@),
{
    s.len() == 8 && digit_class(s[0]) && s[1] == ':' && '0' <= s[2] && s[2] <= '5'
        && digit_class(s[3]) && s[4] == '.' && digit_class(s[5]) && digit_class(s[6])
        && digit_class(s[7])
}

/// A race time from characters that are one, with ASCII digits.
fn strict_to_duration(s: &Vec<char>) -> (d: Duration)
    requires
        is_ascii_time(s@),
    ensures
        d.secs_spec() == strict_secs(s@),
        d.subsec_nanos_spec() == strict_millis(s@) * (NANOS_PER_MILLI as nat),
{
    let minutes = digit_of(s[0]);
    let seconds = digit_of(s[2]) * 10 + digit_of(s[3]);
    let millis = digit_of(s[5]) * 100 + digit_of(s[6]) * 10 + digit_of(s[7]);
    let a = Duration::from_secs(minutes * 60 + seconds);
    let b = Duration::from_millis(millis);
    a.add(b)
}

/// The error for a part of a race time whose digit `u64::from_str` refuses.
fn invalid_digit() -> (r: String)
    ensures
        r@ == int_error_text(IntErrorKind::InvalidDigit),
{
    int_error_message(IntErrorKind::InvalidDigit)
}

/// Reads a race time `m:ss.mmm` from characters.
fn parse_time_chars(cs: &Vec<char>) -> (r: Result<Duration, ExtractError>)
    ensures
        parsed_as(cs@, r),
        r matches Err(e) ==> extract_error_text(e) == time_error_text(cs@),
{
    if !strict_time(cs) {
        return Err(ExtractError::InvalidFormat(crate::text::string_of(cs)));
    }
    if !is_ascii_digit(cs[0]) {
        return Err(ExtractError::MinutesParse(invalid_digit()));
    }
    if !is_ascii_digit(cs[3]) {
        return Err(ExtractError::SecondsParse(invalid_digit()));
    }
    if !(is_ascii_digit(cs[5]) && is_ascii_digit(cs[6]) && is_ascii_digit(cs[7])) {
        return Err(ExtractError::MillisParse(invalid_digit()));
    }
    Ok(strict_to_duration(cs))
}

/// Reads a race time `m:ss.mmm`.
///
/// A race time with ASCII digits gives its time; any other text gives
/// `InvalidFormat` with the text, and a race time whose minutes, seconds or
/// milliseconds hold another Unicode digit gives the error of that part.
pub fn parse_duration(s: &str) -> (r: Result<Duration, ExtractError>)
    ensures
        parsed_as(s@, r),
        r matches Err(e) ==> extract_error_text(e) == time_error_text(s@),
{
    let cs = crate::text::chars_of(s);
    parse_time_chars(&cs)
}

/// The place that the search finds holds a race time standing as a whole word.
pub proof fn lemma_first_time_word(t: Seq<char>, from: int)
    ensures
        first_time_word_from(t, from) matches Some(i) ==> time_word_at(t, i),
    decreases t.len() - from,
{
    if from >= 0 && from + 8 <= t.len() && !time_word_at(t, from) {
        lemma_first_time_word(t, from + 1);
    }
}

/// Whether a word character stands at index `k` of `t`.
fn word_at_index(t: &Vec<char>, k: usize) -> (r: bool)
    ensures
        r == word_at(t@, k as int),
{
    k < t.len() && word_class(t[k])
}

/// Whether a word boundary stands before index `k` of `t`.
fn boundary_before(t: &Vec<char>, k: usize) -> (r: bool)
    ensures
        r == boundary(t@, k as int),
{
    let before = k > 0 && word_at_index(t, k - 1);
    before != word_at_index(t, k)
}

/// The eight characters of `t` from `i` on.
fn window(t: &Vec<char>, i: usize) -> (w: Vec<char>)
    requires
        i + 8 <= t@.len(),
    ensures
        w@ == t@.subrange(i as int, i + 8),
{
    let n: usize = t.len();
    let mut w: Vec<char> = Vec::new();
    let mut k: usize = 0;
    while k < 8
        invariant
            i + 8 <= t@.len(),
            n == t@.len(),
            k <= 8,
            w@ == t@.subrange(i as int, i + k),
        decreases 8 - k,
    {
        w.push(t[i + k]);
        assert(t@.subrange(i as int, i + k + 1) =~= t@.subrange(i as int, i + k).push(t@[i + k]));
        k = k + 1;
    }
    w
}

fn first_time_word(t: &Vec<char>) -> (r: Option<usize>)
    ensures
        r matches Some(i) ==> first_time_word_from(t@, 0) == Some(i as int),
        r is None ==> first_time_word_from(t@, 0) is None,
{
    if t.len() < 8 {
        return None;
    }
    let mut i: usize = 0;
    while i <= t.len() - 8
        invariant
            8 <= t@.len(),
            i <= t@.len() - 7,
            first_time_word_from(t@, 0) == first_time_word_from(t@, i as int),
        decreases t@.len() - i,
    {
        let w = window(t, i);
        if strict_time(&w) && boundary_before(t, i) && boundary_before(t, i + 8) {
            assert(time_word_at(t@, i as int));
            return Some(i);
        }
        assert(!time_word_at(t@, i as int));
        i = i + 1;
    }
    None
}

/// Reads the race time out of a model's answer: where the answer holds one, as
/// `answer_time` finds it, what reading it gives; else `YellowMissing`.
pub fn post_process_to_duration(text: &str) -> (r: Result<Duration, ExtractError>)
    ensures
        match answer_time(text@) {
            Some(w) => parsed_as(w, r),
            None => r matches Err(ExtractError::YellowMissing),
        },
{
    let cs = crate::text::chars_of(text);
    let t = crate::text::trim_chars(&cs);
    let null: Vec<char> = vec!['n', 'u', 'l', 'l'];
    assert(null@ =~= null_word());
    if crate::text::eq_ignore_ascii_case_chars(&t, &null) {
        return Err(ExtractError::YellowMissing);
    }
    if strict_time(&t) {
        return parse_time_chars(&t);
    }
    match first_time_word(&t) {
        Some(i) => {
            proof {
                lemma_first_time_word(t@, 0);
            }
            let w = window(&t, i);
            parse_time_chars(&w)
        },
        None => Err(ExtractError::YellowMissing),
    }
}

} // verus!
