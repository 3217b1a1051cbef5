//! Reading a race time written loosely as `m:ss.mmm`: any number of minute and
//! second digits, and one to three digits of milliseconds.
use vstd::prelude::*;
use crate::decimal::{int_error_text, parse_u64_detailed, IntErrorKind};
use crate::duration::{Duration, NANOS_PER_MILLI, NANOS_PER_SEC};
use crate::sheets::utils::{count_in, count_of, split_once, split_single};

verus! {

/// The number of UTF-8 bytes of a character.
pub open spec fn char_utf8_len(c: char) -> nat {
    if (c as u32) < 0x80 {
        1
    } else if (c as u32) < 0x800 {
        2
    } else if (c as u32) < 0x10000 {
        3
    } else {
        4
    }
}

/// The number of UTF-8 bytes of a text: what `str::len` gives.
pub open spec fn utf8_len(s: Seq<char>) -> nat
    decreases s.len(),
{
    if s.len() == 0 {
        0
    } else {
        utf8_len(s.drop_last()) + char_utf8_len(s.last())
    }
}

/// `10` to the power `e`.
pub open spec fn pow10(e: nat) -> nat
    decreases e,
{
    if e == 0 {
        1
    } else {
        10 * pow10((e - 1) as nat)
    }
}

/// `'` + `t` + `'`.
pub open spec fn quoted(t: Seq<char>) -> Seq<char> {
    "'"@ + t + "'"@
}

/// The seconds and milliseconds that a loose race time `m:s.ms` spells, or the
/// text of the first thing wrong with it: the colon, the minutes, the period, the
/// seconds, the length of the milliseconds in bytes (one to three), the milliseconds.
/// Milliseconds with fewer than three digits count as tenths or hundredths.
pub open spec fn loose_time(s: Seq<char>) -> Result<(nat, nat), Seq<char>> {
    if count_of(s, ':') == 0 {
        Err("Missing seconds in "@ + quoted(s))
    } else if count_of(s, ':') > 1 {
        Err("Unexpected extra ':' in "@ + quoted(s))
    } else {
        let (m, sm) = split_once(s, ':')->Some_0;
        match parse_u64_detailed(m) {
            Err(k) => Err("Invalid minutes "@ + quoted(m) + " in "@ + quoted(s) + ": "@ + int_error_text(k)),
            Ok(minutes) => if count_of(sm, '.') == 0 {
                Err("Missing milliseconds after '.' in "@ + quoted(s))
            } else if count_of(sm, '.') > 1 {
                Err("Unexpected extra '.' in seconds part of "@ + quoted(s))
            } else {
                let (sec, ms) = split_once(sm, '.')->Some_0;
                match parse_u64_detailed(sec) {
                    Err(k) => Err(
                        "Invalid seconds "@ + quoted(sec) + " in "@ + quoted(s) + ": "@ + int_error_text(k),
                    ),
                    Ok(seconds) => if utf8_len(ms) < 1 || utf8_len(ms) > 3 {
                        Err("Milliseconds must be 1\u{2013}3 digits in "@ + quoted(s))
                    } else {
                        match parse_u64_detailed(ms) {
                            Err(k) => Err(
                                "Invalid millis "@ + quoted(ms) + " in "@ + quoted(s) + ": "@
                                    + int_error_text(k),
                            ),
                            Ok(raw) => Ok(
                                (minutes * 60 + seconds, raw * pow10((3 - utf8_len(ms)) as nat)),
                            ),
                        }
                    },
                }
            },
        }
    }
}

fn utf8_len_up_to_four(s: &Vec<char>) -> (r: usize)
    ensures
        r == (if utf8_len(s@) < 4 {
            utf8_len(s@)
        } else {
            4
        }),
{
    let mut n: usize = 0;
    let mut i: usize = 0;
    while i < s.len() && n < 4
        invariant
            i <= s@.len(),
            n == utf8_len(s@.subrange(0, i as int)),
            n <= 7,
        decreases s@.len() - i,
    {
        assert(s@.subrange(0, i + 1).drop_last() =~= s@.subrange(0, i as int));
        let c = s[i] as u32;
        n = n + if c < 0x80 {
            1
        } else if c < 0x800 {
            2
        } else if c < 0x10000 {
            3
        } else {
            4
        };
        i = i + 1;
    }
    proof {
        lemma_utf8_len_grows(s@, i as int);
        if i == s@.len() {
            assert(s@.subrange(0, i as int) =~= s@);
        }
    }
    if n < 4 {
        n
    } else {
        4
    }
}

proof fn lemma_utf8_len_grows(s: Seq<char>, k: int)
    requires
        0 <= k <= s.len(),
    ensures
        utf8_len(s.subrange(0, k)) <= utf8_len(s),
    decreases s.len() - k,
{
    if k < s.len() {
        lemma_utf8_len_grows(s, k + 1);
        assert(s.subrange(0, k + 1).drop_last() =~= s.subrange(0, k));
    } else {
        assert(s.subrange(0, k) =~= s);
    }
}

fn push_quoted(out: &mut String, t: &Vec<char>)
    ensures
        final(out)@ == old(out)@ + quoted(t@),
{
    crate::text::push_char(out, '\'');
    crate::text::push_chars(out, t);
    crate::text::push_char(out, '\'');
    proof {
        reveal_strlit("'");
    }
    assert(final(out)@ =~= old(out)@ + quoted(t@));
}

fn parse_error_message(what: &str, part: &Vec<char>, s: &Vec<char>, k: IntErrorKind) -> (r: String)
    ensures
        r@ == what@ + quoted(part@) + " in "@ + quoted(s@) + ": "@ + int_error_text(k),
{
    let mut out = what.to_string();
    push_quoted(&mut out, part);
    out.append(" in ");
    push_quoted(&mut out, s);
    out.append(": ");
    let m = crate::decimal::int_error_message(k);
    out.append(m.as_str());
    out
}

fn whole_message(what: &str, s: &Vec<char>) -> (r: String)
    ensures
        r@ == what@ + quoted(s@),
{
    let mut out = what.to_string();
    push_quoted(&mut out, s);
    out
}

/// Whether a loose race time can be read without overflow: where it reads, its
/// seconds fit in `u64`.
pub fn loose_time_in_range(s: &str) -> (r: bool)
    ensures
        r == (loose_time(s@) matches Ok((secs, _)) ==> secs <= u64::MAX),
{
    let cs = crate::text::chars_of(s);
    if count_in(&cs, ':') != 1 {
        return true;
    }
    let (m, sm) = split_single(&cs, ':');
    let minutes = match crate::decimal::parse_u64_with_error(&m) {
        Err(_) => {
            return true;
        },
        Ok(v) => v,
    };
    if count_in(&sm, '.') != 1 {
        return true;
    }
    let (sec, ms) = split_single(&sm, '.');
    let seconds = match crate::decimal::parse_u64_with_error(&sec) {
        Err(_) => {
            return true;
        },
        Ok(v) => v,
    };
    let len = utf8_len_up_to_four(&ms);
    if len < 1 || len > 3 {
        return true;
    }
    match crate::decimal::parse_u64_with_error(&ms) {
        Err(_) => true,
        Ok(_) => (minutes as u128) * 60 + (seconds as u128) <= u64::MAX as u128,
    }
}

/// Reads a loose race time `m:s.ms`: exactly one colon and, after it, exactly
/// one period; minutes and seconds as `u64::from_str` reads them; one to three
/// bytes of milliseconds, fewer digits counting as tenths or hundredths. The
/// error is the text of the first thing wrong, as the reading reports it.
#[verifier::rlimit(30)]
pub fn parse_duration(s: &str) -> (r: Result<Duration, String>)
    requires
        loose_time(s@) matches Ok((secs, _)) ==> secs <= u64::MAX,
    ensures
        match loose_time(s@) {
            Ok((secs, millis)) => r matches Ok(d) && d.secs_spec() == secs && d.subsec_nanos_spec()
                == millis * (NANOS_PER_MILLI as nat),
            Err(m) => r matches Err(t) && t@ == m,
        },
{
    let cs = crate::text::chars_of(s);
    let colons = count_in(&cs, ':');
    if colons == 0 {
        return Err(whole_message("Missing seconds in ", &cs));
    }
    if colons > 1 {
        return Err(whole_message("Unexpected extra ':' in ", &cs));
    }
    let (m, sm) = split_single(&cs, ':');
    let minutes = match crate::decimal::parse_u64_with_error(&m) {
        Err(k) => {
            return Err(parse_error_message("Invalid minutes ", &m, &cs, k));
        },
        Ok(v) => v,
    };
    assert(parse_u64_detailed(m@) == Ok::<nat, IntErrorKind>(minutes as nat));
    let periods = count_in(&sm, '.');
    if periods == 0 {
        return Err(whole_message("Missing milliseconds after '.' in ", &cs));
    }
    if periods > 1 {
        return Err(whole_message("Unexpected extra '.' in seconds part of ", &cs));
    }
    let (sec, ms) = split_single(&sm, '.');
    let seconds = match crate::decimal::parse_u64_with_error(&sec) {
        Err(k) => {
            return Err(parse_error_message("Invalid seconds ", &sec, &cs, k));
        },
        Ok(v) => v,
    };
    assert(parse_u64_detailed(sec@) == Ok::<nat, IntErrorKind>(seconds as nat));
    let len = utf8_len_up_to_four(&ms);
    if len < 1 || len > 3 {
        return Err(whole_message("Milliseconds must be 1\u{2013}3 digits in ", &cs));
    }
    let raw = match crate::decimal::parse_u64_with_error(&ms) {
        Err(k) => {
            return Err(parse_error_message("Invalid millis ", &ms, &cs, k));
        },
        Ok(v) => v,
    };
    assert(parse_u64_detailed(ms@) == Ok::<nat, IntErrorKind>(raw as nat));
    proof {
        lemma_utf8_len_at_least(ms@);
        lemma_short_number(ms@, raw as nat);
    }
    let millis: u64 = if len == 1 {
        raw * 100
    } else if len == 2 {
        raw * 10
    } else {
        raw
    };
    assert(pow10(0) == 1 && pow10(1) == 10 && pow10(2) == 100) by {
        reveal_with_fuel(pow10, 3);
    }
    assert(len == utf8_len(ms@));
    assert(millis == raw * pow10((3 - utf8_len(ms@)) as nat));
    assert(millis < 1000);
    let ghost secs = minutes * 60 + seconds;
    assert(loose_time(s@) == Ok::<(nat, nat), Seq<char>>((secs as nat, millis as nat)));
    let a = Duration::from_secs(minutes * 60 + seconds);
    let b = Duration::from_millis(millis);
    assert(a.total_nanos() + b.total_nanos() < (u64::MAX as nat + 1) * (NANOS_PER_SEC as nat))
        by (nonlinear_arith)
        requires
            a.secs_spec() <= u64::MAX,
            b.secs_spec() == 0,
            b.subsec_nanos_spec() < 1_000_000_000,
            a.subsec_nanos_spec() == 0,
            a.total_nanos() == a.secs_spec() * 1_000_000_000 + a.subsec_nanos_spec(),
            b.total_nanos() == b.secs_spec() * 1_000_000_000 + b.subsec_nanos_spec(),
    ;
    Ok(a.add(b))
}


proof fn lemma_utf8_len_at_least(s: Seq<char>)
    ensures
        utf8_len(s) >= s.len(),
    decreases s.len(),
{
    if s.len() > 0 {
        lemma_utf8_len_at_least(s.drop_last());
    }
}

proof fn lemma_scan_bound(b: Seq<char>, i: int, acc: nat, v: nat, bound: nat)
    requires
        0 <= i <= b.len(),
        acc < pow10(i as nat),
        crate::decimal::scan_digits(b, i, acc, u64::MAX as nat) == Ok::<nat, IntErrorKind>(v),
        bound == pow10(b.len() as nat),
    ensures
        v < bound,
    decreases b.len() - i,
{
    if i < b.len() {
        let d = crate::decimal::digit_value(b[i]);
        assert(acc * 10 + d < pow10((i + 1) as nat)) by (nonlinear_arith)
            requires
                acc < pow10(i as nat),
                d < 10,
                pow10((i + 1) as nat) == 10 * pow10(i as nat),
        ;
        lemma_scan_bound(b, i + 1, acc * 10 + d, v, bound);
    }
}

/// A number of at most three characters that reads as an unsigned integer has
/// at most as many digits as characters.
proof fn lemma_short_number(s: Seq<char>, v: nat)
    requires
        s.len() <= 3,
        parse_u64_detailed(s) == Ok::<nat, IntErrorKind>(v),
    ensures
        s.len() <= 1 ==> v < 10,
        s.len() <= 2 ==> v < 100,
        v < 1000,
{
    let b = crate::decimal::unsigned_body(s);
    assert(pow10(0) == 1 && pow10(1) == 10 && pow10(2) == 100 && pow10(3) == 1000) by {
        reveal_with_fuel(pow10, 4);
    }
    lemma_scan_bound(b, 0, 0, v, pow10(b.len() as nat));
}

} // verus!
