//! Rows read on their own, without the row number: six cells of a record, the
//! cells of a player and the cell of a track, each checked cell by cell with a
//! text that says what is wrong.
use vstd::prelude::*;
use crate::decimal::{decimal, int_error_text, parse_u64_detailed, parse_unsigned, IntErrorKind};
use crate::duration::{Duration, NANOS_PER_MILLI, NANOS_PER_SEC};
use crate::sheets::records::Timestamp;
use crate::sheets::utils::{
    count_of, index_of_from, rows_range_text, split_once, utc_datetime_of, DataRanges, SHEET_DATETIME_FORMAT,
};
use crate::sheets::players::{opt_view, Players};
use crate::sheets::records::Records;
use crate::sheets::value::{JsonNumber, Value};

verus! {

/// A record read straight from its six cells.
#[derive(Debug)]
pub struct RawRecord {
    pub user_message_id: u64,
    pub bot_message_id: u64,
    pub report_timestamp: Timestamp,
    pub driver_user_id: u64,
    pub track_name: String,
    pub race_duration: Duration,
}

/// `Failed to represent {what} as a u64`.
pub open spec fn id_error_text(what: Seq<char>) -> Seq<char> {
    "Failed to represent "@ + what + " as a u64"@
}

/// An id cell: a text as `u64::from_str` reads it (its error text where it does
/// not), a number that is a `u64`; any other cell gives `id_error_text`.
pub open spec fn raw_id(v: Value, what: Seq<char>) -> Result<u64, Seq<char>> {
    match v {
        Value::String(t) => match parse_u64_detailed(t@) {
            Ok(n) => Ok(n as u64),
            Err(k) => Err(int_error_text(k)),
        },
        Value::Number(n) => match n.as_u64_spec() {
            Some(x) => Ok(x),
            None => Err(id_error_text(what)),
        },
        _ => Err(id_error_text(what)),
    }
}

/// A time cell: a text `dd-mm-yyyy hh:mm:ss` read as UTC; `None` for any other cell.
pub open spec fn raw_time(v: Value) -> Option<(i64, u32)> {
    match v {
        Value::String(t) => utc_datetime_of(t@, SHEET_DATETIME_FORMAT@),
        _ => None,
    }
}

/// The text before the first `.` of `s`, or all of `s` without one.
pub open spec fn before_dot(s: Seq<char>) -> Seq<char> {
    match index_of_from(s, '.', 0) {
        None => s,
        Some(i) => s.subrange(0, i),
    }
}

/// The text between the first `.` of `s` and the next one (or the end); `None`
/// without a `.`.
pub open spec fn after_dot(s: Seq<char>) -> Option<Seq<char>> {
    match index_of_from(s, '.', 0) {
        None => None,
        Some(i) => Some(before_dot(s.subrange(i + 1, s.len() as int))),
    }
}

/// A race-time cell as seconds and nanoseconds: a number cell that is a `u64`
/// is whole seconds; a text `m:s` or `m:s.ms` with one `:` is minutes, seconds
/// and whole milliseconds (pieces after a second `.` are ignored). `None` for
/// any other cell, or where the seconds do not fit in `u64`.
pub open spec fn raw_duration(v: Value) -> Option<(nat, nat)> {
    match v {
        Value::Number(n) => match n.as_u64_spec() {
            Some(x) => Some((x as nat, 0nat)),
            None => None,
        },
        Value::String(t) => if count_of(t@, ':') != 1 {
            None
        } else {
            let (m, rest) = split_once(t@, ':')->Some_0;
            let ms = match after_dot(rest) {
                None => Some(0nat),
                Some(p) => parse_unsigned(p, u64::MAX as nat),
            };
            match (
                parse_unsigned(m, u64::MAX as nat),
                parse_unsigned(before_dot(rest), u64::MAX as nat),
                ms,
            ) {
                (Some(a), Some(b), Some(c)) => if a * 60 + b <= u64::MAX && a * 60 + b + c / 1000
                    <= u64::MAX {
                    Some(((a * 60 + b + c / 1000) as nat, ((c % 1000) * (NANOS_PER_MILLI as nat)) as nat))
                } else {
                    None
                },
                _ => None,
            }
        },
        _ => None,
    }
}

/// Whether reading six record cells stops short of an answer: both message ids
/// read, and then the time does not read, or the driver and track read and the
/// race time does not.
pub open spec fn raw_record_stops(values: Seq<Value>) -> bool {
    &&& values.len() == 6
    &&& raw_id(values[0], "user message id"@) is Ok
    &&& raw_id(values[1], "bot message id"@) is Ok
    &&& (raw_time(values[2]) is None || (raw_id(values[3], "driver user id"@) is Ok
        && values[4] is String && raw_duration(values[5]) is None))
}

/// What six record cells read as: the two message ids, the report time, the
/// driver, the track and the race time (seconds, nanoseconds), in that order;
/// or the text of the first thing wrong. A row of another length gives
/// `Expected 6 values, got n`.
pub open spec fn raw_record_read(values: Seq<Value>) -> Result<(u64, u64, (i64, u32), u64, Seq<char>, (nat, nat)), Seq<char>> {
    if values.len() != 6 {
        Err("Expected 6 values, got "@ + decimal(values.len()))
    } else {
        match (raw_id(values[0], "user message id"@), raw_id(values[1], "bot message id"@)) {
            (Err(e), _) => Err(e),
            (Ok(_), Err(e)) => Err(e),
            (Ok(a), Ok(b)) => match raw_id(values[3], "driver user id"@) {
                Err(e) => Err(e),
                Ok(d) => match values[4] {
                    Value::String(t) => Ok((a, b, raw_time(values[2])->Some_0, d, t@, raw_duration(values[5])->Some_0)),
                    _ => Err("Failed to represent track name as a String"@),
                },
            },
        }
    }
}

impl RawRecord {
    /// The ids, report time, driver, track and race time of the record.
    pub open spec fn model(&self) -> (u64, u64, (i64, u32), u64, Seq<char>, (nat, nat)) {
        (
            self.user_message_id,
            self.bot_message_id,
            (self.report_timestamp.unix_seconds, self.report_timestamp.nanos),
            self.driver_user_id,
            self.track_name@,
            (self.race_duration.secs_spec(), self.race_duration.subsec_nanos_spec()),
        )
    }
}

/// `Failed to represent {what} as a u64`.
fn id_error_message(what: &str) -> (r: String)
    ensures
        r@ == id_error_text(what@),
{
    let mut s = "Failed to represent ".to_string();
    s.append(what);
    s.append(" as a u64");
    s
}

/// Reads an id cell.
fn read_raw_id(v: &Value, what: &str) -> (r: Result<u64, String>)
    ensures
        match raw_id(*v, what@) {
            Ok(x) => r == Ok::<u64, String>(x),
            Err(m) => r matches Err(t) && t@ == m,
        },
{
    match v {
        Value::String(t) => {
            let cs = crate::text::chars_of(t.as_str());
            match crate::decimal::parse_u64_with_error(&cs) {
                Ok(x) => Ok(x),
                Err(k) => Err(crate::decimal::int_error_message(k)),
            }
        },
        Value::Number(n) => match n.as_u64() {
            Some(x) => Ok(x),
            None => Err(id_error_message(what)),
        },
        _ => Err(id_error_message(what)),
    }
}

/// Reads a time cell.
fn read_raw_time(v: &Value) -> (r: Option<(i64, u32)>)
    ensures
        r == raw_time(*v),
{
    match v {
        Value::String(t) => crate::sheets::utils::parse_utc_datetime(t.as_str(), SHEET_DATETIME_FORMAT),
        _ => None,
    }
}

/// The characters before the first `.`.
fn chars_before_dot(s: &Vec<char>) -> (r: Vec<char>)
    ensures
        r@ == before_dot(s@),
{
    match crate::sheets::utils::index_of(s, '.') {
        None => s.clone(),
        Some(i) => crate::sheets::utils::sub_chars(s, 0, i),
    }
}

/// The characters between the first `.` and the next one.
fn chars_after_dot(s: &Vec<char>) -> (r: Option<Vec<char>>)
    ensures
        match after_dot(s@) {
            None => r is None,
            Some(p) => r matches Some(x) && x@ == p,
        },
{
    let n = s.len();
    match crate::sheets::utils::index_of(s, '.') {
        None => None,
        Some(i) => Some(chars_before_dot(&crate::sheets::utils::sub_chars(s, i + 1, n))),
    }
}

/// Reads a race-time cell, as `raw_duration` says.
fn read_raw_duration(v: &Value) -> (r: Option<Duration>)
    ensures
        match raw_duration(*v) {
            None => r is None,
            Some((secs, nanos)) => r matches Some(d) && d.secs_spec() == secs && d.subsec_nanos_spec() == nanos,
        },
{
    match v {
        Value::Number(n) => match n.as_u64() {
            Some(x) => Some(Duration::from_secs(x)),
            None => None,
        },
        Value::String(t) => {
            let cs = crate::text::chars_of(t.as_str());
            if crate::sheets::utils::count_in(&cs, ':') != 1 {
                return None;
            }
            let (m, rest) = crate::sheets::utils::split_single(&cs, ':');
            let ms = match chars_after_dot(&rest) {
                None => Some(0u64),
                Some(p) => crate::decimal::parse_u64(&p),
            };
            let a = crate::decimal::parse_u64(&m);
            let b = crate::decimal::parse_u64(&chars_before_dot(&rest));
            match (a, b, ms) {
                (Some(a), Some(b), Some(c)) => {
                    let whole: u128 = (a as u128) * 60 + (b as u128);
                    if whole > u64::MAX as u128 || whole + (c as u128) / 1000 > u64::MAX as u128 {
                        return None;
                    }
                    let x = Duration::from_secs(a * 60 + b);
                    let y = Duration::from_millis(c);
                    assert(x.total_nanos() + y.total_nanos() < (u64::MAX as nat + 1) * (NANOS_PER_SEC as nat))
                        by (nonlinear_arith)
                        requires
                            x.secs_spec() + y.secs_spec() <= u64::MAX,
                            x.subsec_nanos_spec() == 0,
                            y.subsec_nanos_spec() < 1_000_000_000,
                            x.total_nanos() == x.secs_spec() * 1_000_000_000 + x.subsec_nanos_spec(),
                            y.total_nanos() == y.secs_spec() * 1_000_000_000 + y.subsec_nanos_spec(),
                    ;
                    Some(x.add(y))
                },
                _ => None,
            }
        },
        _ => None,
    }
}

impl RawRecord {
    /// Whether six record cells can be read to an answer: see `raw_record_stops`.
    pub fn row_is_readable(values: &Vec<Value>) -> (r: bool)
        ensures
            r == !raw_record_stops(values@),
    {
        if values.len() != 6 {
            return true;
        }
        if read_raw_id(&values[0], "user message id").is_err() || read_raw_id(&values[1], "bot message id").is_err() {
            return true;
        }
        if read_raw_time(&values[2]).is_none() {
            return false;
        }
        if read_raw_id(&values[3], "driver user id").is_err() {
            return true;
        }
        match &values[4] {
            Value::String(_) => read_raw_duration(&values[5]).is_some(),
            _ => true,
        }
    }

    /// Reads a record from its six cells, as `raw_record_read` says.
    pub fn try_from_row(values: Vec<Value>) -> (r: Result<RawRecord, String>)
        requires
            !raw_record_stops(values@),
        ensures
            match raw_record_read(values@) {
                Ok(m) => r matches Ok(rec) && rec.model() == m,
                Err(t) => r matches Err(e) && e@ == t,
            },
    {
        if values.len() != 6 {
            let mut s = "Expected 6 values, got ".to_string();
            let n = crate::decimal::usize_to_string(values.len());
            s.append(n.as_str());
            return Err(s);
        }
        let user_message_id = match read_raw_id(&values[0], "user message id") {
            Ok(x) => x,
            Err(e) => {
                return Err(e);
            },
        };
        let bot_message_id = match read_raw_id(&values[1], "bot message id") {
            Ok(x) => x,
            Err(e) => {
                return Err(e);
            },
        };
        let (unix_seconds, nanos) = match read_raw_time(&values[2]) {
            Some(t) => t,
            None => {
                return Err(String::new());
            },
        };
        let driver_user_id = match read_raw_id(&values[3], "driver user id") {
            Ok(x) => x,
            Err(e) => {
                return Err(e);
            },
        };
        let track_name = match &values[4] {
            Value::String(t) => t.clone(),
            _ => {
                return Err("Failed to represent track name as a String".to_string());
            },
        };
        let race_duration = match read_raw_duration(&values[5]) {
            Some(d) => d,
            None => {
                return Err(String::new());
            },
        };
        Ok(
            RawRecord {
                user_message_id,
                bot_message_id,
                report_timestamp: Timestamp { unix_seconds, nanos },
                driver_user_id,
                track_name,
                race_duration,
            },
        )
    }

    /// Reads a record from its six cells where that comes to an answer; `None`
    /// where it stops short (see `raw_record_stops`).
    pub fn try_from_row_checked(values: Vec<Value>) -> (r: Option<Result<RawRecord, String>>)
        ensures
            raw_record_stops(values@) ==> r is None,
            !raw_record_stops(values@) ==> (r matches Some(x) && match raw_record_read(values@) {
                Ok(m) => x matches Ok(rec) && rec.model() == m,
                Err(t) => x matches Err(e) && e@ == t,
            }),
    {
        if RawRecord::row_is_readable(&values) {
            Some(RawRecord::try_from_row(values))
        } else {
            None
        }
    }
}


/// A player read straight from its cells.
#[derive(Debug)]
pub struct RawPlayer {
    pub user_id: u64,
    pub display_name: String,
    pub current_track: Option<String>,
}

/// A track read straight from its cell.
#[derive(Debug)]
pub struct RawTrack {
    pub name: String,
}

/// The JSON text that `serde_json` writes for a text: the text in double quotes,
/// with its quotes, backslashes and control characters escaped.
pub uninterp spec fn json_string_text(s: Seq<char>) -> Seq<char>;

/// Writes a text as a JSON value with `serde_json::Value::to_string`. The
/// contract claims only that the JSON text is a function of the text.
#[verifier::external_body]
fn json_text_of_string(s: &str) -> (r: String)
    ensures
        r@ == json_string_text(s@),
{
    serde_json::Value::String(s.to_string()).to_string()
}

/// The JSON text of a cell that is not a fractional number: `null`, `true`,
/// `false`, the decimal digits of an integer with `-` below zero, the quoted
/// text, or the JSON text that an array or object cell holds.
pub open spec fn json_text(v: Value) -> Seq<char> {
    match v {
        Value::Null => "null"@,
        Value::Bool(b) => if b {
            "true"@
        } else {
            "false"@
        },
        Value::Number(JsonNumber::PosInt(n)) => decimal(n as nat),
        Value::Number(JsonNumber::NegInt(n)) => if n < 0 {
            "-"@ + decimal((0 - n) as nat)
        } else {
            decimal(n as nat)
        },
        Value::Number(JsonNumber::Float(_)) => Seq::empty(),
        Value::String(t) => json_string_text(t@),
        Value::Array(t) => t@,
        Value::Object(t) => t@,
    }
}

/// The message when a player's id cell does not read.
pub const PLAYER_ID_ERROR: &'static str = "Failed to represent User ID as a u64";

/// The message when a player's track cell is neither empty nor a text.
pub const PLAYER_TRACK_ERROR: &'static str = "Failed to represent Current Track as an Option<String>";

/// The message when a player's row is empty.
pub const PLAYER_EMPTY_ERROR: &'static str = "Not enough fields to constuct a Player instance";

/// The message when a track's row is empty.
pub const TRACK_EMPTY_ERROR: &'static str = "Not enough fields to constuct a Track instance";

/// The message when a track's name cell is neither empty nor a text.
pub const TRACK_NAME_ERROR: &'static str = "Failed to represent Current Track as a String";

/// What a player's cells read as, but for the display name: the user id (a
/// `u64` number, or a text that `u64::from_str` reads) and the track (none for
/// an empty or missing cell, a text cell's text); or the text of the first
/// thing wrong.
pub open spec fn raw_player_read(values: Seq<Value>) -> Result<(u64, Option<Seq<char>>), Seq<char>> {
    if values.len() < 1 {
        Err(PLAYER_EMPTY_ERROR@)
    } else {
        let id = match values[0] {
            Value::Number(n) => n.as_u64_spec(),
            Value::String(t) => match parse_unsigned(t@, u64::MAX as nat) {
                Some(x) => Some(x as u64),
                None => None,
            },
            _ => None,
        };
        match id {
            None => Err(PLAYER_ID_ERROR@),
            Some(x) => if values.len() < 3 {
                Ok((x, None))
            } else {
                match values[2] {
                    Value::Null => Ok((x, None)),
                    Value::String(t) => Ok((x, Some(t@))),
                    _ => Err(PLAYER_TRACK_ERROR@),
                }
            },
        }
    }
}

/// The JSON text of a cell; `float_text` writes a fractional number.
fn cell_json_text<F>(v: &Value, float_text: &F) -> (r: String) where F: Fn(u64) -> String,
    requires
        forall|b: u64| float_text.requires((b,)),
    ensures
        match *v {
            Value::Number(JsonNumber::Float(b)) => float_text.ensures((b,), r),
            _ => r@ == json_text(*v),
        },
{
    proof {
        reveal_strlit("null");
        reveal_strlit("true");
        reveal_strlit("false");
        reveal_strlit("-");
    }
    match v {
        Value::Null => "null".to_string(),
        Value::Bool(b) => if *b {
            "true".to_string()
        } else {
            "false".to_string()
        },
        Value::Number(JsonNumber::PosInt(n)) => crate::decimal::u64_to_string(*n),
        Value::Number(JsonNumber::NegInt(n)) => {
            if *n >= 0 {
                return crate::decimal::u64_to_string(*n as u64);
            }
            let magnitude: u64 = if *n == i64::MIN {
                9_223_372_036_854_775_808u64
            } else {
                (0 - *n) as u64
            };
            let mut s = "-".to_string();
            let d = crate::decimal::u64_to_string(magnitude);
            s.append(d.as_str());
            s
        },
        Value::Number(JsonNumber::Float(b)) => {
            float_text(*b)
        },
        Value::String(t) => json_text_of_string(t.as_str()),
        Value::Array(t) => t.clone(),
        Value::Object(t) => t.clone(),
    }
}

impl RawPlayer {
    /// Reads a player from its cells, as `raw_player_read` says; the display
    /// name is the JSON text of the second cell (`float_text` writes a
    /// fractional number), or empty without one.
    pub fn try_from_row<F>(values: Vec<Value>, float_text: &F) -> (r: Result<RawPlayer, String>) where
        F: Fn(u64) -> String,

        requires
            forall|b: u64| float_text.requires((b,)),
        ensures
            match raw_player_read(values@) {
                Err(t) => r matches Err(e) && e@ == t,
                Ok((id, track)) => r matches Ok(p) && p.user_id == id && opt_view(p.current_track)
                    == track && (values@.len() < 2 ==> p.display_name@ == Seq::<char>::empty())
                    && (values@.len() >= 2 ==> match values@[1] {
                    Value::Number(JsonNumber::Float(b)) => float_text.ensures((b,), p.display_name),
                    v => p.display_name@ == json_text(v),
                }),
            },
    {
        if values.len() < 1 {
            return Err(PLAYER_EMPTY_ERROR.to_string());
        }
        let id = match &values[0] {
            Value::Number(n) => n.as_u64(),
            Value::String(t) => crate::decimal::parse_u64(&crate::text::chars_of(t.as_str())),
            _ => None,
        };
        let user_id = match id {
            None => {
                return Err(PLAYER_ID_ERROR.to_string());
            },
            Some(x) => x,
        };
        let display_name = if values.len() < 2 {
            String::new()
        } else {
            cell_json_text(&values[1], float_text)
        };
        let current_track = if values.len() < 3 {
            None
        } else {
            match &values[2] {
                Value::Null => None,
                Value::String(t) => Some(t.clone()),
                _ => {
                    return Err(PLAYER_TRACK_ERROR.to_string());
                },
            }
        };
        Ok(RawPlayer { user_id, display_name, current_track })
    }

    /// The cells of the player: the user id as text, the display name, and the
    /// track or an empty cell.
    pub fn to_row(&self) -> (r: Vec<Value>)
        ensures
            r@.len() == 3,
            r@[0] matches Value::String(u) && u@ == decimal(self.user_id as nat),
            r@[1] matches Value::String(n) && n@ == self.display_name@,
            match self.current_track {
                Some(t) => r@[2] matches Value::String(c) && c@ == t@,
                None => r@[2] is Null,
            },
    {
        let track = match &self.current_track {
            Some(t) => Value::String(t.clone()),
            None => Value::Null,
        };
        vec![
            Value::String(crate::decimal::u64_to_string(self.user_id)),
            Value::String(self.display_name.clone()),
            track,
        ]
    }
}

impl RawTrack {
    /// Reads a track from its cell: an empty cell is the empty name, a text
    /// cell its text; an empty row or any other cell gives its error text.
    pub fn try_from_row(values: Vec<Value>) -> (r: Result<RawTrack, String>)
        ensures
            values@.len() < 1 ==> (r matches Err(e) && e@ == TRACK_EMPTY_ERROR@),
            values@.len() >= 1 ==> match values@[0] {
                Value::Null => r matches Ok(t) && t.name@ == Seq::<char>::empty(),
                Value::String(n) => r matches Ok(t) && t.name@ == n@,
                _ => r matches Err(e) && e@ == TRACK_NAME_ERROR@,
            },
    {
        if values.len() < 1 {
            return Err(TRACK_EMPTY_ERROR.to_string());
        }
        match &values[0] {
            Value::Null => Ok(RawTrack { name: String::new() }),
            Value::String(n) => Ok(RawTrack { name: n.clone() }),
            _ => Err(TRACK_NAME_ERROR.to_string()),
        }
    }

    /// The cell of the track: its name.
    pub fn to_row(&self) -> (r: Vec<Value>)
        ensures
            r@.len() == 1,
            r@[0] matches Value::String(n) && n@ == self.name@,
    {
        vec![Value::String(self.name.clone())]
    }
}

/// The user id that a player's row reads as, where it reads.
pub open spec fn raw_player_id(row: Seq<Value>) -> Option<u64> {
    match raw_player_read(row) {
        Ok((u, _)) => Some(u),
        Err(_) => None,
    }
}

/// The message when no row holds the player.
pub const PLAYER_NOT_FOUND: &'static str = "Could not find player";

/// Reads whether a player's row reads, and its user id, without the display name.
fn raw_player_id_of(row: &Vec<Value>) -> (r: Option<u64>)
    ensures
        r == raw_player_id(row@),
{
    if row.len() < 1 {
        return None;
    }
    let id = match &row[0] {
        Value::Number(n) => n.as_u64(),
        Value::String(t) => crate::decimal::parse_u64(&crate::text::chars_of(t.as_str())),
        _ => None,
    };
    match id {
        None => None,
        Some(x) => if row.len() < 3 {
            Some(x)
        } else {
            match &row[2] {
                Value::Null => Some(x),
                Value::String(_) => Some(x),
                _ => None,
            }
        },
    }
}

impl RawPlayer {
    /// The sheet row number of the first row after the header (`rows[0]`)
    /// that reads as a player with the user id `user_id`: the row at index `i`
    /// is the sheet's row `i + 1`.
    pub fn row_of_user(rows: &Vec<Vec<Value>>, user_id: u64) -> (r: Option<usize>)
        ensures
            match r {
                Some(n) => 2 <= n <= rows@.len() && raw_player_id(rows@[n - 1]@) == Some(user_id)
                    && forall|j: int| 1 <= j < n - 1 ==> raw_player_id(#[trigger] rows@[j]@) != Some(user_id),
                None => forall|j: int| 1 <= j < rows@.len() ==> raw_player_id(#[trigger] rows@[j]@) != Some(user_id),
            },
    {
        let mut i: usize = 1;
        while i < rows.len()
            invariant
                1 <= i,
                i <= rows@.len() || rows@.len() == 0,
                forall|j: int| 1 <= j < i && j < rows@.len() ==> raw_player_id(#[trigger] rows@[j]@) != Some(user_id),
            decreases rows@.len() - i,
        {
            if raw_player_id_of(&rows[i]) == Some(user_id) {
                return Some(i + 1);
            }
            i = i + 1;
        }
        None
    }

    /// The first player after the header (`rows[0]`) that reads with the user
    /// id `user_id`; `float_text` writes a fractional display name.
    pub fn find_in_rows<F>(rows: &Vec<Vec<Value>>, user_id: u64, float_text: &F) -> (r: Option<RawPlayer>) where
        F: Fn(u64) -> String,

        requires
            forall|b: u64| float_text.requires((b,)),
        ensures
            match r {
                Some(p) => p.user_id == user_id && exists|i: int|
                    1 <= i < rows@.len() && raw_player_read(rows@[i]@) == Ok::<_, Seq<char>>((user_id, opt_view(p.current_track)))
                        && forall|j: int| 1 <= j < i ==> raw_player_id(#[trigger] rows@[j]@) != Some(user_id),
                None => forall|j: int| 1 <= j < rows@.len() ==> raw_player_id(#[trigger] rows@[j]@) != Some(user_id),
            },
    {
        match RawPlayer::row_of_user(rows, user_id) {
            None => None,
            Some(n) => {
                let row = crate::sheets::value::clone_row(&rows[n - 1]);
                match RawPlayer::try_from_row(row, float_text) {
                    Ok(p) => Some(p),
                    Err(_) => None,
                }
            },
        }
    }

    /// The row to append for a player who has none: the user id as text.
    pub fn new_player_row(user_id: u64) -> (r: Vec<Value>)
        ensures
            r@.len() == 1,
            r@[0] matches Value::String(u) && u@ == decimal(user_id as nat),
    {
        vec![Value::String(crate::decimal::u64_to_string(user_id))]
    }

    /// The cell to write a chosen track into, and the value, for the player
    /// with the user id `user_id`: column C of that player's row; the error
    /// text where no row holds the player.
    pub fn select_track_write(rows: &Vec<Vec<Value>>, user_id: u64, track_name: String) -> (r: Result<(String, Value), String>)
        ensures
            match r {
                Ok((cell, value)) => exists|n: nat|
                    2 <= n <= rows@.len() && raw_player_id(rows@[n - 1]@) == Some(user_id) && (forall|j: int|
                        1 <= j < n - 1 ==> raw_player_id(#[trigger] rows@[j]@) != Some(user_id))
                        && cell@ == rows_range_text("Players"@, "C"@, "C"@, n, n) && (value
                        matches Value::String(t) && t@ == track_name@),
                Err(e) => e@ == PLAYER_NOT_FOUND@ && forall|j: int|
                    1 <= j < rows@.len() ==> raw_player_id(#[trigger] rows@[j]@) != Some(user_id),
            },
    {
        match RawPlayer::row_of_user(rows, user_id) {
            None => Err(PLAYER_NOT_FOUND.to_string()),
            Some(n) => {
                let cell = Players::cell(n, "C".to_string());
                proof {
                    reveal_strlit("C");
                }
                assert(cell@ == rows_range_text("Players"@, "C"@, "C"@, n as nat, n as nat));
                Ok((cell, Value::String(track_name)))
            },
        }
    }
}

/// The bot message id that a record row reads with, where it reads.
pub open spec fn raw_record_bot_id(row: Seq<Value>) -> Option<u64> {
    match raw_record_read(row) {
        Ok(m) => Some(m.1),
        Err(_) => None,
    }
}

/// The message when no row holds the record.
pub const RECORD_NOT_FOUND: &'static str = "Could not find record";

impl RawRecord {
    /// The bot message id that a record row reads with; `None` where it does
    /// not read. The row must come to an answer.
    fn bot_id_of(row: &Vec<Value>) -> (r: Option<u64>)
        requires
            !raw_record_stops(row@),
        ensures
            r == raw_record_bot_id(row@),
    {
        match RawRecord::try_from_row(crate::sheets::value::clone_row(row)) {
            Ok(rec) => Some(rec.bot_message_id),
            Err(_) => None,
        }
    }

    /// The sheet row number of the first row after the header (`rows[0]`)
    /// that reads as a record of the bot message `bot_message_id`; the rows are
    /// read in order up to it, and `None` (the outer one) where one of them
    /// stops short of an answer (see `raw_record_stops`).
    pub fn row_of_bot_message(rows: &Vec<Vec<Value>>, bot_message_id: u64) -> (r: Option<Option<usize>>)
        ensures
            match r {
                None => exists|k: int|
                    1 <= k < rows@.len() && raw_record_stops(rows@[k]@) && forall|j: int|
                        1 <= j < k ==> !raw_record_stops(#[trigger] rows@[j]@) && raw_record_bot_id(rows@[j]@)
                            != Some(bot_message_id),
                Some(None) => forall|j: int|
                    1 <= j < rows@.len() ==> !raw_record_stops(#[trigger] rows@[j]@) && raw_record_bot_id(
                        rows@[j]@,
                    ) != Some(bot_message_id),
                Some(Some(n)) => 2 <= n <= rows@.len() && !raw_record_stops(rows@[n - 1]@)
                    && raw_record_bot_id(rows@[n - 1]@) == Some(bot_message_id) && forall|j: int|
                    1 <= j < n - 1 ==> !raw_record_stops(#[trigger] rows@[j]@) && raw_record_bot_id(rows@[j]@)
                        != Some(bot_message_id),
            },
    {
        let mut i: usize = 1;
        while i < rows.len()
            invariant
                1 <= i,
                i <= rows@.len() || rows@.len() == 0,
                forall|j: int|
                    1 <= j < i && j < rows@.len() ==> !raw_record_stops(#[trigger] rows@[j]@) && raw_record_bot_id(
                        rows@[j]@,
                    ) != Some(bot_message_id),
            decreases rows@.len() - i,
        {
            if !RawRecord::row_is_readable(&rows[i]) {
                return None;
            }
            if RawRecord::bot_id_of(&rows[i]) == Some(bot_message_id) {
                return Some(Some(i + 1));
            }
            i = i + 1;
        }
        Some(None)
    }

    /// The cell to write a new driver into, and the value, for the record of
    /// the bot message `bot_message_id`: column D of that record's row, the user
    /// id as text; the error text where no row holds the record; `None` where
    /// reading the rows stops short, as `row_of_bot_message` says.
    pub fn change_driver_write(rows: &Vec<Vec<Value>>, bot_message_id: u64, driver_user_id: u64) -> (r: Option<Result<(String, Value), String>>)
        ensures
            match r {
                None => exists|k: int|
                    1 <= k < rows@.len() && raw_record_stops(rows@[k]@) && forall|j: int|
                        1 <= j < k ==> !raw_record_stops(#[trigger] rows@[j]@) && raw_record_bot_id(rows@[j]@)
                            != Some(bot_message_id),
                Some(Err(e)) => e@ == RECORD_NOT_FOUND@ && forall|j: int|
                    1 <= j < rows@.len() ==> !raw_record_stops(#[trigger] rows@[j]@) && raw_record_bot_id(
                        rows@[j]@,
                    ) != Some(bot_message_id),
                Some(Ok((cell, value))) => exists|n: nat|
                    2 <= n <= rows@.len() && !raw_record_stops(rows@[n - 1]@) && raw_record_bot_id(rows@[n - 1]@)
                        == Some(bot_message_id) && (forall|j: int|
                        1 <= j < n - 1 ==> !raw_record_stops(#[trigger] rows@[j]@) && raw_record_bot_id(rows@[j]@)
                            != Some(bot_message_id)) && cell@ == rows_range_text("Records"@, "D"@, "D"@, n, n)
                        && (value matches Value::String(t) && t@ == decimal(driver_user_id as nat)),
            },
    {
        match RawRecord::row_of_bot_message(rows, bot_message_id) {
            None => None,
            Some(None) => Some(Err(RECORD_NOT_FOUND.to_string())),
            Some(Some(n)) => {
                let cell = Records::cell(n, "D".to_string());
                proof {
                    reveal_strlit("D");
                }
                assert(cell@ == rows_range_text("Records"@, "D"@, "D"@, n as nat, n as nat));
                Some(Ok((cell, Value::String(crate::decimal::u64_to_string(driver_user_id)))))
            },
        }
    }
}

} // verus!
