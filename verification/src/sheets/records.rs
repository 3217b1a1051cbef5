//! The records sheet: one race record per row. Column A holds the id of the
//! message that reported the record, B the id of the bot's answer, C the time of
//! the report, D the user id of the driver, E the track and F the race time.
use vstd::prelude::*;
use crate::decimal::decimal;
use crate::duration::Duration;
use crate::sheets::errors::DeserializeValueError;
use crate::sheets::players::with_cell;
use crate::sheets::utils::{cell_string, cell_u64, range_rows, rows_range_text, DataRanges};
use crate::sheets::value::Value;

verus! {

/// The records sheet.
#[derive(Debug)]
pub struct Records;

impl DataRanges for Records {
    open spec fn sheet_name_spec() -> Seq<char> {
        "Records"@
    }

    open spec fn first_column_spec() -> Seq<char> {
        "A"@
    }

    open spec fn last_column_spec() -> Seq<char> {
        "F"@
    }

    fn sheet_name() -> (r: &'static str) {
        "Records"
    }

    fn first_column() -> (r: &'static str) {
        "A"
    }

    fn last_column() -> (r: &'static str) {
        "F"
    }
}

impl Records {
    /// The column of the id of the message that reported a record.
    pub const USER_MESSAGE_ID_COLUMN: &'static str = "A";

    /// The column of the id of the bot's answer to a record.
    pub const BOT_MESSAGE_ID_COLUMN: &'static str = "B";

    /// The column of the time a record was reported.
    pub const REPORT_TIMESTAMP_COLUMN: &'static str = "C";

    /// The column of the user id of a record's driver.
    pub const DRIVER_USER_ID_COLUMN: &'static str = "D";

    /// The column of a record's track.
    pub const TRACK_NAME_COLUMN: &'static str = "E";

    /// The column of a record's race time.
    pub const RACE_DURATION_COLUMN: &'static str = "F";
}

/// A point in time: seconds since 1970-01-01 UTC and the nanoseconds after that second.
#[derive(Debug, PartialEq, Eq, Structural, Clone, Copy)]
pub struct Timestamp {
    pub unix_seconds: i64,
    pub nanos: u32,
}

/// One race record of the sheet, with the number of the row that holds it.
#[derive(Debug)]
pub struct Record {
    pub rownum: usize,
    pub user_message_id: u64,
    pub bot_message_id: u64,
    pub report_timestamp: Timestamp,
    pub driver_user_id: u64,
    pub track_name: String,
    pub race_duration: Duration,
}

/// The cells of a record row that read the same way whatever the sheet's time
/// formats: the two message ids, the driver's user id and the track, where all
/// four read and the row has six items.
pub open spec fn record_fixed_fields(values: Seq<Value>) -> Option<(u64, u64, u64, Seq<char>)> {
    if values.len() < 6 {
        None
    } else {
        match (cell_u64(values[0]), cell_u64(values[1]), cell_u64(values[3]), cell_string(values[4])) {
            (Ok(a), Ok(b), Ok(d), Ok(t)) => Some((a, b, d, t@)),
            _ => None,
        }
    }
}

impl Record {
    /// The row number, message ids, report time, driver, track and race time of the record.
    pub open spec fn model(&self) -> (nat, u64, u64, Timestamp, u64, Seq<char>, Duration) {
        (
            self.rownum as nat,
            self.user_message_id,
            self.bot_message_id,
            self.report_timestamp,
            self.driver_user_id,
            self.track_name@,
            self.race_duration,
        )
    }

    /// Reads a record from the row `rownum` of the sheet. A row with fewer than
    /// six items fails on the first missing one. Otherwise the cells are read in
    /// order, the report time and the race time by the given readers, and the
    /// first that fails gives the error.
    pub fn from_row<FT, FD>(
        rownum: usize,
        values: Vec<Value>,
        decode_timestamp: &FT,
        decode_duration: &FD,
    ) -> (r: Result<Record, DeserializeValueError>) where
        FT: Fn(&Value) -> Result<Timestamp, DeserializeValueError>,
        FD: Fn(&Value) -> Result<Duration, DeserializeValueError>,

        requires
            forall|v: &Value| decode_timestamp.requires((v,)),
            forall|v: &Value| decode_duration.requires((v,)),
        ensures
            values@.len() < 6 ==> r == Err::<Record, DeserializeValueError>(
                DeserializeValueError::MissingItem {
                    missing_index: values@.len() as usize,
                    expected_item_count: 6,
                },
            ),
            values@.len() >= 6 ==> match cell_u64(values@[0]) {
                Err(e) => r == Err::<Record, DeserializeValueError>(e),
                Ok(a) => match cell_u64(values@[1]) {
                    Err(e) => r == Err::<Record, DeserializeValueError>(e),
                    Ok(b) => exists|ts: Result<Timestamp, DeserializeValueError>|
                        decode_timestamp.ensures((&values@[2],), ts) && match ts {
                            Err(e) => r == Err::<Record, DeserializeValueError>(e),
                            Ok(t) => match cell_u64(values@[3]) {
                                Err(e) => r == Err::<Record, DeserializeValueError>(e),
                                Ok(d) => match cell_string(values@[4]) {
                                    Err(e) => r == Err::<Record, DeserializeValueError>(e),
                                    Ok(name) => exists|du: Result<Duration, DeserializeValueError>|
                                        decode_duration.ensures((&values@[5],), du) && match du {
                                            Err(e) => r == Err::<Record, DeserializeValueError>(e),
                                            Ok(dd) => r matches Ok(rec) && rec.model() == (
                                                rownum as nat,
                                                a,
                                                b,
                                                t,
                                                d,
                                                name@,
                                                dd,
                                            ),
                                        },
                                },
                            },
                        },
                },
            },
    {
        if values.len() < 6 {
            return Err(
                DeserializeValueError::MissingItem { missing_index: values.len(), expected_item_count: 6 },
            );
        }
        let user_message_id = match crate::sheets::utils::get_u64(&values[0]) {
            Ok(v) => v,
            Err(e) => {
                return Err(e);
            },
        };
        let bot_message_id = match crate::sheets::utils::get_u64(&values[1]) {
            Ok(v) => v,
            Err(e) => {
                return Err(e);
            },
        };
        let ts = decode_timestamp(&values[2]);
        let report_timestamp = match ts {
            Ok(t) => t,
            Err(e) => {
                return Err(e);
            },
        };
        let driver_user_id = match crate::sheets::utils::get_u64(&values[3]) {
            Ok(v) => v,
            Err(e) => {
                return Err(e);
            },
        };
        let track_name = match crate::sheets::utils::get_string(&values[4]) {
            Ok(v) => v,
            Err(e) => {
                return Err(e);
            },
        };
        let du = decode_duration(&values[5]);
        let race_duration = match du {
            Ok(d) => d,
            Err(e) => {
                return Err(e);
            },
        };
        Ok(
            Record {
                rownum,
                user_message_id,
                bot_message_id,
                report_timestamp,
                driver_user_id,
                track_name,
                race_duration,
            },
        )
    }

    /// The cell that holds this record's driver, and the value to write there to
    /// make `user_id` the driver: the user id as text.
    pub fn driver_user_id_write(&self, user_id: u64) -> (r: (String, Value))
        ensures
            r.0@ == rows_range_text(
                Records::sheet_name_spec(),
                "D"@,
                "D"@,
                self.rownum as nat,
                self.rownum as nat,
            ),
            r.1 matches Value::String(t) && t@ == decimal(user_id as nat),
    {
        (
            Records::cell_range(self.rownum, Records::DRIVER_USER_ID_COLUMN),
            Value::String(crate::decimal::u64_to_string(user_id)),
        )
    }

    /// Takes note that `user_id` was written as this record's driver.
    pub fn set_driver_user_id(&mut self, user_id: u64)
        ensures
            final(self).model() == (
                old(self).rownum as nat,
                old(self).user_message_id,
                old(self).bot_message_id,
                old(self).report_timestamp,
                user_id,
                old(self).track_name@,
                old(self).race_duration,
            ),
    {
        self.driver_user_id = user_id;
    }

    /// The cell that holds this record's track, and the value to write there to
    /// make `track_name` the track.
    pub fn track_name_write(&self, track_name: &String) -> (r: (String, Value))
        ensures
            r.0@ == rows_range_text(
                Records::sheet_name_spec(),
                "E"@,
                "E"@,
                self.rownum as nat,
                self.rownum as nat,
            ),
            r.1 matches Value::String(t) && t@ == track_name@,
    {
        (Records::cell_range(self.rownum, Records::TRACK_NAME_COLUMN), Value::String(track_name.clone()))
    }

    /// Takes note that `track_name` was written as this record's track.
    pub fn set_track_name(&mut self, track_name: String)
        ensures
            final(self).model() == (
                old(self).rownum as nat,
                old(self).user_message_id,
                old(self).bot_message_id,
                old(self).report_timestamp,
                old(self).driver_user_id,
                track_name@,
                old(self).race_duration,
            ),
    {
        self.track_name = track_name;
    }

    /// The cell that holds this record's race time.
    pub fn race_duration_cell(&self) -> (r: String)
        ensures
            r@ == rows_range_text(
                Records::sheet_name_spec(),
                "F"@,
                "F"@,
                self.rownum as nat,
                self.rownum as nat,
            ),
    {
        Records::cell_range(self.rownum, Records::RACE_DURATION_COLUMN)
    }

    /// Takes note that `race_duration` was written as this record's race time.
    pub fn set_race_duration(&mut self, race_duration: Duration)
        ensures
            final(self).model() == (
                old(self).rownum as nat,
                old(self).user_message_id,
                old(self).bot_message_id,
                old(self).report_timestamp,
                old(self).driver_user_id,
                old(self).track_name@,
                race_duration,
            ),
    {
        self.race_duration = race_duration;
    }
}

/// Why a record could not be created.
#[derive(Debug, PartialEq, Eq)]
pub enum CreateRecordError {
    /// The sheet did not say where it put the new row.
    MissingSheetsReturn,
    /// The range where the sheet put the new row does not name a row.
    MissingRowNumber,
    /// The new row does not read as a record.
    Row(DeserializeValueError),
}

/// Whether reading a record row may fail: the row is short, or a message id,
/// the driver or the track does not read, or a reader may refuse the report time
/// or the race time.
pub open spec fn record_row_may_fail<FT, FD>(values: Seq<Value>, decode_timestamp: &FT, decode_duration: &FD) -> bool where
    FT: Fn(&Value) -> Result<Timestamp, DeserializeValueError>,
    FD: Fn(&Value) -> Result<Duration, DeserializeValueError>,
{
    ||| record_fixed_fields(values) is None
    ||| exists|e: DeserializeValueError|
        decode_timestamp.ensures((&values[2],), Err::<Timestamp, DeserializeValueError>(e))
    ||| exists|e: DeserializeValueError|
        decode_duration.ensures((&values[5],), Err::<Duration, DeserializeValueError>(e))
}

impl Records {
    /// The row to append for a new record: the ids as text, the report time and
    /// the race time as the given cell values, and the track.
    pub fn create_row(
        user_message_id: u64,
        bot_message_id: u64,
        report_timestamp_value: Value,
        driver_user_id: u64,
        track_name: String,
        race_duration_value: Value,
    ) -> (r: Vec<Value>)
        ensures
            r@.len() == 6,
            r@[0] matches Value::String(u) && u@ == decimal(user_message_id as nat),
            r@[1] matches Value::String(b) && b@ == decimal(bot_message_id as nat),
            r@[2] == report_timestamp_value,
            r@[3] matches Value::String(d) && d@ == decimal(driver_user_id as nat),
            r@[4] matches Value::String(t) && t@ == track_name@,
            r@[5] == race_duration_value,
    {
        vec![
            Value::String(crate::decimal::u64_to_string(user_message_id)),
            Value::String(crate::decimal::u64_to_string(bot_message_id)),
            report_timestamp_value,
            Value::String(crate::decimal::u64_to_string(driver_user_id)),
            Value::String(track_name),
            race_duration_value,
        ]
    }

    /// The row number that an append wrote to: the first row of `updated_range`.
    pub fn appended_rownum(updated_range: Option<String>) -> (r: Result<usize, CreateRecordError>)
        ensures
            match updated_range {
                None => r matches Err(CreateRecordError::MissingSheetsReturn),
                Some(range) => match range_rows(range@) {
                    None => r matches Err(CreateRecordError::MissingRowNumber),
                    Some((first, _)) => r == Ok::<usize, CreateRecordError>(first as usize),
                },
            },
    {
        let range = match updated_range {
            None => {
                return Err(CreateRecordError::MissingSheetsReturn);
            },
            Some(range) => range,
        };
        match Records::extract_rows_from_range(range.as_str()) {
            None => Err(CreateRecordError::MissingRowNumber),
            Some((first, _)) => Ok(first),
        }
    }

    /// The first record whose bot message id is `bot_message_id`, if any.
    pub fn find_by_bot_message_id(records: Vec<Record>, bot_message_id: u64) -> (r: Option<Record>)
        ensures
            match r {
                Some(rec) => exists|i: int|
                    0 <= i < records@.len() && records@[i].model() == rec.model()
                        && rec.bot_message_id == bot_message_id && forall|j: int|
                        0 <= j < i ==> records@[j].bot_message_id != bot_message_id,
                None => forall|j: int|
                    0 <= j < records@.len() ==> records@[j].bot_message_id != bot_message_id,
            },
    {
        let ghost all = records@;
        let mut rest = records;
        let mut i: usize = 0;
        let n = rest.len();
        while i < n
            invariant
                n == all.len(),
                all == records@,
                rest@.len() == n - i,
                forall|k: int| 0 <= k < rest@.len() ==> #[trigger] rest@[k] == all[k + i],
                forall|j: int| 0 <= j < i ==> all[j].bot_message_id != bot_message_id,
            decreases n - i,
        {
            let rec = rest.remove(0);
            assert(rec == all[i as int]);
            if rec.bot_message_id == bot_message_id {
                assert(all[i as int].model() == rec.model());
                return Some(rec);
            }
            i = i + 1;
        }
        None
    }

    /// The records of the sheet: every row after the header that reads as a
    /// record, in order of the rows, each with its row number and with the
    /// times that the readers gave; a row is left out only where reading it may fail.
    pub fn records_from_rows<FT, FD>(rows: Vec<Vec<Value>>, decode_timestamp: &FT, decode_duration: &FD) -> (r: Vec<Record>) where
        FT: Fn(&Value) -> Result<Timestamp, DeserializeValueError>,
        FD: Fn(&Value) -> Result<Duration, DeserializeValueError>,

        requires
            forall|v: &Value| decode_timestamp.requires((v,)),
            forall|v: &Value| decode_duration.requires((v,)),
        ensures
            forall|k: int|
                0 <= k < r@.len() ==> 2 <= #[trigger] r@[k].rownum <= rows@.len() && record_fixed_fields(
                    rows@[r@[k].rownum - 1]@,
                ) == Some(
                    (
                        r@[k].user_message_id,
                        r@[k].bot_message_id,
                        r@[k].driver_user_id,
                        r@[k].track_name@,
                    ),
                ) && decode_timestamp.ensures(
                    (&rows@[r@[k].rownum - 1]@[2],),
                    Ok::<Timestamp, DeserializeValueError>(r@[k].report_timestamp),
                ) && decode_duration.ensures(
                    (&rows@[r@[k].rownum - 1]@[5],),
                    Ok::<Duration, DeserializeValueError>(r@[k].race_duration),
                ),
            forall|k: int, l: int| 0 <= k < l < r@.len() ==> r@[k].rownum < r@[l].rownum,
            forall|i: int|
                1 <= i < rows@.len() && !(exists|k: int| 0 <= k < r@.len() && r@[k].rownum == i + 1)
                    ==> #[trigger] record_row_may_fail(rows@[i]@, decode_timestamp, decode_duration),
    {
        let mut out: Vec<Record> = Vec::new();
        let mut i: usize = 1;
        while i < rows.len()
            invariant
                1 <= i,
                i <= rows@.len() || out@.len() == 0,
                forall|v: &Value| decode_timestamp.requires((v,)),
                forall|v: &Value| decode_duration.requires((v,)),
                forall|k: int|
                    0 <= k < out@.len() ==> 2 <= #[trigger] out@[k].rownum <= i && record_fixed_fields(
                        rows@[out@[k].rownum - 1]@,
                    ) == Some(
                        (
                            out@[k].user_message_id,
                            out@[k].bot_message_id,
                            out@[k].driver_user_id,
                            out@[k].track_name@,
                        ),
                    ) && decode_timestamp.ensures(
                        (&rows@[out@[k].rownum - 1]@[2],),
                        Ok::<Timestamp, DeserializeValueError>(out@[k].report_timestamp),
                    ) && decode_duration.ensures(
                        (&rows@[out@[k].rownum - 1]@[5],),
                        Ok::<Duration, DeserializeValueError>(out@[k].race_duration),
                    ),
                forall|k: int, l: int| 0 <= k < l < out@.len() ==> out@[k].rownum < out@[l].rownum,
                forall|j: int|
                    1 <= j < i && j < rows@.len() && !(exists|k: int| 0 <= k < out@.len() && out@[k].rownum == j + 1)
                        ==> #[trigger] record_row_may_fail(rows@[j]@, decode_timestamp, decode_duration),
            decreases rows@.len() - i,
        {
            let row = crate::sheets::value::clone_row(&rows[i]);
            let ghost before = out@;
            match Record::from_row(i + 1, row, decode_timestamp, decode_duration) {
                Ok(rec) => {
                    out.push(rec);
                    proof {
                        assert forall|j: int|
                            1 <= j < i + 1 && j < rows@.len() && !(exists|k: int|
                                0 <= k < out@.len() && out@[k].rownum == j + 1) implies #[trigger] record_row_may_fail(
                            rows@[j]@,
                            decode_timestamp,
                            decode_duration,
                        ) by {
                            if j < i {
                                assert forall|k: int| 0 <= k < before.len() implies before[k].rownum != j + 1 by {
                                    assert(out@[k] == before[k]);
                                }
                            } else {
                                assert(out@[out@.len() - 1].rownum == j + 1);
                            }
                        }
                    }
                },
                Err(_) => {
                    proof {
                        assert(record_row_may_fail(rows@[i as int]@, decode_timestamp, decode_duration));
                    }
                },
            }
            i = i + 1;
        }
        out
    }
}

/// Writing a user id into column D of a record's row and reading the row again
/// gives the same ids and track with that driver.
pub proof fn lemma_driver_write_reads_back(row: Seq<Value>, user_id: u64, text: String)
    requires
        record_fixed_fields(row) is Some,
        text@ == decimal(user_id as nat),
    ensures
        record_fixed_fields(with_cell(row, 3, Value::String(text))) == Some(
            (
                record_fixed_fields(row)->Some_0.0,
                record_fixed_fields(row)->Some_0.1,
                user_id,
                record_fixed_fields(row)->Some_0.3,
            ),
        ),
        with_cell(row, 3, Value::String(text))[2] == row[2],
        with_cell(row, 3, Value::String(text))[5] == row[5],
{
    crate::decimal::lemma_parse_decimal(user_id as nat, u64::MAX as nat);
}

/// Writing a track into column E of a record's row and reading the row again
/// gives the same ids and driver with that track.
pub proof fn lemma_track_write_reads_back(row: Seq<Value>, track: String)
    requires
        record_fixed_fields(row) is Some,
    ensures
        record_fixed_fields(with_cell(row, 4, Value::String(track))) == Some(
            (
                record_fixed_fields(row)->Some_0.0,
                record_fixed_fields(row)->Some_0.1,
                record_fixed_fields(row)->Some_0.2,
                track@,
            ),
        ),
{
}

/// A new record's row reads back as its ids, driver and track.
pub proof fn lemma_create_row_reads_back(
    row: Seq<Value>,
    user_message_id: u64,
    bot_message_id: u64,
    driver_user_id: u64,
    track: Seq<char>,
)
    requires
        row.len() == 6,
        row[0] matches Value::String(u) && u@ == decimal(user_message_id as nat),
        row[1] matches Value::String(b) && b@ == decimal(bot_message_id as nat),
        row[3] matches Value::String(d) && d@ == decimal(driver_user_id as nat),
        row[4] matches Value::String(t) && t@ == track,
    ensures
        record_fixed_fields(row) == Some((user_message_id, bot_message_id, driver_user_id, track)),
{
    crate::decimal::lemma_parse_decimal(user_message_id as nat, u64::MAX as nat);
    crate::decimal::lemma_parse_decimal(bot_message_id as nat, u64::MAX as nat);
    crate::decimal::lemma_parse_decimal(driver_user_id as nat, u64::MAX as nat);
}

} // verus!
