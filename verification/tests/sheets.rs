use mkwo_records_bot::duration::Duration;
use mkwo_records_bot::sheets::errors::DeserializeValueError;
use mkwo_records_bot::sheets::players::{CreatePlayerError, Player, PlayerRowError, Players};
use mkwo_records_bot::sheets::records::{CreateRecordError, Record, Records, Timestamp};
use mkwo_records_bot::sheets::tracks::{Track, Tracks, DEFAULT_ICON_URL};
use mkwo_records_bot::sheets::utils::{
    amsterdam_local_seconds, get_duration, get_timestamp, get_timestamp_from_text, timestamp_from_seconds,
    duration_text_in_range, get_duration_from_text, get_string, get_u64, rows_of_range, DataRanges,
    COLON_MESSAGE, MILLIS_MESSAGE, MINUTES_MESSAGE, PERIOD_MESSAGE, SECONDS_MESSAGE,
};
use mkwo_records_bot::sheets::value::{JsonNumber, Value};

fn s(t: &str) -> Value {
    Value::String(t.to_string())
}

fn n(v: u64) -> Value {
    Value::Number(JsonNumber::PosInt(v))
}

#[test]
fn ranges_of_tables() {
    assert_eq!(Tracks::table_range(), "Tracks!A:B");
    assert_eq!(Players::table_range(), "Players!A:C");
    assert_eq!(Records::table_range(), "Records!A:F");
    assert_eq!(Players::row_range(7), "Players!A7:C7");
    assert_eq!(Records::rows_range(2, 10), "Records!A2:F10");
    assert_eq!(Records::cell_range(4, "D"), "Records!D4:D4");
    assert_eq!(Players::cell(3, "C".to_string()), "Players!C3:C3");
}

#[test]
fn rows_read_back_from_ranges() {
    assert_eq!(Records::extract_rows_from_range("Records!A12:F12"), Some((12, 12)));
    assert_eq!(Players::extract_rows_from_range(&Players::rows_range(3, 9)), Some((3, 9)));
    assert_eq!(rows_of_range("My Sheet!AB1:CD20"), Some((1, 20)));
    assert_eq!(rows_of_range("!A1:B2"), None);
    assert_eq!(rows_of_range("Sheet!A1:B"), None);
    assert_eq!(rows_of_range("Sheet!a1:B2"), None);
    assert_eq!(rows_of_range("Sheet!A1:B2 "), None);
    assert_eq!(rows_of_range("Sheet!A99999999999999999999:B2"), None);
    assert_eq!(rows_of_range("Sheet"), None);
}

#[test]
fn cells_as_numbers() {
    assert_eq!(get_u64(&n(42)).unwrap(), 42);
    assert_eq!(get_u64(&s("123")).unwrap(), 123);
    assert_eq!(get_u64(&s("+7")).unwrap(), 7);
    assert_eq!(
        get_u64(&s("12x")).unwrap_err(),
        DeserializeValueError::TypeConversion { input: "12x".to_string(), output_type: "u64" }
    );
    assert_eq!(
        get_u64(&Value::Number(JsonNumber::NegInt(-3))).unwrap_err(),
        DeserializeValueError::ExtractValue {
            input_value: Value::Number(JsonNumber::NegInt(-3)),
            output_type: "u64"
        }
    );
    assert_eq!(
        get_u64(&Value::Bool(true)).unwrap_err(),
        DeserializeValueError::UnexpectedValueType {
            input_value: Value::Bool(true),
            allowed_inputs: "Number, String",
            intended_output: "u64"
        }
    );
    assert_eq!(get_string(&s("abc")).unwrap(), "abc");
    assert_eq!(
        get_string(&n(1)).unwrap_err(),
        DeserializeValueError::UnexpectedValueType {
            input_value: n(1),
            allowed_inputs: "String",
            intended_output: "String"
        }
    );
}

fn fmt_err(input: &str, output_type: &'static str, message: &'static str) -> DeserializeValueError {
    DeserializeValueError::InvalidFormat { input: input.to_string(), output_type, message }
}

#[test]
fn duration_cells_as_text() {
    let d = get_duration_from_text("1:23.456").unwrap();
    assert_eq!((d.as_secs(), d.subsec_millis()), (83, 456));
    let d = get_duration_from_text("0:05.7").unwrap();
    assert_eq!((d.as_secs(), d.subsec_millis()), (5, 7));
    let d = get_duration_from_text("2:00.1500").unwrap();
    assert_eq!((d.as_secs(), d.subsec_millis()), (121, 500));
    assert_eq!(get_duration_from_text("123").unwrap_err(), fmt_err("123", "Duration", COLON_MESSAGE));
    assert_eq!(get_duration_from_text("1:2:3.4").unwrap_err(), fmt_err("1:2:3.4", "Duration", COLON_MESSAGE));
    assert_eq!(get_duration_from_text("x:23.456").unwrap_err(), fmt_err("x", "u64", MINUTES_MESSAGE));
    assert_eq!(get_duration_from_text("1:23").unwrap_err(), fmt_err("1:23", "Duration", PERIOD_MESSAGE));
    assert_eq!(get_duration_from_text("1:2.3.4").unwrap_err(), fmt_err("1:2.3.4", "Duration", PERIOD_MESSAGE));
    assert_eq!(get_duration_from_text("1:x.456").unwrap_err(), fmt_err("1", "u64", SECONDS_MESSAGE));
    assert_eq!(get_duration_from_text("1:23.x").unwrap_err(), fmt_err("1", "u64", MILLIS_MESSAGE));
    assert!(duration_text_in_range("1:23.456"));
    assert!(!duration_text_in_range("18446744073709551615:0.0"));
    assert!(duration_text_in_range("nonsense"));
}

#[test]
fn tracks_from_rows() {
    let rows = vec![
        vec![s("Name"), s("Icon")],
        vec![s("Mario Bros. Circuit"), s("https://a/1.png")],
        vec![s("Broken")],
        vec![n(5), s("x")],
        vec![s("Koopa Beach"), s("https://a/2.png")],
    ];
    let tracks = Tracks::tracks_from_rows(rows);
    assert_eq!(tracks.len(), 2);
    assert_eq!((tracks[0].rownum, tracks[0].name.as_str()), (2, "Mario Bros. Circuit"));
    assert_eq!((tracks[1].rownum, tracks[1].name.as_str()), (5, "Koopa Beach"));
    assert!(Tracks::has_track(&tracks, &"Koopa Beach".to_string()));
    assert!(!Tracks::has_track(&tracks, &"koopa beach".to_string()));
    assert_eq!(Tracks::names(&tracks), vec!["Mario Bros. Circuit".to_string(), "Koopa Beach".to_string()]);
    assert_eq!(Tracks::icon_url_for(&tracks, &"Koopa Beach".to_string()), "https://a/2.png");
    assert_eq!(Tracks::icon_url_for(&tracks, &"Nowhere".to_string()), DEFAULT_ICON_URL);
    assert_eq!(
        Track::from_row(1, vec![]).unwrap_err(),
        DeserializeValueError::MissingItem { missing_index: 0, expected_item_count: 2 }
    );
    assert_eq!(
        Track::from_row(1, vec![s("A")]).unwrap_err(),
        DeserializeValueError::MissingItem { missing_index: 1, expected_item_count: 2 }
    );
    let t = Track::from_row(3, vec![s("A"), s("B")]).unwrap();
    let row = t.to_row();
    assert_eq!(row, vec![s("A"), s("B")]);
}

#[test]
fn players_from_rows() {
    let rows = vec![
        vec![s("User ID"), s("Name"), s("Track")],
        vec![s("111"), s("Ann"), s("Koopa Beach")],
        vec![n(222), s("Bob")],
        vec![s("x"), s("Bad")],
        vec![s("333"), s("Cid"), n(4)],
    ];
    let players = Players::players_from_rows(rows);
    assert_eq!(players.len(), 3);
    assert_eq!((players[0].rownum, players[0].user_id), (2, 111));
    assert_eq!(players[0].current_track.as_deref(), Some("Koopa Beach"));
    assert_eq!((players[1].rownum, players[1].user_id, players[1].current_track.clone()), (3, 222, None));
    assert_eq!((players[2].rownum, players[2].current_track.clone()), (5, None));
    let found = Players::find_by_user_id(players, 222).unwrap();
    assert_eq!(found.display_name, "Bob");
    assert_eq!(
        Player::from_row(1, vec![]).unwrap_err(),
        PlayerRowError::Missing("Failed to get first value")
    );
    assert_eq!(
        Player::from_row(1, vec![s("5")]).unwrap_err(),
        PlayerRowError::Missing("Failed to get display name value")
    );
}

#[test]
fn player_rows_read_back() {
    let row = Players::create_row(987654321, "Dee".to_string(), Some("Wario Stadium".to_string()));
    assert_eq!(row, vec![s("987654321"), s("Dee"), s("Wario Stadium")]);
    let p = Players::player_after_append(Some("Players!A8:C8".to_string()), row).unwrap();
    assert_eq!((p.rownum, p.user_id, p.display_name.as_str()), (8, 987654321, "Dee"));
    assert_eq!(p.current_track.as_deref(), Some("Wario Stadium"));
    let row = Players::create_row(1, "E".to_string(), None);
    assert_eq!(row[2], s(""));
    assert_eq!(
        Players::player_after_append(None, row).unwrap_err(),
        CreatePlayerError::MissingSheetsReturn
    );
    let row = Players::create_row(1, "E".to_string(), None);
    assert_eq!(
        Players::player_after_append(Some("nonsense".to_string()), row).unwrap_err(),
        CreatePlayerError::MissingRowNumber
    );
    assert_eq!(Players::check_new(&None), Ok(()));
}

#[test]
fn player_track_write_reads_back() {
    let mut p = Player::from_row(4, vec![s("12"), s("Fay")]).unwrap();
    let (cell, value) = p.current_track_write(&"Moo Moo Meadows".to_string());
    assert_eq!(cell, "Players!C4:C4");
    assert_eq!(value, s("Moo Moo Meadows"));
    p.set_current_track("Moo Moo Meadows".to_string());
    assert_eq!(p.current_track.as_deref(), Some("Moo Moo Meadows"));
    let again = Player::from_row(4, vec![s("12"), s("Fay"), value]).unwrap();
    assert_eq!(again.current_track.as_deref(), Some("Moo Moo Meadows"));
    let (cell, value) = p.display_name_write(&"Faye".to_string());
    assert_eq!((cell.as_str(), value), ("Players!B4:B4", s("Faye")));
    p.set_display_name("Faye".to_string());
    assert_eq!(p.display_name, "Faye");
    assert_eq!(p.to_row(), vec![s("12"), s("Faye"), s("Moo Moo Meadows")]);
}

fn stamp(v: &Value) -> Result<Timestamp, DeserializeValueError> {
    match v {
        Value::String(t) if t == "now" => Ok(Timestamp { unix_seconds: 1_700_000_000, nanos: 0 }),
        other => Err(DeserializeValueError::ExtractValue { input_value: other.deep_clone(), output_type: "Timestamp" }),
    }
}

fn race(v: &Value) -> Result<Duration, DeserializeValueError> {
    match v {
        Value::String(t) => get_duration_from_text(t),
        other => Err(DeserializeValueError::ExtractValue { input_value: other.deep_clone(), output_type: "Duration" }),
    }
}

fn record_row(umid: &str, bmid: &str, ts: &str, driver: &str, track: &str, time: &str) -> Vec<Value> {
    vec![s(umid), s(bmid), s(ts), s(driver), s(track), s(time)]
}

#[test]
fn records_from_rows() {
    let rows = vec![
        record_row("a", "b", "c", "d", "e", "f"),
        record_row("1", "10", "now", "100", "Koopa Beach", "1:02.003"),
        vec![s("2"), s("20")],
        record_row("3", "30", "later", "300", "Koopa Beach", "1:02.003"),
        record_row("4", "40", "now", "400", "Mario Circuit", "0:59.999"),
    ];
    let records = Records::records_from_rows(rows, &stamp, &race);
    assert_eq!(records.len(), 2);
    assert_eq!((records[0].rownum, records[0].bot_message_id, records[0].driver_user_id), (2, 10, 100));
    assert_eq!(records[0].race_duration.as_secs(), 62);
    assert_eq!(records[1].rownum, 5);
    let found = Records::find_by_bot_message_id(records, 40).unwrap();
    assert_eq!(found.track_name, "Mario Circuit");
    assert_eq!(
        Record::from_row(2, vec![s("1")], &stamp, &race).unwrap_err(),
        DeserializeValueError::MissingItem { missing_index: 1, expected_item_count: 6 }
    );
    assert_eq!(
        Record::from_row(2, record_row("1", "2", "later", "x", "T", "1:00.000"), &stamp, &race).unwrap_err(),
        DeserializeValueError::ExtractValue { input_value: s("later"), output_type: "Timestamp" }
    );
}

#[test]
fn record_rows_and_writes() {
    let row = Records::create_row(11, 22, s("now"), 33, "Koopa Beach".to_string(), s("1:00.500"));
    assert_eq!(row, record_row("11", "22", "now", "33", "Koopa Beach", "1:00.500"));
    assert_eq!(Records::appended_rownum(Some("Records!A9:F9".to_string())), Ok(9));
    assert_eq!(Records::appended_rownum(None), Err(CreateRecordError::MissingSheetsReturn));
    assert_eq!(Records::appended_rownum(Some("Records".to_string())), Err(CreateRecordError::MissingRowNumber));
    let mut rec = Record::from_row(9, row, &stamp, &race).unwrap();
    assert_eq!((rec.user_message_id, rec.bot_message_id, rec.driver_user_id), (11, 22, 33));
    let (cell, value) = rec.driver_user_id_write(44);
    assert_eq!((cell.as_str(), &value), ("Records!D9:D9", &s("44")));
    rec.set_driver_user_id(44);
    assert_eq!(rec.driver_user_id, 44);
    let reread = Record::from_row(9, record_row("11", "22", "now", "44", "Koopa Beach", "1:00.500"), &stamp, &race).unwrap();
    assert_eq!(reread.driver_user_id, 44);
    let (cell, value) = rec.track_name_write(&"DK Pass".to_string());
    assert_eq!((cell.as_str(), value), ("Records!E9:E9", s("DK Pass")));
    rec.set_track_name("DK Pass".to_string());
    assert_eq!(rec.track_name, "DK Pass");
    assert_eq!(rec.race_duration_cell(), "Records!F9:F9");
    rec.set_race_duration(Duration::from_millis(70_000));
    assert_eq!(rec.race_duration.as_secs(), 70);
}

#[test]
fn values_copy() {
    let v = Value::Array("[1,2]".to_string());
    assert_eq!(v.deep_clone(), v);
    assert_eq!(JsonNumber::Float(1.5f64.to_bits()).as_u64(), None);
    assert_eq!(JsonNumber::PosInt(3).as_u64(), Some(3));
}

#[test]
fn rows_written_by_to_row_read_back() {
    let p = Player::from_row(6, vec![s("77"), s("Gus")]).unwrap();
    let row = p.to_row();
    assert_eq!(row, vec![s("77"), s("Gus"), Value::Null]);
    let again = Player::from_row(6, row).unwrap();
    assert_eq!((again.user_id, again.display_name.as_str(), again.current_track.clone()), (77, "Gus", None));
    let t = Track::from_row(2, vec![s("Dino Dino Jungle"), s("https://a/3.png")]).unwrap();
    let again = Track::from_row(2, t.to_row()).unwrap();
    assert_eq!((again.name.as_str(), again.icon_url.as_str()), ("Dino Dino Jungle", "https://a/3.png"));
}

#[test]
fn date_time_cells() {
    let t = get_timestamp_from_text(&"15-03-2024 12:30:45".to_string()).unwrap();
    assert_eq!((t.unix_seconds, t.nanos), (1_710_505_845, 0));
    assert_eq!(
        get_timestamp_from_text(&"2024-03-15 12:30:45".to_string()).unwrap_err(),
        DeserializeValueError::ExtractValue { input_value: s("2024-03-15 12:30:45"), output_type: "Timestamp" }
    );
    assert_eq!(amsterdam_local_seconds(t), Some(1_710_505_845 + 3_600));
    let summer = Timestamp { unix_seconds: 1_719_792_000, nanos: 0 };
    assert_eq!(amsterdam_local_seconds(summer), Some(1_719_792_000 + 7_200));
    assert_eq!(timestamp_from_seconds(86_400), Some(Timestamp { unix_seconds: 86_400, nanos: 0 }));
    assert_eq!(timestamp_from_seconds(i64::MAX), None);
}

fn no_number_ts(v: &Value) -> Result<Timestamp, DeserializeValueError> {
    Err(DeserializeValueError::ExtractValue { input_value: v.deep_clone(), output_type: "f64" })
}

fn no_number_du(v: &Value) -> Result<Duration, DeserializeValueError> {
    Err(DeserializeValueError::ExtractValue { input_value: v.deep_clone(), output_type: "f64" })
}

#[test]
fn cells_by_kind() {
    for v in [Value::Null, Value::Bool(true), Value::Array("[]".to_string()), Value::Object("{}".to_string())] {
        assert_eq!(
            get_duration(&v, &no_number_du).unwrap_err(),
            DeserializeValueError::UnexpectedValueType {
                input_value: v.deep_clone(),
                allowed_inputs: "Number, String",
                intended_output: "Duration",
            }
        );
        assert_eq!(
            get_timestamp(&v, &no_number_ts).unwrap_err(),
            DeserializeValueError::UnexpectedValueType {
                input_value: v.deep_clone(),
                allowed_inputs: "String, Number",
                intended_output: "Timestamp",
            }
        );
    }
    assert_eq!(get_duration(&s("1:02.003"), &no_number_du).unwrap().as_secs(), 62);
    assert!(matches!(
        get_duration(&s("1:2:3.4"), &no_number_du),
        Err(DeserializeValueError::InvalidFormat { output_type: "Duration", .. })
    ));
    assert!(matches!(
        get_duration(&s("1:23"), &no_number_du),
        Err(DeserializeValueError::InvalidFormat { output_type: "Duration", .. })
    ));
    assert_eq!(get_duration(&n(5), &no_number_du).unwrap_err(), no_number_du(&n(5)).unwrap_err());
    assert_eq!(
        get_timestamp(&s("2024-01-01 12:00:00"), &no_number_ts).unwrap_err(),
        DeserializeValueError::ExtractValue { input_value: s("2024-01-01 12:00:00"), output_type: "Timestamp" }
    );
    assert_eq!(get_timestamp(&s("01-01-2024 12:00:00"), &no_number_ts).unwrap().unix_seconds, 1_704_110_400);
}

#[test]
fn chrono_range_edges() {
    assert!(timestamp_from_seconds(8_210_266_876_799).is_some());
    assert_eq!(timestamp_from_seconds(8_210_266_876_800), None);
    assert!(timestamp_from_seconds(-8_334_601_228_800).is_some());
    assert_eq!(timestamp_from_seconds(-8_334_601_228_801), None);
    let last = Timestamp { unix_seconds: 8_210_266_876_799, nanos: 0 };
    assert_eq!(amsterdam_local_seconds(last), None);
    let first = Timestamp { unix_seconds: -8_334_601_228_800, nanos: 0 };
    assert!(amsterdam_local_seconds(first).is_some());
}
