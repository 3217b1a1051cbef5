use mkwo_records_bot::sheets::raw::{RawPlayer, RawRecord, RawTrack};
use mkwo_records_bot::sheets::value::{JsonNumber, Value};

fn s(t: &str) -> Value {
    Value::String(t.to_string())
}

fn n(v: u64) -> Value {
    Value::Number(JsonNumber::PosInt(v))
}

fn float_text(bits: u64) -> String {
    f64::from_bits(bits).to_string()
}

#[test]
fn six_cell_records() {
    let row = vec![s("1"), n(2), s("15-03-2024 12:30:45"), s("3"), s("Koopa Beach"), s("1:02.5")];
    assert!(RawRecord::row_is_readable(&row));
    let r = RawRecord::try_from_row(row).unwrap();
    assert_eq!((r.user_message_id, r.bot_message_id, r.driver_user_id), (1, 2, 3));
    assert_eq!((r.report_timestamp.unix_seconds, r.report_timestamp.nanos), (1_710_505_845, 0));
    assert_eq!(r.track_name, "Koopa Beach");
    assert_eq!((r.race_duration.as_secs(), r.race_duration.subsec_millis()), (62, 5));

    let row = vec![s("1"), s("2"), s("15-03-2024 12:30:45"), s("3"), s("T"), n(75)];
    assert_eq!(RawRecord::try_from_row(row).unwrap().race_duration.as_secs(), 75);
    let row = vec![s("1"), s("2"), s("15-03-2024 12:30:45"), s("3"), s("T"), s("1:02.003.9")];
    assert_eq!(RawRecord::try_from_row(row).unwrap().race_duration.subsec_millis(), 3);
    let row = vec![s("1"), s("2"), s("15-03-2024 12:30:45"), s("3"), s("T"), s("0:07")];
    assert_eq!(RawRecord::try_from_row(row).unwrap().race_duration.as_secs(), 7);

    assert_eq!(RawRecord::try_from_row(vec![s("1")]).unwrap_err(), "Expected 6 values, got 1");
    let row = vec![s("x"), s("2"), s("bad"), s("3"), s("T"), s("bad")];
    assert_eq!(RawRecord::try_from_row(row).unwrap_err(), "invalid digit found in string");
    let row = vec![Value::Null, s("2"), s("bad"), s("3"), s("T"), s("bad")];
    assert_eq!(RawRecord::try_from_row(row).unwrap_err(), "Failed to represent user message id as a u64");
    let row = vec![s("1"), Value::Bool(true), s("bad"), s("3"), s("T"), s("bad")];
    assert_eq!(RawRecord::try_from_row(row).unwrap_err(), "Failed to represent bot message id as a u64");
    let row = vec![s("1"), s("2"), s("15-03-2024 12:30:45"), Value::Null, s("T"), s("bad")];
    assert_eq!(RawRecord::try_from_row(row).unwrap_err(), "Failed to represent driver user id as a u64");
    let row = vec![s("1"), s("2"), s("15-03-2024 12:30:45"), s("3"), n(4), s("bad")];
    assert_eq!(RawRecord::try_from_row(row).unwrap_err(), "Failed to represent track name as a String");

    let stops = vec![s("1"), s("2"), s("2024-03-15"), s("3"), s("T"), s("1:00.000")];
    assert!(!RawRecord::row_is_readable(&stops));
    assert!(RawRecord::try_from_row_checked(stops).is_none());
    let stops = vec![s("1"), s("2"), s("15-03-2024 12:30:45"), s("3"), s("T"), s("100")];
    assert!(RawRecord::try_from_row_checked(stops).is_none());
}

#[test]
fn player_cells() {
    let p = RawPlayer::try_from_row(vec![s("12"), s("Ann"), s("Koopa Beach")], &float_text).unwrap();
    assert_eq!((p.user_id, p.display_name.as_str()), (12, "\"Ann\""));
    assert_eq!(p.current_track.as_deref(), Some("Koopa Beach"));
    let p = RawPlayer::try_from_row(vec![n(7)], &float_text).unwrap();
    assert_eq!((p.display_name.as_str(), p.current_track.clone()), ("", None));
    let p = RawPlayer::try_from_row(vec![n(7), Value::Number(JsonNumber::NegInt(-5)), Value::Null], &float_text).unwrap();
    assert_eq!(p.display_name, "-5");
    let p = RawPlayer::try_from_row(vec![n(7), Value::Bool(false)], &float_text).unwrap();
    assert_eq!(p.display_name, "false");
    let p = RawPlayer::try_from_row(vec![n(7), Value::Number(JsonNumber::Float(1.5f64.to_bits()))], &float_text).unwrap();
    assert_eq!(p.display_name, "1.5");
    let p = RawPlayer::try_from_row(vec![n(7), s("a\"b")], &float_text).unwrap();
    assert_eq!(p.display_name, "\"a\\\"b\"");
    assert_eq!(RawPlayer::try_from_row(vec![], &float_text).unwrap_err(), "Not enough fields to constuct a Player instance");
    assert_eq!(RawPlayer::try_from_row(vec![s("x")], &float_text).unwrap_err(), "Failed to represent User ID as a u64");
    assert_eq!(
        RawPlayer::try_from_row(vec![n(1), s("A"), n(3)], &float_text).unwrap_err(),
        "Failed to represent Current Track as an Option<String>"
    );
    let p = RawPlayer { user_id: 9, display_name: "B".to_string(), current_track: None };
    assert_eq!(p.to_row(), vec![s("9"), s("B"), Value::Null]);
}

#[test]
fn track_cells() {
    assert_eq!(RawTrack::try_from_row(vec![s("DK Pass")]).unwrap().name, "DK Pass");
    assert_eq!(RawTrack::try_from_row(vec![Value::Null]).unwrap().name, "");
    assert_eq!(RawTrack::try_from_row(vec![]).unwrap_err(), "Not enough fields to constuct a Track instance");
    assert_eq!(RawTrack::try_from_row(vec![n(1)]).unwrap_err(), "Failed to represent Current Track as a String");
    assert_eq!(RawTrack { name: "X".to_string() }.to_row(), vec![s("X")]);
}

fn player_rows() -> Vec<Vec<Value>> {
    vec![
        vec![s("User ID"), s("Name"), s("Track")],
        vec![s("5"), s("Ann"), n(3)],
        vec![s("7"), s("Bob")],
        vec![s("5"), s("Ann again"), s("Koopa Beach")],
    ]
}

#[test]
fn player_rows_by_user() {
    let rows = player_rows();
    assert_eq!(RawPlayer::row_of_user(&rows, 7), Some(3));
    assert_eq!(RawPlayer::row_of_user(&rows, 5), Some(4));
    assert_eq!(RawPlayer::row_of_user(&rows, 9), None);
    let p = RawPlayer::find_in_rows(&rows, 5, &float_text).unwrap();
    assert_eq!(p.display_name, "\"Ann again\"");
    let (cell, value) = RawPlayer::select_track_write(&rows, 7, "DK Pass".to_string()).unwrap();
    assert_eq!((cell.as_str(), value), ("Players!C3:C3", s("DK Pass")));
    assert_eq!(RawPlayer::select_track_write(&rows, 9, "X".to_string()).unwrap_err(), "Could not find player");
    assert_eq!(RawPlayer::new_player_row(42), vec![s("42")]);
}

#[test]
fn record_rows_by_bot_message() {
    let good = |b: &str| vec![s("1"), s(b), s("15-03-2024 12:30:45"), s("3"), s("T"), n(60)];
    let rows = vec![vec![s("header")], good("10"), vec![s("x")], good("20")];
    assert_eq!(RawRecord::row_of_bot_message(&rows, 20), Some(Some(4)));
    assert_eq!(RawRecord::row_of_bot_message(&rows, 30), Some(None));
    let (cell, value) = RawRecord::change_driver_write(&rows, 10, 77).unwrap().unwrap();
    assert_eq!((cell.as_str(), value), ("Records!D2:D2", s("77")));
    assert_eq!(RawRecord::change_driver_write(&rows, 30, 77).unwrap().unwrap_err(), "Could not find record");
    let stops = vec![s("1"), s("2"), s("not a date"), s("3"), s("T"), n(60)];
    let rows = vec![vec![s("header")], stops, good("20")];
    assert_eq!(RawRecord::row_of_bot_message(&rows, 20), None);
}
