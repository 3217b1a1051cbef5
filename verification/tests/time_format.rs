use mkwo_records_bot::decimal::{parse_u64, u64_to_string, usize_to_string, parse_usize};
use mkwo_records_bot::discord::commands::ocr::duration_to_string as ocr_duration_to_string;
use mkwo_records_bot::discord::templates::record::duration_to_string;
use mkwo_records_bot::duration::Duration;
use mkwo_records_bot::ocr::{parse_duration, post_process_to_duration, ExtractError};

fn chars(s: &str) -> Vec<char> {
    s.chars().collect()
}

#[test]
fn decimal_text_of_numbers() {
    assert_eq!(u64_to_string(0), "0");
    assert_eq!(u64_to_string(7), "7");
    assert_eq!(u64_to_string(1234567890), "1234567890");
    assert_eq!(u64_to_string(u64::MAX), u64::MAX.to_string());
    assert_eq!(usize_to_string(42), "42");
}

#[test]
fn parse_numbers_like_std() {
    for s in ["0", "+5", "007", "18446744073709551615", "18446744073709551616", "", "+", "-1", "12a", " 1"] {
        assert_eq!(parse_u64(&chars(s)), s.parse::<u64>().ok(), "input {:?}", s);
        assert_eq!(parse_usize(&chars(s)), s.parse::<usize>().ok(), "input {:?}", s);
    }
}

#[test]
fn parse_race_time() {
    let d = parse_duration("1:23.456").unwrap();
    assert_eq!(d.as_secs(), 83);
    assert_eq!(d.subsec_nanos(), 456_000_000);
    let d = parse_duration("0:05.007").unwrap();
    assert_eq!(d.as_secs(), 5);
    assert_eq!(d.subsec_millis(), 7);
}

#[test]
fn parse_race_time_rejects_other_text() {
    for s in ["1:60.000", "12:00.000", "1:2.345", "1:23.45", "1:23.4567", " 1:23.456", "1:23,456", ""] {
        match parse_duration(s) {
            Err(ExtractError::InvalidFormat(t)) => assert_eq!(t, s),
            _ => panic!("expected InvalidFormat for {:?}", s),
        }
    }
}

#[test]
fn race_time_message() {
    let e = parse_duration("abc").err().unwrap();
    assert_eq!(e.message(), "invalid time format: abc");
    assert_eq!(ExtractError::YellowMissing.message(), "no yellow time found");
    assert_eq!(
        ExtractError::ProviderStatus("groq".to_string(), 503).message(),
        "provider groq non-OK status: 503 Service Unavailable"
    );
    assert_eq!(
        ExtractError::RateLimited("openrouter".to_string()).message(),
        "rate limited by provider openrouter"
    );
}

#[test]
fn write_race_time() {
    let d = Duration::from_secs(83).add(Duration::from_millis(456));
    assert_eq!(duration_to_string(d), "1:23.456");
    assert_eq!(duration_to_string(Duration::from_millis(5_007)), "0:05.007");
    assert_eq!(duration_to_string(Duration::from_secs(3_600)), "60:00.000");
    assert_eq!(duration_to_string(Duration::new(61, 999_999_999)), "1:01.999");
    assert_eq!(ocr_duration_to_string(Duration::from_millis(1)), "0:00.001");
}

#[test]
fn race_time_round_trips() {
    for s in ["0:00.000", "9:59.999", "1:23.456", "3:07.050"] {
        let d = parse_duration(s).unwrap();
        assert_eq!(duration_to_string(d), s);
    }
    let d = Duration::from_millis(123_456);
    let again = parse_duration(&duration_to_string(Duration::from_millis(123_456))).unwrap();
    assert_eq!(again.as_secs(), d.as_secs());
    assert_eq!(again.subsec_nanos(), d.subsec_nanos());
}

#[test]
fn read_answer_of_model() {
    let d = post_process_to_duration("  1:02.345\n").unwrap();
    assert_eq!((d.as_secs(), d.subsec_millis()), (62, 345));
    let d = post_process_to_duration("The time is 0:59.001.").unwrap();
    assert_eq!((d.as_secs(), d.subsec_millis()), (59, 1));
    let d = post_process_to_duration("a11:22.333 then 2:03.004").unwrap();
    assert_eq!((d.as_secs(), d.subsec_millis()), (123, 4));
    assert!(matches!(post_process_to_duration("NULL"), Err(ExtractError::YellowMissing)));
    assert!(matches!(post_process_to_duration(" null "), Err(ExtractError::YellowMissing)));
    assert!(matches!(post_process_to_duration("no time here"), Err(ExtractError::YellowMissing)));
    assert!(matches!(post_process_to_duration("1:23.4567"), Err(ExtractError::YellowMissing)));
    assert!(matches!(post_process_to_duration(""), Err(ExtractError::YellowMissing)));
}

#[test]
fn durations_add_and_carry() {
    let d = Duration::new(1, 1_500_000_000);
    assert_eq!(d.as_secs(), 2);
    assert_eq!(d.subsec_nanos(), 500_000_000);
    let e = d.add(Duration::new(0, 600_000_000));
    assert_eq!(e.as_secs(), 3);
    assert_eq!(e.subsec_nanos(), 100_000_000);
}

#[test]
fn race_time_with_other_unicode_digits() {
    match parse_duration("١:23.456") {
        Err(ExtractError::MinutesParse(m)) => assert_eq!(m, "invalid digit found in string"),
        other => panic!("expected MinutesParse, got {:?}", other),
    }
    match parse_duration("1:2٣.456") {
        Err(ExtractError::SecondsParse(m)) => assert_eq!(m, "invalid digit found in string"),
        other => panic!("expected SecondsParse, got {:?}", other),
    }
    match parse_duration("1:23.45٦") {
        Err(e @ ExtractError::MillisParse(_)) => {
            assert_eq!(e.message(), "milliseconds parse: invalid digit found in string")
        }
        other => panic!("expected MillisParse, got {:?}", other),
    }
    match parse_duration("١:٢٣.٤٥٦") {
        Err(ExtractError::InvalidFormat(t)) => assert_eq!(t, "١:٢٣.٤٥٦"),
        other => panic!("expected InvalidFormat, got {:?}", other),
    }
}

#[test]
fn answer_search_uses_unicode_words() {
    assert!(matches!(post_process_to_duration("é1:23.456"), Err(ExtractError::YellowMissing)));
    assert!(matches!(post_process_to_duration("1:23.456ß"), Err(ExtractError::YellowMissing)));
    let d = post_process_to_duration("time—1:23.456—done").unwrap();
    assert_eq!((d.as_secs(), d.subsec_millis()), (83, 456));
    let d = post_process_to_duration("first ١:٢٣.٤٥٦ then 1:23.457").unwrap();
    assert_eq!((d.as_secs(), d.subsec_millis()), (83, 457));
    assert!(matches!(
        post_process_to_duration("first ١:23.456 then 1:23.456"),
        Err(ExtractError::MinutesParse(_))
    ));
}
