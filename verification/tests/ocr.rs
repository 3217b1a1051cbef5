use mkwo_records_bot::decimal::{int_error_message, parse_u64_with_error, IntErrorKind};
use mkwo_records_bot::ocr::image_plan::{
    base64_encode, choose_encoding, data_url, estimate_base64_len, fits, CompressionPlan, ImageFormat,
    NextStep,
    SAFE_BASE64_MAX,
};
use mkwo_records_bot::ocr::ocr::{loose_time_in_range, parse_duration as parse_loose};
use mkwo_records_bot::ocr::providers::{
    chat_completions_url, check_status, first_choice_text, is_retryable, parse_provider_order, Failover,
    Provider, DEFAULT_PROVIDER_ORDER,
};
use mkwo_records_bot::ocr::ExtractError;

#[test]
fn provider_order() {
    assert_eq!(parse_provider_order(DEFAULT_PROVIDER_ORDER), vec![Provider::OpenRouter, Provider::Groq]);
    assert_eq!(parse_provider_order(" GROQ , openrouter,foo,"), vec![Provider::Groq, Provider::OpenRouter]);
    assert_eq!(parse_provider_order("groq,groq"), vec![Provider::Groq, Provider::Groq]);
    assert!(parse_provider_order("").is_empty());
    assert!(parse_provider_order("open router").is_empty());
}

#[test]
fn provider_answers() {
    assert!(is_retryable(&ExtractError::RateLimited("groq".to_string())));
    assert!(is_retryable(&ExtractError::Http("timeout".to_string())));
    for code in [429u16, 500, 502, 503, 504] {
        assert!(is_retryable(&ExtractError::ProviderStatus("groq".to_string(), code)));
    }
    assert!(!is_retryable(&ExtractError::ProviderStatus("groq".to_string(), 401)));
    assert!(!is_retryable(&ExtractError::YellowMissing));
    assert_eq!(check_status("groq", 429), Err(ExtractError::RateLimited("groq".to_string())));
    assert_eq!(check_status("groq", 404), Err(ExtractError::ProviderStatus("groq".to_string(), 404)));
    assert_eq!(check_status("groq", 301), Err(ExtractError::ProviderStatus("groq".to_string(), 301)));
    assert_eq!(check_status("groq", 200), Ok(()));
    assert_eq!(check_status("groq", 204), Ok(()));
    assert_eq!(first_choice_text(&vec![]), "");
    assert_eq!(first_choice_text(&vec!["  1:02.003\n".to_string(), "x".to_string()]), "1:02.003");
    assert_eq!(chat_completions_url("https://api.groq.com/openai/v1"), "https://api.groq.com/openai/v1/chat/completions");
}

#[test]
fn failover_tries_in_order() {
    assert_eq!(Failover::start(vec![]).err(), Some(ExtractError::NoProviders));
    let mut f = Failover::start(vec![Provider::OpenRouter, Provider::Groq]).unwrap();
    assert_eq!(f.next_provider(), Some(Provider::OpenRouter));
    assert!(f.record(Err(ExtractError::RateLimited("openrouter".to_string()))).is_none());
    assert_eq!(f.next_provider(), Some(Provider::Groq));
    let done = f.record(Ok("0:45.678".to_string())).unwrap().unwrap();
    assert_eq!((done.as_secs(), done.subsec_millis()), (45, 678));

    let mut f = Failover::start(vec![Provider::OpenRouter, Provider::Groq]).unwrap();
    let stop = f.record(Err(ExtractError::ProviderStatus("openrouter".to_string(), 401)));
    assert_eq!(stop.map(|r| r.err()), Some(Some(ExtractError::ProviderStatus("openrouter".to_string(), 401))));

    let mut f = Failover::start(vec![Provider::Groq]).unwrap();
    assert!(f.record(Err(ExtractError::Http("down".to_string()))).is_none());
    assert_eq!(f.next_provider(), None);
    assert_eq!(f.finish(), ExtractError::Http("down".to_string()));
}

#[test]
fn base64_sizes() {
    assert_eq!(estimate_base64_len(0), 0);
    assert_eq!(estimate_base64_len(1), 4);
    assert_eq!(estimate_base64_len(3), 4);
    assert_eq!(estimate_base64_len(4), 8);
    assert_eq!(estimate_base64_len(2_925_000), 3_900_000);
    assert!(fits(2_925_000));
    assert!(!fits(2_925_001));
    assert_eq!(SAFE_BASE64_MAX, 3_900_000);
}

#[test]
fn shrinking_plan() {
    let mut plan = CompressionPlan::start(false);
    assert_eq!(plan.encode_order(), (ImageFormat::Jpeg, ImageFormat::Png));
    let mut qualities = vec![plan.jpeg_quality()];
    let mut sides = vec![plan.side_cap()];
    let none: Vec<(ImageFormat, usize)> = vec![];
    loop {
        match plan.next_round(&none) {
            NextStep::Retry => qualities.push(plan.jpeg_quality()),
            NextStep::Resize(side) => sides.push(side),
            NextStep::GiveUp => break,
        }
        assert!(plan.has_rounds_left());
    }
    assert_eq!(qualities, vec![85, 75, 65, 55]);
    assert_eq!(sides, vec![1280, 1088, 924, 785, 667, 566]);
    assert_eq!(plan.round(), 8);

    let mut plan = CompressionPlan::start(true);
    assert_eq!(plan.encode_order(), (ImageFormat::Png, ImageFormat::Jpeg));
    for _ in 0..3 {
        assert_eq!(plan.next_round(&vec![]), NextStep::Retry);
    }
    assert_eq!(plan.jpeg_quality(), 55);
    assert!(plan.prefer_png());
    let candidates = vec![(ImageFormat::Png, 5_000_000), (ImageFormat::Jpeg, 4_000_000), (ImageFormat::Png, 4_000_000)];
    assert_eq!(plan.next_round(&candidates), NextStep::Resize(1088));
    assert!(!plan.prefer_png());
    assert_eq!(plan.side_cap(), 1088);
    assert_eq!(plan.round(), 4);
}

#[test]
fn integer_parse_errors() {
    let chars = |s: &str| s.chars().collect::<Vec<char>>();
    assert_eq!(parse_u64_with_error(&chars("")), Err(IntErrorKind::Empty));
    assert_eq!(parse_u64_with_error(&chars("+")), Err(IntErrorKind::InvalidDigit));
    assert_eq!(parse_u64_with_error(&chars("-")), Err(IntErrorKind::InvalidDigit));
    assert_eq!(parse_u64_with_error(&chars("-1")), Err(IntErrorKind::InvalidDigit));
    assert_eq!(parse_u64_with_error(&chars("99999999999999999999")), Err(IntErrorKind::PosOverflow));
    assert_eq!(parse_u64_with_error(&chars("99999999999999999999x")), Err(IntErrorKind::PosOverflow));
    assert_eq!(parse_u64_with_error(&chars("+42")), Ok(42));
    for s in ["", "+", "-", "-1", "1a", "99999999999999999999", "18446744073709551615"] {
        let expected = s.parse::<u64>().map_err(|e| e.to_string());
        let got = parse_u64_with_error(&chars(s)).map_err(int_error_message);
        assert_eq!(got, expected, "input {:?}", s);
    }
}

#[test]
fn loose_race_times() {
    let d = parse_loose("1:23.456").unwrap();
    assert_eq!((d.as_secs(), d.subsec_millis()), (83, 456));
    let d = parse_loose("12:03.5").unwrap();
    assert_eq!((d.as_secs(), d.subsec_millis()), (723, 500));
    let d = parse_loose("0:07.45").unwrap();
    assert_eq!((d.as_secs(), d.subsec_millis()), (7, 450));
    let d = parse_loose("0:75.1").unwrap();
    assert_eq!((d.as_secs(), d.subsec_millis()), (75, 100));
    assert_eq!(parse_loose("123").unwrap_err(), "Missing seconds in '123'");
    assert_eq!(parse_loose("1:2:3.4").unwrap_err(), "Unexpected extra ':' in '1:2:3.4'");
    assert_eq!(
        parse_loose("x:23.456").unwrap_err(),
        "Invalid minutes 'x' in 'x:23.456': invalid digit found in string"
    );
    assert_eq!(parse_loose(":23.456").unwrap_err(), "Invalid minutes '' in ':23.456': cannot parse integer from empty string");
    assert_eq!(parse_loose("1:23").unwrap_err(), "Missing milliseconds after '.' in '1:23'");
    assert_eq!(parse_loose("1:2.3.4").unwrap_err(), "Unexpected extra '.' in seconds part of '1:2.3.4'");
    assert_eq!(parse_loose("1:x.4").unwrap_err(), "Invalid seconds 'x' in '1:x.4': invalid digit found in string");
    assert_eq!(parse_loose("1:23.4567").unwrap_err(), "Milliseconds must be 1\u{2013}3 digits in '1:23.4567'");
    assert_eq!(parse_loose("1:23.").unwrap_err(), "Milliseconds must be 1\u{2013}3 digits in '1:23.'");
    assert_eq!(parse_loose("1:23.\u{e9}\u{e9}").unwrap_err(), "Milliseconds must be 1\u{2013}3 digits in '1:23.\u{e9}\u{e9}'");
    assert_eq!(parse_loose("1:23.4x").unwrap_err(), "Invalid millis '4x' in '1:23.4x': invalid digit found in string");
    assert!(loose_time_in_range("1:23.456"));
    assert!(!loose_time_in_range("18446744073709551615:00.1"));
}

#[test]
fn data_urls_of_images() {
    assert_eq!(base64_encode(b""), "");
    assert_eq!(base64_encode(b"Man"), "TWFu");
    assert_eq!(base64_encode(b"Ma"), "TWE=");
    assert_eq!(base64_encode(&[0xff, 0xd8, 0xff, 0xe0]), "/9j/4A==");
    for n in 0..10usize {
        let bytes = vec![7u8; n];
        assert_eq!(base64_encode(&bytes).len(), estimate_base64_len(n));
    }
    assert_eq!(data_url(ImageFormat::Png, b"Man"), "data:image/png;base64,TWFu");
    assert_eq!(data_url(ImageFormat::Jpeg, b"M"), "data:image/jpeg;base64,TQ==");
}

#[test]
fn smallest_fitting_encoding() {
    let c = vec![(ImageFormat::Png, 3_000_000), (ImageFormat::Jpeg, 1_000_000)];
    assert_eq!(choose_encoding(&c), Some(1));
    let c = vec![(ImageFormat::Jpeg, 2_000_000), (ImageFormat::Png, 2_000_000)];
    assert_eq!(choose_encoding(&c), Some(0));
    let c = vec![(ImageFormat::Png, 5_000_000), (ImageFormat::Jpeg, 3_900_000)];
    assert_eq!(choose_encoding(&c), Some(1));
    let c = vec![(ImageFormat::Png, 5_000_000), (ImageFormat::Jpeg, 3_900_001)];
    assert_eq!(choose_encoding(&c), None);
    assert_eq!(choose_encoding(&vec![]), None);
}
