use mkwo_records_bot::discord::commands::ocr::{new_record_embed, track_of_author, COULD_NOT_READ_TEXT};
use mkwo_records_bot::sheets::raw::RawPlayer;
use mkwo_records_bot::discord::commands::ocr::duration_to_string;
use mkwo_records_bot::discord::handler::{route_autocomplete, route_command, AutocompleteRoute, CommandRoute};
use mkwo_records_bot::discord::interactions::autocompletes::track::choices;
use mkwo_records_bot::discord::interactions::commands::play::{
    check_track, play_outcome, player_action, response_text as play_text, track_name_option, PlayAction,
    PlayCmdOutcome,
};
use mkwo_records_bot::discord::interactions::commands::refresh::{
    self, found_record as refresh_found, message_id_option as refresh_message_id, RefreshCmdError,
};
use mkwo_records_bot::discord::interactions::commands::update_time::{
    self, message_id_option as update_message_id, record_time_option, UpdateTimeCmdError,
};
use mkwo_records_bot::discord::interactions::commands::{find_option_text, CommandOption};
use mkwo_records_bot::discord::interactions::messages::image::{
    after_create, after_extract, after_player_lookup, outcome_text, OcrProcessOutcome, CHOOSE_TRACK_TEXT,
    STORAGE_FAILURE_TEXT, UNREADABLE_TEXT,
};
use mkwo_records_bot::discord::interactions::messages::validation::{
    download_failed, validate_channel, validate_content_mime_type, validate_filename_mime_type,
    validate_from_user, validate_message, validate_single_attachment, ValidationOutcome,
};
use mkwo_records_bot::discord::templates::record::{
    change_driver_button, change_time_button, change_track_button, mention, record_embed, RECORD_COLOUR,
};
use mkwo_records_bot::duration::Duration;
use mkwo_records_bot::ocr::ExtractError;
use mkwo_records_bot::sheets::players::Player;
use mkwo_records_bot::sheets::records::{Record, Timestamp};
use mkwo_records_bot::sheets::tracks::{Track, DEFAULT_ICON_URL};

fn opt(name: &str, text: Option<&str>) -> CommandOption {
    CommandOption { name: name.to_string(), text: text.map(|t| t.to_string()) }
}

fn track(name: &str, url: &str) -> Track {
    Track { rownum: 2, name: name.to_string(), icon_url: url.to_string() }
}

fn record(track_name: &str, driver: u64, millis: u64) -> Record {
    Record {
        rownum: 5,
        user_message_id: 1,
        bot_message_id: 2,
        report_timestamp: Timestamp { unix_seconds: 0, nanos: 0 },
        driver_user_id: driver,
        track_name: track_name.to_string(),
        race_duration: Duration::from_millis(millis),
    }
}

fn player(track: Option<&str>) -> Player {
    Player { rownum: 3, user_id: 9, display_name: "Zed".to_string(), current_track: track.map(|t| t.to_string()) }
}

#[test]
fn channel_checks() {
    assert_eq!(validate_channel(&None, 5), Err(ValidationOutcome::SystemError("Failed to get CHANNEL_ID env var")));
    assert_eq!(validate_channel(&Some("abc".to_string()), 5), Err(ValidationOutcome::SystemError("Invalid CHANNEL_ID format")));
    assert_eq!(validate_channel(&Some("0".to_string()), 0), Err(ValidationOutcome::SystemError("Invalid CHANNEL_ID format")));
    assert_eq!(validate_channel(&Some("123".to_string()), 124), Err(ValidationOutcome::Ignore));
    assert_eq!(validate_channel(&Some("123".to_string()), 123), Ok(()));
    assert_eq!(validate_from_user(true), Err(ValidationOutcome::Ignore));
    assert_eq!(validate_from_user(false), Ok(()));
    assert_eq!(validate_single_attachment(0), Err(ValidationOutcome::Ignore));
    assert_eq!(validate_single_attachment(2), Err(ValidationOutcome::Ignore));
    assert_eq!(validate_single_attachment(1), Ok(()));
}

#[test]
fn media_type_checks() {
    assert_eq!(validate_filename_mime_type(&None), Err(ValidationOutcome::UserError("Missing content type")));
    assert_eq!(validate_filename_mime_type(&Some("image/png".to_string())), Ok(()));
    assert_eq!(validate_filename_mime_type(&Some("IMAGE/JPEG".to_string())), Ok(()));
    assert_eq!(
        validate_filename_mime_type(&Some("text/plain".to_string())),
        Err(ValidationOutcome::UserError("File is not an image"))
    );
    assert_eq!(
        validate_filename_mime_type(&Some("not a type".to_string())),
        Err(ValidationOutcome::UserError("Invalid mime type"))
    );
    let png = [0x89u8, b'P', b'N', b'G', 0x0D, 0x0A, 0x1A, 0x0A, 0, 0, 0, 0];
    assert_eq!(validate_content_mime_type(&png), Ok(()));
    assert_eq!(validate_content_mime_type(b"hello"), Err(ValidationOutcome::UserError("Cannot infer file type")));
    assert_eq!(validate_content_mime_type(b"%PDF-1.4 data"), Err(ValidationOutcome::UserError("Content is not image")));
    assert_eq!(download_failed(), ValidationOutcome::UserError("Download failed"));
}

#[test]
fn message_checks_in_order() {
    let chan = Some("77".to_string());
    let png = Some("image/png".to_string());
    assert_eq!(validate_message(&None, 1, true, 0, &None), Err(ValidationOutcome::SystemError("Failed to get CHANNEL_ID env var")));
    assert_eq!(validate_message(&chan, 1, false, 1, &png), Err(ValidationOutcome::Ignore));
    assert_eq!(validate_message(&chan, 77, true, 1, &png), Err(ValidationOutcome::Ignore));
    assert_eq!(validate_message(&chan, 77, false, 3, &png), Err(ValidationOutcome::Ignore));
    assert_eq!(validate_message(&chan, 77, false, 1, &None), Err(ValidationOutcome::UserError("Missing content type")));
    assert_eq!(validate_message(&chan, 77, false, 1, &png), Ok(()));
}

#[test]
fn options_are_found_by_name() {
    let options = vec![opt("a", Some("1")), opt("track", Some("Koopa Beach")), opt("track", Some("other"))];
    assert_eq!(find_option_text(&options, "track"), Some(Some("Koopa Beach".to_string())));
    assert_eq!(find_option_text(&options, "b"), None);
    assert_eq!(track_name_option(&options), "Koopa Beach");
    assert_eq!(track_name_option(&vec![opt("track", None)]), "");
    assert_eq!(track_name_option(&vec![]), "");
}

#[test]
fn play_decisions() {
    let tracks = Some(vec![track("Koopa Beach", "u")]);
    assert!(check_track(&tracks, &"Koopa Beach".to_string()).is_ok());
    assert!(matches!(check_track(&tracks, &"Nope".to_string()), Err(PlayCmdOutcome::InvalidTrack)));
    assert!(matches!(check_track(&None, &"Koopa Beach".to_string()), Err(PlayCmdOutcome::Failure)));
    assert!(matches!(player_action(None), PlayAction::Fail));
    assert!(matches!(player_action(Some(None)), PlayAction::CreatePlayer));
    assert!(matches!(player_action(Some(Some(player(None)))), PlayAction::UpdateCurrentTrack(p) if p.user_id == 9));
    assert_eq!(play_text(&play_outcome(true, "Koopa Beach".to_string())), "Now playing Koopa Beach!");
    assert_eq!(play_text(&play_outcome(false, "Koopa Beach".to_string())), "Something went wrong, please try again.");
    assert_eq!(play_text(&PlayCmdOutcome::InvalidTrack), "Please enter a valid track name");
}

#[test]
fn refresh_decisions() {
    assert_eq!(refresh_message_id(&vec![]), Err(RefreshCmdError::MissingOption("message_id")));
    assert_eq!(refresh_message_id(&vec![opt("message_id", None)]), Err(RefreshCmdError::InvalidOptionType("message_id")));
    assert_eq!(refresh_message_id(&vec![opt("message_id", Some("12a"))]), Err(RefreshCmdError::InvalidOptionType("message_id")));
    assert_eq!(refresh_message_id(&vec![opt("message_id", Some("1234"))]), Ok(1234));
    assert!(matches!(refresh_found(None), Err(RefreshCmdError::FetchRecord)));
    assert!(matches!(refresh_found(Some(None)), Err(RefreshCmdError::RecordNotFound)));
    assert!(refresh_found(Some(Some(record("T", 1, 0)))).is_ok());
    assert_eq!(refresh::response_text(&Ok(())), "Record refreshed successfully!");
    assert_eq!(
        refresh::response_text(&Err(RefreshCmdError::MissingOption("message_id"))),
        "Command option was missing: message_id"
    );
    assert_eq!(
        RefreshCmdError::InvalidOptionType("message_id").message(),
        "Command option was of an incorrect data type: message_id"
    );
    assert_eq!(RefreshCmdError::EditFailed.message(), "Something went wrong while editing the message");
}

#[test]
fn update_time_decisions() {
    assert_eq!(update_message_id(&vec![opt("record_time", Some("1:00.000"))]), Err(UpdateTimeCmdError::MissingOption("message_id")));
    let d = record_time_option(&vec![opt("record_time", Some("1:02.345"))]).unwrap();
    assert_eq!((d.as_secs(), d.subsec_millis()), (62, 345));
    assert_eq!(
        record_time_option(&vec![opt("record_time", Some("62.345"))]).unwrap_err(),
        UpdateTimeCmdError::InvalidTimeFormat("invalid time format: 62.345".to_string())
    );
    assert_eq!(record_time_option(&vec![]).unwrap_err(), UpdateTimeCmdError::MissingOption("record_time"));
    assert_eq!(
        record_time_option(&vec![opt("record_time", None)]).unwrap_err(),
        UpdateTimeCmdError::InvalidOptionType("record_time")
    );
    assert_eq!(
        update_time::response_text(&Err(UpdateTimeCmdError::InvalidTimeFormat("invalid time format: x".to_string()))),
        "Provided time was not valid: invalid time format: x"
    );
    assert_eq!(update_time::response_text(&Ok(())), "Record time updated successfully!");
    assert_eq!(UpdateTimeCmdError::UpdateFailed.message(), "Something went wrong while updating the record time");
    assert!(matches!(update_time::found_record(Some(None)), Err(UpdateTimeCmdError::RecordNotFound)));
}

#[test]
fn autocomplete_suggestions() {
    let names: Vec<String> = ["Mario Bros. Circuit", "Koopa Beach", "Peach Beach", "DK Pass"]
        .iter()
        .map(|s| s.to_string())
        .collect();
    assert_eq!(choices(&names, "BEACH"), vec!["Koopa Beach".to_string(), "Peach Beach".to_string()]);
    assert_eq!(choices(&names, ""), names);
    assert!(choices(&names, "zzz").is_empty());
    let many: Vec<String> = (0..40).map(|i| format!("Track {}", i)).collect();
    let got = choices(&many, "track");
    assert_eq!(got.len(), 25);
    assert_eq!(got[24], "Track 24");
}

#[test]
fn routes() {
    assert_eq!(route_command("play"), CommandRoute::Play);
    assert_eq!(route_command("players"), CommandRoute::Unknown);
    assert_eq!(route_autocomplete(&Some("track".to_string())), AutocompleteRoute::Track);
    assert_eq!(route_autocomplete(&None), AutocompleteRoute::Unknown);
}

#[test]
fn screenshot_outcomes() {
    assert!(after_extract(Ok(Duration::from_secs(1))).is_ok());
    match after_extract(Err(ExtractError::YellowMissing)) {
        Err(OcrProcessOutcome::InvalidImage(t)) => assert_eq!(t, UNREADABLE_TEXT),
        _ => panic!("expected InvalidImage"),
    }
    assert!(matches!(after_player_lookup(None), Err(OcrProcessOutcome::StorageFailure)));
    assert!(matches!(after_player_lookup(Some(None)), Err(OcrProcessOutcome::PlayerMissing)));
    assert!(matches!(after_player_lookup(Some(Some(player(None)))), Err(OcrProcessOutcome::TrackMissing)));
    assert_eq!(after_player_lookup(Some(Some(player(Some("DK Pass"))))).ok(), Some("DK Pass".to_string()));
    assert_eq!(outcome_text(&after_create(None)), Some(STORAGE_FAILURE_TEXT.to_string()));
    assert_eq!(outcome_text(&OcrProcessOutcome::PlayerMissing), Some(CHOOSE_TRACK_TEXT.to_string()));
    assert_eq!(outcome_text(&OcrProcessOutcome::TrackMissing), Some(CHOOSE_TRACK_TEXT.to_string()));
    assert_eq!(outcome_text(&after_create(Some(record("T", 1, 0)))), None);
    assert_eq!(UNREADABLE_TEXT, "Sorry, I couldn't process that image.");
}

#[test]
fn record_message() {
    let tracks = vec![track("Koopa Beach", "https://icons/kb.png"), track("Koopa Beach", "https://icons/other.png")];
    let (embed, rows) = record_embed(&record("Koopa Beach", 42, 83_456), &tracks);
    assert_eq!(embed.title, "NEW RECORD ADDED");
    assert_eq!(embed.colour, RECORD_COLOUR);
    assert_eq!(RECORD_COLOUR, 0x00b0f4);
    assert_eq!(embed.fields.len(), 3);
    assert_eq!((embed.fields[0].name.as_str(), embed.fields[0].value.as_str()), ("Track", "Koopa Beach"));
    assert_eq!((embed.fields[1].name.as_str(), embed.fields[1].value.as_str()), ("Time", "1:23.456"));
    assert_eq!((embed.fields[2].name.as_str(), embed.fields[2].value.as_str()), ("Player", "<@42>"));
    assert!(embed.fields.iter().all(|f| f.inline));
    assert_eq!(embed.image, "https://icons/kb.png");
    assert_eq!(rows.len(), 1);
    assert_eq!(rows[0][0].custom_id, "record_change_driver");
    assert_eq!(rows[0][0].label, "Change driver");
    let (embed, _) = record_embed(&record("Unknown", 1, 0), &tracks);
    assert_eq!(embed.image, DEFAULT_ICON_URL);
    assert_eq!(mention(7), "<@7>");
    assert_eq!(change_track_button().custom_id, "record_change_track");
    assert_eq!(change_time_button().label, "Change time");
    assert_eq!(change_driver_button().label, "Change driver");
    assert_eq!(duration_to_string(Duration::from_millis(600_000)), "10:00.000");
}

#[test]
fn local_model_replies() {
    assert_eq!(COULD_NOT_READ_TEXT, "Sorry, I couldn\u{2019}t process that image.");
    assert_eq!(track_of_author(None).unwrap_err(), "Failed to obtain selected track, please try again");
    assert_eq!(
        track_of_author(Some(None)).unwrap_err(),
        "Failed to obtain player data, please select a track first using /play"
    );
    let p = RawPlayer { user_id: 1, display_name: "\"A\"".to_string(), current_track: None };
    assert_eq!(
        track_of_author(Some(Some(p))).unwrap_err(),
        "Failed to obtain selected track, please select a track first using /play"
    );
    let p = RawPlayer { user_id: 1, display_name: "\"A\"".to_string(), current_track: Some("DK Pass".to_string()) };
    assert_eq!(track_of_author(Some(Some(p))).unwrap(), "DK Pass");
    let tracks = vec![track("DK Pass", "https://a/dk.png")];
    let (embed, rows) = new_record_embed(&"DK Pass".to_string(), Duration::from_millis(83_456), 9, &tracks);
    assert_eq!(embed.title, "NEW RECORD ADDED");
    assert_eq!((embed.fields[0].name.as_str(), embed.fields[0].value.as_str()), ("Map", "DK Pass"));
    assert_eq!(embed.fields[1].value, "1:23.456");
    assert_eq!(embed.fields[2].value, "<@9>");
    assert_eq!(embed.image, "https://a/dk.png");
    assert_eq!((rows[0][0].custom_id.as_str(), rows[0][0].label.as_str()), ("change_driver", "Change driver"));
}
