//! Turning a race screenshot into a record.
use vstd::prelude::*;
use crate::duration::Duration;
use crate::ocr::ExtractError;
use crate::sheets::players::{opt_view, Player};
use crate::sheets::records::Record;

verus! {

/// The message shown while a screenshot is read.
pub const PROCESSING_TEXT: &'static str = "Please wait while the image is being processed";

/// The message when the screenshot could not be read.
pub const UNREADABLE_TEXT: &'static str = "Sorry, I couldn't process that image.";

/// The message when the record could not be saved.
pub const STORAGE_FAILURE_TEXT: &'static str = "Failed to save record";

/// The message when the player has not chosen a track.
pub const CHOOSE_TRACK_TEXT: &'static str = "Please select a track first using /play before uploading records.";

/// How reading a screenshot into a record ended.
#[derive(Debug)]
pub enum OcrProcessOutcome {
    /// The record was saved.
    Success { record: Record },
    /// The screenshot could not be read; the text says so.
    InvalidImage(String),
    /// The author is not in the players sheet.
    PlayerMissing,
    /// The author has not chosen a track.
    TrackMissing,
    /// The sheet could not be read or written.
    StorageFailure,
}

/// The race time read from the screenshot, or the outcome when none could be read.
pub fn after_extract(result: Result<Duration, ExtractError>) -> (r: Result<Duration, OcrProcessOutcome>)
    ensures
        match result {
            Ok(d) => r == Ok::<Duration, OcrProcessOutcome>(d),
            Err(_) => r matches Err(OcrProcessOutcome::InvalidImage(t)) && t@ == UNREADABLE_TEXT@,
        },
{
    match result {
        Ok(d) => Ok(d),
        Err(_) => Err(OcrProcessOutcome::InvalidImage(UNREADABLE_TEXT.to_string())),
    }
}

/// The track the author races, given the lookup of the author in the players
/// sheet (`None` where the sheet could not be read), or the outcome without one.
pub fn after_player_lookup(lookup: Option<Option<Player>>) -> (r: Result<String, OcrProcessOutcome>)
    ensures
        match lookup {
            None => r matches Err(OcrProcessOutcome::StorageFailure),
            Some(None) => r matches Err(OcrProcessOutcome::PlayerMissing),
            Some(Some(p)) => match opt_view(p.current_track) {
                None => r matches Err(OcrProcessOutcome::TrackMissing),
                Some(t) => r matches Ok(x) && x@ == t,
            },
        },
{
    match lookup {
        None => Err(OcrProcessOutcome::StorageFailure),
        Some(None) => Err(OcrProcessOutcome::PlayerMissing),
        Some(Some(p)) => match p.current_track {
            None => Err(OcrProcessOutcome::TrackMissing),
            Some(t) => Ok(t),
        },
    }
}

/// The outcome once the record was appended (`None` where that failed).
pub fn after_create(created: Option<Record>) -> (r: OcrProcessOutcome)
    ensures
        match created {
            None => r is StorageFailure,
            Some(rec) => r matches OcrProcessOutcome::Success { record } && record.model() == rec.model(),
        },
{
    match created {
        None => OcrProcessOutcome::StorageFailure,
        Some(record) => OcrProcessOutcome::Success { record },
    }
}

/// The text that replaces the waiting message, for every outcome but success,
/// which shows the record instead.
pub fn outcome_text(outcome: &OcrProcessOutcome) -> (r: Option<String>)
    ensures
        match outcome {
            OcrProcessOutcome::Success { .. } => r is None,
            OcrProcessOutcome::InvalidImage(reason) => r matches Some(t) && t@ == reason@,
            OcrProcessOutcome::StorageFailure => r matches Some(t) && t@ == STORAGE_FAILURE_TEXT@,
            _ => r matches Some(t) && t@ == CHOOSE_TRACK_TEXT@,
        },
{
    match outcome {
        OcrProcessOutcome::Success { .. } => None,
        OcrProcessOutcome::InvalidImage(reason) => Some(reason.clone()),
        OcrProcessOutcome::StorageFailure => Some(STORAGE_FAILURE_TEXT.to_string()),
        OcrProcessOutcome::PlayerMissing => Some(CHOOSE_TRACK_TEXT.to_string()),
        OcrProcessOutcome::TrackMissing => Some(CHOOSE_TRACK_TEXT.to_string()),
    }
}

} // verus!
