//! `/update_time`: correct the race time of a record.
use vstd::prelude::*;
use crate::decimal::parse_unsigned;
use crate::discord::interactions::commands::{find_option_text, option_text, CommandOption};
use crate::duration::{Duration, NANOS_PER_MILLI};
use crate::ocr::{is_ascii_time, strict_millis, strict_secs, time_error_text};
use crate::sheets::records::Record;

verus! {

/// Why `/update_time` failed.
#[derive(Debug, PartialEq, Eq)]
pub enum UpdateTimeCmdError {
    /// The named option was not given.
    MissingOption(&'static str),
    /// The named option is not of the kind needed.
    InvalidOptionType(&'static str),
    /// The time is not a race time; the text says why.
    InvalidTimeFormat(String),
    /// The records sheet could not be read.
    FetchRecord,
    /// No record belongs to that message.
    RecordNotFound,
    /// The new time could not be written.
    UpdateFailed,
    /// The message could not be edited.
    EditFailed,
}

/// The text that describes an `/update_time` error.
pub open spec fn update_time_error_text(e: UpdateTimeCmdError) -> Seq<char> {
    match e {
        UpdateTimeCmdError::MissingOption(o) => "Command option was missing: "@ + o@,
        UpdateTimeCmdError::InvalidOptionType(o) => "Command option was of an incorrect data type: "@
            + o@,
        UpdateTimeCmdError::InvalidTimeFormat(m) => "Provided time was not valid: "@ + m@,
        UpdateTimeCmdError::FetchRecord => "Something went wrong while fetching the record"@,
        UpdateTimeCmdError::RecordNotFound => "The record was not found"@,
        UpdateTimeCmdError::UpdateFailed => "Something went wrong while updating the record time"@,
        UpdateTimeCmdError::EditFailed => "Something went wrong while editing the message"@,
    }
}

/// The message id of a `message_id` option.
pub open spec fn message_id_of(options: Seq<CommandOption>) -> Result<u64, UpdateTimeCmdError> {
    match option_text(options, "message_id"@) {
        None => Err(UpdateTimeCmdError::MissingOption("message_id")),
        Some(None) => Err(UpdateTimeCmdError::InvalidOptionType("message_id")),
        Some(Some(t)) => match parse_unsigned(t, u64::MAX as nat) {
            None => Err(UpdateTimeCmdError::InvalidOptionType("message_id")),
            Some(v) => Ok(v as u64),
        },
    }
}

/// Reads the `message_id` option.
pub fn message_id_option(options: &Vec<CommandOption>) -> (r: Result<u64, UpdateTimeCmdError>)
    ensures
        r == message_id_of(options@),
{
    match find_option_text(options, "message_id") {
        None => Err(UpdateTimeCmdError::MissingOption("message_id")),
        Some(None) => Err(UpdateTimeCmdError::InvalidOptionType("message_id")),
        Some(Some(t)) => {
            let cs = crate::text::chars_of(t.as_str());
            match crate::decimal::parse_u64(&cs) {
                None => Err(UpdateTimeCmdError::InvalidOptionType("message_id")),
                Some(v) => Ok(v),
            }
        },
    }
}

/// The record to correct, given the lookup by message id (`None` where the
/// sheet could not be read).
pub fn found_record(lookup: Option<Option<Record>>) -> (r: Result<Record, UpdateTimeCmdError>)
    ensures
        match lookup {
            None => r matches Err(UpdateTimeCmdError::FetchRecord),
            Some(None) => r matches Err(UpdateTimeCmdError::RecordNotFound),
            Some(Some(rec)) => r matches Ok(x) && x.model() == rec.model(),
        },
{
    match lookup {
        None => Err(UpdateTimeCmdError::FetchRecord),
        Some(None) => Err(UpdateTimeCmdError::RecordNotFound),
        Some(Some(rec)) => Ok(rec),
    }
}

/// Reads the `record_time` option as a race time `m:ss.mmm`: missing or not
/// text give their error; a text that is not a race time gives
/// `InvalidTimeFormat` with the text of the reading error.
pub fn record_time_option(options: &Vec<CommandOption>) -> (r: Result<Duration, UpdateTimeCmdError>)
    ensures
        match option_text(options@, "record_time"@) {
            None => r matches Err(UpdateTimeCmdError::MissingOption(o)) && o == "record_time",
            Some(None) => r matches Err(UpdateTimeCmdError::InvalidOptionType(o)) && o == "record_time",
            Some(Some(t)) => if is_ascii_time(t) {
                r matches Ok(d) && d.secs_spec() == strict_secs(t) && d.subsec_nanos_spec()
                    == strict_millis(t) * (NANOS_PER_MILLI as nat)
            } else {
                r matches Err(UpdateTimeCmdError::InvalidTimeFormat(m)) && m@ == time_error_text(t)
            },
        },
{
    let text = match find_option_text(options, "record_time") {
        None => {
            return Err(UpdateTimeCmdError::MissingOption("record_time"));
        },
        Some(None) => {
            return Err(UpdateTimeCmdError::InvalidOptionType("record_time"));
        },
        Some(Some(t)) => t,
    };
    match crate::ocr::parse_duration(text.as_str()) {
        Ok(d) => Ok(d),
        Err(e) => Err(UpdateTimeCmdError::InvalidTimeFormat(e.message())),
    }
}

impl UpdateTimeCmdError {
    /// The text that describes the error.
    pub fn message(&self) -> (r: String)
        ensures
            r@ == update_time_error_text(*self),
    {
        match self {
            UpdateTimeCmdError::MissingOption(o) => {
                let mut s = "Command option was missing: ".to_string();
                s.append(o);
                s
            },
            UpdateTimeCmdError::InvalidOptionType(o) => {
                let mut s = "Command option was of an incorrect data type: ".to_string();
                s.append(o);
                s
            },
            UpdateTimeCmdError::InvalidTimeFormat(m) => {
                let mut s = "Provided time was not valid: ".to_string();
                s.append(m.as_str());
                s
            },
            UpdateTimeCmdError::FetchRecord => "Something went wrong while fetching the record".to_string(),
            UpdateTimeCmdError::RecordNotFound => "The record was not found".to_string(),
            UpdateTimeCmdError::UpdateFailed => "Something went wrong while updating the record time".to_string(),
            UpdateTimeCmdError::EditFailed => "Something went wrong while editing the message".to_string(),
        }
    }
}

/// The answer to `/update_time`.
pub fn response_text(outcome: &Result<(), UpdateTimeCmdError>) -> (r: String)
    ensures
        r@ == (match outcome {
            Ok(_) => "Record time updated successfully!"@,
            Err(e) => update_time_error_text(*e),
        }),
{
    match outcome {
        Ok(_) => "Record time updated successfully!".to_string(),
        Err(e) => e.message(),
    }
}

/// A `message_id` option that spells a `u64` in decimal, as `to_string` writes
/// it, reads back as that number, for every `u64` up to `u64::MAX`.
pub proof fn lemma_message_id_reads_back(options: Seq<CommandOption>, n: u64)
    requires
        option_text(options, "message_id"@) == Some(Some(crate::decimal::decimal(n as nat))),
    ensures
        message_id_of(options) == Ok::<u64, UpdateTimeCmdError>(n),
{
    crate::decimal::lemma_parse_decimal(n as nat, u64::MAX as nat);
}

} // verus!
