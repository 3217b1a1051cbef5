//! `/refresh`: show a record's message again from the sheet.
use vstd::prelude::*;
use crate::decimal::parse_unsigned;
use crate::discord::interactions::commands::{find_option_text, option_text, CommandOption};
use crate::sheets::records::Record;

verus! {

/// Why `/refresh` failed.
#[derive(Debug, PartialEq, Eq)]
pub enum RefreshCmdError {
    /// The named option was not given.
    MissingOption(&'static str),
    /// The named option is not of the kind needed.
    InvalidOptionType(&'static str),
    /// The records sheet could not be read.
    FetchRecord,
    /// No record belongs to that message.
    RecordNotFound,
    /// The message could not be edited.
    EditFailed,
}

/// The text that describes a `/refresh` error.
pub open spec fn refresh_error_text(e: RefreshCmdError) -> Seq<char> {
    match e {
        RefreshCmdError::MissingOption(o) => "Command option was missing: "@ + o@,
        RefreshCmdError::InvalidOptionType(o) => "Command option was of an incorrect data type: "@ + o@,
        RefreshCmdError::FetchRecord => "Something went wrong while fetching the record"@,
        RefreshCmdError::RecordNotFound => "The record was not found"@,
        RefreshCmdError::EditFailed => "Something went wrong while editing the message"@,
    }
}

/// The message id of a `message_id` option: missing, not text, or not a number
/// as `u64::from_str` reads one each give their error.
pub open spec fn message_id_of(options: Seq<CommandOption>) -> Result<u64, RefreshCmdError> {
    match option_text(options, "message_id"@) {
        None => Err(RefreshCmdError::MissingOption("message_id")),
        Some(None) => Err(RefreshCmdError::InvalidOptionType("message_id")),
        Some(Some(t)) => match parse_unsigned(t, u64::MAX as nat) {
            None => Err(RefreshCmdError::InvalidOptionType("message_id")),
            Some(v) => Ok(v as u64),
        },
    }
}

/// Reads the `message_id` option.
pub fn message_id_option(options: &Vec<CommandOption>) -> (r: Result<u64, RefreshCmdError>)
    ensures
        r == message_id_of(options@),
{
    match find_option_text(options, "message_id") {
        None => Err(RefreshCmdError::MissingOption("message_id")),
        Some(None) => Err(RefreshCmdError::InvalidOptionType("message_id")),
        Some(Some(t)) => {
            let cs = crate::text::chars_of(t.as_str());
            match crate::decimal::parse_u64(&cs) {
                None => Err(RefreshCmdError::InvalidOptionType("message_id")),
                Some(v) => Ok(v),
            }
        },
    }
}

/// The record to show, given the lookup by message id (`None` where the sheet
/// could not be read).
pub fn found_record(lookup: Option<Option<Record>>) -> (r: Result<Record, RefreshCmdError>)
    ensures
        match lookup {
            None => r matches Err(RefreshCmdError::FetchRecord),
            Some(None) => r matches Err(RefreshCmdError::RecordNotFound),
            Some(Some(rec)) => r matches Ok(x) && x.model() == rec.model(),
        },
{
    match lookup {
        None => Err(RefreshCmdError::FetchRecord),
        Some(None) => Err(RefreshCmdError::RecordNotFound),
        Some(Some(rec)) => Ok(rec),
    }
}

impl RefreshCmdError {
    /// The text that describes the error.
    pub fn message(&self) -> (r: String)
        ensures
            r@ == refresh_error_text(*self),
    {
        match self {
            RefreshCmdError::MissingOption(o) => {
                let mut s = "Command option was missing: ".to_string();
                s.append(o);
                s
            },
            RefreshCmdError::InvalidOptionType(o) => {
                let mut s = "Command option was of an incorrect data type: ".to_string();
                s.append(o);
                s
            },
            RefreshCmdError::FetchRecord => "Something went wrong while fetching the record".to_string(),
            RefreshCmdError::RecordNotFound => "The record was not found".to_string(),
            RefreshCmdError::EditFailed => "Something went wrong while editing the message".to_string(),
        }
    }
}

/// The answer to `/refresh`.
pub fn response_text(outcome: &Result<(), RefreshCmdError>) -> (r: String)
    ensures
        r@ == (match outcome {
            Ok(_) => "Record refreshed successfully!"@,
            Err(e) => refresh_error_text(*e),
        }),
{
    match outcome {
        Ok(_) => "Record refreshed successfully!".to_string(),
        Err(e) => e.message(),
    }
}

/// A `message_id` option that spells a `u64` in decimal, as `to_string` writes
/// it, reads back as that number, for every `u64` up to `u64::MAX`.
pub proof fn lemma_message_id_reads_back(options: Seq<CommandOption>, n: u64)
    requires
        option_text(options, "message_id"@) == Some(Some(crate::decimal::decimal(n as nat))),
    ensures
        message_id_of(options) == Ok::<u64, RefreshCmdError>(n),
{
    crate::decimal::lemma_parse_decimal(n as nat, u64::MAX as nat);
}

} // verus!
