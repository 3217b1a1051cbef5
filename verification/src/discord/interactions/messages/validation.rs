//! Which messages the bot takes up as a race screenshot.
use vstd::prelude::*;
use crate::decimal::parse_unsigned;

verus! {

/// Why a message is not taken up.
#[derive(Debug, PartialEq, Eq)]
pub enum ValidationOutcome {
    /// The message is not for the bot; nothing is said.
    Ignore,
    /// The user sent something the bot cannot take; the text says what.
    UserError(&'static str),
    /// The bot is not set up right; the text says what.
    SystemError(&'static str),
}

/// The top-level type of a media type text `type/subtype`, as the `mime` crate
/// parses it; `None` where it does not parse.
pub uninterp spec fn mime_top_type(content_type: Seq<char>) -> Option<Seq<char>>;

/// The kinds of file that the `infer` crate tells apart by their first bytes.
#[derive(Debug, PartialEq, Eq, Structural, Clone, Copy)]
pub enum FileKind {
    App,
    Archive,
    Audio,
    Book,
    Doc,
    Font,
    Image,
    Text,
    Video,
    Custom,
}

/// The kind of file that the `infer` crate recognises in `data`; `None` where
/// it recognises none.
pub uninterp spec fn inferred_kind(data: Seq<u8>) -> Option<FileKind>;

/// Parses a media type with `mime::Mime::from_str` and gives its top-level type
/// as `Mime::type_` holds it, or `None` where it does not parse. The contract
/// claims only that the answer is a function of the text.
#[verifier::external_body]
fn mime_type_of(content_type: &str) -> (r: Option<String>)
    ensures
        match r {
            Some(t) => mime_top_type(content_type@) == Some(t@),
            None => mime_top_type(content_type@) is None,
        },
{
    match content_type.parse::<mime::Mime>() {
        Ok(m) => Some(m.type_().as_str().to_string()),
        Err(_) => None,
    }
}

/// Asks `infer::get` for the file type of `data` and gives the kind of its
/// matcher (`Type::matcher_type`), or `None` where no file type matches. The
/// contract claims only that the answer is a function of the bytes.
#[verifier::external_body]
fn infer_kind(data: &[u8]) -> (r: Option<FileKind>)
    ensures
        r == inferred_kind(data@),
{
    match infer::get(data) {
        None => None,
        Some(kind) => Some(match kind.matcher_type() {
            infer::MatcherType::App => FileKind::App,
            infer::MatcherType::Archive => FileKind::Archive,
            infer::MatcherType::Audio => FileKind::Audio,
            infer::MatcherType::Book => FileKind::Book,
            infer::MatcherType::Doc => FileKind::Doc,
            infer::MatcherType::Font => FileKind::Font,
            infer::MatcherType::Image => FileKind::Image,
            infer::MatcherType::Text => FileKind::Text,
            infer::MatcherType::Video => FileKind::Video,
            infer::MatcherType::Custom => FileKind::Custom,
        }),
    }
}

/// `ChannelId::from_str`: a non-zero `u64` as `u64::from_str` reads it.
pub open spec fn channel_id_text(s: Seq<char>) -> Option<u64> {
    match parse_unsigned(s, u64::MAX as nat) {
        Some(v) => if v == 0 {
            None
        } else {
            Some(v as u64)
        },
        None => None,
    }
}

/// The channel check: the configured channel (`None` where it is not set) must
/// be a channel id, and the message must be in that channel.
pub open spec fn channel_check(configured: Option<Seq<char>>, channel_id: u64) -> Result<(), ValidationOutcome> {
    match configured {
        None => Err(ValidationOutcome::SystemError("Failed to get CHANNEL_ID env var")),
        Some(text) => match channel_id_text(text) {
            None => Err(ValidationOutcome::SystemError("Invalid CHANNEL_ID format")),
            Some(id) => if id == channel_id {
                Ok(())
            } else {
                Err(ValidationOutcome::Ignore)
            },
        },
    }
}

/// The media type check: the attachment must say that it is an image.
pub open spec fn content_type_check(content_type: Option<Seq<char>>) -> Result<(), ValidationOutcome> {
    match content_type {
        None => Err(ValidationOutcome::UserError("Missing content type")),
        Some(ct) => match mime_top_type(ct) {
            None => Err(ValidationOutcome::UserError("Invalid mime type")),
            Some(t) => {
                if t == ("image"@) {
                    Ok(())
                } else {
                    Err(ValidationOutcome::UserError("File is not an image"))
                }
            },
        },
    }
}

/// The checks before the attachment is downloaded, in order: the channel, that
/// the author is not a bot, that there is exactly one attachment, and that the
/// attachment says it is an image.
pub open spec fn message_check(
    configured: Option<Seq<char>>,
    channel_id: u64,
    author_is_bot: bool,
    attachment_count: nat,
    content_type: Option<Seq<char>>,
) -> Result<(), ValidationOutcome> {
    if channel_check(configured, channel_id) is Err {
        channel_check(configured, channel_id)
    } else if author_is_bot {
        Err(ValidationOutcome::Ignore)
    } else if attachment_count != 1 {
        Err(ValidationOutcome::Ignore)
    } else {
        content_type_check(content_type)
    }
}

/// The channel check: the configured channel must be set and be a channel id,
/// and the message must be in it.
pub fn validate_channel(configured: &Option<String>, channel_id: u64) -> (r: Result<(), ValidationOutcome>)
    ensures
        r == channel_check(
            match configured {
                Some(s) => Some(s@),
                None => None,
            },
            channel_id,
        ),
{
    let text = match configured {
        None => {
            return Err(ValidationOutcome::SystemError("Failed to get CHANNEL_ID env var"));
        },
        Some(t) => t,
    };
    let cs = crate::text::chars_of(text.as_str());
    match crate::decimal::parse_u64(&cs) {
        None => Err(ValidationOutcome::SystemError("Invalid CHANNEL_ID format")),
        Some(v) => if v == 0 {
            Err(ValidationOutcome::SystemError("Invalid CHANNEL_ID format"))
        } else if v == channel_id {
            Ok(())
        } else {
            Err(ValidationOutcome::Ignore)
        },
    }
}

/// Only messages of people, not of bots, are taken up.
pub fn validate_from_user(author_is_bot: bool) -> (r: Result<(), ValidationOutcome>)
    ensures
        r == (if author_is_bot {
            Err(ValidationOutcome::Ignore)
        } else {
            Ok::<(), ValidationOutcome>(())
        }),
{
    if !author_is_bot {
        Ok(())
    } else {
        Err(ValidationOutcome::Ignore)
    }
}

/// Only messages with exactly one attachment are taken up.
pub fn validate_single_attachment(attachment_count: usize) -> (r: Result<(), ValidationOutcome>)
    ensures
        r == (if attachment_count != 1 {
            Err(ValidationOutcome::Ignore)
        } else {
            Ok::<(), ValidationOutcome>(())
        }),
{
    if attachment_count != 1 {
        Err(ValidationOutcome::Ignore)
    } else {
        Ok(())
    }
}

/// The attachment must say that it is an image.
pub fn validate_filename_mime_type(content_type: &Option<String>) -> (r: Result<(), ValidationOutcome>)
    ensures
        r == content_type_check(
            match content_type {
                Some(s) => Some(s@),
                None => None,
            },
        ),
{
    let ct = match content_type {
        None => {
            return Err(ValidationOutcome::UserError("Missing content type"));
        },
        Some(ct) => ct,
    };
    match mime_type_of(ct.as_str()) {
        None => Err(ValidationOutcome::UserError("Invalid mime type")),
        Some(t) => {
            let image = "image".to_string();
            if t == image {
                Ok(())
            } else {
                Err(ValidationOutcome::UserError("File is not an image"))
            }
        },
    }
}

/// The downloaded content must be recognised as an image.
pub fn validate_content_mime_type(data: &[u8]) -> (r: Result<(), ValidationOutcome>)
    ensures
        r == (match inferred_kind(data@) {
            None => Err(ValidationOutcome::UserError("Cannot infer file type")),
            Some(FileKind::Image) => Ok::<(), ValidationOutcome>(()),
            Some(_) => Err(ValidationOutcome::UserError("Content is not image")),
        }),
{
    match infer_kind(data) {
        None => Err(ValidationOutcome::UserError("Cannot infer file type")),
        Some(FileKind::Image) => Ok(()),
        Some(_) => Err(ValidationOutcome::UserError("Content is not image")),
    }
}

/// The checks that come before the attachment is downloaded, in order: the
/// channel, the author, the number of attachments, and the attachment's media type.
pub fn validate_message(
    configured_channel: &Option<String>,
    channel_id: u64,
    author_is_bot: bool,
    attachment_count: usize,
    content_type: &Option<String>,
) -> (r: Result<(), ValidationOutcome>)
    ensures
        r == message_check(
            match configured_channel {
                Some(s) => Some(s@),
                None => None,
            },
            channel_id,
            author_is_bot,
            attachment_count as nat,
            match content_type {
                Some(s) => Some(s@),
                None => None,
            },
        ),
{
    validate_channel(configured_channel, channel_id)?;
    validate_from_user(author_is_bot)?;
    validate_single_attachment(attachment_count)?;
    validate_filename_mime_type(content_type)?;
    Ok(())
}

/// The outcome when the attachment could not be downloaded.
pub fn download_failed() -> (r: ValidationOutcome)
    ensures
        r == ValidationOutcome::UserError("Download failed"),
{
    ValidationOutcome::UserError("Download failed")
}

/// An attachment passes the media-type check exactly when its media type parses
/// with the top-level type `image`; a media type that parses with any other
/// top-level type is refused as not an image.
pub proof fn lemma_only_images(content_type: Option<Seq<char>>)
    ensures
        content_type_check(content_type) is Ok <==> (content_type matches Some(t) && mime_top_type(t)
            == Some("image"@)),
        (content_type matches Some(t) && (mime_top_type(t) matches Some(top) && top != "image"@))
            ==> content_type_check(content_type) == Err::<(), ValidationOutcome>(
            ValidationOutcome::UserError("File is not an image"),
        ),
{
}

} // verus!
