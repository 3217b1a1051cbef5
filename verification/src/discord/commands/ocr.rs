//! Replying to a message that carries a race screenshot, read by a local model:
//! the texts for each step that fails, and the message of the new record.
use vstd::prelude::*;
use crate::duration::Duration;
use crate::ocr::duration_text;
use crate::discord::templates::record::{mention_text, ButtonSpec, EmbedField, RecordEmbed, RECORD_COLOUR};
use crate::sheets::players::opt_view;
use crate::sheets::raw::RawPlayer;
use crate::sheets::tracks::{Track, Tracks};

verus! {

/// The time of a record as `m:ss.mmm`, as the record message writes it.
pub fn duration_to_string(duration: Duration) -> (r: String)
    ensures
        r@ == duration_text(duration.secs_spec(), duration.subsec_nanos_spec()),
{
    crate::discord::templates::record::duration_to_string(duration)
}

/// The reply to a chosen track.
pub const TRACK_SELECTION_RECEIVED: &'static str = "Track selection received!";

/// The reply when the screenshot could not be read.
pub const COULD_NOT_READ_TEXT: &'static str = "Sorry, I couldn\u{2019}t process that image.";

/// The reply when the players sheet could not be read.
pub const LOOKUP_FAILED_TEXT: &'static str = "Failed to obtain selected track, please try again";

/// The reply when the author is not in the players sheet.
pub const NO_PLAYER_TEXT: &'static str =
    "Failed to obtain player data, please select a track first using /play";

/// The reply when the author has not chosen a track.
pub const NO_TRACK_TEXT: &'static str =
    "Failed to obtain selected track, please select a track first using /play";

/// The track of the new record, given the lookup of the author in the players
/// sheet (`None` where the sheet could not be read); or the reply that says
/// what is missing.
pub fn track_of_author(lookup: Option<Option<RawPlayer>>) -> (r: Result<String, String>)
    ensures
        match lookup {
            None => r matches Err(t) && t@ == LOOKUP_FAILED_TEXT@,
            Some(None) => r matches Err(t) && t@ == NO_PLAYER_TEXT@,
            Some(Some(p)) => match opt_view(p.current_track) {
                None => r matches Err(t) && t@ == NO_TRACK_TEXT@,
                Some(name) => r matches Ok(t) && t@ == name,
            },
        },
{
    match lookup {
        None => Err(LOOKUP_FAILED_TEXT.to_string()),
        Some(None) => Err(NO_PLAYER_TEXT.to_string()),
        Some(Some(p)) => match p.current_track {
            None => Err(NO_TRACK_TEXT.to_string()),
            Some(t) => Ok(t),
        },
    }
}

/// The message of a new record: the title, the colour, the map, time and
/// player side by side, the icon of the record's track (the default icon for a
/// track that `tracks` does not list), and one row with the button to change
/// the driver.
pub fn new_record_embed(track_name: &String, time: Duration, author: u64, tracks: &Vec<Track>) -> (r: (RecordEmbed, Vec<Vec<ButtonSpec>>))
    ensures
        r.0.title@ == "NEW RECORD ADDED"@,
        r.0.colour == RECORD_COLOUR,
        r.0.fields@.len() == 3,
        r.0.fields@[0].name@ == "Map"@ && r.0.fields@[0].value@ == track_name@ && r.0.fields@[0].inline,
        r.0.fields@[1].name@ == "Time"@ && r.0.fields@[1].value@ == duration_text(
            time.secs_spec(),
            time.subsec_nanos_spec(),
        ) && r.0.fields@[1].inline,
        r.0.fields@[2].name@ == "Player"@ && r.0.fields@[2].value@ == mention_text(author)
            && r.0.fields@[2].inline,
        (exists|i: int| 0 <= i < tracks@.len() && tracks@[i].name@ == track_name@) ==> exists|i: int|
            0 <= i < tracks@.len() && tracks@[i].name@ == track_name@ && r.0.image@ == tracks@[i].icon_url@
                && forall|j: int| 0 <= j < i ==> tracks@[j].name@ != track_name@,
        !(exists|i: int| 0 <= i < tracks@.len() && tracks@[i].name@ == track_name@) ==> r.0.image@
            == crate::sheets::tracks::DEFAULT_ICON_URL@,
        r.1@.len() == 1,
        r.1@[0]@.len() == 1,
        r.1@[0]@[0].custom_id@ == "change_driver"@,
        r.1@[0]@[0].label@ == "Change driver"@,
{
    let icon = Tracks::icon_url_for(tracks, track_name);
    let fields = vec![
        EmbedField { name: "Map".to_string(), value: track_name.clone(), inline: true },
        EmbedField { name: "Time".to_string(), value: duration_to_string(time), inline: true },
        EmbedField {
            name: "Player".to_string(),
            value: crate::discord::templates::record::mention(author),
            inline: true,
        },
    ];
    let embed = RecordEmbed {
        title: "NEW RECORD ADDED".to_string(),
        colour: RECORD_COLOUR,
        fields,
        image: icon,
    };
    let button = ButtonSpec { custom_id: "change_driver".to_string(), label: "Change driver".to_string() };
    (embed, vec![vec![button]])
}

} // verus!
