//! The message that shows a record.
use vstd::prelude::*;
use crate::decimal::decimal;
use crate::duration::{Duration, NANOS_PER_MILLI};
use crate::ocr::{duration_text, pad_zeros};
use crate::sheets::records::Record;
use crate::sheets::tracks::{Track, Tracks};

verus! {

fn pad_zeros_chars(text: &Vec<char>, width: usize) -> (r: Vec<char>)
    ensures
        r@ == pad_zeros(text@, width as nat),
{
    if text.len() >= width {
        return text.clone();
    }
    let mut r: Vec<char> = Vec::new();
    let fill = width - text.len();
    let mut i: usize = 0;
    while i < fill
        invariant
            i <= fill,
            r@ == Seq::new(i as nat, |k: int| '0'),
        decreases fill - i,
    {
        r.push('0');
        assert(r@ =~= Seq::new((i + 1) as nat, |k: int| '0'));
        i = i + 1;
    }
    let mut k: usize = 0;
    while k < text.len()
        invariant
            k <= text@.len(),
            fill == width - text@.len(),
            r@ == Seq::new(fill as nat, |j: int| '0') + text@.subrange(0, k as int),
        decreases text@.len() - k,
    {
        r.push(text[k]);
        assert(text@.subrange(0, k + 1) =~= text@.subrange(0, k as int).push(text@[k as int]));
        k = k + 1;
    }
    assert(text@.subrange(0, text@.len() as int) =~= text@);
    r
}

fn duration_to_string_of(duration: &Duration) -> (r: String)
    ensures
        r@ == duration_text(duration.secs_spec(), duration.subsec_nanos_spec()),
{
    let total = duration.as_secs();
    let minutes = total / 60;
    let seconds = total - minutes * 60;
    let millis = duration.subsec_millis();
    let mut out = crate::decimal::u64_to_string(minutes);
    crate::text::push_char(&mut out, ':');
    let sec_text = crate::text::chars_of(crate::decimal::u64_to_string(seconds).as_str());
    let sec_padded = pad_zeros_chars(&sec_text, 2);
    crate::text::push_chars(&mut out, &sec_padded);
    crate::text::push_char(&mut out, '.');
    let ms_text = crate::text::chars_of(crate::decimal::u64_to_string(millis as u64).as_str());
    let ms_padded = pad_zeros_chars(&ms_text, 3);
    crate::text::push_chars(&mut out, &ms_padded);
    assert(seconds == total % 60);
    assert(out@ =~= duration_text(duration.secs_spec(), duration.subsec_nanos_spec()));
    out
}

/// The time of a record as `m:ss.mmm`: the minutes in full, the seconds below a
/// minute in two digits, the whole milliseconds in three.
pub fn duration_to_string(duration: Duration) -> (r: String)
    ensures
        r@ == duration_text(duration.secs_spec(), duration.subsec_nanos_spec()),
{
    duration_to_string_of(&duration)
}


/// A button under a message: the id it reports when pressed, and its label.
#[derive(Debug)]
pub struct ButtonSpec {
    pub custom_id: String,
    pub label: String,
}

/// One field of an embed.
#[derive(Debug)]
pub struct EmbedField {
    pub name: String,
    pub value: String,
    pub inline: bool,
}

/// What the message of a record shows.
#[derive(Debug)]
pub struct RecordEmbed {
    pub title: String,
    pub colour: u32,
    pub fields: Vec<EmbedField>,
    pub image: String,
}

/// The colour of a record's message.
pub const RECORD_COLOUR: u32 = 0x00b0f4;

/// The text that mentions a user: `<@id>`.
pub open spec fn mention_text(user_id: u64) -> Seq<char> {
    "<@"@ + decimal(user_id as nat) + ">"@
}

/// The text that mentions a user: `<@id>`.
pub fn mention(user_id: u64) -> (r: String)
    ensures
        r@ == mention_text(user_id),
{
    let mut s = "<@".to_string();
    let n = crate::decimal::u64_to_string(user_id);
    s.append(n.as_str());
    s.append(">");
    s
}

/// The button to change a record's track.
pub fn change_track_button() -> (r: ButtonSpec)
    ensures
        r.custom_id@ == "record_change_track"@,
        r.label@ == "Change track"@,
{
    ButtonSpec { custom_id: "record_change_track".to_string(), label: "Change track".to_string() }
}

/// The button to change a record's time.
pub fn change_time_button() -> (r: ButtonSpec)
    ensures
        r.custom_id@ == "record_change_time"@,
        r.label@ == "Change time"@,
{
    ButtonSpec { custom_id: "record_change_time".to_string(), label: "Change time".to_string() }
}

/// The button to change a record's driver.
pub fn change_driver_button() -> (r: ButtonSpec)
    ensures
        r.custom_id@ == "record_change_driver"@,
        r.label@ == "Change driver"@,
{
    ButtonSpec { custom_id: "record_change_driver".to_string(), label: "Change driver".to_string() }
}

/// The message of a record: the title, the colour, the track, time and driver
/// side by side, the icon of the record's track (the default icon for a track
/// that `tracks` does not list), and one row with the button to change the driver.
pub fn record_embed(record: &Record, tracks: &Vec<Track>) -> (r: (RecordEmbed, Vec<Vec<ButtonSpec>>))
    ensures
        r.0.title@ == "NEW RECORD ADDED"@,
        r.0.colour == RECORD_COLOUR,
        r.0.fields@.len() == 3,
        r.0.fields@[0].name@ == "Track"@ && r.0.fields@[0].value@ == record.track_name@
            && r.0.fields@[0].inline,
        r.0.fields@[1].name@ == "Time"@ && r.0.fields@[1].value@ == duration_text(
            record.race_duration.secs_spec(),
            record.race_duration.subsec_nanos_spec(),
        ) && r.0.fields@[1].inline,
        r.0.fields@[2].name@ == "Player"@ && r.0.fields@[2].value@ == mention_text(
            record.driver_user_id,
        ) && r.0.fields@[2].inline,
        (exists|i: int| 0 <= i < tracks@.len() && tracks@[i].name@ == record.track_name@)
            ==> exists|i: int|
            0 <= i < tracks@.len() && tracks@[i].name@ == record.track_name@ && r.0.image@
                == tracks@[i].icon_url@ && forall|j: int|
                0 <= j < i ==> tracks@[j].name@ != record.track_name@,
        !(exists|i: int| 0 <= i < tracks@.len() && tracks@[i].name@ == record.track_name@)
            ==> r.0.image@ == crate::sheets::tracks::DEFAULT_ICON_URL@,
        r.1@.len() == 1,
        r.1@[0]@.len() == 1,
        r.1@[0]@[0].custom_id@ == "record_change_driver"@,
        r.1@[0]@[0].label@ == "Change driver"@,
{
    let icon = Tracks::icon_url_for(tracks, &record.track_name);
    let time = duration_to_string_of(&record.race_duration);
    let fields = vec![
        EmbedField { name: "Track".to_string(), value: record.track_name.clone(), inline: true },
        EmbedField { name: "Time".to_string(), value: time, inline: true },
        EmbedField { name: "Player".to_string(), value: mention(record.driver_user_id), inline: true },
    ];
    let embed = RecordEmbed {
        title: "NEW RECORD ADDED".to_string(),
        colour: RECORD_COLOUR,
        fields,
        image: icon,
    };
    let buttons = vec![vec![change_driver_button()]];
    (embed, buttons)
}

} // verus!
