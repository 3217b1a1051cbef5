//! `/play`: choose the track to race.
use vstd::prelude::*;
use crate::discord::interactions::commands::{find_option_text, option_text, CommandOption};
use crate::sheets::players::Player;
use crate::sheets::tracks::Track;

verus! {

/// How `/play` ended.
#[derive(Debug)]
pub enum PlayCmdOutcome {
    /// The player now races the named track.
    Success(String),
    /// No track has that name.
    InvalidTrack,
    /// The sheet could not be read or written.
    Failure,
}

/// What `/play` does about the player once the track is known to exist.
#[derive(Debug)]
pub enum PlayAction {
    /// The players sheet could not be read.
    Fail,
    /// Write the track into this player's row.
    UpdateCurrentTrack(Player),
    /// Append a new player who races the track.
    CreatePlayer,
}

/// The track named by the `track` option: its text, or the empty text where the
/// option is missing or not text.
pub fn track_name_option(options: &Vec<CommandOption>) -> (r: String)
    ensures
        r@ == (match option_text(options@, "track"@) {
            Some(Some(t)) => t,
            _ => Seq::<char>::empty(),
        }),
{
    match find_option_text(options, "track") {
        Some(Some(t)) => t,
        _ => String::new(),
    }
}

/// The track check of `/play`: the tracks sheet must be readable (`None` where
/// it is not) and hold a track of that name.
pub fn check_track(tracks: &Option<Vec<Track>>, track_name: &String) -> (r: Result<(), PlayCmdOutcome>)
    ensures
        match tracks {
            None => r matches Err(PlayCmdOutcome::Failure),
            Some(ts) => if exists|i: int| 0 <= i < ts@.len() && ts@[i].name@ == track_name@ {
                r is Ok
            } else {
                r matches Err(PlayCmdOutcome::InvalidTrack)
            },
        },
{
    match tracks {
        None => Err(PlayCmdOutcome::Failure),
        Some(ts) => if crate::sheets::tracks::Tracks::has_track(ts, track_name) {
            Ok(())
        } else {
            Err(PlayCmdOutcome::InvalidTrack)
        },
    }
}

/// What to do about the player, given the lookup of the user in the players
/// sheet (`None` where the sheet could not be read).
pub fn player_action(lookup: Option<Option<Player>>) -> (r: PlayAction)
    ensures
        match lookup {
            None => r is Fail,
            Some(None) => r is CreatePlayer,
            Some(Some(p)) => r matches PlayAction::UpdateCurrentTrack(q) && q.model() == p.model(),
        },
{
    match lookup {
        None => PlayAction::Fail,
        Some(None) => PlayAction::CreatePlayer,
        Some(Some(p)) => PlayAction::UpdateCurrentTrack(p),
    }
}

/// How `/play` ended, given whether the player's track was saved.
pub fn play_outcome(saved: bool, track_name: String) -> (r: PlayCmdOutcome)
    ensures
        saved ==> (r matches PlayCmdOutcome::Success(t) && t@ == track_name@),
        !saved ==> r is Failure,
{
    if saved {
        PlayCmdOutcome::Success(track_name)
    } else {
        PlayCmdOutcome::Failure
    }
}

/// The answer to `/play`.
pub fn response_text(outcome: &PlayCmdOutcome) -> (r: String)
    ensures
        r@ == (match outcome {
            PlayCmdOutcome::Success(name) => "Now playing "@ + name@ + "!"@,
            PlayCmdOutcome::InvalidTrack => "Please enter a valid track name"@,
            PlayCmdOutcome::Failure => "Something went wrong, please try again."@,
        }),
{
    match outcome {
        PlayCmdOutcome::Success(name) => {
            let mut s = "Now playing ".to_string();
            s.append(name.as_str());
            s.append("!");
            s
        },
        PlayCmdOutcome::InvalidTrack => "Please enter a valid track name".to_string(),
        PlayCmdOutcome::Failure => "Something went wrong, please try again.".to_string(),
    }
}

} // verus!
