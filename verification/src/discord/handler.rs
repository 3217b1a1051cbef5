//! Which part of the bot answers an interaction.
use vstd::prelude::*;

verus! {

/// Who answers a slash command.
#[derive(Debug, PartialEq, Eq)]
pub enum CommandRoute {
    /// `/play` picks a track.
    Play,
    /// Any other command is left unanswered.
    Unknown,
}

/// Who answers an autocomplete request.
#[derive(Debug, PartialEq, Eq)]
pub enum AutocompleteRoute {
    /// The `track` option suggests track names.
    Track,
    /// Any other option gets no suggestions.
    Unknown,
}

/// The part of the bot that answers a slash command of the given name.
pub fn route_command(name: &str) -> (r: CommandRoute)
    ensures
        (name@ == "play"@) ==> r is Play,
        (name@ != "play"@) ==> r is Unknown,
{
    let play = "play".to_string();
    if name.to_string() == play {
        CommandRoute::Play
    } else {
        CommandRoute::Unknown
    }
}

/// The part of the bot that answers an autocomplete request, by the name of the
/// request's first option (none where it has no option).
pub fn route_autocomplete(first_option: &Option<String>) -> (r: AutocompleteRoute)
    ensures
        (match first_option {
            Some(n) => n@ == "track"@,
            None => false,
        }) ==> r is Track,
        !(match first_option {
            Some(n) => n@ == "track"@,
            None => false,
        }) ==> r is Unknown,
{
    let track = "track".to_string();
    match first_option {
        Some(n) => if *n == track {
            AutocompleteRoute::Track
        } else {
            AutocompleteRoute::Unknown
        },
        None => AutocompleteRoute::Unknown,
    }
}

} // verus!
