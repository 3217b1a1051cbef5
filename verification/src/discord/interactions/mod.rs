//! What the bot does for each kind of interaction.
pub mod autocompletes;
pub mod commands;
pub mod messages;
