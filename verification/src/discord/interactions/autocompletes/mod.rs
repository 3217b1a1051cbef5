//! Suggestions while a command option is typed.
pub mod track;
