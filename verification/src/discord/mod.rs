//! The decisions and texts of the chat bot: what it checks in a message, what
//! its commands answer, and how a record is shown.
pub mod commands;
pub mod handler;
pub mod interactions;
pub mod templates;
