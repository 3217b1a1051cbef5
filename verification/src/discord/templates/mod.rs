//! How records are shown in chat.
pub mod record;
