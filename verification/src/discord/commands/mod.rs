//! Text commands of the bot.
pub mod ocr;
