pub mod decimal;
pub mod text;
pub mod duration;
pub mod ocr;
pub mod discord;
pub mod sheets;
