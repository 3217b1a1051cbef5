//! The spreadsheet that holds tracks, players and records: the cell values it
//! returns, the ranges it is addressed by, and the rows it is made of.
pub mod errors;
pub mod players;
pub mod raw;
pub mod records;
pub mod tracks;
pub mod utils;
pub mod value;
