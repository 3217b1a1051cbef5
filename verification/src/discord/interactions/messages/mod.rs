//! Messages that carry race screenshots.
pub mod image;
pub mod validation;
