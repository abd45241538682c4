//! Parsing of a ticket's status from free-form text.
//!
//! The text is trimmed of surrounding whitespace and lower-cased; what is left
//! must be one of the three status names, else the text is rejected as it was
//! given.

pub mod text;
pub mod status;

pub use status::{ParseStatusError, Status};
