//! Diagnostics of a GAL/PLD compiler: a closed taxonomy of error kinds, the
//! messages that belong to them, and the one-line report of an error.

pub mod errors;

pub use errors::{decimal_string, error_line, error_string, legacy_message, Error, ErrorCode};
