//! Command encoding and reply decoding for a client of a laboratory tool
//! driver, together with the decisions of its command line front end.

pub mod command;
pub mod console;
pub mod error;
pub mod metadata;
pub mod numeral;
pub mod reply;
pub mod text;
