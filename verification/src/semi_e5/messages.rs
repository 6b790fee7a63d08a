//! # MESSAGES
//!
//! The specific messages of the standard, by stream. Each is a type that
//! holds the text of the message as the items that the standard prescribes,
//! and each is written as a general message and read back from one.
pub mod s10;
pub mod s3;
