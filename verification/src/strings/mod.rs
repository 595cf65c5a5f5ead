//! The texts of the messages that command handling produces.
pub mod agent;
pub mod cfg;
pub mod speech_to_text;
pub mod error;
pub mod access;
