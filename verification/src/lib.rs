//! The command handling of a Matrix chat bot that serves AI agents: which
//! controller a message goes to, what commands change in the room and global
//! configuration, what the status report shows, how messages that arrive in
//! quick succession are gathered, and the rules around speech and images.
//!
//! Every decision is a verified function whose contract states its result;
//! sending messages, storing configurations and calling AI services happen
//! around the library.
use vstd::prelude::*;

pub mod agent;
pub mod controller;
pub mod number;
pub mod roomconfig;
pub mod strings;
pub mod text;
pub mod yaml;

verus! {
} // verus!

