//! Decides from a game client's session feed when a match is being played,
//! and drives the recording of one video per match.

pub mod clock;
pub mod controller;
pub mod json;
pub mod listing;
pub mod monitor;
pub mod queue;
pub mod recorder;
pub mod recordings;
pub mod session_event;
pub mod text;
