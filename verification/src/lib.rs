//! A bridge between a desktop session's media-player control interface and a
//! playback engine: the state that the control side reads, and the commands
//! that it hands to the engine.

pub mod helpers;
pub mod mpris;
pub mod playback_state;
