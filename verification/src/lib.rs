//! A per-guild audio playback queue controller.
//!
//! The controller keeps, for every guild, an ordered queue of tracks whose
//! first element is the one assigned to playback. It decides who may control
//! playback, which commands go to the audio pipeline and in which order, and
//! what the requester is told. The pipeline itself stays outside: every
//! operation is a small state machine that names the next pipeline command
//! and is resumed with that command's result.

pub mod admission;
pub mod track;
pub mod digits;
pub mod queue;
pub mod view;
pub mod protocol;
pub mod text;
pub mod session;
pub mod registry;
pub mod commands;
pub mod roll;
pub mod laws;
