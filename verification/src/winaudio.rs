//! Windows audio driver logic: fader-slot mapping and action parameters.

pub mod actions;
pub mod catalog;
pub mod mapping;
pub mod page;

pub use actions::{parse_session_target, winaudio_command, SessionTarget, SessionTargetError, WinAudioCommand};
