//! X-Touch gateway core: MIDI message handling and bridging, control
//! routing helpers, OBS camera control decisions, audio-session slot
//! mapping, media keys and gamepad slot management.

use vstd::prelude::*;

pub mod action_catalog;
pub mod config;
pub mod console;
pub mod control_mapping;
pub mod event_bus;
pub mod gamepad;
pub mod helpers;
pub mod keyed;
pub mod midi;
pub mod midibridge;
pub mod obs;
pub mod obs_actions;
pub mod obs_catalog;
pub mod obs_events;
pub mod obs_indicators;
pub mod obs_transform;
pub mod params;
pub mod qlc;
pub mod text;
pub mod winaudio;
pub mod winmedia;

verus! {

} // verus!
