//! Windows media transport actions: play/pause, stop, next, previous.
//!
//! Each action is sent as a multimedia virtual-key press; the play LED of
//! the control bound to `play_pause` mirrors the system playback state.

use vstd::prelude::*;

use crate::action_catalog::{describes, ActionDescriptor};
use crate::config::{ControlMapping, PageConfig};
use crate::control_mapping::{led_bytes_spec, midi_spec_of, ControlMappingDB, MidiSpec};
use crate::text::str_eq;

verus! {

/// Driver name used for `app: "winmedia"` in control bindings.
pub const DRIVER_NAME: &'static str = "winmedia";

/// Windows virtual-key code of the "next track" media key.
pub const VK_MEDIA_NEXT_TRACK: u16 = 0xB0;
/// Windows virtual-key code of the "previous track" media key.
pub const VK_MEDIA_PREV_TRACK: u16 = 0xB1;
/// Windows virtual-key code of the "stop" media key.
pub const VK_MEDIA_STOP: u16 = 0xB2;
/// Windows virtual-key code of the "play/pause" media key.
pub const VK_MEDIA_PLAY_PAUSE: u16 = 0xB3;

/// The virtual key an action name stands for, aliases included.
pub open spec fn vk_spec(action: Seq<char>) -> Option<u16> {
    if action == "play_pause"@ || action == "playpause"@ || action == "toggle"@ || action == "play"@
        || action == "pause"@ {
        Some(VK_MEDIA_PLAY_PAUSE)
    } else if action == "stop"@ {
        Some(VK_MEDIA_STOP)
    } else if action == "next"@ || action == "next_track"@ || action == "nexttrack"@ || action == "forward"@ {
        Some(VK_MEDIA_NEXT_TRACK)
    } else if action == "previous"@ || action == "prev"@ || action == "prev_track"@ || action
        == "previous_track"@ || action == "prevtrack"@ || action == "back"@ {
        Some(VK_MEDIA_PREV_TRACK)
    } else {
        None
    }
}

/// Map an action name to its Windows virtual-key code; `None` for unknown
/// actions.
pub fn vk_for_action(action: &str) -> (r: Option<u16>)
    ensures
        r == vk_spec(action@),
{
    if str_eq(action, "play_pause") || str_eq(action, "playpause") || str_eq(action, "toggle") || str_eq(
        action,
        "play",
    ) || str_eq(action, "pause") {
        Some(VK_MEDIA_PLAY_PAUSE)
    } else if str_eq(action, "stop") {
        Some(VK_MEDIA_STOP)
    } else if str_eq(action, "next") || str_eq(action, "next_track") || str_eq(action, "nexttrack")
        || str_eq(action, "forward") {
        Some(VK_MEDIA_NEXT_TRACK)
    } else if str_eq(action, "previous") || str_eq(action, "prev") || str_eq(action, "prev_track")
        || str_eq(action, "previous_track") || str_eq(action, "prevtrack") || str_eq(action, "back") {
        Some(VK_MEDIA_PREV_TRACK)
    } else {
        None
    }
}

/// The media key an action request presses: none before the driver is
/// initialized, none on a button release (transport actions act on press
/// only), none for an unknown action.
pub fn winmedia_key_for_request(initialized: bool, is_release: bool, action: &str) -> (r: Option<u16>)
    ensures
        r == (if !initialized || is_release { None } else { vk_spec(action@) }),
{
    if !initialized || is_release {
        None
    } else {
        vk_for_action(action)
    }
}

/// The binding is a `winmedia` action that plays/pauses.
pub open spec fn is_play_pause_binding(m: ControlMapping) -> bool {
    m.app@ == DRIVER_NAME@ && (m.action matches Some(a) && vk_spec(a@) == Some(VK_MEDIA_PLAY_PAUSE))
}

/// The first control, from position `i` on, bound to play/pause.
pub open spec fn play_pause_index(controls: Seq<(String, ControlMapping)>, i: int) -> Option<int>
    decreases controls.len() - i,
{
    if i < 0 || i >= controls.len() {
        None
    } else if is_play_pause_binding(controls[i].1) {
        Some(i)
    } else {
        play_pause_index(controls, i + 1)
    }
}

/// The id of the page control bound to play/pause.
pub open spec fn play_pause_control_spec(page: PageConfig) -> Option<Seq<char>> {
    match page.controls {
        Some(c) => match play_pause_index(c@, 0) {
            Some(i) => Some(c@[i].0@),
            None => None,
        },
        None => None,
    }
}

fn binds_play_pause(m: &ControlMapping) -> (r: bool)
    ensures
        r == is_play_pause_binding(*m),
{
    if !str_eq(m.app.as_str(), DRIVER_NAME) {
        return false;
    }
    match &m.action {
        Some(a) => vk_for_action(a.as_str()) == Some(VK_MEDIA_PLAY_PAUSE),
        None => false,
    }
}

/// The id of the page control bound to `winmedia.play_pause` (or one of
/// its aliases).
pub fn find_play_pause_control(page: &PageConfig) -> (r: Option<String>)
    ensures
        r.is_some() == play_pause_control_spec(*page).is_some(),
        r matches Some(id) ==> Some(id@) == play_pause_control_spec(*page),
{
    let controls = match &page.controls {
        Some(c) => c,
        None => return None,
    };
    let mut i: usize = 0;
    while i < controls.len()
        invariant
            i <= controls.len(),
            page.controls == Some(*controls),
            play_pause_index(controls@, 0) == play_pause_index(controls@, i as int),
        decreases controls.len() - i,
    {
        if binds_play_pause(&controls[i].1) {
            return Some(controls[i].0.clone());
        }
        i = i + 1;
    }
    None
}

/// How the play/pause control of a page is addressed on the surface.
pub open spec fn play_pause_spec_spec(page: PageConfig, db: ControlMappingDB, mcu_mode: bool) -> Option<MidiSpec> {
    match play_pause_control_spec(page) {
        Some(id) => midi_spec_of(db.rows@, id, mcu_mode),
        None => None,
    }
}

/// Find the page control bound to play/pause and resolve it to its
/// hardware MIDI addressing, for the play LED.
pub fn resolve_play_pause_spec(page: &PageConfig, db: &ControlMappingDB, mcu_mode: bool) -> (r: Option<MidiSpec>)
    ensures
        r == play_pause_spec_spec(*page, *db, mcu_mode),
{
    match find_play_pause_control(page) {
        Some(id) => db.get_midi_spec(id.as_str(), mcu_mode),
        None => None,
    }
}

/// The play LED message for the playback state `playing`: the LED message
/// of the control bound to play/pause on the page, if one is bound and
/// addressed in the mapping table.
pub fn play_indicator_bytes(page: &PageConfig, db: &ControlMappingDB, mcu_mode: bool, playing: bool) -> (r: Option<Vec<u8>>)
    ensures
        match (r, play_pause_spec_spec(*page, *db, mcu_mode)) {
            (Some(b), Some(spec)) => b@ == led_bytes_spec(spec, playing),
            (None, None) => true,
            _ => false,
        },
{
    match resolve_play_pause_spec(page, db, mcu_mode) {
        Some(spec) => Some(spec.led_bytes(playing)),
        None => None,
    }
}

/// The four transport actions offered to the editor.
pub fn media_catalog() -> (r: Vec<ActionDescriptor>)
    ensures
        r@.len() == 4,
        describes(r@[0], "play_pause"@, "Play / pause"@, Some("Toggle playback in the foreground media-aware app."@)),
        describes(r@[1], "stop"@, "Stop"@, Some("Stop playback in the foreground media-aware app."@)),
        describes(r@[2], "next"@, "Next track"@, Some("Skip to next track."@)),
        describes(r@[3], "previous"@, "Previous track"@, Some("Skip to previous track."@)),
        forall|i: int| 0 <= i < 4 ==> (#[trigger] r@[i]).params@.len() == 0,
{
    let v = vec![
        ActionDescriptor::simple("play_pause", "Play / pause").with_description(
            "Toggle playback in the foreground media-aware app.",
        ),
        ActionDescriptor::simple("stop", "Stop").with_description("Stop playback in the foreground media-aware app."),
        ActionDescriptor::simple("next", "Next track").with_description("Skip to next track."),
        ActionDescriptor::simple("previous", "Previous track").with_description("Skip to previous track."),
    ];
    v
}

} // verus!
