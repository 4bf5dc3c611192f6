//! Summaries of the configuration for the editor API.

use vstd::prelude::*;

use crate::config::{AppConfig, CameraConfig, GamepadConfig, GamepadSlotConfig};
use crate::gamepad::buttons::push_str_chars;
use crate::text::{decimal, push_decimal, str_eq};
use vstd::string::StringExecFns;

verus! {

/// A camera as listed by the editor API.
#[derive(Debug, Clone)]
pub struct CameraInfo {
    pub id: String,
    pub scene: String,
    pub source: String,
    pub split_source: String,
    pub enable_ptz: bool,
}

/// A gamepad slot as listed by the editor API.
#[derive(Debug, Clone)]
pub struct GamepadSlotInfo {
    /// `"gamepad{n}"`, n counted from 1.
    pub slot: String,
    pub product_match: String,
    /// The slot's camera target mode, `"static"` when not configured.
    pub camera_target_mode: String,
    pub current_camera: Option<String>,
}

/// The configured cameras, if camera control is configured.
pub open spec fn cameras_of(config: AppConfig) -> Seq<CameraConfig> {
    match config.obs {
        Some(obs) => match obs.camera_control {
            Some(cc) => cc.cameras@,
            None => Seq::empty(),
        },
        None => Seq::empty(),
    }
}

/// `info` lists camera `c`.
pub open spec fn camera_info_of(c: CameraConfig, info: CameraInfo) -> bool {
    &&& info.id@ == c.id@
    &&& info.scene@ == c.scene@
    &&& info.source@ == c.source@
    &&& info.split_source@ == c.split_source@
    &&& info.enable_ptz == c.enable_ptz
}

/// Build the camera list from configuration: one entry per configured
/// camera, in order; empty without OBS camera control.
pub fn build_camera_infos(config: &AppConfig) -> (r: Vec<CameraInfo>)
    ensures
        r@.len() == cameras_of(*config).len(),
        forall|i: int| 0 <= i < r@.len() ==> camera_info_of(cameras_of(*config)[i], #[trigger] r@[i]),
{
    let obs = match &config.obs {
        Some(o) => o,
        None => return Vec::new(),
    };
    let cc = match &obs.camera_control {
        Some(c) => c,
        None => return Vec::new(),
    };
    let ghost cams = cameras_of(*config);
    assert(cams == cc.cameras@);
    let mut out: Vec<CameraInfo> = Vec::new();
    let mut i: usize = 0;
    while i < cc.cameras.len()
        invariant
            i <= cc.cameras@.len(),
            cams == cc.cameras@,
            out@.len() == i,
            forall|j: int| 0 <= j < i ==> camera_info_of(cams[j], #[trigger] out@[j]),
        decreases cc.cameras.len() - i,
    {
        let c = &cc.cameras[i];
        out.push(CameraInfo {
            id: c.id.clone(),
            scene: c.scene.clone(),
            source: c.source.clone(),
            split_source: c.split_source.clone(),
            enable_ptz: c.enable_ptz,
        });
        i = i + 1;
    }
    out
}

/// The configured gamepad slots, if any.
pub open spec fn slot_configs_of(gamepad: Option<GamepadConfig>) -> Seq<GamepadSlotConfig> {
    match gamepad {
        Some(g) => match g.gamepads {
            Some(v) => v@,
            None => Seq::empty(),
        },
        None => Seq::empty(),
    }
}

/// The name of slot `i` (0-based): `gamepad{i + 1}`.
pub open spec fn slot_name(i: int) -> Seq<char> {
    "gamepad"@ + decimal((i + 1) as nat)
}

/// `info` lists slot `i`, configured as `c`.
pub open spec fn slot_info_of(i: int, c: GamepadSlotConfig, info: GamepadSlotInfo) -> bool {
    &&& info.slot@ == slot_name(i)
    &&& info.product_match@ == c.product_match@
    &&& info.camera_target_mode@ == (match c.camera_target {
        Some(t) => t@,
        None => "static"@,
    })
    &&& info.current_camera.is_none()
}

fn slot_name_of(i: usize) -> (r: String)
    requires
        i < usize::MAX,
    ensures
        r@ == slot_name(i as int),
{
    let mut s = String::from_str("gamepad");
    push_decimal(&mut s, i as u64 + 1);
    s
}

/// Build the gamepad slot list from an optional gamepad configuration:
/// slot `i` is `gamepad{i + 1}`, its camera target mode `"static"` unless
/// configured. Used at startup and on hot reload.
pub fn build_gamepad_slot_infos_from_config(gamepad: &Option<GamepadConfig>) -> (r: Vec<GamepadSlotInfo>)
    ensures
        r@.len() == slot_configs_of(*gamepad).len(),
        forall|i: int| 0 <= i < r@.len() ==> slot_info_of(i, slot_configs_of(*gamepad)[i], #[trigger] r@[i]),
{
    let g = match gamepad {
        Some(g) => g,
        None => return Vec::new(),
    };
    let slots = match &g.gamepads {
        Some(s) => s,
        None => return Vec::new(),
    };
    let ghost cfg = slot_configs_of(*gamepad);
    assert(cfg == slots@);
    let mut out: Vec<GamepadSlotInfo> = Vec::new();
    let mut i: usize = 0;
    while i < slots.len()
        invariant
            i <= slots@.len(),
            cfg == slots@,
            out@.len() == i,
            forall|j: int| 0 <= j < i ==> slot_info_of(j, cfg[j], #[trigger] out@[j]),
        decreases slots.len() - i,
    {
        let c = &slots[i];
        let mode = match &c.camera_target {
            Some(t) => t.clone(),
            None => String::from_str("static"),
        };
        out.push(GamepadSlotInfo {
            slot: slot_name_of(i),
            product_match: c.product_match.clone(),
            camera_target_mode: mode,
            current_camera: None,
        });
        i = i + 1;
    }
    out
}

/// Build the gamepad slot list from the application configuration.
pub fn build_gamepad_slot_infos(config: &AppConfig) -> (r: Vec<GamepadSlotInfo>)
    ensures
        r@.len() == slot_configs_of(config.gamepad).len(),
        forall|i: int| 0 <= i < r@.len() ==> slot_info_of(i, slot_configs_of(config.gamepad)[i], #[trigger] r@[i]),
{
    build_gamepad_slot_infos_from_config(&config.gamepad)
}

/// The slot follows the camera shown in the preview.
pub open spec fn is_dynamic(c: GamepadSlotConfig) -> bool {
    c.camera_target matches Some(t) && t@ == "dynamic"@
}

/// The first dynamic slot, from position `i` on.
pub open spec fn dynamic_index(s: Seq<GamepadSlotConfig>, i: int) -> Option<int>
    decreases s.len() - i,
{
    if i < 0 || i >= s.len() {
        None
    } else if is_dynamic(s[i]) {
        Some(i)
    } else {
        dynamic_index(s, i + 1)
    }
}

/// The name of the first dynamic slot.
pub open spec fn dynamic_slot_spec(gamepad: Option<GamepadConfig>) -> Option<Seq<char>> {
    match dynamic_index(slot_configs_of(gamepad), 0) {
        Some(i) => Some(slot_name(i)),
        None => None,
    }
}

/// The first gamepad slot whose camera target mode is `"dynamic"` (its
/// name, e.g. `"gamepad1"`), from an optional gamepad configuration.
pub fn find_dynamic_gamepad_slot_from_config(gamepad: &Option<GamepadConfig>) -> (r: Option<String>)
    ensures
        r.is_some() == dynamic_slot_spec(*gamepad).is_some(),
        r matches Some(s) ==> Some(s@) == dynamic_slot_spec(*gamepad),
{
    let g = match gamepad {
        Some(g) => g,
        None => return None,
    };
    let slots = match &g.gamepads {
        Some(s) => s,
        None => return None,
    };
    let ghost cfg = slot_configs_of(*gamepad);
    assert(cfg == slots@);
    let mut i: usize = 0;
    while i < slots.len()
        invariant
            i <= slots@.len(),
            cfg == slots@,
            cfg == slot_configs_of(*gamepad),
            dynamic_index(cfg, 0) == dynamic_index(cfg, i as int),
        decreases slots.len() - i,
    {
        let dynamic = match &slots[i].camera_target {
            Some(t) => str_eq(t.as_str(), "dynamic"),
            None => false,
        };
        assert(dynamic == is_dynamic(cfg[i as int]));
        if dynamic {
            return Some(slot_name_of(i));
        }
        i = i + 1;
    }
    None
}

/// The first gamepad slot configured with the `"dynamic"` camera target
/// mode, e.g. `"gamepad1"`; `None` if there is none.
pub fn find_dynamic_gamepad_slot(config: &AppConfig) -> (r: Option<String>)
    ensures
        r.is_some() == dynamic_slot_spec(config.gamepad).is_some(),
        r matches Some(s) ==> Some(s@) == dynamic_slot_spec(config.gamepad),
{
    find_dynamic_gamepad_slot_from_config(&config.gamepad)
}

} // verus!
