//! Page and control bindings as declared in the YAML configuration.

use vstd::prelude::*;

use crate::params::ParamValue;

verus! {

/// How one control of a page is bound to a driver action.
#[derive(Debug, Clone)]
pub struct ControlMapping {
    /// Driver name (`"winaudio"`, `"winmedia"`, `"obs"`, ...).
    pub app: String,
    /// Action name within the driver.
    pub action: Option<String>,
    /// Action parameters.
    pub params: Option<Vec<ParamValue>>,
}

/// A page of control bindings, keyed by control id (`"fader1"`,
/// `"mute4"`, `"play"`, ...).
#[derive(Debug, Clone)]
pub struct PageConfig {
    pub name: String,
    pub controls: Option<Vec<(String, ControlMapping)>>,
}

/// The first binding of `controls`, from position `i` on, whose control id
/// is `id`.
pub open spec fn control_index(controls: Seq<(String, ControlMapping)>, id: Seq<char>, i: int) -> Option<int>
    decreases controls.len() - i,
{
    if i < 0 || i >= controls.len() {
        None
    } else if controls[i].0@ == id {
        Some(i)
    } else {
        control_index(controls, id, i + 1)
    }
}

/// The binding of control `id` on a page's control list.
pub open spec fn control_lookup(controls: Seq<(String, ControlMapping)>, id: Seq<char>) -> Option<ControlMapping> {
    match control_index(controls, id, 0) {
        Some(i) => Some(controls[i].1),
        None => None,
    }
}

/// The binding of control `control_id`, if the page declares one.
pub fn get_control<'a>(controls: &'a [(String, ControlMapping)], control_id: &str) -> (r: Option<&'a ControlMapping>)
    ensures
        r.is_some() == control_lookup(controls@, control_id@).is_some(),
        r matches Some(m) ==> Some(*m) == control_lookup(controls@, control_id@),
{
    let mut i: usize = 0;
    while i < controls.len()
        invariant
            i <= controls.len(),
            control_index(controls@, control_id@, 0) == control_index(controls@, control_id@, i as int),
        decreases controls.len() - i,
    {
        if crate::text::str_eq(controls[i].0.as_str(), control_id) {
            return Some(&controls[i].1);
        }
        i = i + 1;
    }
    None
}

} // verus!

verus! {

/// One camera of the OBS camera control configuration.
#[derive(Debug, Clone)]
pub struct CameraConfig {
    pub id: String,
    pub scene: String,
    pub source: String,
    pub split_source: String,
    pub enable_ptz: bool,
}

/// The two split-view scenes.
#[derive(Debug, Clone)]
pub struct SplitsConfig {
    pub left: String,
    pub right: String,
}

/// OBS camera control configuration.
#[derive(Debug, Clone)]
pub struct CameraControlConfig {
    pub cameras: Vec<CameraConfig>,
    pub splits: SplitsConfig,
    /// Camera shown when leaving split view (the first camera if unset).
    pub default_camera: Option<String>,
}

/// OBS driver configuration (the parts the gateway logic reads).
#[derive(Debug, Clone)]
pub struct ObsConfig {
    pub camera_control: Option<CameraControlConfig>,
}

/// One configured gamepad slot.
#[derive(Debug, Clone)]
pub struct GamepadSlotConfig {
    /// Product name pattern (substring, case-insensitive).
    pub product_match: String,
    /// `"static"` (the default) or `"dynamic"`: a dynamic slot follows the
    /// camera shown in the preview.
    pub camera_target: Option<String>,
}

/// Gamepad configuration (the parts the gateway logic reads).
#[derive(Debug, Clone)]
pub struct GamepadConfig {
    pub enabled: bool,
    pub gamepads: Option<Vec<GamepadSlotConfig>>,
}

/// Application configuration (the parts the gateway logic reads).
#[derive(Debug, Clone)]
pub struct AppConfig {
    pub obs: Option<ObsConfig>,
    pub gamepad: Option<GamepadConfig>,
    pub pages: Vec<PageConfig>,
}

} // verus!
