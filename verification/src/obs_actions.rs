//! OBS action dispatch: which action a name stands for, which actions a
//! button release skips, camera parameters, where `selectCamera` shows a
//! camera, and the scene, studio-mode, camera-move and PTZ-modifier
//! decisions of the other actions.

use vstd::prelude::*;

use crate::config::{CameraConfig, CameraControlConfig};
use crate::gamepad::mapper::LtState;
use crate::gamepad::{first_segment, first_segment_of};
use crate::keyed::set_value;
use crate::obs::{camera_index, id_is, is_ptz_enabled_by_scene, ptz_enabled_spec, scene_is, ViewMode};
use crate::params::{first_str, param_str, ParamValue};
use crate::text::{chars_of, str_eq};
use crate::winaudio::mapping::names_of;
use vstd::string::StringExecFns;

verus! {

/// An OBS driver action.
#[derive(Debug, Clone, Copy, PartialEq, Eq, Structural)]
pub enum ObsAction {
    ChangeScene,
    ToggleStudioMode,
    TriggerStudioModeTransition,
    NudgeX,
    NudgeY,
    ScaleUniform,
    ResetPosition,
    ResetZoom,
    SelectCamera,
    EnterSplit,
    ToggleSplit,
    ExitSplit,
    SetPtzModifier,
    Unknown,
}

/// The action an action name stands for.
pub open spec fn obs_action_spec(name: Seq<char>) -> ObsAction {
    if name == "changeScene"@ || name == "setScene"@ {
        ObsAction::ChangeScene
    } else if name == "toggleStudioMode"@ {
        ObsAction::ToggleStudioMode
    } else if name == "TriggerStudioModeTransition"@ {
        ObsAction::TriggerStudioModeTransition
    } else if name == "nudgeX"@ {
        ObsAction::NudgeX
    } else if name == "nudgeY"@ {
        ObsAction::NudgeY
    } else if name == "scaleUniform"@ {
        ObsAction::ScaleUniform
    } else if name == "resetPosition"@ {
        ObsAction::ResetPosition
    } else if name == "resetZoom"@ {
        ObsAction::ResetZoom
    } else if name == "selectCamera"@ {
        ObsAction::SelectCamera
    } else if name == "enterSplit"@ {
        ObsAction::EnterSplit
    } else if name == "toggleSplit"@ {
        ObsAction::ToggleSplit
    } else if name == "exitSplit"@ {
        ObsAction::ExitSplit
    } else if name == "setPtzModifier"@ {
        ObsAction::SetPtzModifier
    } else {
        ObsAction::Unknown
    }
}

/// The action an action name stands for (`setScene` is an alias of
/// `changeScene`).
pub fn parse_obs_action(name: &str) -> (r: ObsAction)
    ensures
        r == obs_action_spec(name@),
{
    if str_eq(name, "changeScene") || str_eq(name, "setScene") {
        ObsAction::ChangeScene
    } else if str_eq(name, "toggleStudioMode") {
        ObsAction::ToggleStudioMode
    } else if str_eq(name, "TriggerStudioModeTransition") {
        ObsAction::TriggerStudioModeTransition
    } else if str_eq(name, "nudgeX") {
        ObsAction::NudgeX
    } else if str_eq(name, "nudgeY") {
        ObsAction::NudgeY
    } else if str_eq(name, "scaleUniform") {
        ObsAction::ScaleUniform
    } else if str_eq(name, "resetPosition") {
        ObsAction::ResetPosition
    } else if str_eq(name, "resetZoom") {
        ObsAction::ResetZoom
    } else if str_eq(name, "selectCamera") {
        ObsAction::SelectCamera
    } else if str_eq(name, "enterSplit") {
        ObsAction::EnterSplit
    } else if str_eq(name, "toggleSplit") {
        ObsAction::ToggleSplit
    } else if str_eq(name, "exitSplit") {
        ObsAction::ExitSplit
    } else if str_eq(name, "setPtzModifier") {
        ObsAction::SetPtzModifier
    } else {
        ObsAction::Unknown
    }
}

/// Trigger-style actions act on press only; continuous and stateful
/// actions (nudges, scaling, resets, the PTZ modifier) also take releases.
pub open spec fn press_only(a: ObsAction) -> bool {
    match a {
        ObsAction::ChangeScene | ObsAction::ToggleStudioMode | ObsAction::TriggerStudioModeTransition
        | ObsAction::SelectCamera | ObsAction::EnterSplit | ObsAction::ToggleSplit | ObsAction::ExitSplit => true,
        _ => false,
    }
}

/// What the driver does with an action request.
#[derive(Debug, Clone, Copy, PartialEq, Eq, Structural)]
pub enum ObsDispatch {
    /// OBS is not connected: the action fails (and a reconnection starts).
    NotConnected,
    /// A button release of a press-only action: nothing.
    IgnoredRelease,
    /// Run the action.
    Run(ObsAction),
}

/// What the driver does with a request for action `action`.
pub open spec fn dispatch_spec(connected: bool, is_release: bool, action: Seq<char>) -> ObsDispatch {
    if !connected {
        ObsDispatch::NotConnected
    } else if is_release && press_only(obs_action_spec(action)) {
        ObsDispatch::IgnoredRelease
    } else {
        ObsDispatch::Run(obs_action_spec(action))
    }
}

/// Releases are ignored exactly for the trigger-style actions
/// (`changeScene`, `setScene`, `toggleStudioMode`,
/// `TriggerStudioModeTransition`, `selectCamera`, `enterSplit`,
/// `toggleSplit`, `exitSplit`); every other action, known or not, runs on
/// release as well, every connected press runs, and nothing runs while OBS
/// is not connected.
pub proof fn law_trigger_actions_ignore_releases(action: Seq<char>, is_release: bool)
    ensures
        dispatch_spec(true, true, action) is IgnoredRelease <==> (action == "changeScene"@ || action == "setScene"@
            || action == "toggleStudioMode"@ || action == "TriggerStudioModeTransition"@ || action == "selectCamera"@
            || action == "enterSplit"@ || action == "toggleSplit"@ || action == "exitSplit"@),
        dispatch_spec(true, false, action) is Run,
        dispatch_spec(false, is_release, action) is NotConnected,
{
    reveal_strlit("changeScene");
    assert("changeScene"@.len() == 11);
    reveal_strlit("setScene");
    assert("setScene"@.len() == 8);
    reveal_strlit("toggleStudioMode");
    assert("toggleStudioMode"@.len() == 16);
    reveal_strlit("TriggerStudioModeTransition");
    assert("TriggerStudioModeTransition"@.len() == 27);
    reveal_strlit("nudgeX");
    assert("nudgeX"@.len() == 6);
    reveal_strlit("nudgeY");
    assert("nudgeY"@.len() == 6);
    reveal_strlit("scaleUniform");
    assert("scaleUniform"@.len() == 12);
    reveal_strlit("resetPosition");
    assert("resetPosition"@.len() == 13);
    reveal_strlit("resetZoom");
    assert("resetZoom"@.len() == 9);
    reveal_strlit("selectCamera");
    assert("selectCamera"@.len() == 12);
    reveal_strlit("enterSplit");
    assert("enterSplit"@.len() == 10);
    reveal_strlit("toggleSplit");
    assert("toggleSplit"@.len() == 11);
    reveal_strlit("exitSplit");
    assert("exitSplit"@.len() == 9);
    reveal_strlit("setPtzModifier");
    assert("setPtzModifier"@.len() == 14);
    assert("changeScene"@[0] == 'c' && "toggleSplit"@[0] == 't');
    assert("scaleUniform"@[1] == 'c' && "selectCamera"@[1] == 'e');
    assert("resetZoom"@[0] == 'r' && "exitSplit"@[0] == 'e');
    assert("nudgeX"@[5] == 'X' && "nudgeY"@[5] == 'Y');
}

/// Decide what to do with an action request: refuse it while OBS is not
/// connected, skip releases of press-only actions, else run it.
pub fn dispatch_obs_action(connected: bool, is_release: bool, action: &str) -> (r: ObsDispatch)
    ensures
        r == dispatch_spec(connected, is_release, action@),
{
    if !connected {
        return ObsDispatch::NotConnected;
    }
    let a = parse_obs_action(action);
    let trigger = match a {
        ObsAction::ChangeScene | ObsAction::ToggleStudioMode | ObsAction::TriggerStudioModeTransition
        | ObsAction::SelectCamera | ObsAction::EnterSplit | ObsAction::ToggleSplit | ObsAction::ExitSplit => true,
        _ => false,
    };
    if is_release && trigger {
        ObsDispatch::IgnoredRelease
    } else {
        ObsDispatch::Run(a)
    }
}

// ---------------------------------------------------------------------------
// Camera parameters
// ---------------------------------------------------------------------------

/// Why camera parameters were refused.
#[derive(Debug, Clone, Copy, PartialEq, Eq, Structural)]
pub enum CameraParamError {
    /// The camera id parameter is not a string.
    CameraIdNotString,
    /// No configured camera has this id.
    CameraNotFound,
    /// The scene parameter is not a string.
    SceneNotString,
    /// The source parameter is not a string.
    SourceNotString,
    /// The step parameter is not a number.
    StepNotNumber,
    /// Neither parameter layout matches.
    WrongCount,
}

/// The (scene, source) of the camera with id `id`.
pub open spec fn camera_target_spec(config: Option<CameraControlConfig>, id: Seq<char>) -> Option<(Seq<char>, Seq<char>)> {
    match config {
        Some(c) => match camera_index(c.cameras@, id_is(id), 0) {
            Some(i) => Some((c.cameras@[i].scene@, c.cameras@[i].source@)),
            None => None,
        },
        None => None,
    }
}

/// Position of the first camera of `cams` with id `id`.
fn find_camera(cams: &Vec<CameraConfig>, id: &str) -> (r: Option<usize>)
    ensures
        match r {
            Some(i) => camera_index(cams@, id_is(id@), 0) == Some(i as int) && i < cams@.len(),
            None => camera_index(cams@, id_is(id@), 0) is None,
        },
{
    let ghost pred = id_is(id@);
    let mut i: usize = 0;
    while i < cams.len()
        invariant
            i <= cams@.len(),
            pred == id_is(id@),
            camera_index(cams@, pred, 0) == camera_index(cams@, pred, i as int),
        decreases cams.len() - i,
    {
        if str_eq(cams[i].id.as_str(), id) {
            assert(pred(cams@[i as int]));
            return Some(i);
        }
        i = i + 1;
    }
    None
}

/// The scene and source showing the camera with id `camera_id`.
pub fn resolve_camera_id(config: &Option<CameraControlConfig>, camera_id: &str) -> (r: Option<(String, String)>)
    ensures
        match (r, camera_target_spec(*config, camera_id@)) {
            (Some((scene, source)), Some((s2, o2))) => scene@ == s2 && source@ == o2,
            (None, None) => true,
            _ => false,
        },
{
    let c = match config {
        Some(c) => c,
        None => return None,
    };
    match find_camera(&c.cameras, camera_id) {
        Some(i) => Some((c.cameras[i].scene.clone(), c.cameras[i].source.clone())),
        None => None,
    }
}

/// The parameter is a number.
pub open spec fn is_number(v: ParamValue) -> bool {
    v is Int || v is UInt || v is Fraction
}

/// The (scene, source) named by `[camera_id]` or `[scene, source]`, when a
/// step follows them (`with_step`), or why the parameters are refused.
pub open spec fn camera_params_spec(
    config: Option<CameraControlConfig>,
    params: Seq<ParamValue>,
    with_step: bool,
) -> Result<(Seq<char>, Seq<char>), CameraParamError> {
    let n = if with_step { params.len() - 1 } else { params.len() as int };
    if n == 1 {
        match param_str(params[0]) {
            None => Err(CameraParamError::CameraIdNotString),
            Some(id) => if with_step && !is_number(params[1]) {
                Err(CameraParamError::StepNotNumber)
            } else {
                match camera_target_spec(config, id) {
                    Some(t) => Ok(t),
                    None => Err(CameraParamError::CameraNotFound),
                }
            },
        }
    } else if n == 2 {
        match param_str(params[0]) {
            None => Err(CameraParamError::SceneNotString),
            Some(scene) => match param_str(params[1]) {
                None => Err(CameraParamError::SourceNotString),
                Some(source) => if with_step && !is_number(params[2]) {
                    Err(CameraParamError::StepNotNumber)
                } else {
                    Ok((scene, source))
                },
            },
        }
    } else {
        Err(CameraParamError::WrongCount)
    }
}

fn param_is_number(v: &ParamValue) -> (r: bool)
    ensures
        r == is_number(*v),
{
    match v {
        ParamValue::Int(_) | ParamValue::UInt(_) | ParamValue::Fraction(_) => true,
        _ => false,
    }
}

fn camera_params(config: &Option<CameraControlConfig>, params: &[ParamValue], with_step: bool) -> (r: Result<(String, String), CameraParamError>)
    ensures
        match (r, camera_params_spec(*config, params@, with_step)) {
            (Ok((scene, source)), Ok((s2, o2))) => scene@ == s2 && source@ == o2,
            (Err(e), Err(f)) => e == f,
            _ => false,
        },
{
    let n: usize = if with_step {
        if params.len() == 0 {
            return Err(CameraParamError::WrongCount);
        }
        params.len() - 1
    } else {
        params.len()
    };
    if n == 1 {
        let id = match params[0].as_str() {
            Some(s) => s,
            None => return Err(CameraParamError::CameraIdNotString),
        };
        if with_step && !param_is_number(&params[1]) {
            return Err(CameraParamError::StepNotNumber);
        }
        match resolve_camera_id(config, id) {
            Some(t) => Ok(t),
            None => Err(CameraParamError::CameraNotFound),
        }
    } else if n == 2 {
        let scene = match params[0].as_str() {
            Some(s) => s,
            None => return Err(CameraParamError::SceneNotString),
        };
        let source = match params[1].as_str() {
            Some(s) => s,
            None => return Err(CameraParamError::SourceNotString),
        };
        if with_step && !param_is_number(&params[2]) {
            return Err(CameraParamError::StepNotNumber);
        }
        Ok((String::from_str(scene), String::from_str(source)))
    } else {
        Err(CameraParamError::WrongCount)
    }
}

/// Parameters of `resetPosition` / `resetZoom`: `[camera_id]` (resolved
/// through the camera configuration) or the legacy `[scene, source]`.
pub fn parse_camera_params(config: &Option<CameraControlConfig>, params: &[ParamValue]) -> (r: Result<(String, String), CameraParamError>)
    ensures
        match (r, camera_params_spec(*config, params@, false)) {
            (Ok((scene, source)), Ok((s2, o2))) => scene@ == s2 && source@ == o2,
            (Err(e), Err(f)) => e == f,
            _ => false,
        },
{
    camera_params(config, params, false)
}

/// Parameters of `nudgeX` / `nudgeY` / `scaleUniform`: `[camera_id, step]`
/// or the legacy `[scene, source, step]`. The step, a number, is the last
/// parameter; the caller reads its value.
pub fn parse_camera_params_with_step(config: &Option<CameraControlConfig>, params: &[ParamValue]) -> (r: Result<(String, String), CameraParamError>)
    ensures
        match (r, camera_params_spec(*config, params@, true)) {
            (Ok((scene, source)), Ok((s2, o2))) => scene@ == s2 && source@ == o2,
            (Err(e), Err(f)) => e == f,
            _ => false,
        },
{
    camera_params(config, params, true)
}

// ---------------------------------------------------------------------------
// selectCamera
// ---------------------------------------------------------------------------

/// Why `selectCamera` was refused.
#[derive(Debug, Clone, Copy, PartialEq, Eq, Structural)]
pub enum SelectCameraError {
    /// No camera id was given.
    CameraIdRequired,
    /// Camera control is not configured.
    NotConfigured,
    /// No configured camera has this id.
    CameraNotFound,
    /// The target is neither `"preview"` nor `"program"`.
    InvalidTarget,
}

/// Where `selectCamera` shows the camera.
#[derive(Debug, Clone, PartialEq, Eq)]
pub enum SelectCameraPlan {
    /// Full view: switch the preview (`use_preview`) or program to the
    /// camera's scene, turning studio mode on first when asked; set the
    /// gamepad's PTZ target when asked.
    Full { scene: String, use_preview: bool, enable_studio_mode: bool, set_ptz_target: bool },
    /// Split view: show the camera in the split scene and set the
    /// gamepad's PTZ target.
    Split { split_scene: String },
}

/// The split sources of `cams`, in order.
pub open spec fn split_sources(cams: Seq<CameraConfig>) -> Seq<Seq<char>> {
    cams.map_values(|c: CameraConfig| c.split_source@)
}

/// Showing camera `camera_id` in a split scene: every camera's split source
/// is hidden, then that camera's split source is shown.
pub open spec fn split_camera_spec(config: Option<CameraControlConfig>, camera_id: Seq<char>) -> Result<(Seq<Seq<char>>, Seq<char>), SelectCameraError> {
    match config {
        None => Err(SelectCameraError::NotConfigured),
        Some(c) => match camera_index(c.cameras@, id_is(camera_id), 0) {
            None => Err(SelectCameraError::CameraNotFound),
            Some(i) => Ok((split_sources(c.cameras@), c.cameras@[i].split_source@)),
        },
    }
}

/// The split sources to hide and the one to show so that camera
/// `camera_id` is the one visible in a split scene.
pub fn plan_split_camera(config: &Option<CameraControlConfig>, camera_id: &str) -> (r: Result<(Vec<String>, String), SelectCameraError>)
    ensures
        match (r, split_camera_spec(*config, camera_id@)) {
            (Ok((hidden, show)), Ok((h2, s2))) => names_of(hidden@) == h2 && show@ == s2,
            (Err(e), Err(f)) => e == f,
            _ => false,
        },
{
    let c = match config {
        Some(c) => c,
        None => return Err(SelectCameraError::NotConfigured),
    };
    let i = match find_camera(&c.cameras, camera_id) {
        Some(i) => i,
        None => return Err(SelectCameraError::CameraNotFound),
    };
    let mut hidden: Vec<String> = Vec::new();
    let mut j: usize = 0;
    while j < c.cameras.len()
        invariant
            j <= c.cameras@.len(),
            names_of(hidden@) == split_sources(c.cameras@).take(j as int),
        decreases c.cameras.len() - j,
    {
        hidden.push(c.cameras[j].split_source.clone());
        assert(split_sources(c.cameras@).take((j + 1) as int) =~= split_sources(c.cameras@).take(j as int).push(c.cameras@[j as int].split_source@));
        j = j + 1;
    }
    assert(split_sources(c.cameras@).take(c.cameras@.len() as int) =~= split_sources(c.cameras@));
    Ok((hidden, c.cameras[i].split_source.clone()))
}

/// Selecting a camera through the remote API (full view only): the
/// camera's scene, whether it goes to the preview, and whether studio mode
/// must be turned on first.
pub open spec fn api_select_spec(config: Option<CameraControlConfig>, camera_id: Seq<char>, target: Seq<char>, studio_mode: bool) -> Result<(Seq<char>, bool, bool), SelectCameraError> {
    match config {
        None => Err(SelectCameraError::NotConfigured),
        Some(c) => match camera_index(c.cameras@, id_is(camera_id), 0) {
            None => Err(SelectCameraError::CameraNotFound),
            Some(i) => if target == "preview"@ {
                Ok((c.cameras@[i].scene@, true, !studio_mode))
            } else if target == "program"@ {
                Ok((c.cameras@[i].scene@, false, false))
            } else {
                Err(SelectCameraError::InvalidTarget)
            },
        },
    }
}

/// Plan a camera selection from the remote API with target `"preview"`
/// (studio mode turned on when off) or `"program"`.
pub fn plan_api_select_camera(config: &Option<CameraControlConfig>, camera_id: &str, target: &str, studio_mode: bool) -> (r: Result<(String, bool, bool), SelectCameraError>)
    ensures
        match (r, api_select_spec(*config, camera_id@, target@, studio_mode)) {
            (Ok((scene, preview, enable)), Ok((s2, p2, e2))) => scene@ == s2 && preview == p2 && enable == e2,
            (Err(e), Err(f)) => e == f,
            _ => false,
        },
{
    let c = match config {
        Some(c) => c,
        None => return Err(SelectCameraError::NotConfigured),
    };
    let i = match find_camera(&c.cameras, camera_id) {
        Some(i) => i,
        None => return Err(SelectCameraError::CameraNotFound),
    };
    if str_eq(target, "preview") {
        Ok((c.cameras[i].scene.clone(), true, !studio_mode))
    } else if str_eq(target, "program") {
        Ok((c.cameras[i].scene.clone(), false, false))
    } else {
        Err(SelectCameraError::InvalidTarget)
    }
}

/// Where a full-view selection goes: an explicit `"preview"` target (studio
/// mode turned on when off), an explicit `"program"` target, a gamepad with
/// the PTZ modifier held (preview, studio mode turned on when off), a
/// gamepad without it (program); otherwise the preview exactly in studio
/// mode.
pub open spec fn full_target_spec(explicit: Option<Seq<char>>, is_gamepad: bool, modifier_held: bool, studio_mode: bool) -> (bool, bool) {
    match explicit {
        Some(t) => if t == "preview"@ {
            (true, !studio_mode)
        } else if t == "program"@ {
            (false, false)
        } else {
            (studio_mode, false)
        },
        None => if is_gamepad && modifier_held {
            (true, !studio_mode)
        } else if is_gamepad {
            (false, false)
        } else {
            (studio_mode, false)
        },
    }
}

/// The outcome of `selectCamera`.
pub open spec fn select_camera_spec(
    config: Option<CameraControlConfig>,
    mode: ViewMode,
    params: Seq<ParamValue>,
    is_gamepad: bool,
    modifier_held: bool,
    studio_mode: bool,
) -> Result<(Seq<char>, Option<(Seq<char>, bool, bool, bool)>, Seq<char>), SelectCameraError> {
    let id = if params.len() > 0 { param_str(params[0]) } else { None };
    let explicit = if params.len() > 1 { param_str(params[1]) } else { None };
    match id {
        None => Err(SelectCameraError::CameraIdRequired),
        Some(cam) => match config {
            None => Err(SelectCameraError::NotConfigured),
            Some(c) => match camera_index(c.cameras@, id_is(cam), 0) {
                None => Err(SelectCameraError::CameraNotFound),
                Some(i) => match mode {
                    ViewMode::Full => {
                        let (use_preview, enable) = full_target_spec(explicit, is_gamepad, modifier_held, studio_mode);
                        Ok((cam, Some((c.cameras@[i].scene@, use_preview, enable, use_preview && modifier_held)), Seq::empty()))
                    },
                    ViewMode::SplitLeft => Ok((cam, None, c.splits.left@)),
                    ViewMode::SplitRight => Ok((cam, None, c.splits.right@)),
                },
            },
        },
    }
}

/// Where `selectCamera` sends a camera in full view: an explicit
/// `"program"` target never uses the preview, never turns studio mode on
/// and sets no PTZ target, whatever the studio mode; an explicit
/// `"preview"` target always uses the preview, turning studio mode on when
/// it is off; without a target a gamepad goes to the preview (with PTZ
/// targeting) while its modifier is held and to the program otherwise,
/// and any other control follows the studio mode. Studio mode is only
/// turned on for the preview, and a PTZ target only set from the preview
/// with the modifier held. In a split view the camera goes to the split
/// scene instead.
pub proof fn law_select_camera_routing(
    config: Option<CameraControlConfig>,
    mode: ViewMode,
    params: Seq<ParamValue>,
    is_gamepad: bool,
    modifier_held: bool,
    studio_mode: bool,
)
    ensures
        ({
            let r = select_camera_spec(config, mode, params, is_gamepad, modifier_held, studio_mode);
            let explicit = if params.len() > 1 { param_str(params[1]) } else { None };
            &&& (r matches Ok((_, Some((_, p, e, t)), _)) ==> {
                &&& explicit == Some("program"@) ==> !p && !e && !t
                &&& explicit == Some("preview"@) ==> p && e == !studio_mode && t == modifier_held
                &&& (explicit matches Some(x) && x != "program"@ && x != "preview"@) ==> p == studio_mode && !e
                &&& (explicit is None && is_gamepad && modifier_held) ==> p && e == !studio_mode && t
                &&& (explicit is None && is_gamepad && !modifier_held) ==> !p && !e && !t
                &&& (explicit is None && !is_gamepad) ==> p == studio_mode && !e
                &&& e ==> p && !studio_mode
                &&& t ==> p && modifier_held
            })
            &&& (r matches Ok((_, plan, _)) ==> (plan is Some <==> mode == ViewMode::Full))
        }),
{
    reveal_strlit("preview");
    reveal_strlit("program");
    assert("preview"@[2] == 'e' && "program"@[2] == 'o');
}

/// Plan `selectCamera` with parameters `[camera_id, target?]`. Returns the
/// camera id (which becomes the last camera) and where it goes.
pub fn plan_select_camera(
    config: &Option<CameraControlConfig>,
    mode: ViewMode,
    params: &[ParamValue],
    is_gamepad: bool,
    modifier_held: bool,
    studio_mode: bool,
) -> (r: Result<(String, SelectCameraPlan), SelectCameraError>)
    ensures
        match (r, select_camera_spec(*config, mode, params@, is_gamepad, modifier_held, studio_mode)) {
            (Ok((cam, SelectCameraPlan::Full { scene, use_preview, enable_studio_mode, set_ptz_target })), Ok((c2, Some((s2, p2, e2, t2)), _))) =>
                cam@ == c2 && scene@ == s2 && use_preview == p2 && enable_studio_mode == e2 && set_ptz_target == t2,
            (Ok((cam, SelectCameraPlan::Split { split_scene })), Ok((c2, None, s2))) => cam@ == c2 && split_scene@ == s2,
            (Err(e), Err(f)) => e == f,
            _ => false,
        },
{
    let cam = if params.len() > 0 {
        match params[0].as_str() {
            Some(s) => s,
            None => return Err(SelectCameraError::CameraIdRequired),
        }
    } else {
        return Err(SelectCameraError::CameraIdRequired);
    };
    let explicit = if params.len() > 1 { params[1].as_str() } else { None };
    let c = match config {
        Some(c) => c,
        None => return Err(SelectCameraError::NotConfigured),
    };
    let i = match find_camera(&c.cameras, cam) {
        Some(i) => i,
        None => return Err(SelectCameraError::CameraNotFound),
    };
    let plan = match mode {
        ViewMode::Full => {
            let (use_preview, enable) = match explicit {
                Some(t) => if str_eq(t, "preview") {
                    (true, !studio_mode)
                } else if str_eq(t, "program") {
                    (false, false)
                } else {
                    (studio_mode, false)
                },
                None => if is_gamepad && modifier_held {
                    (true, !studio_mode)
                } else if is_gamepad {
                    (false, false)
                } else {
                    (studio_mode, false)
                },
            };
            SelectCameraPlan::Full {
                scene: c.cameras[i].scene.clone(),
                use_preview,
                enable_studio_mode: enable,
                set_ptz_target: use_preview && modifier_held,
            }
        },
        ViewMode::SplitLeft => SelectCameraPlan::Split { split_scene: c.splits.left.clone() },
        ViewMode::SplitRight => SelectCameraPlan::Split { split_scene: c.splits.right.clone() },
    };
    Ok((String::from_str(cam), plan))
}


// ---------------------------------------------------------------------------
// Scenes and studio mode
// ---------------------------------------------------------------------------

/// `changeScene` / `setScene` with parameters `[scene]`: the scene and
/// whether it goes to the preview (in studio mode) rather than the program;
/// `None` when no scene name is given.
pub fn plan_change_scene(params: &[ParamValue], studio_mode: bool) -> (r: Option<(String, bool)>)
    ensures
        match (r, first_str(params@)) {
            (Some((scene, preview)), Some(name)) => scene@ == name && preview == studio_mode,
            (None, None) => true,
            _ => false,
        },
{
    if params.len() == 0 {
        return None;
    }
    match params[0].as_str() {
        Some(name) => Some((String::from_str(name), studio_mode)),
        None => None,
    }
}

/// `toggleStudioMode`: the new studio mode, and the scene to put in the
/// preview when studio mode turns on (the program scene, unless none is
/// known).
pub fn plan_toggle_studio_mode(current: bool, program_scene: &str) -> (r: (bool, Option<String>))
    ensures
        r.0 == !current,
        match r.1 {
            Some(p) => !current && program_scene@.len() > 0 && p@ == program_scene@,
            None => current || program_scene@.len() == 0,
        },
{
    let new_state = !current;
    if new_state && chars_of(program_scene).len() > 0 {
        (new_state, Some(String::from_str(program_scene)))
    } else {
        (new_state, None)
    }
}

// ---------------------------------------------------------------------------
// Camera moves and resets
// ---------------------------------------------------------------------------

/// The (scene, source) a camera move acts on, and whether its step comes
/// from the parameters: when the parameters do not parse, the first two
/// parameters are taken as scene and source (empty when not strings) with
/// the default step.
pub open spec fn ptz_target_spec(config: Option<CameraControlConfig>, params: Seq<ParamValue>) -> (Seq<char>, Seq<char>, bool) {
    match camera_params_spec(config, params, true) {
        Ok((scene, source)) => (scene, source, true),
        Err(_) => (
            match (if params.len() > 0 { param_str(params[0]) } else { None }) {
                Some(s) => s,
                None => Seq::empty(),
            },
            match (if params.len() > 1 { param_str(params[1]) } else { None }) {
                Some(s) => s,
                None => Seq::empty(),
            },
            false,
        ),
    }
}

fn str_param_or_empty(params: &[ParamValue], i: usize) -> (r: String)
    ensures
        r@ == (match (if i < params@.len() { param_str(params@[i as int]) } else { None }) {
            Some(s) => s,
            None => Seq::empty(),
        }),
{
    if i < params.len() {
        match params[i].as_str() {
            Some(s) => String::from_str(s),
            None => String::new(),
        }
    } else {
        String::new()
    }
}

/// `nudgeX` / `nudgeY` / `scaleUniform`: the (scene, source) to move and
/// whether the step is the last parameter (else the action's default step),
/// or `None` when PTZ is disabled for the camera of that scene.
pub fn plan_ptz_action(config: &Option<CameraControlConfig>, params: &[ParamValue]) -> (r: Option<(String, String, bool)>)
    ensures
        match r {
            Some((scene, source, explicit_step)) => (scene@, source@, explicit_step) == ptz_target_spec(*config, params@)
                && ptz_enabled_spec(*config, scene_is(scene@)),
            None => !ptz_enabled_spec(*config, scene_is(ptz_target_spec(*config, params@).0)),
        },
{
    let (scene, source, explicit) = match parse_camera_params_with_step(config, params) {
        Ok((scene, source)) => (scene, source, true),
        Err(_) => (str_param_or_empty(params, 0), str_param_or_empty(params, 1), false),
    };
    if is_ptz_enabled_by_scene(config, scene.as_str()) {
        Some((scene, source, explicit))
    } else {
        None
    }
}

/// `resetPosition` / `resetZoom`: the (scene, source) to reset, `None` when
/// PTZ is disabled for the camera of that scene, or why the parameters
/// were refused.
pub fn plan_reset(config: &Option<CameraControlConfig>, params: &[ParamValue]) -> (r: Result<Option<(String, String)>, CameraParamError>)
    ensures
        match (r, camera_params_spec(*config, params@, false)) {
            (Ok(Some((scene, source))), Ok((s2, o2))) => scene@ == s2 && source@ == o2 && ptz_enabled_spec(*config, scene_is(s2)),
            (Ok(None), Ok((s2, _))) => !ptz_enabled_spec(*config, scene_is(s2)),
            (Err(e), Err(f)) => e == f,
            _ => false,
        },
{
    let (scene, source) = parse_camera_params(config, params)?;
    if is_ptz_enabled_by_scene(config, scene.as_str()) {
        Ok(Some((scene, source)))
    } else {
        Ok(None)
    }
}

/// Which parts a transform reset covers for a mode: `"position"`,
/// `"zoom"` or `"both"` (any other mode resets nothing).
pub fn reset_parts(mode: &str) -> (r: (bool, bool))
    ensures
        r.0 == (mode@ == "position"@ || mode@ == "both"@),
        r.1 == (mode@ == "zoom"@ || mode@ == "both"@),
{
    let both = str_eq(mode, "both");
    (str_eq(mode, "position") || both, str_eq(mode, "zoom") || both)
}

// ---------------------------------------------------------------------------
// PTZ modifier
// ---------------------------------------------------------------------------

/// `setPtzModifier`: record whether the modifier of the control's gamepad
/// is held (a control without id counts as `"unknown"`).
pub fn set_ptz_modifier(state: &mut LtState, control_id: Option<&str>, pressed: bool)
    ensures
        final(state)@ == set_value(old(state)@, first_segment(match control_id {
            Some(c) => c@,
            None => "unknown"@,
        }), pressed),
{
    let id = match control_id {
        Some(c) => c,
        None => "unknown",
    };
    let slot = first_segment_of(id);
    state.set(slot.as_str(), pressed);
}


// ---------------------------------------------------------------------------
// Reconnection
// ---------------------------------------------------------------------------

/// The next OBS reconnection attempt after `count` attempts: its number
/// (`count + 1`) and the delay before it, 1 s per attempt up to 30 s.
pub fn next_obs_reconnect(count: usize) -> (r: (usize, u64))
    requires
        count + 1 <= usize::MAX / 1000,
    ensures
        r.0 == count + 1,
        r.1 == (if 1000 * r.0 < 30_000 { 1000 * r.0 } else { 30_000 }),
{
    let attempt = count + 1;
    let delay = 1000 * attempt;
    let delay_ms: usize = if delay < 30_000 { delay } else { 30_000 };
    (attempt, delay_ms as u64)
}

} // verus!
