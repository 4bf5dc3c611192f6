//! OBS camera control decisions: view modes, split view, PTZ targets.
//!
//! The driver performs the OBS requests; what to request, and how the
//! camera control state changes, is decided here.

use vstd::prelude::*;

use crate::config::{CameraConfig, CameraControlConfig};
use crate::gamepad::buttons::{concat, push_str_chars};
use crate::gamepad::{first_segment, first_segment_of, DEFAULT_GAMEPAD_SLOT};
use crate::params::{param_str, ParamValue};
use crate::keyed::{key_index, set_value, value_of};
use crate::text::{chars_of, is_prefix, starts_with, str_eq};
use vstd::string::StringExecFns;

verus! {

/// What the program (or preview) shows.
#[derive(Debug, Clone, Copy, PartialEq, Eq, Structural)]
pub enum ViewMode {
    Full,
    SplitLeft,
    SplitRight,
}

/// Camera control state, shared between all gamepads.
#[derive(Debug, Clone)]
pub struct CameraControlState {
    pub current_view_mode: ViewMode,
    /// Id of the camera last shown; empty before any.
    pub last_camera: String,
}

impl Default for CameraControlState {
    fn default() -> (r: CameraControlState)
        ensures
            r.current_view_mode == ViewMode::Full,
            r.last_camera@.len() == 0,
    {
        CameraControlState { current_view_mode: ViewMode::Full, last_camera: String::new() }
    }
}

/// Why a camera action was refused.
#[derive(Debug, Clone, Copy, PartialEq, Eq, Structural)]
pub enum ObsActionError {
    /// Camera control is not configured.
    NotConfigured,
    /// The action needs a side parameter.
    SideRequired,
    /// The side is neither `left` nor `right`.
    InvalidSide,
    /// No camera is configured.
    NoCameras,
}

/// Some camera of `cams` is shown by `scene`.
pub open spec fn has_camera_scene(cams: Seq<CameraConfig>, scene: Seq<char>) -> bool {
    exists|i: int| 0 <= i < cams.len() && (#[trigger] cams[i]).scene@ == scene
}

/// The view mode a scene stands for: a split scene, a camera scene (full
/// view), or nothing known.
pub open spec fn view_mode_spec(config: Option<CameraControlConfig>, scene: Seq<char>) -> Option<ViewMode> {
    match config {
        None => None,
        Some(c) => if scene == c.splits.left@ {
            Some(ViewMode::SplitLeft)
        } else if scene == c.splits.right@ {
            Some(ViewMode::SplitRight)
        } else if has_camera_scene(c.cameras@, scene) {
            Some(ViewMode::Full)
        } else {
            None
        },
    }
}

/// The view mode a scene stands for: split left/right for the split
/// scenes, full for a camera scene, `None` when camera control is not
/// configured or the scene is neither (e.g. a "BRB" screen).
pub fn detect_view_mode_from_scene(config: &Option<CameraControlConfig>, scene_name: &str) -> (r: Option<ViewMode>)
    ensures
        r == view_mode_spec(*config, scene_name@),
{
    let c = match config {
        Some(c) => c,
        None => return None,
    };
    if str_eq(scene_name, c.splits.left.as_str()) {
        return Some(ViewMode::SplitLeft);
    }
    if str_eq(scene_name, c.splits.right.as_str()) {
        return Some(ViewMode::SplitRight);
    }
    let mut i: usize = 0;
    while i < c.cameras.len()
        invariant
            i <= c.cameras@.len(),
            *config == Some(*c),
            scene_name@ != c.splits.left@,
            scene_name@ != c.splits.right@,
            forall|j: int| 0 <= j < i ==> (#[trigger] c.cameras@[j]).scene@ != scene_name@,
        decreases c.cameras.len() - i,
    {
        if str_eq(scene_name, c.cameras[i].scene.as_str()) {
            assert(c.cameras@[i as int].scene@ == scene_name@);
            return Some(ViewMode::Full);
        }
        i = i + 1;
    }
    None
}

/// Synchronize the view mode with the scene now shown; a scene that is
/// neither a split nor a camera scene keeps the current mode.
pub fn update_view_mode_from_scene(state: &mut CameraControlState, config: &Option<CameraControlConfig>, scene_name: &str)
    ensures
        final(state).last_camera == old(state).last_camera,
        final(state).current_view_mode == match view_mode_spec(*config, scene_name@) {
            Some(m) => m,
            None => old(state).current_view_mode,
        },
{
    if let Some(mode) = detect_view_mode_from_scene(config, scene_name) {
        state.current_view_mode = mode;
    }
}

/// The first camera of `cams`, from position `i` on, satisfying `pred`.
pub open spec fn camera_index(cams: Seq<CameraConfig>, pred: spec_fn(CameraConfig) -> bool, i: int) -> Option<int>
    decreases cams.len() - i,
{
    if i < 0 || i >= cams.len() {
        None
    } else if pred(cams[i]) {
        Some(i)
    } else {
        camera_index(cams, pred, i + 1)
    }
}

/// Whether PTZ applies to the first camera satisfying `pred` (true when
/// no camera does, or camera control is not configured).
pub open spec fn ptz_enabled_spec(config: Option<CameraControlConfig>, pred: spec_fn(CameraConfig) -> bool) -> bool {
    match config {
        None => true,
        Some(c) => match camera_index(c.cameras@, pred, 0) {
            Some(i) => c.cameras@[i].enable_ptz,
            None => true,
        },
    }
}

/// The camera has id `id`.
pub open spec fn id_is(id: Seq<char>) -> spec_fn(CameraConfig) -> bool {
    |c: CameraConfig| c.id@ == id
}

/// The camera is shown by scene `scene`.
pub open spec fn scene_is(scene: Seq<char>) -> spec_fn(CameraConfig) -> bool {
    |c: CameraConfig| c.scene@ == scene
}

fn ptz_enabled_where(config: &Option<CameraControlConfig>, key: &str, by_scene: bool) -> (r: bool)
    ensures
        r == ptz_enabled_spec(*config, if by_scene { scene_is(key@) } else { id_is(key@) }),
{
    let c = match config {
        Some(c) => c,
        None => return true,
    };
    let ghost pred = if by_scene { scene_is(key@) } else { id_is(key@) };
    let mut i: usize = 0;
    while i < c.cameras.len()
        invariant
            i <= c.cameras@.len(),
            *config == Some(*c),
            pred == (if by_scene { scene_is(key@) } else { id_is(key@) }),
            camera_index(c.cameras@, pred, 0) == camera_index(c.cameras@, pred, i as int),
        decreases c.cameras.len() - i,
    {
        let hit = if by_scene {
            str_eq(c.cameras[i].scene.as_str(), key)
        } else {
            str_eq(c.cameras[i].id.as_str(), key)
        };
        assert(hit == pred(c.cameras@[i as int]));
        if hit {
            return c.cameras[i].enable_ptz;
        }
        i = i + 1;
    }
    true
}

/// Whether PTZ is enabled for the camera with id `camera_id` (enabled
/// unless that camera is configured without it).
pub fn is_ptz_enabled(config: &Option<CameraControlConfig>, camera_id: &str) -> (r: bool)
    ensures
        r == ptz_enabled_spec(*config, id_is(camera_id@)),
{
    ptz_enabled_where(config, camera_id, false)
}

/// Whether PTZ is enabled for the camera shown by `scene` (enabled unless
/// that camera is configured without it).
pub fn is_ptz_enabled_by_scene(config: &Option<CameraControlConfig>, scene: &str) -> (r: bool)
    ensures
        r == ptz_enabled_spec(*config, scene_is(scene@)),
{
    ptz_enabled_where(config, scene, true)
}

// ---------------------------------------------------------------------------
// Split view
// ---------------------------------------------------------------------------

/// What `enterSplit` does: the split scene to show, the new view mode and
/// the camera to put in the split.
#[derive(Debug, Clone)]
pub struct SplitPlan {
    pub scene: String,
    pub mode: ViewMode,
    pub camera: String,
}

/// The camera put in a split: the last camera shown, else the first
/// configured camera, else `"Main"`.
pub open spec fn split_camera_spec(c: CameraControlConfig, last_camera: Seq<char>) -> Seq<char> {
    if last_camera.len() > 0 {
        last_camera
    } else if c.cameras@.len() > 0 {
        c.cameras@[0].id@
    } else {
        "Main"@
    }
}

/// The outcome of `enterSplit` with side parameter `side`: scene, mode and
/// camera, or why it is refused.
pub open spec fn enter_split_spec(
    config: Option<CameraControlConfig>,
    side: Option<Seq<char>>,
    last_camera: Seq<char>,
) -> Result<(Seq<char>, ViewMode, Seq<char>), ObsActionError> {
    match side {
        None => Err(ObsActionError::SideRequired),
        Some(s) => match config {
            None => Err(ObsActionError::NotConfigured),
            Some(c) => if s == "left"@ {
                Ok((c.splits.left@, ViewMode::SplitLeft, split_camera_spec(c, last_camera)))
            } else if s == "right"@ {
                Ok((c.splits.right@, ViewMode::SplitRight, split_camera_spec(c, last_camera)))
            } else {
                Err(ObsActionError::InvalidSide)
            },
        },
    }
}

/// The side parameter of a split action: the first parameter, if a string.
pub open spec fn side_param(params: Seq<ParamValue>) -> Option<Seq<char>> {
    if params.len() > 0 {
        param_str(params[0])
    } else {
        None
    }
}

fn first_str_param(params: &[ParamValue]) -> (r: Option<&str>)
    ensures
        r.is_some() == side_param(params@).is_some(),
        r matches Some(s) ==> Some(s@) == side_param(params@),
{
    if params.len() == 0 {
        None
    } else {
        params[0].as_str()
    }
}

/// Plan `enterSplit`: switch to the split scene of the side given as first
/// parameter (`"left"` or `"right"`) and show the last camera in it (the
/// first configured camera, or `"Main"`, when none was shown yet).
pub fn plan_enter_split(
    config: &Option<CameraControlConfig>,
    params: &[ParamValue],
    last_camera: &str,
) -> (r: Result<SplitPlan, ObsActionError>)
    ensures
        match (r, enter_split_spec(*config, side_param(params@), last_camera@)) {
            (Ok(p), Ok((scene, mode, camera))) => p.scene@ == scene && p.mode == mode && p.camera@ == camera,
            (Err(e), Err(f)) => e == f,
            _ => false,
        },
{
    let side = match first_str_param(params) {
        Some(s) => s,
        None => return Err(ObsActionError::SideRequired),
    };
    let c = match config {
        Some(c) => c,
        None => return Err(ObsActionError::NotConfigured),
    };
    let (scene, mode) = if str_eq(side, "left") {
        (c.splits.left.clone(), ViewMode::SplitLeft)
    } else if str_eq(side, "right") {
        (c.splits.right.clone(), ViewMode::SplitRight)
    } else {
        return Err(ObsActionError::InvalidSide);
    };
    let last = chars_of(last_camera);
    let camera = if last.len() > 0 {
        String::from_str(last_camera)
    } else if c.cameras.len() > 0 {
        c.cameras[0].id.clone()
    } else {
        String::from_str("Main")
    };
    Ok(SplitPlan { scene, mode, camera })
}

/// What `toggleSplit` does.
#[derive(Debug, Clone, Copy, PartialEq, Eq, Structural)]
pub enum ToggleSplit {
    /// A button release: nothing.
    Ignore,
    /// In a split view: leave it (`exitSplit`).
    Exit,
    /// In full view: enter the requested split (`enterSplit`).
    Enter,
}

/// The outcome of `toggleSplit`.
pub open spec fn toggle_split_spec(is_release: bool, side: Option<Seq<char>>, mode: ViewMode) -> Result<ToggleSplit, ObsActionError> {
    if is_release {
        Ok(ToggleSplit::Ignore)
    } else {
        match side {
            None => Err(ObsActionError::SideRequired),
            Some(s) => if s != "left"@ && s != "right"@ {
                Err(ObsActionError::InvalidSide)
            } else if mode != ViewMode::Full {
                Ok(ToggleSplit::Exit)
            } else {
                Ok(ToggleSplit::Enter)
            },
        }
    }
}

/// Decide `toggleSplit`: ignore button releases; otherwise, with a valid
/// side parameter, leave any split view, or enter the requested split from
/// full view.
pub fn decide_toggle_split(is_release: bool, params: &[ParamValue], mode: ViewMode) -> (r: Result<ToggleSplit, ObsActionError>)
    ensures
        r == toggle_split_spec(is_release, side_param(params@), mode),
{
    if is_release {
        return Ok(ToggleSplit::Ignore);
    }
    let side = match first_str_param(params) {
        Some(s) => s,
        None => return Err(ObsActionError::SideRequired),
    };
    if !str_eq(side, "left") && !str_eq(side, "right") {
        return Err(ObsActionError::InvalidSide);
    }
    if mode != ViewMode::Full {
        Ok(ToggleSplit::Exit)
    } else {
        Ok(ToggleSplit::Enter)
    }
}

/// The camera shown when leaving split view: the default camera, else the
/// first camera, else `"Main"`.
pub open spec fn exit_target_spec(c: CameraControlConfig) -> Seq<char> {
    match c.default_camera {
        Some(d) => d@,
        None => if c.cameras@.len() > 0 { c.cameras@[0].id@ } else { "Main"@ },
    }
}

/// The outcome of `exitSplit`: the camera to show and its scene (that of
/// the camera with the target id, else of the first camera).
pub open spec fn exit_split_spec(config: Option<CameraControlConfig>) -> Result<(Seq<char>, Seq<char>), ObsActionError> {
    match config {
        None => Err(ObsActionError::NotConfigured),
        Some(c) => {
            let target = exit_target_spec(c);
            match camera_index(c.cameras@, id_is(target), 0) {
                Some(i) => Ok((target, c.cameras@[i].scene@)),
                None => if c.cameras@.len() > 0 {
                    Ok((target, c.cameras@[0].scene@))
                } else {
                    Err(ObsActionError::NoCameras)
                },
            }
        },
    }
}

/// Plan `exitSplit`: the camera to show in full view and its scene.
pub fn plan_exit_split(config: &Option<CameraControlConfig>) -> (r: Result<(String, String), ObsActionError>)
    ensures
        match (r, exit_split_spec(*config)) {
            (Ok((cam, scene)), Ok((c2, s2))) => cam@ == c2 && scene@ == s2,
            (Err(e), Err(f)) => e == f,
            _ => false,
        },
{
    let c = match config {
        Some(c) => c,
        None => return Err(ObsActionError::NotConfigured),
    };
    let target = match &c.default_camera {
        Some(d) => d.clone(),
        None => if c.cameras.len() > 0 {
            c.cameras[0].id.clone()
        } else {
            String::from_str("Main")
        },
    };
    let ghost pred = id_is(target@);
    let mut i: usize = 0;
    while i < c.cameras.len()
        invariant
            i <= c.cameras@.len(),
            *config == Some(*c),
            target@ == exit_target_spec(*c),
            pred == id_is(target@),
            camera_index(c.cameras@, pred, 0) == camera_index(c.cameras@, pred, i as int),
        decreases c.cameras.len() - i,
    {
        if str_eq(c.cameras[i].id.as_str(), target.as_str()) {
            assert(pred(c.cameras@[i as int]));
            let scene = c.cameras[i].scene.clone();
            return Ok((target, scene));
        }
        i = i + 1;
    }
    if c.cameras.len() > 0 {
        let scene = c.cameras[0].scene.clone();
        Ok((target, scene))
    } else {
        Err(ObsActionError::NoCameras)
    }
}

// ---------------------------------------------------------------------------
// Camera selection target and caches
// ---------------------------------------------------------------------------

/// The explicit target of `selectCamera`: its second parameter, if a
/// string.
pub open spec fn explicit_target_spec(params: Seq<ParamValue>) -> Option<Seq<char>> {
    if params.len() > 1 {
        param_str(params[1])
    } else {
        None
    }
}

/// The explicit `selectCamera` target (`"preview"` or `"program"`): the
/// second parameter when it is a string.
pub fn parse_explicit_target(params: &[ParamValue]) -> (r: Option<&str>)
    ensures
        r.is_some() == explicit_target_spec(params@).is_some(),
        r matches Some(s) ==> Some(s@) == explicit_target_spec(params@),
{
    if params.len() > 1 {
        params[1].as_str()
    } else {
        None
    }
}

/// Whether a camera selection goes to the preview: forced by an explicit
/// `"preview"` or `"program"` target, else the preview exactly when the
/// studio mode is on.
pub open spec fn use_preview_spec(target: Option<Seq<char>>, studio_mode: bool) -> bool {
    match target {
        Some(t) => if t == "preview"@ {
            true
        } else if t == "program"@ {
            false
        } else {
            studio_mode
        },
        None => studio_mode,
    }
}

/// Decide whether a camera selection goes to the preview.
pub fn determine_use_preview(explicit_target: Option<&str>, studio_mode: bool) -> (r: bool)
    ensures
        r == use_preview_spec(
            match explicit_target {
                Some(t) => Some(t@),
                None => None,
            },
            studio_mode,
        ),
{
    match explicit_target {
        Some(t) => if str_eq(t, "preview") {
            true
        } else if str_eq(t, "program") {
            false
        } else {
            studio_mode
        },
        None => studio_mode,
    }
}

/// Cache key of a scene item: `"<scene>::<source>"`.
pub fn cache_key(scene_name: &str, source_name: &str) -> (r: String)
    ensures
        r@ == scene_name@ + "::"@ + source_name@,
{
    let mut s = concat(scene_name, "::");
    push_str_chars(&mut s, source_name);
    s
}

// ---------------------------------------------------------------------------
// PTZ targets
// ---------------------------------------------------------------------------

/// Which camera each gamepad slot drives.
#[derive(Debug, Clone)]
pub struct CameraTargetTable {
    targets: Vec<(String, String)>,
}

impl View for CameraTargetTable {
    type V = Seq<(Seq<char>, Seq<char>)>;

    closed spec fn view(&self) -> Seq<(Seq<char>, Seq<char>)> {
        self.targets@.map_values(|p: (String, String)| (p.0@, p.1@))
    }
}

impl CameraTargetTable {
    /// No slot drives a camera.
    pub fn new() -> (r: CameraTargetTable)
        ensures
            r@.len() == 0,
    {
        let t = CameraTargetTable { targets: Vec::new() };
        assert(t@ =~= Seq::<(Seq<char>, Seq<char>)>::empty());
        t
    }

    fn find(&self, slot: &str) -> (r: Option<usize>)
        ensures
            r.is_some() == key_index(self@, slot@, 0).is_some(),
            r matches Some(i) ==> key_index(self@, slot@, 0) == Some(i as int) && i < self@.len(),
    {
        let mut i: usize = 0;
        while i < self.targets.len()
            invariant
                i <= self.targets@.len(),
                self@.len() == self.targets@.len(),
                key_index(self@, slot@, 0) == key_index(self@, slot@, i as int),
            decreases self.targets.len() - i,
        {
            assert(self@[i as int] == (self.targets@[i as int].0@, self.targets@[i as int].1@));
            if str_eq(self.targets[i].0.as_str(), slot) {
                return Some(i);
            }
            i = i + 1;
        }
        None
    }

    /// The camera slot `slot` drives.
    pub fn get_target(&self, slot: &str) -> (r: Option<String>)
        ensures
            r.is_some() == value_of(self@, slot@).is_some(),
            r matches Some(c) ==> Some(c@) == value_of(self@, slot@),
    {
        match self.find(slot) {
            Some(i) => {
                assert(self@[i as int] == (self.targets@[i as int].0@, self.targets@[i as int].1@));
                Some(self.targets[i].1.clone())
            },
            None => None,
        }
    }

    /// Make slot `slot` drive camera `camera_id`.
    pub fn set_target(&mut self, slot: &str, camera_id: &str)
        ensures
            final(self)@ == set_value(old(self)@, slot@, camera_id@),
    {
        let entry = (String::from_str(slot), String::from_str(camera_id));
        match self.find(slot) {
            Some(i) => {
                self.targets.set(i, entry);
            },
            None => {
                self.targets.push(entry);
            },
        }
        assert(self@ =~= set_value(old(self)@, slot@, camera_id@));
    }
}

/// Context for setting the PTZ target of the gamepad that triggered an
/// action.
#[derive(Debug, Clone)]
pub struct PtzTargetContext {
    pub control_id: Option<String>,
}

/// The control is a gamepad control.
pub open spec fn is_gamepad_spec(control_id: Option<String>) -> bool {
    control_id matches Some(id) && is_prefix("gamepad"@, id@)
}

/// The gamepad slot of the control: its first dot-separated segment, or
/// the default slot without a control.
pub open spec fn ctx_slot_spec(control_id: Option<String>) -> Seq<char> {
    match control_id {
        Some(id) => first_segment(id@),
        None => DEFAULT_GAMEPAD_SLOT@,
    }
}

impl PtzTargetContext {
    /// The context of an action triggered by control `control_id`.
    pub fn from_control_id(control_id: Option<&str>) -> (r: PtzTargetContext)
        ensures
            r.control_id.is_some() == control_id.is_some(),
            r.control_id matches Some(id) ==> id@ == control_id.unwrap()@,
    {
        match control_id {
            Some(id) => PtzTargetContext { control_id: Some(String::from_str(id)) },
            None => PtzTargetContext { control_id: None },
        }
    }

    /// Whether the action comes from a gamepad control.
    pub fn is_gamepad(&self) -> (r: bool)
        ensures
            r == is_gamepad_spec(self.control_id),
    {
        match &self.control_id {
            Some(id) => starts_with(&chars_of(id.as_str()), &chars_of("gamepad")),
            None => false,
        }
    }

    /// The gamepad slot of the control (`"gamepad1"` without a control).
    pub fn gamepad_slot(&self) -> (r: String)
        ensures
            r@ == ctx_slot_spec(self.control_id),
    {
        match &self.control_id {
            Some(id) => first_segment_of(id.as_str()),
            None => String::from_str(DEFAULT_GAMEPAD_SLOT),
        }
    }

    /// For a gamepad control, with PTZ enabled on the camera and a target
    /// table available, make the gamepad's slot drive `camera_id`. Returns
    /// whether the target was set.
    pub fn set_ptz_target(
        &self,
        camera_targets: &mut Option<CameraTargetTable>,
        camera_id: &str,
        ptz_enabled: bool,
        context_label: &str,
    ) -> (r: bool)
        ensures
            r == (is_gamepad_spec(self.control_id) && ptz_enabled && old(camera_targets).is_some()),
            r ==> final(camera_targets).is_some() && final(camera_targets).unwrap()@ == set_value(
                old(camera_targets).unwrap()@,
                ctx_slot_spec(self.control_id),
                camera_id@,
            ),
            !r ==> *final(camera_targets) == *old(camera_targets),
    {
        if !self.is_gamepad() || !ptz_enabled {
            return false;
        }
        match camera_targets {
            Some(t) => {
                let slot = self.gamepad_slot();
                t.set_target(slot.as_str(), camera_id);
                true
            },
            None => false,
        }
    }
}

} // verus!
