//! OBS event handling: what the driver remembers of the scenes and studio
//! mode, which indicator signals it emits (only on change), how the view
//! mode follows the scene, and which cached items an event invalidates.

use vstd::prelude::*;

use crate::config::CameraControlConfig;
use crate::gamepad::buttons::concat;
use crate::keyed::{key_index, law_read_after_write, set_value, value_of};
use crate::obs::{detect_view_mode_from_scene, view_mode_spec, CameraControlState, ViewMode};
use crate::obs_indicators::{CURRENT_PREVIEW_SCENE, CURRENT_PROGRAM_SCENE, STUDIO_MODE};
use crate::text::{chars_of, ends_with, is_prefix, is_suffix, starts_with, str_eq};
use vstd::string::StringExecFns;

verus! {

/// An event reported by OBS (the ones the driver reacts to).
#[derive(Debug, Clone)]
pub enum ObsEvent {
    ProgramSceneChanged { name: String },
    PreviewSceneChanged { name: String },
    StudioModeChanged { enabled: bool },
    SceneItemRemoved { scene: String, source: String },
    SceneRemoved { name: String },
    InputRemoved { name: String },
    Other,
}

/// The value of an indicator signal.
#[derive(Debug, Clone)]
pub enum SignalValue {
    Str(String),
    Bool(bool),
}

/// The model of a signal value.
pub enum SignalModel {
    Str(Seq<char>),
    Bool(bool),
}

/// The model of a signal value.
pub open spec fn signal_model(v: SignalValue) -> SignalModel {
    match v {
        SignalValue::Str(s) => SignalModel::Str(s@),
        SignalValue::Bool(b) => SignalModel::Bool(b),
    }
}

/// Which cached scene items to drop (cache keys are `"<scene>::<source>"`).
#[derive(Debug, Clone)]
pub enum CachePurge {
    /// The entry with this key.
    Key(String),
    /// Every entry whose key starts with this prefix.
    Prefix(String),
    /// Every entry whose key ends with this suffix.
    Suffix(String),
}

/// What the driver does after an event.
#[derive(Debug, Clone)]
pub enum ObsEventAction {
    /// Emit an indicator signal (then schedule the debounced selected-scene
    /// signal).
    Emit { signal: &'static str, value: SignalValue },
    /// Drop cached scene items.
    Purge(CachePurge),
    /// Nothing to do.
    Nothing,
}

/// What the driver remembers of OBS.
#[derive(Debug, Clone)]
pub struct ObsLiveState {
    pub program_scene: String,
    pub preview_scene: String,
    pub studio_mode: bool,
    pub camera: CameraControlState,
    /// The last value emitted for each signal.
    pub last_emitted: Vec<(String, SignalValue)>,
}

/// The last values emitted, as (signal, value) pairs.
pub open spec fn emitted_view(v: Seq<(String, SignalValue)>) -> Seq<(Seq<char>, SignalModel)> {
    v.map_values(|p: (String, SignalValue)| (p.0@, signal_model(p.1)))
}

/// The view mode after the scene `scene` becomes the active one: the mode
/// the scene stands for, except that a split view is not left for full view
/// automatically (only split actions do that); unknown scenes change
/// nothing.
pub open spec fn synced_mode(config: Option<CameraControlConfig>, old: ViewMode, scene: Seq<char>) -> ViewMode {
    match view_mode_spec(config, scene) {
        None => old,
        Some(m) => if old != ViewMode::Full && m == ViewMode::Full { old } else { m },
    }
}

/// Follow the active scene with the view mode (see [`synced_mode`]).
pub fn sync_view_mode(state: &mut CameraControlState, config: &Option<CameraControlConfig>, scene_name: &str)
    ensures
        final(state).last_camera == old(state).last_camera,
        final(state).current_view_mode == synced_mode(*config, old(state).current_view_mode, scene_name@),
{
    if let Some(new_mode) = detect_view_mode_from_scene(config, scene_name) {
        let is_split = state.current_view_mode != ViewMode::Full;
        if is_split && new_mode == ViewMode::Full {
            return;
        }
        state.current_view_mode = new_mode;
    }
}

/// The signal emitted by a scene or studio mode event, with its value.
pub open spec fn event_signal(e: ObsEvent) -> Option<(Seq<char>, SignalModel)> {
    match e {
        ObsEvent::ProgramSceneChanged { name } => Some((CURRENT_PROGRAM_SCENE@, SignalModel::Str(name@))),
        ObsEvent::PreviewSceneChanged { name } => Some((CURRENT_PREVIEW_SCENE@, SignalModel::Str(name@))),
        ObsEvent::StudioModeChanged { enabled } => Some((STUDIO_MODE@, SignalModel::Bool(enabled))),
        _ => None,
    }
}

/// The scene that becomes active with a scene or studio mode event, if the
/// view mode follows it.
pub open spec fn synced_scene(s: ObsLiveState, e: ObsEvent) -> Option<Seq<char>> {
    match e {
        ObsEvent::ProgramSceneChanged { name } => if !s.studio_mode { Some(name@) } else { None },
        ObsEvent::PreviewSceneChanged { name } => if s.studio_mode { Some(name@) } else { None },
        ObsEvent::StudioModeChanged { enabled } => if enabled {
            Some(s.preview_scene@)
        } else {
            Some(s.program_scene@)
        },
        _ => None,
    }
}

/// The cached items an event invalidates.
pub open spec fn event_purge(e: ObsEvent) -> Option<(int, Seq<char>)> {
    match e {
        ObsEvent::SceneItemRemoved { scene, source } => Some((0, scene@ + "::"@ + source@)),
        ObsEvent::SceneRemoved { name } => Some((1, name@ + "::"@)),
        ObsEvent::InputRemoved { name } => Some((2, "::"@ + name@)),
        _ => None,
    }
}

/// The kind (0 key, 1 prefix, 2 suffix) and text of a purge.
pub open spec fn purge_model(p: CachePurge) -> (int, Seq<char>) {
    match p {
        CachePurge::Key(k) => (0, k@),
        CachePurge::Prefix(k) => (1, k@),
        CachePurge::Suffix(k) => (2, k@),
    }
}

/// Whether cache key `key` is dropped by `purge`.
pub open spec fn purge_hits(purge: (int, Seq<char>), key: Seq<char>) -> bool {
    if purge.0 == 0 {
        key == purge.1
    } else if purge.0 == 1 {
        is_prefix(purge.1, key)
    } else {
        is_suffix(purge.1, key)
    }
}

/// Whether cache key `key` is dropped by `purge`.
pub fn purge_matches(purge: &CachePurge, key: &str) -> (r: bool)
    ensures
        r == purge_hits(purge_model(*purge), key@),
{
    match purge {
        CachePurge::Key(k) => str_eq(key, k.as_str()),
        CachePurge::Prefix(p) => starts_with(&chars_of(key), &chars_of(p.as_str())),
        CachePurge::Suffix(p) => ends_with(&chars_of(key), &chars_of(p.as_str())),
    }
}

/// The state after an event: scenes and studio mode remembered, the view
/// mode synced, the emitted value recorded when it is new.
pub open spec fn step_state_ok(old: ObsLiveState, new: ObsLiveState, config: Option<CameraControlConfig>, e: ObsEvent) -> bool {
    &&& new.program_scene@ == (match e {
        ObsEvent::ProgramSceneChanged { name } => name@,
        _ => old.program_scene@,
    })
    &&& new.preview_scene@ == (match e {
        ObsEvent::PreviewSceneChanged { name } => name@,
        _ => old.preview_scene@,
    })
    &&& new.studio_mode == (match e {
        ObsEvent::StudioModeChanged { enabled } => enabled,
        _ => old.studio_mode,
    })
    &&& new.camera.last_camera == old.camera.last_camera
    &&& new.camera.current_view_mode == (match synced_scene(old, e) {
        Some(sc) => synced_mode(config, old.camera.current_view_mode, sc),
        None => old.camera.current_view_mode,
    })
    &&& emitted_view(new.last_emitted@) == (match event_signal(e) {
        Some((sig, v)) => if value_of(emitted_view(old.last_emitted@), sig) == Some(v) {
            emitted_view(old.last_emitted@)
        } else {
            set_value(emitted_view(old.last_emitted@), sig, v)
        },
        None => emitted_view(old.last_emitted@),
    })
}

/// The action an event leads to: the signal when its value is new, the
/// purge for removals, else nothing.
pub open spec fn step_action_ok(old: ObsLiveState, e: ObsEvent, a: ObsEventAction) -> bool {
    match (event_signal(e), event_purge(e)) {
        (Some((sig, v)), _) => if value_of(emitted_view(old.last_emitted@), sig) == Some(v) {
            a is Nothing
        } else {
            a matches ObsEventAction::Emit { signal, value } && signal@ == sig && signal_model(value) == v
        },
        (None, Some(p)) => a matches ObsEventAction::Purge(q) && purge_model(q) == p,
        (None, None) => a is Nothing,
    }
}

fn same_signal_value(a: &SignalValue, b: &SignalValue) -> (r: bool)
    ensures
        r == (signal_model(*a) == signal_model(*b)),
{
    match (a, b) {
        (SignalValue::Str(x), SignalValue::Str(y)) => str_eq(x.as_str(), y.as_str()),
        (SignalValue::Bool(x), SignalValue::Bool(y)) => *x == *y,
        _ => false,
    }
}

fn clone_value(v: &SignalValue) -> (r: SignalValue)
    ensures
        signal_model(r) == signal_model(*v),
{
    match v {
        SignalValue::Str(s) => SignalValue::Str(s.clone()),
        SignalValue::Bool(b) => SignalValue::Bool(*b),
    }
}

impl ObsLiveState {
    fn find_emitted(&self, signal: &str) -> (r: Option<usize>)
        ensures
            r.is_some() == key_index(emitted_view(self.last_emitted@), signal@, 0).is_some(),
            r matches Some(i) ==> key_index(emitted_view(self.last_emitted@), signal@, 0) == Some(i as int)
                && i < self.last_emitted@.len(),
    {
        let ghost t = emitted_view(self.last_emitted@);
        let mut i: usize = 0;
        while i < self.last_emitted.len()
            invariant
                i <= self.last_emitted@.len(),
                t == emitted_view(self.last_emitted@),
                t.len() == self.last_emitted@.len(),
                key_index(t, signal@, 0) == key_index(t, signal@, i as int),
            decreases self.last_emitted.len() - i,
        {
            if str_eq(self.last_emitted[i].0.as_str(), signal) {
                return Some(i);
            }
            i = i + 1;
        }
        None
    }

    /// Emit `value` on `signal` unless it is the value last emitted there.
    fn emit_if_changed(&mut self, signal: &'static str, value: SignalValue) -> (r: ObsEventAction)
        ensures
            final(self).program_scene == old(self).program_scene,
            final(self).preview_scene == old(self).preview_scene,
            final(self).studio_mode == old(self).studio_mode,
            final(self).camera == old(self).camera,
            value_of(emitted_view(old(self).last_emitted@), signal@) == Some(signal_model(value)) ==> {
                &&& r is Nothing
                &&& emitted_view(final(self).last_emitted@) == emitted_view(old(self).last_emitted@)
            },
            value_of(emitted_view(old(self).last_emitted@), signal@) != Some(signal_model(value)) ==> {
                &&& r matches ObsEventAction::Emit { signal: s, value: v } && s@ == signal@ && signal_model(v)
                    == signal_model(value)
                &&& emitted_view(final(self).last_emitted@) == set_value(
                    emitted_view(old(self).last_emitted@),
                    signal@,
                    signal_model(value),
                )
            },
    {
        let ghost t = emitted_view(self.last_emitted@);
        match self.find_emitted(signal) {
            Some(i) => {
                if same_signal_value(&self.last_emitted[i].1, &value) {
                    return ObsEventAction::Nothing;
                }
                let entry = (String::from_str(signal), clone_value(&value));
                self.last_emitted.set(i, entry);
                assert(emitted_view(self.last_emitted@) =~= set_value(t, signal@, signal_model(value)));
            },
            None => {
                let entry = (String::from_str(signal), clone_value(&value));
                self.last_emitted.push(entry);
                assert(emitted_view(self.last_emitted@) =~= set_value(t, signal@, signal_model(value)));
            },
        }
        ObsEventAction::Emit { signal, value }
    }
}

/// React to an OBS event: remember scenes and studio mode, keep the view
/// mode in sync with the active scene, emit the scene or studio mode signal
/// when its value changed, and name the cached items a removal invalidates.
pub fn handle_obs_event(state: &mut ObsLiveState, config: &Option<CameraControlConfig>, event: ObsEvent) -> (r: ObsEventAction)
    ensures
        step_state_ok(*old(state), *final(state), *config, event),
        step_action_ok(*old(state), event, r),
{
    match event {
        ObsEvent::ProgramSceneChanged { name } => {
            state.program_scene = name.clone();
            if !state.studio_mode {
                sync_view_mode(&mut state.camera, config, name.as_str());
            }
            state.emit_if_changed(CURRENT_PROGRAM_SCENE, SignalValue::Str(name))
        },
        ObsEvent::PreviewSceneChanged { name } => {
            state.preview_scene = name.clone();
            if state.studio_mode {
                sync_view_mode(&mut state.camera, config, name.as_str());
            }
            state.emit_if_changed(CURRENT_PREVIEW_SCENE, SignalValue::Str(name))
        },
        ObsEvent::StudioModeChanged { enabled } => {
            state.studio_mode = enabled;
            let active = if enabled { state.preview_scene.clone() } else { state.program_scene.clone() };
            sync_view_mode(&mut state.camera, config, active.as_str());
            state.emit_if_changed(STUDIO_MODE, SignalValue::Bool(enabled))
        },
        ObsEvent::SceneItemRemoved { scene, source } => {
            let mut key = concat(scene.as_str(), "::");
            crate::gamepad::buttons::push_str_chars(&mut key, source.as_str());
            ObsEventAction::Purge(CachePurge::Key(key))
        },
        ObsEvent::SceneRemoved { name } => ObsEventAction::Purge(CachePurge::Prefix(concat(name.as_str(), "::"))),
        ObsEvent::InputRemoved { name } => ObsEventAction::Purge(CachePurge::Suffix(concat("::", name.as_str()))),
        ObsEvent::Other => ObsEventAction::Nothing,
    }
}

/// A scene or studio mode event seen twice in a row emits its signal at
/// most once: the second time the value is already the last one emitted.
pub proof fn law_repeated_event_emits_once(
    s1: ObsLiveState,
    s2: ObsLiveState,
    config: Option<CameraControlConfig>,
    e: ObsEvent,
    a2: ObsEventAction,
)
    requires
        event_signal(e) is Some,
        step_state_ok(s1, s2, config, e),
        step_action_ok(s2, e, a2),
    ensures
        a2 is Nothing,
{
    let (sig, v) = event_signal(e).unwrap();
    let t = emitted_view(s1.last_emitted@);
    if value_of(t, sig) != Some(v) {
        law_read_after_write(t, sig, v, sig);
    }
}

} // verus!
