//! Routing of gamepad buttons: the left trigger (LT) is a modifier per
//! gamepad; camera buttons (A/B/X/Y) select a camera on program, or on
//! preview with PTZ targeting while LT is held.

use vstd::prelude::*;

use crate::config::{control_lookup, get_control, CameraConfig, CameraControlConfig, ControlMapping};
use crate::gamepad::{first_segment, first_segment_of};
use crate::keyed::{key_index, set_value, value_of};
use crate::obs::{camera_index, id_is};
use crate::params::first_str;
use crate::text::{chars_of, ends_with, is_suffix, str_eq};
use vstd::string::StringExecFns;

verus! {

/// Whether LT is held, per gamepad slot.
#[derive(Debug, Clone)]
pub struct LtState {
    held: Vec<(String, bool)>,
}

impl View for LtState {
    type V = Seq<(Seq<char>, bool)>;

    closed spec fn view(&self) -> Seq<(Seq<char>, bool)> {
        self.held@.map_values(|p: (String, bool)| (p.0@, p.1))
    }
}

/// Whether LT is held on `slot` (not held when never reported).
pub open spec fn lt_held_spec(t: Seq<(Seq<char>, bool)>, slot: Seq<char>) -> bool {
    value_of(t, slot) == Some(true)
}

impl LtState {
    /// LT is held nowhere.
    pub fn new() -> (r: LtState)
        ensures
            r@.len() == 0,
    {
        let r = LtState { held: Vec::new() };
        assert(r@ =~= Seq::<(Seq<char>, bool)>::empty());
        r
    }

    fn find(&self, slot: &str) -> (r: Option<usize>)
        ensures
            r.is_some() == key_index(self@, slot@, 0).is_some(),
            r matches Some(i) ==> key_index(self@, slot@, 0) == Some(i as int) && i < self@.len(),
    {
        let mut i: usize = 0;
        while i < self.held.len()
            invariant
                i <= self.held@.len(),
                self@.len() == self.held@.len(),
                key_index(self@, slot@, 0) == key_index(self@, slot@, i as int),
            decreases self.held.len() - i,
        {
            assert(self@[i as int] == (self.held@[i as int].0@, self.held@[i as int].1));
            if str_eq(self.held[i].0.as_str(), slot) {
                return Some(i);
            }
            i = i + 1;
        }
        None
    }

    /// Whether LT is held on `slot`.
    pub fn is_held(&self, slot: &str) -> (r: bool)
        ensures
            r == lt_held_spec(self@, slot@),
    {
        match self.find(slot) {
            Some(i) => {
                assert(self@[i as int] == (self.held@[i as int].0@, self.held@[i as int].1));
                self.held[i].1
            },
            None => false,
        }
    }

    /// Record LT of `slot` as `pressed`.
    pub fn set(&mut self, slot: &str, pressed: bool)
        ensures
            final(self)@ == set_value(old(self)@, slot@, pressed),
    {
        let entry = (String::from_str(slot), pressed);
        match self.find(slot) {
            Some(i) => {
                self.held.set(i, entry);
            },
            None => {
                self.held.push(entry);
            },
        }
        assert(self@ =~= set_value(old(self)@, slot@, pressed));
    }
}

/// What a button event leads to.
#[derive(Debug, Clone, Copy, PartialEq, Eq)]
pub enum ButtonOutcome {
    /// The LT button: its state is tracked, nothing is routed.
    LtTracked,
    /// A release: nothing is routed.
    Ignored,
    /// Route the control, with an extra `"preview"`/`"program"` parameter
    /// for camera buttons, and set the gamepad's PTZ target first when LT is
    /// held.
    Route { extra: Option<&'static str>, ptz_target: bool },
}

/// The button is a camera button (A, B, X or Y).
pub open spec fn is_camera_button(control_id: Seq<char>) -> bool {
    is_suffix(".btn.a"@, control_id) || is_suffix(".btn.b"@, control_id) || is_suffix(".btn.x"@, control_id)
        || is_suffix(".btn.y"@, control_id)
}

/// The outcome of a button event given the LT table.
pub open spec fn button_outcome_spec(t: Seq<(Seq<char>, bool)>, control_id: Seq<char>, pressed: bool) -> ButtonOutcome {
    if is_suffix(".btn.lt"@, control_id) {
        ButtonOutcome::LtTracked
    } else if !pressed {
        ButtonOutcome::Ignored
    } else if is_camera_button(control_id) {
        if lt_held_spec(t, first_segment(control_id)) {
            ButtonOutcome::Route { extra: Some("preview"), ptz_target: true }
        } else {
            ButtonOutcome::Route { extra: Some("program"), ptz_target: false }
        }
    } else {
        ButtonOutcome::Route { extra: None, ptz_target: false }
    }
}

fn id_ends_with(control_id: &str, suffix: &str) -> (r: bool)
    ensures
        r == is_suffix(suffix@, control_id@),
{
    ends_with(&chars_of(control_id), &chars_of(suffix))
}

/// Handle a gamepad button event: LT presses and releases update the
/// modifier of their gamepad; other releases are ignored; presses are
/// routed (camera buttons to program, or to preview with a PTZ target while
/// LT is held).
pub fn on_button_event(state: &mut LtState, control_id: &str, pressed: bool) -> (r: ButtonOutcome)
    ensures
        r == button_outcome_spec(old(state)@, control_id@, pressed),
        r == ButtonOutcome::LtTracked ==> final(state)@ == set_value(old(state)@, first_segment(control_id@), pressed),
        r != ButtonOutcome::LtTracked ==> final(state)@ == old(state)@,
{
    if id_ends_with(control_id, ".btn.lt") {
        let slot = first_segment_of(control_id);
        state.set(slot.as_str(), pressed);
        return ButtonOutcome::LtTracked;
    }
    if !pressed {
        return ButtonOutcome::Ignored;
    }
    let camera = id_ends_with(control_id, ".btn.a") || id_ends_with(control_id, ".btn.b") || id_ends_with(
        control_id,
        ".btn.x",
    ) || id_ends_with(control_id, ".btn.y");
    if camera {
        let slot = first_segment_of(control_id);
        if state.is_held(slot.as_str()) {
            ButtonOutcome::Route { extra: Some("preview"), ptz_target: true }
        } else {
            ButtonOutcome::Route { extra: Some("program"), ptz_target: false }
        }
    } else {
        ButtonOutcome::Route { extra: None, ptz_target: false }
    }
}

/// An LT axis event (`<slot>.axis.zl`) updates the modifier of its gamepad
/// too; `pressed` is the axis past its threshold. Returns whether the event
/// was an LT axis.
pub fn on_lt_axis(state: &mut LtState, control_id: &str, pressed: bool) -> (r: bool)
    ensures
        r == is_suffix(".axis.zl"@, control_id@),
        r ==> final(state)@ == set_value(old(state)@, first_segment(control_id@), pressed),
        !r ==> final(state)@ == old(state)@,
{
    if id_ends_with(control_id, ".axis.zl") {
        let slot = first_segment_of(control_id);
        state.set(slot.as_str(), pressed);
        true
    } else {
        false
    }
}

/// The camera a button selects with PTZ targeting: the first parameter of
/// its global `selectCamera` binding, when that camera is configured with
/// PTZ enabled.
pub open spec fn ptz_camera_spec(
    global_controls: Option<Vec<(String, ControlMapping)>>,
    camera_control: Option<CameraControlConfig>,
    control_id: Seq<char>,
) -> Option<Seq<char>> {
    match global_controls {
        None => None,
        Some(c) => match control_lookup(c@, control_id) {
            None => None,
            Some(m) => if !(m.action matches Some(a) && a@ == "selectCamera"@) {
                None
            } else {
                match m.params {
                    None => None,
                    Some(p) => match first_str(p@) {
                        None => None,
                        Some(cam) => {
                            let enabled = match camera_control {
                                Some(cc) => match camera_index(cc.cameras@, id_is(cam), 0) {
                                    Some(i) => cc.cameras@[i].enable_ptz,
                                    None => false,
                                },
                                None => false,
                            };
                            if enabled {
                                Some(cam)
                            } else {
                                None
                            }
                        },
                    },
                }
            },
        },
    }
}

fn ptz_enabled_strict(camera_control: &Option<CameraControlConfig>, camera_id: &str) -> (r: bool)
    ensures
        r == (match *camera_control {
            Some(cc) => match camera_index(cc.cameras@, id_is(camera_id@), 0) {
                Some(i) => cc.cameras@[i].enable_ptz,
                None => false,
            },
            None => false,
        }),
{
    let cc = match camera_control {
        Some(c) => c,
        None => return false,
    };
    let ghost pred = id_is(camera_id@);
    let mut i: usize = 0;
    while i < cc.cameras.len()
        invariant
            i <= cc.cameras@.len(),
            *camera_control == Some(*cc),
            pred == id_is(camera_id@),
            camera_index(cc.cameras@, pred, 0) == camera_index(cc.cameras@, pred, i as int),
        decreases cc.cameras.len() - i,
    {
        if str_eq(cc.cameras[i].id.as_str(), camera_id) {
            assert(pred(cc.cameras@[i as int]));
            return cc.cameras[i].enable_ptz;
        }
        i = i + 1;
    }
    false
}

/// The camera an LT+button press targets for PTZ (see
/// [`ptz_camera_spec`]); `None` when the button has no `selectCamera`
/// binding or the camera has PTZ disabled.
pub fn ptz_camera_for_button(
    global_controls: &Option<Vec<(String, ControlMapping)>>,
    camera_control: &Option<CameraControlConfig>,
    control_id: &str,
) -> (r: Option<String>)
    ensures
        r.is_some() == ptz_camera_spec(*global_controls, *camera_control, control_id@).is_some(),
        r matches Some(c) ==> Some(c@) == ptz_camera_spec(*global_controls, *camera_control, control_id@),
{
    let controls = match global_controls {
        Some(c) => c,
        None => return None,
    };
    let m = match get_control(controls.as_slice(), control_id) {
        Some(m) => m,
        None => return None,
    };
    let is_select = match &m.action {
        Some(a) => str_eq(a.as_str(), "selectCamera"),
        None => false,
    };
    if !is_select {
        return None;
    }
    let params = match &m.params {
        Some(p) => p,
        None => return None,
    };
    let cam = if params.len() == 0 {
        return None;
    } else {
        match params[0].as_str() {
            Some(s) => s,
            None => return None,
        }
    };
    if ptz_enabled_strict(camera_control, cam) {
        Some(String::from_str(cam))
    } else {
        None
    }
}

} // verus!
