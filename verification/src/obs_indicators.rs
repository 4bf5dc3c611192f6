//! OBS indicator signals: LED updates for lit controls, the camera on air,
//! and auto-targeting of the dynamic gamepad slot from the preview.

use vstd::prelude::*;

use crate::config::{CameraControlConfig, GamepadConfig};
use crate::control_mapping::{midi_spec_of, ControlMappingDB, MidiSpec};
use crate::helpers::{dynamic_slot_spec, find_dynamic_gamepad_slot_from_config};
use crate::obs::{
    camera_index, scene_is, CameraTargetTable,
};
use crate::text::str_eq;
use crate::keyed::{law_read_after_write, set_value, value_of};

verus! {

/// Signal carrying the scene on program.
pub const CURRENT_PROGRAM_SCENE: &'static str = "obs.currentProgramScene";
/// Signal carrying the scene on preview.
pub const CURRENT_PREVIEW_SCENE: &'static str = "obs.currentPreviewScene";
/// Signal carrying the studio mode state.
pub const STUDIO_MODE: &'static str = "obs.studioMode";
/// Signal carrying the selected scene.
pub const SELECTED_SCENE: &'static str = "obs.selectedScene";

/// The LED messages for `lit`, first `n` entries: a Note On (channel 1) per
/// note-addressed control, velocity 127 when lit and 0 otherwise.
pub open spec fn led_updates_spec(lit: Seq<(String, bool)>, db: ControlMappingDB, mcu: bool, n: int) -> Seq<Seq<u8>>
    decreases n,
{
    if n <= 0 {
        Seq::empty()
    } else {
        let prev = led_updates_spec(lit, db, mcu, n - 1);
        match midi_spec_of(db.rows@, lit[n - 1].0@, mcu) {
            Some(MidiSpec::Note { note }) => prev.push(seq![0x90u8, note, if lit[n - 1].1 { 127u8 } else { 0u8 }]),
            _ => prev,
        }
    }
}

/// LED updates for the controls an indicator signal lights or
/// extinguishes; controls not addressed by a note are skipped.
pub fn led_updates(lit_controls: &[(String, bool)], control_db: &ControlMappingDB, is_mcu_mode: bool) -> (r: Vec<Vec<u8>>)
    ensures
        r@.len() == led_updates_spec(lit_controls@, *control_db, is_mcu_mode, lit_controls@.len() as int).len(),
        forall|i: int| 0 <= i < r@.len() ==> (#[trigger] r@[i])@ == led_updates_spec(lit_controls@, *control_db, is_mcu_mode, lit_controls@.len() as int)[i],
{
    let mut out: Vec<Vec<u8>> = Vec::new();
    let mut i: usize = 0;
    while i < lit_controls.len()
        invariant
            i <= lit_controls@.len(),
            out@.len() == led_updates_spec(lit_controls@, *control_db, is_mcu_mode, i as int).len(),
            forall|j: int| 0 <= j < out@.len() ==> (#[trigger] out@[j])@ == led_updates_spec(lit_controls@, *control_db, is_mcu_mode, i as int)[j],
        decreases lit_controls.len() - i,
    {
        match control_db.get_midi_spec(lit_controls[i].0.as_str(), is_mcu_mode) {
            Some(MidiSpec::Note { note }) => {
                let velocity: u8 = if lit_controls[i].1 { 127 } else { 0 };
                let msg = vec![0x90u8, note, velocity];
                assert(msg@ =~= seq![0x90u8, note, if lit_controls@[i as int].1 { 127u8 } else { 0u8 }]);
                out.push(msg);
            },
            _ => {},
        }
        i = i + 1;
    }
    out
}

/// The camera shown by `scene`, if camera control lists one.
pub open spec fn camera_of_scene(cc: Option<CameraControlConfig>, scene: Seq<char>) -> Option<int> {
    match cc {
        Some(c) => camera_index(c.cameras@, scene_is(scene), 0),
        None => None,
    }
}

fn find_camera_by_scene(cc: &Option<CameraControlConfig>, scene: &str) -> (r: Option<usize>)
    ensures
        r.is_some() == camera_of_scene(*cc, scene@).is_some(),
        r matches Some(i) ==> camera_of_scene(*cc, scene@) == Some(i as int) && i < cc.unwrap().cameras@.len(),
{
    let c = match cc {
        Some(c) => c,
        None => return None,
    };
    let ghost pred = scene_is(scene@);
    let mut i: usize = 0;
    while i < c.cameras.len()
        invariant
            i <= c.cameras@.len(),
            *cc == Some(*c),
            pred == scene_is(scene@),
            camera_index(c.cameras@, pred, 0) == camera_index(c.cameras@, pred, i as int),
        decreases c.cameras.len() - i,
    {
        if str_eq(c.cameras[i].scene.as_str(), scene) {
            assert(pred(c.cameras@[i as int]));
            return Some(i);
        }
        i = i + 1;
    }
    None
}

/// The camera put on air by a program scene change, for the API broadcast.
pub open spec fn on_air_spec(signal: Seq<char>, scene: Option<Seq<char>>, cc: Option<CameraControlConfig>) -> Option<Seq<char>> {
    if signal != CURRENT_PROGRAM_SCENE@ {
        None
    } else {
        match scene {
            Some(s) => match camera_of_scene(cc, s) {
                Some(i) => Some(cc.unwrap().cameras@[i].id@),
                None => None,
            },
            None => None,
        }
    }
}

/// The id of the camera a program scene change puts on air (the camera
/// whose scene it is), if the signal is a program scene change.
pub fn handle_program_scene_change(signal: &str, scene: Option<&str>, camera_control: &Option<CameraControlConfig>) -> (r: Option<String>)
    ensures
        r.is_some() == on_air_spec(signal@, match scene { Some(s) => Some(s@), None => None }, *camera_control).is_some(),
        r matches Some(id) ==> Some(id@) == on_air_spec(signal@, match scene { Some(s) => Some(s@), None => None }, *camera_control),
{
    if !str_eq(signal, CURRENT_PROGRAM_SCENE) {
        return None;
    }
    let s = match scene {
        Some(s) => s,
        None => return None,
    };
    match find_camera_by_scene(camera_control, s) {
        Some(i) => match camera_control {
            Some(c) => Some(c.cameras[i].id.clone()),
            None => None,
        },
        None => None,
    }
}

/// The retargeting a preview scene change causes: in studio mode, when the
/// previewed scene shows a PTZ camera and a dynamic gamepad slot exists
/// that does not target it yet, (that slot, that camera).
pub open spec fn preview_retarget_spec(
    signal: Seq<char>,
    scene: Option<Seq<char>>,
    studio_mode: bool,
    cc: Option<CameraControlConfig>,
    gamepad: Option<GamepadConfig>,
    targets: Seq<(Seq<char>, Seq<char>)>,
) -> Option<(Seq<char>, Seq<char>)> {
    if signal != CURRENT_PREVIEW_SCENE@ || !studio_mode {
        None
    } else {
        match scene {
            None => None,
            Some(s) => match camera_of_scene(cc, s) {
                None => None,
                Some(i) => {
                    let cam = cc.unwrap().cameras@[i];
                    if !cam.enable_ptz {
                        None
                    } else {
                        match dynamic_slot_spec(gamepad) {
                            None => None,
                            Some(slot) => if value_of(targets, slot) == Some(cam.id@) {
                                None
                            } else {
                                Some((slot, cam.id@))
                            },
                        }
                    }
                },
            },
        }
    }
}

/// On a preview scene change in studio mode, point the dynamic gamepad
/// slot at the previewed camera (when it has PTZ and is not targeted yet).
/// Returns the (slot, camera) retargeted, for the API broadcast.
pub fn handle_preview_scene_change(
    signal: &str,
    scene: Option<&str>,
    studio_mode: bool,
    camera_control: &Option<CameraControlConfig>,
    gamepad_config: &Option<GamepadConfig>,
    targets: &mut CameraTargetTable,
) -> (r: Option<(String, String)>)
    ensures
        match (r, preview_retarget_spec(signal@, match scene { Some(s) => Some(s@), None => None }, studio_mode, *camera_control, *gamepad_config, old(targets)@)) {
            (Some((slot, cam)), Some((s2, c2))) => slot@ == s2 && cam@ == c2 && final(targets)@ == set_value(old(targets)@, s2, c2),
            (None, None) => final(targets)@ == old(targets)@,
            _ => false,
        },
{
    if !str_eq(signal, CURRENT_PREVIEW_SCENE) || !studio_mode {
        return None;
    }
    let s = match scene {
        Some(s) => s,
        None => return None,
    };
    let i = match find_camera_by_scene(camera_control, s) {
        Some(i) => i,
        None => return None,
    };
    let c = match camera_control {
        Some(c) => c,
        None => return None,
    };
    if !c.cameras[i].enable_ptz {
        return None;
    }
    let slot = match find_dynamic_gamepad_slot_from_config(gamepad_config) {
        Some(slot) => slot,
        None => return None,
    };
    let camera_id = c.cameras[i].id.clone();
    match targets.get_target(slot.as_str()) {
        Some(current) => {
            if str_eq(current.as_str(), camera_id.as_str()) {
                return None;
            }
        },
        None => {},
    }
    targets.set_target(slot.as_str(), camera_id.as_str());
    Some((slot, camera_id))
}

/// Handling the same preview scene change twice retargets at most once:
/// after a retarget, the dynamic slot already targets the camera.
pub proof fn law_preview_retarget_once(
    signal: Seq<char>,
    scene: Option<Seq<char>>,
    studio_mode: bool,
    cc: Option<CameraControlConfig>,
    gamepad: Option<GamepadConfig>,
    targets: Seq<(Seq<char>, Seq<char>)>,
)
    requires
        preview_retarget_spec(signal, scene, studio_mode, cc, gamepad, targets) is Some,
    ensures
        ({
            let (slot, cam) = preview_retarget_spec(signal, scene, studio_mode, cc, gamepad, targets).unwrap();
            let after = set_value(targets, slot, cam);
            &&& value_of(after, slot) == Some(cam)
            &&& preview_retarget_spec(signal, scene, studio_mode, cc, gamepad, after) is None
        }),
{
    let (slot, cam) = preview_retarget_spec(signal, scene, studio_mode, cc, gamepad, targets).unwrap();
    law_read_after_write(targets, slot, cam, slot);
}

} // verus!
