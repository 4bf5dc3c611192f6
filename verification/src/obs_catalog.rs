//! The OBS actions offered to the editor. Niche actions may be missing
//! here; they can still be written by hand in bindings.

use vstd::prelude::*;

use crate::action_catalog::{describes, ActionDescriptor, ParamDescriptor, ParamKind};
use crate::params::ParamValue;
use vstd::string::StringExecFns;

verus! {

/// The parameter naming a scene, proposed by the scene picker.
pub open spec fn is_scene_param(p: ParamDescriptor) -> bool {
    &&& p.name@ == "scene"@
    &&& p.kind == ParamKind::SceneRef
    &&& p.picker matches Some(k) && k@ == "obs.scene"@
    &&& p.default is None
}

/// The parameter naming a source, proposed by the source picker.
pub open spec fn is_source_param(p: ParamDescriptor) -> bool {
    &&& p.name@ == "source"@
    &&& p.kind == ParamKind::SourceRef
    &&& p.picker matches Some(k) && k@ == "obs.source"@
    &&& p.default is None
}

/// The numeric `step` parameter with default `default`.
pub open spec fn is_step_param(p: ParamDescriptor, default: Seq<char>) -> bool {
    &&& p.name@ == "step"@
    &&& p.kind == ParamKind::Number
    &&& p.picker is None
    &&& p.default matches Some(ParamValue::Fraction(d)) && d@ == default
}

/// An action that moves or resets a camera source: `[scene, source]`,
/// then a step with default `step` when `step` is given.
pub open spec fn is_camera_action(a: ActionDescriptor, step: Option<Seq<char>>) -> bool {
    &&& a.params@.len() == (if step is Some { 3int } else { 2int })
    &&& is_scene_param(a.params@[0])
    &&& is_source_param(a.params@[1])
    &&& step matches Some(d) ==> is_step_param(a.params@[2], d)
}

fn scene_param() -> (r: ParamDescriptor)
    ensures
        is_scene_param(r),
{
    ParamDescriptor::new("scene", ParamKind::SceneRef).with_picker("obs.scene")
}

fn source_param() -> (r: ParamDescriptor)
    ensures
        is_source_param(r),
{
    ParamDescriptor::new("source", ParamKind::SourceRef).with_picker("obs.source")
}

fn step_param(default: &str) -> (r: ParamDescriptor)
    ensures
        is_step_param(r, default@),
{
    ParamDescriptor::new("step", ParamKind::Number).with_default(ParamValue::Fraction(String::from_str(default)))
}

fn camera_action(name: &str, label: &str, description: Option<&str>, step: Option<&str>) -> (r: ActionDescriptor)
    ensures
        r.name@ == name@,
        r.label@ == label@,
        match description {
            Some(d) => r.description matches Some(e) && e@ == d@,
            None => r.description is None,
        },
        is_camera_action(r, match step {
            Some(s) => Some(s@),
            None => None,
        }),
{
    let a = ActionDescriptor::simple(name, label);
    let a = match description {
        Some(d) => a.with_description(d),
        None => a,
    };
    let a = a.with_param(scene_param()).with_param(source_param());
    match step {
        Some(s) => a.with_param(step_param(s)),
        None => a,
    }
}

/// The static OBS action catalog, in this order: `changeScene` and its
/// alias `setScene` (a scene), `toggleStudioMode`,
/// `TriggerStudioModeTransition`, `nudgeX` and `nudgeY` (scene, source,
/// step 2.0), `scaleUniform` (scene, source, step 0.02), `resetPosition` and
/// `resetZoom` (scene, source), `selectCamera` (camera id, target defaulting
/// to `"preview"`), `enterSplit`, `toggleSplit`, `exitSplit` and
/// `setPtzModifier`.
pub fn obs_catalog() -> (r: Vec<ActionDescriptor>)
    ensures
        r@.len() == 14,
        describes(r@[0], "changeScene"@, "Change scene"@,
            Some("Switch program (or preview when in studio mode) to the given scene."@)),
        describes(r@[1], "setScene"@, "Set scene (alias)"@, Some("Identical to changeScene; kept for legacy YAML."@)),
        forall|i: int| 0 <= i < 2 ==> (#[trigger] r@[i]).params@.len() == 1 && is_scene_param(r@[i].params@[0]),
        describes(r@[2], "toggleStudioMode"@, "Toggle studio mode"@, None) && r@[2].params@.len() == 0,
        describes(r@[3], "TriggerStudioModeTransition"@, "Trigger studio transition"@, None) && r@[3].params@.len() == 0,
        describes(r@[4], "nudgeX"@, "Nudge X (pan)"@, Some("Move the camera source horizontally by `step` pixels."@)),
        is_camera_action(r@[4], Some("2.0"@)),
        describes(r@[5], "nudgeY"@, "Nudge Y (tilt)"@, Some("Move the camera source vertically by `step` pixels."@)),
        is_camera_action(r@[5], Some("2.0"@)),
        describes(r@[6], "scaleUniform"@, "Scale uniformly (zoom)"@, Some("Apply a uniform scale delta to the camera source."@)),
        is_camera_action(r@[6], Some("0.02"@)),
        describes(r@[7], "resetPosition"@, "Reset position"@, None) && is_camera_action(r@[7], None),
        describes(r@[8], "resetZoom"@, "Reset zoom"@, None) && is_camera_action(r@[8], None),
        describes(r@[9], "selectCamera"@, "Select camera"@, Some("Switch the active camera target (program or preview)."@)),
        r@[9].params@.len() == 2,
        r@[9].params@[0].name@ == "camera_id"@ && r@[9].params@[0].kind == ParamKind::String,
        r@[9].params@[0].picker is None && r@[9].params@[0].default is None,
        r@[9].params@[1].name@ == "target"@ && r@[9].params@[1].kind == ParamKind::String,
        r@[9].params@[1].picker is None,
        r@[9].params@[1].default matches Some(ParamValue::Str(d)) && d@ == "preview"@,
        describes(r@[10], "enterSplit"@, "Enter split view"@, None) && r@[10].params@.len() == 0,
        describes(r@[11], "toggleSplit"@, "Toggle split view"@, None) && r@[11].params@.len() == 0,
        describes(r@[12], "exitSplit"@, "Exit split view"@, None) && r@[12].params@.len() == 0,
        describes(r@[13], "setPtzModifier"@, "PTZ modifier (button hold)"@, None) && r@[13].params@.len() == 0,
{
    let change = ActionDescriptor::simple("changeScene", "Change scene").with_description(
        "Switch program (or preview when in studio mode) to the given scene.",
    ).with_param(scene_param());
    let set = ActionDescriptor::simple("setScene", "Set scene (alias)").with_description(
        "Identical to changeScene; kept for legacy YAML.",
    ).with_param(scene_param());
    let select = ActionDescriptor::simple("selectCamera", "Select camera").with_description(
        "Switch the active camera target (program or preview).",
    ).with_param(ParamDescriptor::new("camera_id", ParamKind::String)).with_param(
        ParamDescriptor::new("target", ParamKind::String).with_default(ParamValue::Str(String::from_str("preview"))),
    );
    vec![
        change,
        set,
        ActionDescriptor::simple("toggleStudioMode", "Toggle studio mode"),
        ActionDescriptor::simple("TriggerStudioModeTransition", "Trigger studio transition"),
        camera_action(
            "nudgeX",
            "Nudge X (pan)",
            Some("Move the camera source horizontally by `step` pixels."),
            Some("2.0"),
        ),
        camera_action(
            "nudgeY",
            "Nudge Y (tilt)",
            Some("Move the camera source vertically by `step` pixels."),
            Some("2.0"),
        ),
        camera_action(
            "scaleUniform",
            "Scale uniformly (zoom)",
            Some("Apply a uniform scale delta to the camera source."),
            Some("0.02"),
        ),
        camera_action("resetPosition", "Reset position", None, None),
        camera_action("resetZoom", "Reset zoom", None, None),
        select,
        ActionDescriptor::simple("enterSplit", "Enter split view"),
        ActionDescriptor::simple("toggleSplit", "Toggle split view"),
        ActionDescriptor::simple("exitSplit", "Exit split view"),
        ActionDescriptor::simple("setPtzModifier", "PTZ modifier (button hold)"),
    ]
}

} // verus!
