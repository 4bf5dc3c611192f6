//! The Windows audio actions offered to the editor.

use vstd::prelude::*;

use crate::action_catalog::{describes, ActionDescriptor, ParamDescriptor, ParamKind};
use crate::params::ParamValue;
use vstd::string::StringExecFns;

verus! {

/// The `target` parameter of the session actions, defaulting to `"auto"`.
fn session_target_param() -> (r: ParamDescriptor)
    ensures
        r.name@ == "target"@,
        r.kind == ParamKind::String,
        r.picker matches Some(p) && p@ == "winaudio.target"@,
        r.default matches Some(ParamValue::Str(d)) && d@ == "auto"@,
{
    ParamDescriptor::new("target", ParamKind::String).with_picker("winaudio.target").with_default(
        ParamValue::Str(String::from_str("auto")),
    )
}

/// The static WinAudio action catalog: master volume and mute, and the
/// per-session volume and mute, whose `target` defaults to `"auto"`.
pub fn winaudio_catalog() -> (r: Vec<ActionDescriptor>)
    ensures
        r@.len() == 4,
        describes(r@[0], "master_volume"@, "Master volume"@,
            Some("Drive the default render endpoint volume from a fader (14-bit PitchBend)."@)),
        describes(r@[1], "master_mute"@, "Master mute"@, Some("Toggle the default render endpoint mute on button press."@)),
        describes(r@[2], "session_volume"@, "Session volume"@, Some("Drive a per-app session volume from a fader."@)),
        describes(r@[3], "session_mute"@, "Session mute"@, Some("Toggle a per-app session mute on button press."@)),
        r@[0].params@.len() == 0,
        r@[1].params@.len() == 0,
        r@[2].params@.len() == 1,
        r@[3].params@.len() == 1,
        forall|i: int| 2 <= i < 4 ==> {
            &&& (#[trigger] r@[i]).params@[0].name@ == "target"@
            &&& r@[i].params@[0].kind == ParamKind::String
            &&& r@[i].params@[0].picker matches Some(p) && p@ == "winaudio.target"@
            &&& r@[i].params@[0].default matches Some(ParamValue::Str(d)) && d@ == "auto"@
        },
{
    vec![
        ActionDescriptor::simple("master_volume", "Master volume").with_description(
            "Drive the default render endpoint volume from a fader (14-bit PitchBend).",
        ),
        ActionDescriptor::simple("master_mute", "Master mute").with_description(
            "Toggle the default render endpoint mute on button press.",
        ),
        ActionDescriptor::simple("session_volume", "Session volume").with_description(
            "Drive a per-app session volume from a fader.",
        ).with_param(session_target_param()),
        ActionDescriptor::simple("session_mute", "Session mute").with_description(
            "Toggle a per-app session mute on button press.",
        ).with_param(session_target_param()),
    ]
}

} // verus!
