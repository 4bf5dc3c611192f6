use xtouch_gw::action_catalog::ParamKind;
use xtouch_gw::obs_catalog::obs_catalog;
use xtouch_gw::params::ParamValue;

#[test]
fn obs_catalog_lists_actions_in_order() {
    let c = obs_catalog();
    let names: Vec<&str> = c.iter().map(|a| a.name.as_str()).collect();
    assert_eq!(
        names,
        vec![
            "changeScene",
            "setScene",
            "toggleStudioMode",
            "TriggerStudioModeTransition",
            "nudgeX",
            "nudgeY",
            "scaleUniform",
            "resetPosition",
            "resetZoom",
            "selectCamera",
            "enterSplit",
            "toggleSplit",
            "exitSplit",
            "setPtzModifier"
        ]
    );
}

#[test]
fn obs_catalog_camera_parameters() {
    let c = obs_catalog();
    let nudge = &c[4];
    assert_eq!(nudge.label, "Nudge X (pan)");
    assert_eq!(nudge.params.len(), 3);
    assert_eq!(nudge.params[0].kind, ParamKind::SceneRef);
    assert_eq!(nudge.params[0].picker.as_deref(), Some("obs.scene"));
    assert_eq!(nudge.params[1].kind, ParamKind::SourceRef);
    assert_eq!(nudge.params[2].default, Some(ParamValue::Fraction("2.0".to_string())));
    assert_eq!(c[6].params[2].default, Some(ParamValue::Fraction("0.02".to_string())));
    assert_eq!(c[7].params.len(), 2);
    assert!(c[7].description.is_none());
    let select = &c[9];
    assert_eq!(select.params[1].name, "target");
    assert_eq!(select.params[1].default, Some(ParamValue::Str("preview".to_string())));
    assert!(c[13].params.is_empty());
}
