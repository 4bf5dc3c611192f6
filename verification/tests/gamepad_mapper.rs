use xtouch_gw::config::{CameraConfig, CameraControlConfig, ControlMapping, SplitsConfig};
use xtouch_gw::gamepad::mapper::{on_button_event, on_lt_axis, ptz_camera_for_button, ButtonOutcome, LtState};
use xtouch_gw::params::ParamValue;

#[test]
fn camera_buttons_go_to_program_unless_lt_is_held() {
    let mut lt = LtState::new();
    assert_eq!(
        on_button_event(&mut lt, "gamepad1.btn.a", true),
        ButtonOutcome::Route { extra: Some("program"), ptz_target: false }
    );
    assert_eq!(on_button_event(&mut lt, "gamepad1.btn.lt", true), ButtonOutcome::LtTracked);
    assert!(lt.is_held("gamepad1"));
    assert_eq!(
        on_button_event(&mut lt, "gamepad1.btn.y", true),
        ButtonOutcome::Route { extra: Some("preview"), ptz_target: true }
    );
    // LT is per gamepad.
    assert_eq!(
        on_button_event(&mut lt, "gamepad2.btn.x", true),
        ButtonOutcome::Route { extra: Some("program"), ptz_target: false }
    );
    assert_eq!(on_button_event(&mut lt, "gamepad1.btn.a", false), ButtonOutcome::Ignored);
    assert_eq!(
        on_button_event(&mut lt, "gamepad1.btn.plus", true),
        ButtonOutcome::Route { extra: None, ptz_target: false }
    );
    assert_eq!(on_button_event(&mut lt, "gamepad1.btn.lt", false), ButtonOutcome::LtTracked);
    assert!(!lt.is_held("gamepad1"));
}

#[test]
fn lt_axis_sets_the_modifier() {
    let mut lt = LtState::new();
    assert!(on_lt_axis(&mut lt, "gamepad2.axis.zl", true));
    assert!(lt.is_held("gamepad2"));
    assert!(!on_lt_axis(&mut lt, "gamepad2.axis.zr", false));
    assert!(lt.is_held("gamepad2"));
    assert!(on_lt_axis(&mut lt, "gamepad2.axis.zl", false));
    assert!(!lt.is_held("gamepad2"));
}

#[test]
fn ptz_camera_comes_from_select_camera_bindings() {
    let controls = Some(vec![
        (
            "gamepad1.btn.a".to_string(),
            ControlMapping {
                app: "obs".to_string(),
                action: Some("selectCamera".to_string()),
                params: Some(vec![ParamValue::Str("cam1".to_string())]),
            },
        ),
        (
            "gamepad1.btn.b".to_string(),
            ControlMapping {
                app: "obs".to_string(),
                action: Some("selectCamera".to_string()),
                params: Some(vec![ParamValue::Str("cam2".to_string())]),
            },
        ),
        (
            "gamepad1.btn.x".to_string(),
            ControlMapping { app: "obs".to_string(), action: Some("changeScene".to_string()), params: None },
        ),
    ]);
    let cam = |id: &str, ptz: bool| CameraConfig {
        id: id.to_string(),
        scene: id.to_string(),
        source: id.to_string(),
        split_source: String::new(),
        enable_ptz: ptz,
    };
    let cc = Some(CameraControlConfig {
        cameras: vec![cam("cam1", true), cam("cam2", false)],
        splits: SplitsConfig { left: "L".to_string(), right: "R".to_string() },
        default_camera: None,
    });
    assert_eq!(ptz_camera_for_button(&controls, &cc, "gamepad1.btn.a"), Some("cam1".to_string()));
    assert_eq!(ptz_camera_for_button(&controls, &cc, "gamepad1.btn.b"), None);
    assert_eq!(ptz_camera_for_button(&controls, &cc, "gamepad1.btn.x"), None);
    assert_eq!(ptz_camera_for_button(&controls, &cc, "gamepad1.btn.y"), None);
    assert_eq!(ptz_camera_for_button(&controls, &None, "gamepad1.btn.a"), None);
    assert_eq!(ptz_camera_for_button(&None, &cc, "gamepad1.btn.a"), None);
}
