use xtouch_gw::config::{CameraConfig, CameraControlConfig, SplitsConfig};
use xtouch_gw::obs::ViewMode;
use xtouch_gw::gamepad::mapper::LtState;
use xtouch_gw::obs_actions::{
    dispatch_obs_action, next_obs_reconnect, parse_camera_params, plan_api_select_camera, plan_split_camera, parse_camera_params_with_step, parse_obs_action, plan_change_scene,
    plan_ptz_action, plan_reset, plan_select_camera, plan_toggle_studio_mode, reset_parts, resolve_camera_id,
    set_ptz_modifier, CameraParamError, ObsAction, ObsDispatch, SelectCameraError, SelectCameraPlan,
};
use xtouch_gw::params::ParamValue;

fn s(v: &str) -> ParamValue {
    ParamValue::Str(v.to_string())
}

fn cam(id: &str, scene: &str) -> CameraConfig {
    CameraConfig {
        id: id.to_string(),
        scene: scene.to_string(),
        source: format!("{id}_src"),
        split_source: format!("{id}_split"),
        enable_ptz: true,
    }
}

fn cam_no_ptz(id: &str, scene: &str) -> CameraConfig {
    CameraConfig { enable_ptz: false, ..cam(id, scene) }
}

fn config() -> Option<CameraControlConfig> {
    Some(CameraControlConfig {
        cameras: vec![cam("cam1", "Scene Cam1"), cam("cam2", "Scene Cam2"), cam_no_ptz("cam3", "Scene Cam3")],
        splits: SplitsConfig { left: "Split Left".to_string(), right: "Split Right".to_string() },
        default_camera: None,
    })
}

#[test]
fn action_names_parse() {
    assert_eq!(parse_obs_action("changeScene"), ObsAction::ChangeScene);
    assert_eq!(parse_obs_action("setScene"), ObsAction::ChangeScene);
    assert_eq!(parse_obs_action("nudgeX"), ObsAction::NudgeX);
    assert_eq!(parse_obs_action("setPtzModifier"), ObsAction::SetPtzModifier);
    assert_eq!(parse_obs_action("bogus"), ObsAction::Unknown);
}

#[test]
fn dispatch_refuses_when_disconnected() {
    assert_eq!(dispatch_obs_action(false, false, "changeScene"), ObsDispatch::NotConnected);
    assert_eq!(dispatch_obs_action(false, true, "nudgeX"), ObsDispatch::NotConnected);
}

#[test]
fn dispatch_skips_release_of_press_only_actions() {
    assert_eq!(dispatch_obs_action(true, true, "selectCamera"), ObsDispatch::IgnoredRelease);
    assert_eq!(dispatch_obs_action(true, true, "setScene"), ObsDispatch::IgnoredRelease);
    assert_eq!(dispatch_obs_action(true, false, "selectCamera"), ObsDispatch::Run(ObsAction::SelectCamera));
}

#[test]
fn dispatch_keeps_release_of_continuous_actions() {
    assert_eq!(dispatch_obs_action(true, true, "nudgeY"), ObsDispatch::Run(ObsAction::NudgeY));
    assert_eq!(dispatch_obs_action(true, true, "setPtzModifier"), ObsDispatch::Run(ObsAction::SetPtzModifier));
    assert_eq!(dispatch_obs_action(true, true, "whatever"), ObsDispatch::Run(ObsAction::Unknown));
}

#[test]
fn camera_id_resolves_to_scene_and_source() {
    assert_eq!(
        resolve_camera_id(&config(), "cam2"),
        Some(("Scene Cam2".to_string(), "cam2_src".to_string()))
    );
    assert_eq!(resolve_camera_id(&config(), "cam9"), None);
    assert_eq!(resolve_camera_id(&None, "cam1"), None);
}

#[test]
fn camera_params_by_id_or_legacy_pair() {
    assert_eq!(
        parse_camera_params(&config(), &[s("cam1")]),
        Ok(("Scene Cam1".to_string(), "cam1_src".to_string()))
    );
    assert_eq!(
        parse_camera_params(&config(), &[s("Any Scene"), s("Any Source")]),
        Ok(("Any Scene".to_string(), "Any Source".to_string()))
    );
    assert_eq!(parse_camera_params(&config(), &[s("nope")]), Err(CameraParamError::CameraNotFound));
    assert_eq!(parse_camera_params(&config(), &[ParamValue::Int(3)]), Err(CameraParamError::CameraIdNotString));
    assert_eq!(parse_camera_params(&config(), &[s("a"), ParamValue::Bool(true)]), Err(CameraParamError::SourceNotString));
    assert_eq!(parse_camera_params(&config(), &[]), Err(CameraParamError::WrongCount));
    assert_eq!(parse_camera_params(&config(), &[s("a"), s("b"), s("c")]), Err(CameraParamError::WrongCount));
}

#[test]
fn camera_params_with_step() {
    assert_eq!(
        parse_camera_params_with_step(&config(), &[s("cam2"), ParamValue::Int(-1)]),
        Ok(("Scene Cam2".to_string(), "cam2_src".to_string()))
    );
    assert_eq!(
        parse_camera_params_with_step(&config(), &[s("Sc"), s("Src"), ParamValue::Fraction("2.5".to_string())]),
        Ok(("Sc".to_string(), "Src".to_string()))
    );
    assert_eq!(
        parse_camera_params_with_step(&config(), &[s("cam2"), s("fast")]),
        Err(CameraParamError::StepNotNumber)
    );
    assert_eq!(parse_camera_params_with_step(&config(), &[s("cam2")]), Err(CameraParamError::WrongCount));
    assert_eq!(parse_camera_params_with_step(&config(), &[]), Err(CameraParamError::WrongCount));
    assert_eq!(
        parse_camera_params_with_step(&config(), &[ParamValue::Null, s("x"), ParamValue::UInt(2)]),
        Err(CameraParamError::SceneNotString)
    );
}

#[test]
fn select_camera_errors() {
    assert_eq!(
        plan_select_camera(&config(), ViewMode::Full, &[], false, false, false),
        Err(SelectCameraError::CameraIdRequired)
    );
    assert_eq!(
        plan_select_camera(&None, ViewMode::Full, &[s("cam1")], false, false, false),
        Err(SelectCameraError::NotConfigured)
    );
    assert_eq!(
        plan_select_camera(&config(), ViewMode::Full, &[s("cam7")], false, false, false),
        Err(SelectCameraError::CameraNotFound)
    );
}

#[test]
fn select_camera_full_routing() {
    // explicit preview turns studio mode on when it is off
    let r = plan_select_camera(&config(), ViewMode::Full, &[s("cam1"), s("preview")], false, false, false).unwrap();
    assert_eq!(r.0, "cam1");
    assert_eq!(
        r.1,
        SelectCameraPlan::Full {
            scene: "Scene Cam1".to_string(),
            use_preview: true,
            enable_studio_mode: true,
            set_ptz_target: false
        }
    );
    // gamepad with the modifier held: preview and PTZ target
    let r = plan_select_camera(&config(), ViewMode::Full, &[s("cam2")], true, true, true).unwrap();
    assert_eq!(
        r.1,
        SelectCameraPlan::Full {
            scene: "Scene Cam2".to_string(),
            use_preview: true,
            enable_studio_mode: false,
            set_ptz_target: true
        }
    );
    // gamepad without the modifier: program even in studio mode
    let r = plan_select_camera(&config(), ViewMode::Full, &[s("cam2")], true, false, true).unwrap();
    assert_eq!(
        r.1,
        SelectCameraPlan::Full {
            scene: "Scene Cam2".to_string(),
            use_preview: false,
            enable_studio_mode: false,
            set_ptz_target: false
        }
    );
    // other controls follow studio mode
    let r = plan_select_camera(&config(), ViewMode::Full, &[s("cam2")], false, false, true).unwrap();
    assert_eq!(
        r.1,
        SelectCameraPlan::Full {
            scene: "Scene Cam2".to_string(),
            use_preview: true,
            enable_studio_mode: false,
            set_ptz_target: false
        }
    );
}

#[test]
fn select_camera_split_uses_split_scene() {
    let r = plan_select_camera(&config(), ViewMode::SplitRight, &[s("cam1"), s("preview")], false, false, false).unwrap();
    assert_eq!(r, ("cam1".to_string(), SelectCameraPlan::Split { split_scene: "Split Right".to_string() }));
    let r = plan_select_camera(&config(), ViewMode::SplitLeft, &[s("cam2")], true, false, false).unwrap();
    assert_eq!(r.1, SelectCameraPlan::Split { split_scene: "Split Left".to_string() });
}

#[test]
fn change_scene_follows_studio_mode() {
    assert_eq!(plan_change_scene(&[s("Main")], true), Some(("Main".to_string(), true)));
    assert_eq!(plan_change_scene(&[s("Main")], false), Some(("Main".to_string(), false)));
    assert_eq!(plan_change_scene(&[], false), None);
    assert_eq!(plan_change_scene(&[ParamValue::Int(-2)], false), None);
}

#[test]
fn toggle_studio_mode_copies_program_to_preview() {
    assert_eq!(plan_toggle_studio_mode(false, "Live"), (true, Some("Live".to_string())));
    assert_eq!(plan_toggle_studio_mode(false, ""), (true, None));
    assert_eq!(plan_toggle_studio_mode(true, "Live"), (false, None));
}

#[test]
fn ptz_action_targets() {
    assert_eq!(
        plan_ptz_action(&config(), &[s("cam1"), ParamValue::UInt(5)]),
        Some(("Scene Cam1".to_string(), "cam1_src".to_string(), true))
    );
    // unparsable parameters fall back to (scene, source) with the default step
    assert_eq!(
        plan_ptz_action(&config(), &[s("Free Scene"), s("Free Source")]),
        Some(("Free Scene".to_string(), "Free Source".to_string(), false))
    );
    assert_eq!(plan_ptz_action(&config(), &[]), Some((String::new(), String::new(), false)));
    // PTZ disabled for the camera of the scene
    assert_eq!(plan_ptz_action(&config(), &[s("cam3"), ParamValue::Int(-1)]), None);
}

#[test]
fn reset_targets() {
    assert_eq!(plan_reset(&config(), &[s("cam2")]), Ok(Some(("Scene Cam2".to_string(), "cam2_src".to_string()))));
    assert_eq!(plan_reset(&config(), &[s("cam3")]), Ok(None));
    assert_eq!(plan_reset(&config(), &[s("Scene Cam3"), s("x")]), Ok(None));
    assert_eq!(plan_reset(&config(), &[s("nope")]), Err(CameraParamError::CameraNotFound));
    assert_eq!(reset_parts("position"), (true, false));
    assert_eq!(reset_parts("zoom"), (false, true));
    assert_eq!(reset_parts("both"), (true, true));
    assert_eq!(reset_parts("all"), (false, false));
}

#[test]
fn ptz_modifier_is_tracked_per_slot() {
    let mut lt = LtState::new();
    set_ptz_modifier(&mut lt, Some("gamepad2.axis.zl"), true);
    assert!(lt.is_held("gamepad2"));
    assert!(!lt.is_held("gamepad1"));
    set_ptz_modifier(&mut lt, Some("gamepad2.axis.zl"), false);
    assert!(!lt.is_held("gamepad2"));
    set_ptz_modifier(&mut lt, None, true);
    assert!(lt.is_held("unknown"));
}

#[test]
fn split_camera_hides_all_then_shows_one() {
    let (hidden, shown) = plan_split_camera(&config(), "cam2").unwrap();
    assert_eq!(hidden, vec!["cam1_split".to_string(), "cam2_split".to_string(), "cam3_split".to_string()]);
    assert_eq!(shown, "cam2_split");
    assert_eq!(plan_split_camera(&config(), "zz"), Err(SelectCameraError::CameraNotFound));
    assert_eq!(plan_split_camera(&None, "cam1"), Err(SelectCameraError::NotConfigured));
}

#[test]
fn api_select_camera_targets() {
    assert_eq!(
        plan_api_select_camera(&config(), "cam1", "preview", false),
        Ok(("Scene Cam1".to_string(), true, true))
    );
    assert_eq!(
        plan_api_select_camera(&config(), "cam1", "preview", true),
        Ok(("Scene Cam1".to_string(), true, false))
    );
    assert_eq!(
        plan_api_select_camera(&config(), "cam2", "program", true),
        Ok(("Scene Cam2".to_string(), false, false))
    );
    assert_eq!(plan_api_select_camera(&config(), "cam2", "side", true), Err(SelectCameraError::InvalidTarget));
    assert_eq!(plan_api_select_camera(&config(), "cam9", "side", true), Err(SelectCameraError::CameraNotFound));
    assert_eq!(plan_api_select_camera(&None, "cam1", "program", true), Err(SelectCameraError::NotConfigured));
}

#[test]
fn obs_reconnect_backs_off_up_to_thirty_seconds() {
    assert_eq!(next_obs_reconnect(0), (1, 1000));
    assert_eq!(next_obs_reconnect(4), (5, 5000));
    assert_eq!(next_obs_reconnect(29), (30, 30_000));
    assert_eq!(next_obs_reconnect(100), (101, 30_000));
}
