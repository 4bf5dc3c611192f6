use xtouch_gw::config::{CameraConfig, CameraControlConfig, SplitsConfig};
use xtouch_gw::obs::{
    cache_key, decide_toggle_split, detect_view_mode_from_scene, determine_use_preview, is_ptz_enabled,
    is_ptz_enabled_by_scene, parse_explicit_target, plan_enter_split, plan_exit_split,
    update_view_mode_from_scene, CameraControlState, CameraTargetTable, ObsActionError, PtzTargetContext,
    ToggleSplit, ViewMode,
};
use xtouch_gw::params::ParamValue;

fn s(v: &str) -> ParamValue {
    ParamValue::Str(v.to_string())
}

fn cam(id: &str, scene: &str, ptz: bool) -> CameraConfig {
    CameraConfig {
        id: id.to_string(),
        scene: scene.to_string(),
        source: format!("{id}_src"),
        split_source: format!("{id}_split"),
        enable_ptz: ptz,
    }
}

fn config(default_camera: Option<&str>) -> Option<CameraControlConfig> {
    Some(CameraControlConfig {
        cameras: vec![cam("cam1", "Scene Cam1", true), cam("cam2", "Scene Cam2", false)],
        splits: SplitsConfig { left: "Split Left".to_string(), right: "Split Right".to_string() },
        default_camera: default_camera.map(|d| d.to_string()),
    })
}

#[test]
fn explicit_preview_target_forces_preview() {
    let params = vec![s("camera_a"), s("preview")];
    let target = parse_explicit_target(&params);
    assert_eq!(target, Some("preview"));
    assert!(determine_use_preview(target, false));
    assert!(determine_use_preview(target, true));
}

#[test]
fn explicit_program_target_forces_program() {
    let params = vec![s("camera_a"), s("program")];
    let target = parse_explicit_target(&params);
    assert_eq!(target, Some("program"));
    assert!(!determine_use_preview(target, false));
    assert!(!determine_use_preview(target, true));
}

#[test]
fn no_target_uses_legacy_behavior() {
    let params = vec![s("camera_a")];
    let target = parse_explicit_target(&params);
    assert_eq!(target, None);
    assert!(!determine_use_preview(target, false));
    assert!(determine_use_preview(target, true));
}

#[test]
fn invalid_target_uses_legacy_behavior() {
    let params = vec![s("camera_a"), s("invalid")];
    let target = parse_explicit_target(&params);
    assert_eq!(target, Some("invalid"));
    assert!(determine_use_preview(target, true));
    assert!(!determine_use_preview(target, false));
}

#[test]
fn numeric_target_is_ignored() {
    let params = vec![s("camera_a"), ParamValue::UInt(123)];
    let target = parse_explicit_target(&params);
    assert_eq!(target, None);
}

#[test]
fn view_mode_detection() {
    let c = config(None);
    assert_eq!(detect_view_mode_from_scene(&c, "Split Left"), Some(ViewMode::SplitLeft));
    assert_eq!(detect_view_mode_from_scene(&c, "Split Right"), Some(ViewMode::SplitRight));
    assert_eq!(detect_view_mode_from_scene(&c, "Scene Cam2"), Some(ViewMode::Full));
    assert_eq!(detect_view_mode_from_scene(&c, "BRB Screen"), None);
    assert_eq!(detect_view_mode_from_scene(&None, "Split Left"), None);

    let mut state = CameraControlState::default();
    update_view_mode_from_scene(&mut state, &c, "Split Right");
    assert_eq!(state.current_view_mode, ViewMode::SplitRight);
    update_view_mode_from_scene(&mut state, &c, "BRB Screen");
    assert_eq!(state.current_view_mode, ViewMode::SplitRight);
    update_view_mode_from_scene(&mut state, &c, "Scene Cam1");
    assert_eq!(state.current_view_mode, ViewMode::Full);
}

#[test]
fn ptz_enablement() {
    let c = config(None);
    assert!(is_ptz_enabled(&c, "cam1"));
    assert!(!is_ptz_enabled(&c, "cam2"));
    assert!(is_ptz_enabled(&c, "unknown"));
    assert!(!is_ptz_enabled_by_scene(&c, "Scene Cam2"));
    assert!(is_ptz_enabled(&None, "cam2"));
}

#[test]
fn enter_split_plans() {
    let c = config(None);
    let p = plan_enter_split(&c, &[s("left")], "").unwrap();
    assert_eq!((p.scene.as_str(), p.mode, p.camera.as_str()), ("Split Left", ViewMode::SplitLeft, "cam1"));
    let p = plan_enter_split(&c, &[s("right")], "cam2").unwrap();
    assert_eq!((p.scene.as_str(), p.mode, p.camera.as_str()), ("Split Right", ViewMode::SplitRight, "cam2"));
    assert_eq!(plan_enter_split(&c, &[], "").unwrap_err(), ObsActionError::SideRequired);
    assert_eq!(plan_enter_split(&c, &[s("up")], "").unwrap_err(), ObsActionError::InvalidSide);
    assert_eq!(plan_enter_split(&None, &[s("left")], "").unwrap_err(), ObsActionError::NotConfigured);
    let no_cams = Some(CameraControlConfig {
        cameras: vec![],
        splits: SplitsConfig { left: "L".to_string(), right: "R".to_string() },
        default_camera: None,
    });
    assert_eq!(plan_enter_split(&no_cams, &[s("left")], "").unwrap().camera, "Main");
}

#[test]
fn toggle_split_decisions() {
    assert_eq!(decide_toggle_split(true, &[], ViewMode::Full), Ok(ToggleSplit::Ignore));
    assert_eq!(decide_toggle_split(false, &[s("left")], ViewMode::Full), Ok(ToggleSplit::Enter));
    assert_eq!(decide_toggle_split(false, &[s("right")], ViewMode::SplitLeft), Ok(ToggleSplit::Exit));
    assert_eq!(decide_toggle_split(false, &[], ViewMode::Full), Err(ObsActionError::SideRequired));
    assert_eq!(decide_toggle_split(false, &[s("middle")], ViewMode::Full), Err(ObsActionError::InvalidSide));
}

#[test]
fn exit_split_plans() {
    assert_eq!(plan_exit_split(&config(None)), Ok(("cam1".to_string(), "Scene Cam1".to_string())));
    assert_eq!(plan_exit_split(&config(Some("cam2"))), Ok(("cam2".to_string(), "Scene Cam2".to_string())));
    assert_eq!(plan_exit_split(&config(Some("ghost"))), Ok(("ghost".to_string(), "Scene Cam1".to_string())));
    assert_eq!(plan_exit_split(&None), Err(ObsActionError::NotConfigured));
    let no_cams = Some(CameraControlConfig {
        cameras: vec![],
        splits: SplitsConfig { left: "L".to_string(), right: "R".to_string() },
        default_camera: None,
    });
    assert_eq!(plan_exit_split(&no_cams), Err(ObsActionError::NoCameras));
}

#[test]
fn cache_keys_join_scene_and_source() {
    assert_eq!(cache_key("Scene", "Cam"), "Scene::Cam");
}

#[test]
fn ptz_targets_follow_gamepad_slots() {
    let mut targets = Some(CameraTargetTable::new());
    let ctx = PtzTargetContext::from_control_id(Some("gamepad2.axis.lx"));
    assert!(ctx.is_gamepad());
    assert_eq!(ctx.gamepad_slot(), "gamepad2");
    assert!(ctx.set_ptz_target(&mut targets, "cam1", true, "selectCamera"));
    assert_eq!(targets.as_ref().unwrap().get_target("gamepad2"), Some("cam1".to_string()));
    assert!(ctx.set_ptz_target(&mut targets, "cam2", true, "selectCamera"));
    assert_eq!(targets.as_ref().unwrap().get_target("gamepad2"), Some("cam2".to_string()));
    assert_eq!(targets.as_ref().unwrap().get_target("gamepad1"), None);
    assert!(!ctx.set_ptz_target(&mut targets, "cam3", false, "selectCamera"));
    assert_eq!(targets.as_ref().unwrap().get_target("gamepad2"), Some("cam2".to_string()));

    let fader = PtzTargetContext::from_control_id(Some("fader1"));
    assert!(!fader.is_gamepad());
    assert!(!fader.set_ptz_target(&mut targets, "cam1", true, "selectCamera"));

    let none = PtzTargetContext::from_control_id(None);
    assert!(!none.is_gamepad());
    assert_eq!(none.gamepad_slot(), "gamepad1");

    let mut absent: Option<CameraTargetTable> = None;
    assert!(!ctx.set_ptz_target(&mut absent, "cam1", true, "selectCamera"));
}
