use xtouch_gw::config::{CameraConfig, CameraControlConfig, SplitsConfig};
use xtouch_gw::obs::{CameraControlState, ViewMode};
use xtouch_gw::obs_events::{
    handle_obs_event, purge_matches, sync_view_mode, CachePurge, ObsEvent, ObsEventAction, ObsLiveState,
    SignalValue,
};

fn config() -> Option<CameraControlConfig> {
    Some(CameraControlConfig {
        cameras: vec![CameraConfig {
            id: "cam1".to_string(),
            scene: "Cam 1".to_string(),
            source: "src1".to_string(),
            split_source: String::new(),
            enable_ptz: true,
        }],
        splits: SplitsConfig { left: "Split L".to_string(), right: "Split R".to_string() },
        default_camera: None,
    })
}

fn fresh() -> ObsLiveState {
    ObsLiveState {
        program_scene: String::new(),
        preview_scene: String::new(),
        studio_mode: false,
        camera: CameraControlState::default(),
        last_emitted: Vec::new(),
    }
}

fn emitted(a: &ObsEventAction) -> Option<(&'static str, String)> {
    match a {
        ObsEventAction::Emit { signal, value: SignalValue::Str(s) } => Some((*signal, s.clone())),
        ObsEventAction::Emit { signal, value: SignalValue::Bool(b) } => Some((*signal, b.to_string())),
        _ => None,
    }
}

#[test]
fn program_scene_changes_emit_once_and_sync_view() {
    let c = config();
    let mut s = fresh();
    let a = handle_obs_event(&mut s, &c, ObsEvent::ProgramSceneChanged { name: "Split L".to_string() });
    assert_eq!(emitted(&a), Some(("obs.currentProgramScene", "Split L".to_string())));
    assert_eq!(s.program_scene, "Split L");
    assert_eq!(s.camera.current_view_mode, ViewMode::SplitLeft);
    let again = handle_obs_event(&mut s, &c, ObsEvent::ProgramSceneChanged { name: "Split L".to_string() });
    assert!(matches!(again, ObsEventAction::Nothing));
    // A split view is not left for full view automatically.
    let a = handle_obs_event(&mut s, &c, ObsEvent::ProgramSceneChanged { name: "Cam 1".to_string() });
    assert_eq!(emitted(&a), Some(("obs.currentProgramScene", "Cam 1".to_string())));
    assert_eq!(s.camera.current_view_mode, ViewMode::SplitLeft);
}

#[test]
fn studio_mode_follows_preview() {
    let c = config();
    let mut s = fresh();
    handle_obs_event(&mut s, &c, ObsEvent::PreviewSceneChanged { name: "Split R".to_string() });
    assert_eq!(s.camera.current_view_mode, ViewMode::Full);
    let a = handle_obs_event(&mut s, &c, ObsEvent::StudioModeChanged { enabled: true });
    assert_eq!(emitted(&a), Some(("obs.studioMode", "true".to_string())));
    assert!(s.studio_mode);
    assert_eq!(s.camera.current_view_mode, ViewMode::SplitRight);
    assert!(matches!(
        handle_obs_event(&mut s, &c, ObsEvent::StudioModeChanged { enabled: true }),
        ObsEventAction::Nothing
    ));
    let a = handle_obs_event(&mut s, &c, ObsEvent::StudioModeChanged { enabled: false });
    assert_eq!(emitted(&a), Some(("obs.studioMode", "false".to_string())));
}

#[test]
fn removals_purge_cache_entries() {
    let c = config();
    let mut s = fresh();
    let a = handle_obs_event(
        &mut s,
        &c,
        ObsEvent::SceneItemRemoved { scene: "Cam 1".to_string(), source: "src1".to_string() },
    );
    match a {
        ObsEventAction::Purge(p) => {
            assert!(purge_matches(&p, "Cam 1::src1"));
            assert!(!purge_matches(&p, "Cam 1::src2"));
        },
        _ => panic!("expected a purge"),
    }
    match handle_obs_event(&mut s, &c, ObsEvent::SceneRemoved { name: "Cam 1".to_string() }) {
        ObsEventAction::Purge(p) => {
            assert!(purge_matches(&p, "Cam 1::anything"));
            assert!(!purge_matches(&p, "Cam 10::x"));
        },
        _ => panic!("expected a purge"),
    }
    match handle_obs_event(&mut s, &c, ObsEvent::InputRemoved { name: "src1".to_string() }) {
        ObsEventAction::Purge(p) => {
            assert!(purge_matches(&p, "Any::src1"));
            assert!(!purge_matches(&p, "Any::xsrc1x"));
        },
        _ => panic!("expected a purge"),
    }
    assert!(matches!(handle_obs_event(&mut s, &c, ObsEvent::Other), ObsEventAction::Nothing));
    assert!(purge_matches(&CachePurge::Key("a::b".to_string()), "a::b"));
}

#[test]
fn view_mode_sync_rules() {
    let c = config();
    let mut st = CameraControlState::default();
    sync_view_mode(&mut st, &c, "Cam 1");
    assert_eq!(st.current_view_mode, ViewMode::Full);
    sync_view_mode(&mut st, &c, "Split L");
    assert_eq!(st.current_view_mode, ViewMode::SplitLeft);
    sync_view_mode(&mut st, &c, "Split R");
    assert_eq!(st.current_view_mode, ViewMode::SplitRight);
    sync_view_mode(&mut st, &c, "Cam 1");
    assert_eq!(st.current_view_mode, ViewMode::SplitRight);
    sync_view_mode(&mut st, &c, "Unknown");
    assert_eq!(st.current_view_mode, ViewMode::SplitRight);
}
