use xtouch_gw::config::{CameraConfig, CameraControlConfig, GamepadConfig, GamepadSlotConfig, SplitsConfig};
use xtouch_gw::control_mapping::{ControlMappingDB, ControlMappingRow, MidiSpec};
use xtouch_gw::obs::CameraTargetTable;
use xtouch_gw::obs_indicators::{
    handle_preview_scene_change, handle_program_scene_change, led_updates, CURRENT_PREVIEW_SCENE,
    CURRENT_PROGRAM_SCENE,
};

fn cameras() -> Option<CameraControlConfig> {
    let cam = |id: &str, scene: &str, ptz: bool| CameraConfig {
        id: id.to_string(),
        scene: scene.to_string(),
        source: id.to_string(),
        split_source: String::new(),
        enable_ptz: ptz,
    };
    Some(CameraControlConfig {
        cameras: vec![cam("cam1", "Scene 1", true), cam("cam2", "Scene 2", false), cam("cam3", "Scene 3", true)],
        splits: SplitsConfig { left: "L".to_string(), right: "R".to_string() },
        default_camera: None,
    })
}

fn gamepads() -> Option<GamepadConfig> {
    Some(GamepadConfig {
        enabled: true,
        gamepads: Some(vec![
            GamepadSlotConfig { product_match: "a".to_string(), camera_target: None },
            GamepadSlotConfig { product_match: "b".to_string(), camera_target: Some("dynamic".to_string()) },
        ]),
    })
}

#[test]
fn led_updates_for_note_controls_only() {
    let db = ControlMappingDB {
        rows: vec![
            ControlMappingRow { control_id: "play".to_string(), native: None, mcu: Some(MidiSpec::Note { note: 94 }) },
            ControlMappingRow {
                control_id: "fader1".to_string(),
                native: None,
                mcu: Some(MidiSpec::PitchBend { channel: 0 }),
            },
            ControlMappingRow { control_id: "stop".to_string(), native: None, mcu: Some(MidiSpec::Note { note: 93 }) },
        ],
    };
    let lit = vec![
        ("play".to_string(), true),
        ("fader1".to_string(), true),
        ("stop".to_string(), false),
        ("missing".to_string(), true),
    ];
    assert_eq!(led_updates(&lit, &db, true), vec![vec![0x90, 94, 127], vec![0x90, 93, 0]]);
    assert!(led_updates(&lit, &db, false).is_empty());
}

#[test]
fn program_scene_puts_camera_on_air() {
    let cc = cameras();
    assert_eq!(handle_program_scene_change(CURRENT_PROGRAM_SCENE, Some("Scene 2"), &cc), Some("cam2".to_string()));
    assert_eq!(handle_program_scene_change(CURRENT_PROGRAM_SCENE, Some("BRB"), &cc), None);
    assert_eq!(handle_program_scene_change(CURRENT_PREVIEW_SCENE, Some("Scene 2"), &cc), None);
    assert_eq!(handle_program_scene_change(CURRENT_PROGRAM_SCENE, None, &cc), None);
}

#[test]
fn preview_scene_retargets_dynamic_slot_once() {
    let cc = cameras();
    let gp = gamepads();
    let mut targets = CameraTargetTable::new();
    assert_eq!(
        handle_preview_scene_change(CURRENT_PREVIEW_SCENE, Some("Scene 3"), true, &cc, &gp, &mut targets),
        Some(("gamepad2".to_string(), "cam3".to_string()))
    );
    assert_eq!(targets.get_target("gamepad2"), Some("cam3".to_string()));
    assert_eq!(handle_preview_scene_change(CURRENT_PREVIEW_SCENE, Some("Scene 3"), true, &cc, &gp, &mut targets), None);
    // PTZ disabled on cam2, studio mode off, wrong signal, unknown scene: nothing changes.
    assert_eq!(handle_preview_scene_change(CURRENT_PREVIEW_SCENE, Some("Scene 2"), true, &cc, &gp, &mut targets), None);
    assert_eq!(handle_preview_scene_change(CURRENT_PREVIEW_SCENE, Some("Scene 1"), false, &cc, &gp, &mut targets), None);
    assert_eq!(handle_preview_scene_change(CURRENT_PROGRAM_SCENE, Some("Scene 1"), true, &cc, &gp, &mut targets), None);
    assert_eq!(handle_preview_scene_change(CURRENT_PREVIEW_SCENE, Some("Other"), true, &cc, &gp, &mut targets), None);
    assert_eq!(targets.get_target("gamepad2"), Some("cam3".to_string()));
    assert_eq!(
        handle_preview_scene_change(CURRENT_PREVIEW_SCENE, Some("Scene 1"), true, &cc, &gp, &mut targets),
        Some(("gamepad2".to_string(), "cam1".to_string()))
    );
    assert_eq!(targets.get_target("gamepad2"), Some("cam1".to_string()));
    assert_eq!(handle_preview_scene_change(CURRENT_PREVIEW_SCENE, Some("Scene 3"), true, &cc, &None, &mut targets), None);
}
