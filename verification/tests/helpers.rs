use xtouch_gw::config::{
    AppConfig, CameraConfig, CameraControlConfig, GamepadConfig, GamepadSlotConfig, ObsConfig, SplitsConfig,
};
use xtouch_gw::event_bus::{ConnectionStatus, HwEventKind, DEFAULT_CAPACITY};
use xtouch_gw::helpers::{
    build_camera_infos, build_gamepad_slot_infos, build_gamepad_slot_infos_from_config,
    find_dynamic_gamepad_slot, find_dynamic_gamepad_slot_from_config,
};
use xtouch_gw::qlc::QlcDriver;

fn slot(pattern: &str, target: Option<&str>) -> GamepadSlotConfig {
    GamepadSlotConfig { product_match: pattern.to_string(), camera_target: target.map(|t| t.to_string()) }
}

fn app(gamepad: Option<GamepadConfig>) -> AppConfig {
    AppConfig {
        obs: Some(ObsConfig {
            camera_control: Some(CameraControlConfig {
                cameras: vec![CameraConfig {
                    id: "cam1".to_string(),
                    scene: "Scene 1".to_string(),
                    source: "Src 1".to_string(),
                    split_source: "Split 1".to_string(),
                    enable_ptz: true,
                }],
                splits: SplitsConfig { left: "L".to_string(), right: "R".to_string() },
                default_camera: None,
            }),
        }),
        gamepad,
        pages: vec![],
    }
}

#[test]
fn camera_infos_mirror_configuration() {
    let infos = build_camera_infos(&app(None));
    assert_eq!(infos.len(), 1);
    assert_eq!(infos[0].id, "cam1");
    assert_eq!(infos[0].split_source, "Split 1");
    assert!(infos[0].enable_ptz);
    let bare = AppConfig { obs: None, gamepad: None, pages: vec![] };
    assert!(build_camera_infos(&bare).is_empty());
}

#[test]
fn gamepad_slot_infos_number_slots_from_one() {
    let g = GamepadConfig {
        enabled: true,
        gamepads: Some(vec![slot("Xbox", None), slot("FaceOff", Some("dynamic"))]),
    };
    let infos = build_gamepad_slot_infos(&app(Some(g.clone())));
    assert_eq!(infos.len(), 2);
    assert_eq!(infos[0].slot, "gamepad1");
    assert_eq!(infos[0].camera_target_mode, "static");
    assert_eq!(infos[1].slot, "gamepad2");
    assert_eq!(infos[1].product_match, "FaceOff");
    assert_eq!(infos[1].camera_target_mode, "dynamic");
    assert!(infos[1].current_camera.is_none());
    assert!(build_gamepad_slot_infos_from_config(&None).is_empty());
}

#[test]
fn dynamic_slot_is_the_first_dynamic_one() {
    let g = GamepadConfig {
        enabled: true,
        gamepads: Some(vec![slot("a", Some("static")), slot("b", Some("dynamic")), slot("c", Some("dynamic"))]),
    };
    assert_eq!(find_dynamic_gamepad_slot(&app(Some(g.clone()))), Some("gamepad2".to_string()));
    assert_eq!(find_dynamic_gamepad_slot_from_config(&Some(g)), Some("gamepad2".to_string()));
    let none = GamepadConfig { enabled: true, gamepads: Some(vec![slot("a", None)]) };
    assert_eq!(find_dynamic_gamepad_slot_from_config(&Some(none)), None);
    assert_eq!(find_dynamic_gamepad_slot(&app(None)), None);
}

#[test]
fn event_kinds_and_capacity() {
    assert_eq!(DEFAULT_CAPACITY, 256);
    assert_ne!(HwEventKind::Press, HwEventKind::Release);
    assert_ne!(ConnectionStatus::Up, ConnectionStatus::Down);
}

#[test]
fn qlc_driver_constructs() {
    assert_eq!(QlcDriver::new(), QlcDriver::default());
}
