use xtouch_gw::gamepad::buttons::{
    gilrs_axis_to_control_id, gilrs_button_to_control_id, gilrs_button_to_name, gilrs_dpad_to_name, PadAxis,
    PadButton,
};
use xtouch_gw::gamepad::hybrid_id::HybridControllerId;
use xtouch_gw::gamepad::slot::{GamepadSlot, SlotManager};
use xtouch_gw::gamepad::state::ButtonStates;
use xtouch_gw::gamepad::xinput::{convert_xinput_buttons, ButtonEvent, CachedXInputState};
use xtouch_gw::gamepad::{
    button_to_midi, extract_gamepad_slot, GilrsNormMode, StickId, DEFAULT_GAMEPAD_SLOT, GAMEPAD_PREFIX,
    GILRS_NORM_MODE,
};

#[test]
fn extract_slot_with_full_control_id() {
    assert_eq!(extract_gamepad_slot("gamepad1.axis.lx"), "gamepad1");
    assert_eq!(extract_gamepad_slot("gamepad2.btn.a"), "gamepad2");
}

#[test]
fn extract_slot_with_bare_slot() {
    assert_eq!(extract_gamepad_slot("gamepad2"), "gamepad2");
}

#[test]
fn extract_slot_empty_returns_default() {
    assert_eq!(extract_gamepad_slot(""), DEFAULT_GAMEPAD_SLOT);
}

#[test]
fn extract_slot_non_gamepad_returns_first_segment() {
    assert_eq!(extract_gamepad_slot("foo.bar"), "foo");
}

#[test]
fn extract_slot_leading_dot_returns_default() {
    assert_eq!(extract_gamepad_slot(".btn.a"), DEFAULT_GAMEPAD_SLOT);
}

#[test]
fn constants_are_consistent() {
    assert!(DEFAULT_GAMEPAD_SLOT.starts_with(GAMEPAD_PREFIX));
}

#[test]
fn test_button_to_midi() {
    assert_eq!(button_to_midi(true), 127);
    assert_eq!(button_to_midi(false), 0);
}

#[test]
fn stick_and_norm_mode() {
    assert_ne!(StickId::Left, StickId::Right);
    assert_eq!(GILRS_NORM_MODE, GilrsNormMode::SquareToCircle);
}

#[test]
fn test_face_button_mapping_nintendo_layout() {
    assert_eq!(gilrs_button_to_name(PadButton::East), Some("a"));
    assert_eq!(gilrs_button_to_name(PadButton::South), Some("b"));
    assert_eq!(gilrs_button_to_name(PadButton::North), Some("x"));
    assert_eq!(gilrs_button_to_name(PadButton::West), Some("y"));
}

#[test]
fn test_shoulder_buttons() {
    assert_eq!(gilrs_button_to_name(PadButton::LeftTrigger), Some("lb"));
    assert_eq!(gilrs_button_to_name(PadButton::RightTrigger), Some("rb"));
    assert_eq!(gilrs_button_to_name(PadButton::LeftTrigger2), Some("lt"));
    assert_eq!(gilrs_button_to_name(PadButton::RightTrigger2), Some("rt"));
}

#[test]
fn test_dpad_buttons() {
    assert_eq!(gilrs_button_to_name(PadButton::DPadUp), None);
    assert_eq!(gilrs_button_to_name(PadButton::DPadDown), None);
    assert_eq!(gilrs_dpad_to_name(PadButton::DPadUp), Some("up"));
    assert_eq!(gilrs_dpad_to_name(PadButton::DPadDown), Some("down"));
    assert_eq!(gilrs_dpad_to_name(PadButton::DPadLeft), Some("left"));
    assert_eq!(gilrs_dpad_to_name(PadButton::DPadRight), Some("right"));
}

#[test]
fn test_control_id_generation() {
    assert_eq!(gilrs_button_to_control_id(PadButton::East, "gamepad1"), Some("gamepad1.btn.a".to_string()));
    assert_eq!(gilrs_button_to_control_id(PadButton::DPadUp, "gamepad1"), Some("gamepad1.dpad.up".to_string()));
    assert_eq!(gilrs_button_to_control_id(PadButton::Unknown, "gamepad1"), None);
    assert_eq!(gilrs_button_to_control_id(PadButton::Z, "gamepad2"), Some("gamepad2.btn.capture".to_string()));
}

#[test]
fn axis_control_ids() {
    assert_eq!(gilrs_axis_to_control_id(PadAxis::LeftStickX, "gamepad1"), "gamepad1.axis.lx");
    assert_eq!(gilrs_axis_to_control_id(PadAxis::RightZ, "gamepad3"), "gamepad3.axis.zr");
    assert_eq!(gilrs_axis_to_control_id(PadAxis::DPadX, "gamepad1"), "gamepad1.axis.unknown");
}

#[test]
fn test_from_gilrs() {
    let hybrid_id = HybridControllerId::from_gilrs(0);
    assert!(matches!(hybrid_id, HybridControllerId::Gilrs(_)));
}

#[test]
fn test_from_xinput() {
    let hybrid_id = HybridControllerId::from_xinput(0);
    assert!(matches!(hybrid_id, HybridControllerId::XInput(0)));
}

#[test]
fn test_to_string() {
    let hybrid_gilrs = HybridControllerId::from_gilrs(0);
    assert!(hybrid_gilrs.to_string().starts_with("gilrs:"));
    assert_eq!(hybrid_gilrs.to_string(), "gilrs:0");
    let hybrid_xinput = HybridControllerId::from_xinput(2);
    assert_eq!(hybrid_xinput.to_string(), "xinput:2");
}

#[test]
fn test_equality() {
    let id1 = HybridControllerId::from_xinput(0);
    let id2 = HybridControllerId::from_xinput(0);
    let id3 = HybridControllerId::from_xinput(1);
    assert_eq!(id1, id2);
    assert_ne!(id1, id3);
    assert_ne!(HybridControllerId::from_gilrs(0), HybridControllerId::from_xinput(0));
}

#[test]
fn test_slot_matching() {
    let slot: GamepadSlot<()> = GamepadSlot::new(0, "Xbox".to_string(), None);
    assert!(slot.matches("Xbox Wireless Controller"));
    assert!(slot.matches("Microsoft Xbox One"));
    assert!(slot.matches("xbox elite"));
    assert!(!slot.matches("Nintendo Switch"));
}

#[test]
fn test_slot_control_id_prefix() {
    let slot1: GamepadSlot<()> = GamepadSlot::new(0, "Xbox".to_string(), None);
    let slot2: GamepadSlot<()> = GamepadSlot::new(1, "Nintendo".to_string(), None);
    assert_eq!(slot1.control_id_prefix(), "gamepad1");
    assert_eq!(slot2.control_id_prefix(), "gamepad2");
}

#[test]
fn test_slot_manager_assignment() {
    let mut manager: SlotManager<()> =
        SlotManager::new(vec![("Xbox".to_string(), None), ("Nintendo".to_string(), None)]);
    let xbox_id = HybridControllerId::from_xinput(0);
    let switch_id = HybridControllerId::from_gilrs(0);
    let ps_id = HybridControllerId::from_gilrs(1);

    // Xbox should match slot 0
    let (slot_idx, _) = manager.find_slot_for_gamepad(xbox_id, "XInput Controller 1").unwrap();
    assert_eq!(slot_idx, 0);
    manager.get_slot_mut(slot_idx).unwrap().connect(xbox_id, "XInput Controller 1".to_string());

    // Switch should match slot 1
    let (slot_idx, _) = manager.find_slot_for_gamepad(switch_id, "Nintendo Switch Pro").unwrap();
    assert_eq!(slot_idx, 1);

    // PS4 should find no slot
    assert!(manager.find_slot_for_gamepad(ps_id, "PS4 Controller").is_none());
}

#[test]
fn xinput_controllers_answer_to_their_xbox_name() {
    let xbox: GamepadSlot<()> = GamepadSlot::new(0, "Xbox".to_string(), None);
    let xbox_ctl: GamepadSlot<()> = GamepadSlot::new(0, "xbox controller".to_string(), None);
    let wireless: GamepadSlot<()> = GamepadSlot::new(0, "Xbox Wireless".to_string(), None);
    let nintendo: GamepadSlot<()> = GamepadSlot::new(0, "Nintendo".to_string(), None);
    assert!(xbox.matches("XInput Controller 1"));
    assert!(xbox_ctl.matches("XInput Controller 3"));
    assert!(!wireless.matches("XInput Controller 1"));
    assert!(!nintendo.matches("XInput Controller 1"));
    // only a name that begins with "XInput" has the Xbox reading
    assert!(!xbox.matches("Generic XInput pad"));
}

#[test]
fn test_slot_preservation() {
    let mut manager: SlotManager<()> = SlotManager::new(vec![("XInput".to_string(), None)]);
    let id = HybridControllerId::from_xinput(0);

    let (idx, _) = manager.find_slot_for_gamepad(id, "XInput Controller 1").unwrap();
    manager.get_slot_mut(idx).unwrap().connect(id, "XInput Controller 1".to_string());
    assert!(manager.get_slot_by_id(id).unwrap().is_connected());

    manager.get_slot_mut(idx).unwrap().disconnect();
    assert!(!manager.get_slot_mut(idx).unwrap().is_connected());

    let (new_idx, _) = manager.find_slot_for_gamepad(id, "XInput Controller 1").unwrap();
    assert_eq!(idx, new_idx);
}

#[test]
fn try_connect_is_stable_and_rejects_unknown() {
    let mut manager: SlotManager<u8> =
        SlotManager::new(vec![("xbox".to_string(), Some(7)), ("xbox".to_string(), None)]);
    let a = HybridControllerId::from_xinput(0);
    let b = HybridControllerId::from_xinput(1);
    assert_eq!(manager.try_connect(a, "Xbox One"), Some(0));
    assert_eq!(manager.try_connect(a, "Xbox One"), Some(0));
    assert_eq!(manager.find_slot_for_gamepad(a, "anything"), Some((0, true)));
    assert_eq!(manager.try_connect(b, "XBOX elite"), Some(1));
    assert_eq!(manager.try_connect(HybridControllerId::from_gilrs(5), "Xbox"), None);
    assert_eq!(manager.try_connect(HybridControllerId::from_gilrs(6), "Switch"), None);
    assert_eq!(manager.slots()[0].analog_config, Some(7));
    assert_eq!(manager.slots()[1].connected_name.as_deref(), Some("XBOX elite"));
    assert_eq!(manager.len(), 2);
    assert!(!manager.is_empty());
}

#[test]
fn disconnection_checks_report_and_free_slots() {
    let mut manager: SlotManager<()> = SlotManager::new(vec![
        ("pad".to_string(), None),
        ("pad".to_string(), None),
        ("pad".to_string(), None),
    ]);
    let x0 = HybridControllerId::from_xinput(0);
    let x1 = HybridControllerId::from_xinput(1);
    let g3 = HybridControllerId::from_gilrs(3);
    assert_eq!(manager.try_connect(x0, "pad A"), Some(0));
    assert_eq!(manager.try_connect(g3, "pad B"), Some(1));
    assert_eq!(manager.try_connect(x1, "pad C"), Some(2));

    let gone = manager.check_xinput_disconnections(&[1]);
    assert_eq!(gone, vec![(0, "pad A".to_string())]);
    assert!(!manager.slots()[0].is_connected());
    assert!(manager.slots()[1].is_connected());
    assert!(manager.slots()[2].is_connected());

    let gone = manager.check_gilrs_disconnections(&[4]);
    assert_eq!(gone, vec![(1, "pad B".to_string())]);
    assert!(manager.check_gilrs_disconnections(&[]).is_empty());
    assert_eq!(manager.try_connect(g3, "pad B"), Some(0));
}

#[test]
fn button_states_from_xinput() {
    let mut s = ButtonStates::default();
    s.home = true;
    s.update_from_xinput(0x1000 | 0x0001 | 0x8000);
    assert!(s.a && s.dpad_up && s.y);
    assert!(!s.b && !s.x && !s.start && !s.home && !s.capture);
    let list = s.iter();
    assert_eq!(list.len(), 16);
    assert_eq!(list[0], ("A", true));
    assert_eq!(list[3], ("Y", true));
    assert_eq!(list[10], ("D-Up", true));
    assert_eq!(list[15], ("Capture", false));
}

#[test]
fn button_states_from_gilrs() {
    let mut s = ButtonStates::default();
    s.update_from_gilrs(&[PadButton::East, PadButton::Mode, PadButton::DPadLeft], true);
    assert!(s.a && s.home && s.dpad_left && s.capture);
    assert!(!s.b && !s.x && !s.y && !s.start);
}

#[test]
fn test_button_conversion() {
    let events = convert_xinput_buttons(None, 0x1000, DEFAULT_GAMEPAD_SLOT);
    assert_eq!(events.len(), 1);
    assert_eq!(events[0].control_id, "gamepad1.btn.a");
    assert!(events[0].pressed);
}

#[test]
fn test_button_no_change() {
    let events = convert_xinput_buttons(Some(0x1000), 0x1000, DEFAULT_GAMEPAD_SLOT);
    assert_eq!(events.len(), 0);
}

#[test]
fn test_dpad_format() {
    let events = convert_xinput_buttons(None, 0x0001, DEFAULT_GAMEPAD_SLOT);
    assert_eq!(events.len(), 1);
    assert_eq!(events[0].control_id, "gamepad1.dpad.up");
}

#[test]
fn button_release_from_previous_state() {
    let events = convert_xinput_buttons(Some(0x1000), 0, "gamepad1");
    assert_eq!(events, vec![ButtonEvent { control_id: "gamepad1.btn.a".to_string(), pressed: false }]);
}

#[test]
fn button_conversion_order_and_releases() {
    let events = convert_xinput_buttons(Some(0x2000 | 0x0008), 0x0010 | 0x0008, "gamepad2");
    assert_eq!(
        events,
        vec![
            ButtonEvent { control_id: "gamepad2.btn.b".to_string(), pressed: false },
            ButtonEvent { control_id: "gamepad2.btn.plus".to_string(), pressed: true },
        ]
    );
}

#[test]
fn cached_state_holds_fields() {
    let c = CachedXInputState {
        packet_number: 9,
        buttons: 0x1000,
        left_trigger: 1,
        right_trigger: 2,
        thumb_lx: -3,
        thumb_ly: 4,
        thumb_rx: 5,
        thumb_ry: -6,
    };
    let d = c;
    assert_eq!(c, d);
    assert_eq!(d.thumb_ry, -6);
}
