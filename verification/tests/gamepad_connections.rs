use xtouch_gw::gamepad::connections::{
    assign_initial_slots, check_all_connections, is_xbox_name, xinput_controller_name, GilrsPad, XInputTracking,
};
use xtouch_gw::gamepad::hybrid_id::HybridControllerId;
use xtouch_gw::gamepad::slot::SlotManager;
use xtouch_gw::gamepad::xinput::CachedXInputState;

fn pad(id: usize, name: &str) -> GilrsPad {
    GilrsPad { id, name: name.to_string() }
}

fn state() -> CachedXInputState {
    CachedXInputState {
        packet_number: 1,
        buttons: 0,
        left_trigger: 0,
        right_trigger: 0,
        thumb_lx: 0,
        thumb_ly: 0,
        thumb_rx: 0,
        thumb_ry: 0,
    }
}

#[test]
fn xbox_names() {
    assert!(is_xbox_name("Xbox Wireless Controller"));
    assert!(is_xbox_name("XInput Controller 1"));
    assert!(is_xbox_name("X-Box 360 pad"));
    assert!(is_xbox_name("Microsoft Controller"));
    assert!(!is_xbox_name("FaceOff Deluxe"));
    assert_eq!(xinput_controller_name(0), "XInput Controller 1");
    assert_eq!(xinput_controller_name(3), "XInput Controller 4");
}

#[test]
fn initial_assignment_prefers_xinput_for_xbox_pads() {
    let mut m: SlotManager<()> =
        SlotManager::new(vec![("controller".to_string(), None), ("faceoff".to_string(), None)]);
    let mut t = XInputTracking { connected: [true, false, false, false], last_state: [None; 4] };
    let pads = vec![pad(0, "Xbox Controller"), pad(1, "FaceOff Pro")];
    assign_initial_slots(&mut m, &mut t, &pads, [true, false, false, false]);
    // The Xbox pad seen by gilrs is left to XInput; the XInput controller takes slot 1.
    assert_eq!(m.slots()[0].connected_id, Some(HybridControllerId::XInput(0)));
    assert_eq!(m.slots()[0].connected_name.as_deref(), Some("XInput Controller 1"));
    assert_eq!(m.slots()[1].connected_id, Some(HybridControllerId::Gilrs(1)));
    assert_eq!(t.connected, [true, false, false, false]);
}

#[test]
fn initial_assignment_uses_gilrs_when_xinput_idle() {
    let mut m: SlotManager<()> = SlotManager::new(vec![("xbox".to_string(), None)]);
    let mut t = XInputTracking { connected: [false; 4], last_state: [None; 4] };
    assign_initial_slots(&mut m, &mut t, &[pad(7, "Xbox Controller")], [false; 4]);
    assert_eq!(m.slots()[0].connected_id, Some(HybridControllerId::Gilrs(7)));
}

#[test]
fn periodic_check_drops_absent_and_connects_new() {
    let mut m: SlotManager<()> = SlotManager::new(vec![
        ("controller".to_string(), None),
        ("faceoff".to_string(), None),
        ("controller".to_string(), None),
    ]);
    let mut t = XInputTracking { connected: [false; 4], last_state: [None; 4] };
    assign_initial_slots(&mut m, &mut t, &[pad(1, "FaceOff Pro")], [true, false, false, false]);
    assert_eq!(m.slots()[0].connected_id, Some(HybridControllerId::XInput(0)));
    assert_eq!(m.slots()[1].connected_id, Some(HybridControllerId::Gilrs(1)));
    t.last_state[0] = Some(state());

    // XInput 0 unplugged, XInput 2 plugged, the FaceOff pad gone.
    check_all_connections(&mut m, &mut t, &[], [false, false, true, false]);
    assert_eq!(t.connected, [false, false, true, false]);
    assert!(t.last_state[0].is_none());
    assert_eq!(m.slots()[0].connected_id, Some(HybridControllerId::XInput(2)));
    assert_eq!(m.slots()[0].connected_name.as_deref(), Some("XInput Controller 3"));
    assert_eq!(m.slots()[1].connected_id, None);
    assert_eq!(m.slots()[2].connected_id, None);

    // Nothing changes on a repeated check.
    check_all_connections(&mut m, &mut t, &[], [false, false, true, false]);
    assert_eq!(m.slots()[0].connected_id, Some(HybridControllerId::XInput(2)));
    assert_eq!(t.connected, [false, false, true, false]);
}
