use xtouch_gw::config::{ControlMapping, PageConfig};
use xtouch_gw::control_mapping::{ControlMappingDB, ControlMappingRow, MidiSpec};
use xtouch_gw::winmedia::{
    find_play_pause_control, media_catalog, play_indicator_bytes, resolve_play_pause_spec, vk_for_action, VK_MEDIA_NEXT_TRACK,
    VK_MEDIA_PLAY_PAUSE, VK_MEDIA_PREV_TRACK, VK_MEDIA_STOP,
};

#[test]
fn vk_lookup_canonical_names() {
    assert_eq!(vk_for_action("play_pause"), Some(VK_MEDIA_PLAY_PAUSE));
    assert_eq!(vk_for_action("stop"), Some(VK_MEDIA_STOP));
    assert_eq!(vk_for_action("next"), Some(VK_MEDIA_NEXT_TRACK));
    assert_eq!(vk_for_action("previous"), Some(VK_MEDIA_PREV_TRACK));
}

#[test]
fn vk_lookup_aliases() {
    assert_eq!(vk_for_action("toggle"), Some(VK_MEDIA_PLAY_PAUSE));
    assert_eq!(vk_for_action("play"), Some(VK_MEDIA_PLAY_PAUSE));
    assert_eq!(vk_for_action("pause"), Some(VK_MEDIA_PLAY_PAUSE));
    assert_eq!(vk_for_action("forward"), Some(VK_MEDIA_NEXT_TRACK));
    assert_eq!(vk_for_action("prev"), Some(VK_MEDIA_PREV_TRACK));
    assert_eq!(vk_for_action("back"), Some(VK_MEDIA_PREV_TRACK));
}

#[test]
fn vk_lookup_rejects_unknown() {
    assert_eq!(vk_for_action(""), None);
    assert_eq!(vk_for_action("rewind"), None);
    assert_eq!(vk_for_action("foo"), None);
}

#[test]
fn vk_codes_are_the_windows_media_keys() {
    assert_eq!(VK_MEDIA_NEXT_TRACK, 0xB0);
    assert_eq!(VK_MEDIA_PREV_TRACK, 0xB1);
    assert_eq!(VK_MEDIA_STOP, 0xB2);
    assert_eq!(VK_MEDIA_PLAY_PAUSE, 0xB3);
}

#[test]
fn catalog_lists_four_actions() {
    let cat = media_catalog();
    assert_eq!(cat.len(), 4);
    let names: Vec<_> = cat.iter().map(|a| a.name.as_str()).collect();
    assert!(names.contains(&"play_pause"));
    assert!(names.contains(&"stop"));
    assert!(names.contains(&"next"));
    assert!(names.contains(&"previous"));
}

#[test]
fn led_bytes_note_lit_uses_velocity_127() {
    let spec = MidiSpec::Note { note: 94 };
    let bytes = spec.led_bytes(true);
    assert_eq!(bytes, vec![0x90, 94, 127]);
}

#[test]
fn led_bytes_note_unlit_uses_velocity_0() {
    let spec = MidiSpec::Note { note: 94 };
    let bytes = spec.led_bytes(false);
    assert_eq!(bytes, vec![0x90, 94, 0]);
}

#[test]
fn led_bytes_other_kinds() {
    assert_eq!(MidiSpec::ControlChange { cc: 16 }.led_bytes(true), vec![0xB0, 16, 127]);
    assert_eq!(MidiSpec::PitchBend { channel: 2 }.led_bytes(false), vec![0xE2, 0, 0]);
    assert_eq!(MidiSpec::PitchBend { channel: 2 }.led_bytes(true), vec![0xE2, 0x7F, 0x7F]);
}

#[test]
fn play_pause_control_resolves_through_aliases() {
    let page = PageConfig {
        name: "Media".to_string(),
        controls: Some(vec![
            (
                "stop".to_string(),
                ControlMapping { app: "winmedia".to_string(), action: Some("stop".to_string()), params: None },
            ),
            (
                "other".to_string(),
                ControlMapping { app: "obs".to_string(), action: Some("toggle".to_string()), params: None },
            ),
            (
                "play".to_string(),
                ControlMapping { app: "winmedia".to_string(), action: Some("toggle".to_string()), params: None },
            ),
        ]),
    };
    assert_eq!(find_play_pause_control(&page), Some("play".to_string()));
    let db = ControlMappingDB {
        rows: vec![ControlMappingRow {
            control_id: "play".to_string(),
            native: Some(MidiSpec::Note { note: 94 }),
            mcu: None,
        }],
    };
    assert_eq!(resolve_play_pause_spec(&page, &db, false), Some(MidiSpec::Note { note: 94 }));
    assert_eq!(resolve_play_pause_spec(&page, &db, true), None);
    let empty = PageConfig { name: "x".to_string(), controls: None };
    assert_eq!(resolve_play_pause_spec(&empty, &db, false), None);
    assert_eq!(play_indicator_bytes(&page, &db, false, true), Some(vec![0x90, 94, 127]));
    assert_eq!(play_indicator_bytes(&page, &db, false, false), Some(vec![0x90, 94, 0]));
    assert_eq!(play_indicator_bytes(&page, &db, true, true), None);
}
