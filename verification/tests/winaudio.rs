use xtouch_gw::config::{ControlMapping, PageConfig};
use xtouch_gw::control_mapping::{ControlMappingDB, ControlMappingRow, MidiSpec};
use xtouch_gw::params::ParamValue;
use xtouch_gw::winaudio::catalog::winaudio_catalog;
use xtouch_gw::winaudio::mapping::{
    auto_target, compute_slots, derive_label, discovered_target, pinned_target, target_for_process,
    DiscoveryState, PinnedApp, DISCOVERY_CAP,
};
use xtouch_gw::winaudio::page::{
    auto_strip_index, color_for_process, find_winaudio_control_id, is_auto_winaudio_action,
    feedback_specs, label_for_process, lcd_strips, FeedbackKey, page_uses_winaudio, resolve_action_spec, resolve_strip_process, strip_index_of,
    WinAudioConfig,
};
use xtouch_gw::winaudio::{parse_session_target, SessionTarget, SessionTargetError};

fn pin(fader: u8, name: &str) -> PinnedApp {
    PinnedApp { fader, process_name: name.to_string(), display_name: None, color: None }
}

fn names(list: &[&str]) -> Vec<String> {
    list.iter().map(|s| s.to_string()).collect()
}

fn s(v: &str) -> ParamValue {
    ParamValue::Str(v.to_string())
}

// ---- session target parameters ----

#[test]
fn parses_pinned() {
    let p = parse_session_target(&[s("pinned:3")]).unwrap();
    assert_eq!(p, SessionTarget::Pinned(3));
}

#[test]
fn parses_discovered() {
    let p = parse_session_target(&[s("discovered:2")]).unwrap();
    assert_eq!(p, SessionTarget::Discovered(2));
}

#[test]
fn rejects_missing_separator() {
    assert!(parse_session_target(&[s("pinned3")]).is_err());
}

#[test]
fn rejects_bad_kind() {
    assert!(parse_session_target(&[s("foo:1")]).is_err());
}

#[test]
fn rejects_pinned_out_of_range() {
    assert!(parse_session_target(&[s("pinned:9")]).is_err());
    assert!(parse_session_target(&[s("pinned:0")]).is_err());
}

#[test]
fn rejects_missing_param() {
    assert!(parse_session_target(&[]).is_err());
}

#[test]
fn session_target_errors_are_specific() {
    assert_eq!(parse_session_target(&[]), Err(SessionTargetError::MissingTarget));
    assert_eq!(parse_session_target(&[ParamValue::UInt(3)]), Err(SessionTargetError::NotAString));
    assert_eq!(parse_session_target(&[s("pinned3")]), Err(SessionTargetError::MissingSeparator));
    assert_eq!(parse_session_target(&[s("pinned:x")]), Err(SessionTargetError::BadIndex));
    assert_eq!(parse_session_target(&[s("pinned:300")]), Err(SessionTargetError::BadIndex));
    assert_eq!(parse_session_target(&[s("pinned:9")]), Err(SessionTargetError::PinnedOutOfRange(9)));
    assert_eq!(
        parse_session_target(&[s("discovered:8")]),
        Err(SessionTargetError::DiscoveredOutOfRange(8))
    );
    assert_eq!(parse_session_target(&[s("foo:1")]), Err(SessionTargetError::UnknownKind));
}

#[test]
fn session_target_trims_kind_and_index() {
    assert_eq!(parse_session_target(&[s(" pinned : 8 ")]), Ok(SessionTarget::Pinned(8)));
    assert_eq!(parse_session_target(&[s("discovered:+0")]), Ok(SessionTarget::Discovered(0)));
    assert_eq!(parse_session_target(&[s("discovered:7"), s("ignored")]), Ok(SessionTarget::Discovered(7)));
}

// ---- discovery state ----

#[test]
fn discovery_appends_in_order() {
    let mut st = DiscoveryState::default();
    st.observe(&names(&["a.exe", "b.exe"]), &[]);
    st.observe(&names(&["b.exe", "c.exe"]), &[]);
    assert_eq!(st.discovered_order, vec!["a.exe", "b.exe", "c.exe"]);
}

#[test]
fn discovery_skips_pinned() {
    let mut st = DiscoveryState::default();
    let pinned = names(&["b.exe"]);
    st.observe(&names(&["a.exe", "b.exe", "c.exe"]), &pinned);
    assert_eq!(st.discovered_order, vec!["a.exe", "c.exe"]);
}

#[test]
fn discovery_caps_at_max_size() {
    let mut st = DiscoveryState::default();
    let list: Vec<String> = (0..50).map(|i| format!("app{i}.exe")).collect();
    st.observe(&list, &[]);
    assert_eq!(st.discovered_order.len(), DISCOVERY_CAP);
    assert_eq!(st.discovered_order.first().unwrap(), "app18.exe");
    assert_eq!(st.discovered_order.last().unwrap(), "app49.exe");
}

#[test]
fn observe_assigns_cycle_colors_in_order() {
    let mut st = DiscoveryState::default();
    st.observe(&names(&["a.exe", "b.exe", "c.exe"]), &[]);
    assert_eq!(st.color_for("a.exe"), Some(1));
    assert_eq!(st.color_for("b.exe"), Some(2));
    assert_eq!(st.color_for("c.exe"), Some(3));
}

#[test]
fn observe_color_cycle_wraps_after_seven() {
    let mut st = DiscoveryState::default();
    let list: Vec<String> = (0..9).map(|i| format!("app{i}.exe")).collect();
    st.observe(&list, &[]);
    assert_eq!(st.color_for("app0.exe"), Some(1));
    assert_eq!(st.color_for("app6.exe"), Some(7));
    assert_eq!(st.color_for("app7.exe"), Some(1));
    assert_eq!(st.color_for("app8.exe"), Some(2));
}

#[test]
fn observe_color_stable_across_repeats() {
    let mut st = DiscoveryState::default();
    st.observe(&names(&["a.exe"]), &[]);
    let c1 = st.color_for("a.exe");
    st.observe(&names(&["b.exe", "a.exe"]), &[]);
    assert_eq!(st.color_for("a.exe"), c1, "color must be stable for re-observations");
}

#[test]
fn observe_pinned_assigns_colors_via_same_cycle() {
    let mut st = DiscoveryState::default();
    st.observe_pinned(&names(&["discord.exe", "spotify.exe"]));
    assert_eq!(st.color_for("discord.exe"), Some(1));
    assert_eq!(st.color_for("spotify.exe"), Some(2));
    let pinned = names(&["discord.exe", "spotify.exe"]);
    st.observe(&names(&["firefox.exe"]), &pinned);
    assert_eq!(st.color_for("firefox.exe"), Some(3));
}

#[test]
fn eviction_removes_assigned_color() {
    let mut st = DiscoveryState::default();
    let list: Vec<String> = (0..50).map(|i| format!("app{i}.exe")).collect();
    st.observe(&list, &[]);
    for i in 0..18 {
        let name = format!("app{i}.exe");
        assert!(st.color_for(&name).is_none(), "expected {name} to have lost its color after eviction");
    }
    for i in 18..50 {
        let name = format!("app{i}.exe");
        assert!(st.color_for(&name).is_some(), "expected {name} to still have a color");
    }
}

#[test]
fn set_active_replaces_set_wholesale() {
    let mut st = DiscoveryState::default();
    st.set_active(&names(&["a.exe", "b.exe"]));
    assert!(st.is_active("a.exe"));
    assert!(st.is_active("b.exe"));
    assert!(!st.is_active("c.exe"));
    st.set_active(&names(&["c.exe"]));
    assert!(!st.is_active("a.exe"));
    assert!(!st.is_active("b.exe"));
    assert!(st.is_active("c.exe"));
}

#[test]
fn observe_then_reobserve_changes_nothing() {
    let mut st = DiscoveryState::default();
    st.observe(&names(&["a.exe", "b.exe"]), &[]);
    let order = st.discovered_order.clone();
    let colors = (st.color_for("a.exe"), st.color_for("b.exe"));
    st.observe(&names(&["b.exe", "a.exe"]), &[]);
    assert_eq!(st.discovered_order, order);
    assert_eq!((st.color_for("a.exe"), st.color_for("b.exe")), colors);
}

// ---- slot resolution ----

#[test]
fn pinned_keeps_their_slots() {
    let pinned = vec![pin(2, "Spotify.exe"), pin(5, "Discord.exe")];
    let discovery = DiscoveryState { discovered_order: names(&["firefox.exe"]), ..Default::default() };
    let bindings = compute_slots(&pinned, &discovery);
    let by_slot: std::collections::HashMap<u8, Option<String>> =
        bindings.iter().map(|b| (b.fader, b.process_name.clone())).collect();
    assert_eq!(by_slot[&2].as_deref(), Some("spotify.exe"));
    assert_eq!(by_slot[&5].as_deref(), Some("discord.exe"));
    assert_eq!(by_slot[&1].as_deref(), Some("firefox.exe"));
}

#[test]
fn compute_slots_labels_and_order() {
    let mut p = pin(3, "OBS64.exe");
    p.display_name = Some("Stream".to_string());
    let pinned = vec![p, pin(0, "ignored.exe"), pin(9, "ignored2.exe")];
    let discovery = DiscoveryState { discovered_order: names(&["a.exe", "obs64.exe", "b.exe"]), ..Default::default() };
    let bindings = compute_slots(&pinned, &discovery);
    let got: Vec<(u8, Option<String>, String)> =
        bindings.iter().map(|b| (b.fader, b.process_name.clone(), b.display_name.clone())).collect();
    assert_eq!(
        got,
        vec![
            (1, Some("a.exe".to_string()), "A".to_string()),
            (2, Some("b.exe".to_string()), "B".to_string()),
            (3, Some("obs64.exe".to_string()), "Stream".to_string()),
        ]
    );
}

#[test]
fn target_for_process_resolves_pinned_and_discovered() {
    let pinned = vec![pin(1, "Discord.exe"), pin(3, "Spotify.exe")];
    let discovery =
        DiscoveryState { discovered_order: names(&["firefox.exe", "msedge.exe"]), ..Default::default() };
    assert_eq!(target_for_process(&pinned, &discovery, "discord.exe"), Some("pinned:1".into()));
    assert_eq!(target_for_process(&pinned, &discovery, "spotify.exe"), Some("pinned:3".into()));
    assert_eq!(target_for_process(&pinned, &discovery, "firefox.exe"), Some("discovered:0".into()));
    assert_eq!(target_for_process(&pinned, &discovery, "msedge.exe"), Some("discovered:1".into()));
    assert_eq!(target_for_process(&pinned, &discovery, "unknown.exe"), None);
}

#[test]
fn discovered_target_resolves_in_order() {
    let pinned = vec![pin(1, "Discord.exe")];
    let discovery =
        DiscoveryState { discovered_order: names(&["spotify.exe", "firefox.exe"]), ..Default::default() };
    assert_eq!(discovered_target(&pinned, &discovery, 0), Some("spotify.exe".into()));
    assert_eq!(discovered_target(&pinned, &discovery, 1), Some("firefox.exe".into()));
    assert_eq!(discovered_target(&pinned, &discovery, 2), None);
}

#[test]
fn auto_target_indexes_discovery_filtered_of_pinned() {
    let pinned = vec![pin(1, "Discord.exe")];
    let discovery = DiscoveryState {
        discovered_order: names(&["spotify.exe", "firefox.exe", "steam.exe"]),
        ..Default::default()
    };
    assert_eq!(auto_target(&pinned, &discovery, 0), Some("spotify.exe".into()));
    assert_eq!(auto_target(&pinned, &discovery, 1), Some("firefox.exe".into()));
    assert_eq!(auto_target(&pinned, &discovery, 2), Some("steam.exe".into()));
    assert_eq!(auto_target(&pinned, &discovery, 3), None);
}

#[test]
fn discovered_target_skips_pinned_names_case_insensitively() {
    let pinned = vec![pin(1, "Discord.exe")];
    let discovery =
        DiscoveryState { discovered_order: names(&["discord.exe", "firefox.exe"]), ..Default::default() };
    assert_eq!(discovered_target(&pinned, &discovery, 0), Some("firefox.exe".into()));
    assert_eq!(pinned_target(&pinned, 1), Some("discord.exe".into()));
    assert_eq!(pinned_target(&pinned, 2), None);
}

#[test]
fn derive_label_examples() {
    assert_eq!(derive_label("discord.exe"), "Discord");
    assert_eq!(derive_label("my.app.exe"), "My.app");
    assert_eq!(derive_label("noext"), "Noext");
    assert_eq!(derive_label(""), "");
}

// ---- page bindings ----

fn ctl(app: &str, action: &str, target: Option<&str>) -> ControlMapping {
    ControlMapping {
        app: app.to_string(),
        action: Some(action.to_string()),
        params: target.map(|t| vec![ParamValue::Str(t.to_string())]),
    }
}

fn page(controls: Vec<(&str, ControlMapping)>) -> PageConfig {
    PageConfig {
        name: "Windows Audio".to_string(),
        controls: Some(controls.into_iter().map(|(k, v)| (k.to_string(), v)).collect()),
    }
}

#[test]
fn strip_index_parses_fader_and_mute() {
    assert_eq!(strip_index_of("fader1"), Some(1));
    assert_eq!(strip_index_of("fader8"), Some(8));
    assert_eq!(strip_index_of("mute4"), Some(4));
    assert_eq!(strip_index_of("fader_master"), None);
    assert_eq!(strip_index_of("flip"), None);
    assert_eq!(strip_index_of("fader9"), None);
}

#[test]
fn auto_strip_index_orders_by_strip_number() {
    let p = page(vec![
        ("fader7", ctl("winaudio", "session_volume", Some("auto"))),
        ("fader4", ctl("winaudio", "session_volume", Some("auto"))),
        ("fader6", ctl("winaudio", "session_volume", Some("auto"))),
        ("fader5", ctl("winaudio", "session_volume", Some("auto"))),
        ("fader1", ctl("winaudio", "session_volume", Some("pinned:1"))),
        ("mute4", ctl("winaudio", "session_mute", Some("auto"))),
    ]);
    assert_eq!(auto_strip_index(&p, "session_volume", "fader4"), Some(0));
    assert_eq!(auto_strip_index(&p, "session_volume", "fader5"), Some(1));
    assert_eq!(auto_strip_index(&p, "session_volume", "fader6"), Some(2));
    assert_eq!(auto_strip_index(&p, "session_volume", "fader7"), Some(3));
    assert_eq!(auto_strip_index(&p, "session_volume", "fader1"), None);
    assert_eq!(auto_strip_index(&p, "session_mute", "mute4"), Some(0));
}

#[test]
fn auto_binding_detection() {
    assert!(is_auto_winaudio_action(&ctl("winaudio", "session_volume", Some(" AUTO ")), "session_volume"));
    assert!(!is_auto_winaudio_action(&ctl("winaudio", "session_volume", Some("auto")), "session_mute"));
    assert!(!is_auto_winaudio_action(&ctl("obs", "session_volume", Some("auto")), "session_volume"));
    assert!(!is_auto_winaudio_action(&ctl("winaudio", "session_volume", None), "session_volume"));
    assert!(!is_auto_winaudio_action(&ctl("winaudio", "session_volume", Some("autox")), "session_volume"));
}

#[test]
fn page_detection_and_control_lookup() {
    let p = page(vec![
        ("play", ctl("winmedia", "play_pause", None)),
        ("fader_master", ctl("winaudio", "master_volume", None)),
        ("fader2", ctl("winaudio", "session_volume", Some("pinned:2"))),
    ]);
    assert!(page_uses_winaudio(&p));
    assert!(!page_uses_winaudio(&page(vec![("play", ctl("winmedia", "play_pause", None))])));
    assert!(!page_uses_winaudio(&PageConfig { name: "x".into(), controls: None }));
    assert_eq!(find_winaudio_control_id(&p, "master_volume", None), Some("fader_master".to_string()));
    assert_eq!(find_winaudio_control_id(&p, "session_volume", Some("pinned:2")), Some("fader2".to_string()));
    assert_eq!(find_winaudio_control_id(&p, "session_volume", Some("pinned:3")), None);

    let db = ControlMappingDB {
        rows: vec![ControlMappingRow {
            control_id: "fader2".to_string(),
            native: Some(MidiSpec::ControlChange { cc: 71 }),
            mcu: Some(MidiSpec::PitchBend { channel: 1 }),
        }],
    };
    assert_eq!(
        resolve_action_spec(&p, "session_volume", Some("pinned:2"), &db, true),
        Some(MidiSpec::PitchBend { channel: 1 })
    );
    assert_eq!(
        resolve_action_spec(&p, "session_volume", Some("pinned:2"), &db, false),
        Some(MidiSpec::ControlChange { cc: 71 })
    );
    assert_eq!(resolve_action_spec(&p, "master_volume", None, &db, true), None);
}

#[test]
fn strips_resolve_to_processes_labels_and_colors() {
    let mut spotify = pin(2, "Spotify.exe");
    spotify.display_name = Some("Music".to_string());
    spotify.color = Some(4);
    let cfg = WinAudioConfig { pinned_apps: vec![spotify, pin(3, "Discord.exe")] };
    let mut disc = DiscoveryState::default();
    disc.observe_pinned(&names(&["spotify.exe", "discord.exe"]));
    let pinned_lc = names(&["spotify.exe", "discord.exe"]);
    disc.observe(&names(&["firefox.exe", "steam.exe"]), &pinned_lc);
    let p = page(vec![
        ("fader2", ctl("winaudio", "session_volume", Some("pinned:2"))),
        ("fader5", ctl("winaudio", "session_volume", Some("auto"))),
        ("fader4", ctl("winaudio", "session_volume", Some("auto"))),
        ("fader6", ctl("winaudio", "session_volume", Some("discovered:1"))),
        ("fader7", ctl("winaudio", "session_volume", Some("bogus"))),
    ]);
    assert_eq!(resolve_strip_process("fader2", &p, &cfg, &disc, "session_volume"), Some("spotify.exe".into()));
    assert_eq!(resolve_strip_process("fader4", &p, &cfg, &disc, "session_volume"), Some("firefox.exe".into()));
    assert_eq!(resolve_strip_process("fader5", &p, &cfg, &disc, "session_volume"), Some("steam.exe".into()));
    assert_eq!(resolve_strip_process("fader6", &p, &cfg, &disc, "session_volume"), Some("steam.exe".into()));
    assert_eq!(resolve_strip_process("fader7", &p, &cfg, &disc, "session_volume"), None);
    assert_eq!(resolve_strip_process("fader2", &p, &cfg, &disc, "session_mute"), None);
    assert_eq!(resolve_strip_process("fader1", &p, &cfg, &disc, "session_volume"), None);

    assert_eq!(label_for_process(&cfg.pinned_apps, "spotify.exe"), "Music");
    assert_eq!(label_for_process(&cfg.pinned_apps, "discord.exe"), "Discord");
    assert_eq!(label_for_process(&cfg.pinned_apps, "firefox.exe"), "Firefox");

    assert_eq!(color_for_process(&cfg.pinned_apps, &disc, "spotify.exe"), 4);
    assert_eq!(color_for_process(&cfg.pinned_apps, &disc, "discord.exe"), 2);
    assert_eq!(color_for_process(&cfg.pinned_apps, &disc, "firefox.exe"), 3);
    assert_eq!(color_for_process(&cfg.pinned_apps, &disc, "unknown.exe"), 7);
}

#[test]
fn catalog_lists_session_actions_with_auto_default() {
    let cat = winaudio_catalog();
    let names: Vec<&str> = cat.iter().map(|a| a.name.as_str()).collect();
    assert_eq!(names, vec!["master_volume", "master_mute", "session_volume", "session_mute"]);
    assert_eq!(cat[2].params.len(), 1);
    assert_eq!(cat[2].params[0].default, Some(ParamValue::Str("auto".to_string())));
    assert_eq!(cat[3].params[0].picker.as_deref(), Some("winaudio.target"));
}

#[test]
fn lcd_strips_show_active_sessions_only() {
    let mut spotify = pin(2, "Spotify.exe");
    spotify.display_name = Some("Music".to_string());
    spotify.color = Some(4);
    let cfg = WinAudioConfig { pinned_apps: vec![spotify, pin(3, "Discord.exe")] };
    let mut disc = DiscoveryState::default();
    let pinned_lc = names(&["spotify.exe", "discord.exe"]);
    disc.observe_pinned(&pinned_lc);
    disc.observe(&names(&["firefox.exe", "steam.exe"]), &pinned_lc);
    disc.set_active(&names(&["spotify.exe", "steam.exe"]));
    let p = page(vec![
        ("fader2", ctl("winaudio", "session_volume", Some("pinned:2"))),
        ("fader3", ctl("winaudio", "session_volume", Some("pinned:3"))),
        ("fader5", ctl("winaudio", "session_volume", Some("discovered:1"))),
    ]);
    let strips = lcd_strips(&p, &cfg, &disc);
    assert_eq!(strips.len(), 8);
    assert_eq!(strips[0], (String::new(), 0));
    assert_eq!(strips[1], ("Music".to_string(), 4));
    // discord is pinned but has no active session
    assert_eq!(strips[2], (String::new(), 0));
    assert_eq!(strips[4].0, "Steam");
    assert_eq!(strips[7], (String::new(), 0));
}

#[test]
fn feedback_goes_to_bound_fader_and_mute_led() {
    let p = page(vec![
        ("fader_master", ctl("winaudio", "master_volume", None)),
        ("fader2", ctl("winaudio", "session_volume", Some("pinned:2"))),
        ("mute2", ctl("winaudio", "session_mute", Some("pinned:2"))),
    ]);
    let db = ControlMappingDB {
        rows: vec![
            ControlMappingRow {
                control_id: "fader2".to_string(),
                native: None,
                mcu: Some(MidiSpec::PitchBend { channel: 1 }),
            },
            ControlMappingRow {
                control_id: "mute2".to_string(),
                native: None,
                mcu: Some(MidiSpec::Note { note: 17 }),
            },
            ControlMappingRow {
                control_id: "fader_master".to_string(),
                native: None,
                mcu: Some(MidiSpec::PitchBend { channel: 8 }),
            },
        ],
    };
    assert_eq!(
        feedback_specs(&p, &FeedbackKey::Session("pinned:2".to_string()), &db, true),
        (Some(MidiSpec::PitchBend { channel: 1 }), Some(MidiSpec::Note { note: 17 }))
    );
    assert_eq!(feedback_specs(&p, &FeedbackKey::Master, &db, true), (Some(MidiSpec::PitchBend { channel: 8 }), None));
    assert_eq!(feedback_specs(&p, &FeedbackKey::Session("pinned:3".to_string()), &db, true), (None, None));
    assert_eq!(feedback_specs(&p, &FeedbackKey::Master, &db, false), (None, None));
}

#[test]
fn discovered_slots_and_targets_agree() {
    let pinned = vec![pin(1, "Discord.exe")];
    let discovery = DiscoveryState {
        discovered_order: names(&["firefox.exe", "discord.exe", "steam.exe"]),
        ..Default::default()
    };
    for slot in 0..2u8 {
        let name = discovered_target(&pinned, &discovery, slot).unwrap();
        assert_eq!(target_for_process(&pinned, &discovery, &name), Some(format!("discovered:{slot}")));
    }
    assert_eq!(discovered_target(&pinned, &discovery, 1), Some("steam.exe".into()));
    assert_eq!(target_for_process(&pinned, &discovery, "discord.exe"), Some("pinned:1".into()));
}
