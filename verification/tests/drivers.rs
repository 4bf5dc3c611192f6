use xtouch_gw::console::ConsoleDriver;
use xtouch_gw::midibridge::{bridge_send_bytes, bytes_from_values};
use xtouch_gw::params::ParamValue;
use xtouch_gw::winaudio::{winaudio_command, SessionTarget, SessionTargetError, WinAudioCommand};
use xtouch_gw::winmedia::{winmedia_key_for_request, VK_MEDIA_NEXT_TRACK, VK_MEDIA_PLAY_PAUSE};

fn s(v: &str) -> ParamValue {
    ParamValue::Str(v.to_string())
}

#[test]
fn test_console_driver_lifecycle() {
    let mut driver = ConsoleDriver::new("test".to_string());
    assert_eq!(driver.name(), "test");
    assert!(!driver.is_initialized());
    driver.init();
    assert!(driver.is_initialized());
    assert_eq!(driver.execute(), Some(1));
    assert_eq!(driver.execute(), Some(2));
    assert_eq!(driver.execution_count(), 2);
    assert_eq!(driver.shutdown(), Some(2));
    assert!(!driver.is_initialized());
    assert_eq!(driver.shutdown(), None);
}

#[test]
fn test_console_driver_execute_without_init() {
    let mut driver = ConsoleDriver::new("uninit_test".to_string());
    assert_eq!(driver.execute(), None);
    assert_eq!(driver.execution_count(), 0);
}

#[test]
fn test_console_driver_multiple_executions() {
    let mut driver = ConsoleDriver::new("multi_test".to_string());
    driver.init();
    for _ in 0..10 {
        driver.execute();
    }
    assert_eq!(driver.execution_count(), 10);
    // initializing again starts the count over
    driver.init();
    assert_eq!(driver.execution_count(), 0);
}

#[test]
fn winmedia_request_keys() {
    assert_eq!(winmedia_key_for_request(true, false, "play"), Some(VK_MEDIA_PLAY_PAUSE));
    assert_eq!(winmedia_key_for_request(true, false, "forward"), Some(VK_MEDIA_NEXT_TRACK));
    assert_eq!(winmedia_key_for_request(true, true, "play"), None);
    assert_eq!(winmedia_key_for_request(false, false, "play"), None);
    assert_eq!(winmedia_key_for_request(true, false, "rewind"), None);
}

#[test]
fn winaudio_commands() {
    assert_eq!(winaudio_command(false, false, "master_mute", &[]), Ok(WinAudioCommand::NotInitialized));
    assert_eq!(winaudio_command(true, false, "master_volume", &[]), Ok(WinAudioCommand::MasterVolume));
    assert_eq!(winaudio_command(true, false, "master_mute", &[]), Ok(WinAudioCommand::ToggleMasterMute));
    assert_eq!(winaudio_command(true, true, "master_mute", &[]), Ok(WinAudioCommand::IgnoredRelease));
    assert_eq!(
        winaudio_command(true, false, "session_volume", &[s("pinned:3")]),
        Ok(WinAudioCommand::SessionVolume(SessionTarget::Pinned(3)))
    );
    assert_eq!(
        winaudio_command(true, false, "session_mute", &[s("discovered:0")]),
        Ok(WinAudioCommand::ToggleSessionMute(SessionTarget::Discovered(0)))
    );
    assert_eq!(winaudio_command(true, true, "session_mute", &[s("discovered:0")]), Ok(WinAudioCommand::IgnoredRelease));
    assert_eq!(winaudio_command(true, true, "session_mute", &[]), Err(SessionTargetError::MissingTarget));
    assert_eq!(winaudio_command(true, false, "session_volume", &[s("pinned:9")]), Err(SessionTargetError::PinnedOutOfRange(9)));
    assert_eq!(winaudio_command(true, false, "shuffle", &[]), Ok(WinAudioCommand::Unknown));
}

#[test]
fn bridge_bytes_keep_non_negative_integers_mod_256() {
    let values = vec![
        ParamValue::UInt(0x90),
        s("x"),
        ParamValue::UInt(300),
        ParamValue::Int(-1),
        ParamValue::Fraction("0.5".to_string()),
        ParamValue::UInt(127),
    ];
    assert_eq!(bytes_from_values(&values), vec![0x90, 44, 127]);
    assert_eq!(bytes_from_values(&[]), Vec::<u8>::new());
}

#[test]
fn bridge_actions() {
    let arr = ParamValue::Array(vec![ParamValue::UInt(0xB0), ParamValue::UInt(7), ParamValue::UInt(100)]);
    assert_eq!(bridge_send_bytes("passthrough", &[], &Some(arr.clone())), Some(vec![0xB0, 7, 100]));
    assert_eq!(bridge_send_bytes("passthrough", &[], &Some(ParamValue::Array(vec![s("a")]))), None);
    assert_eq!(bridge_send_bytes("passthrough", &[], &Some(ParamValue::UInt(3))), None);
    assert_eq!(bridge_send_bytes("passthrough", &[], &None), None);
    assert_eq!(bridge_send_bytes("send", &[arr.clone()], &None), Some(vec![0xB0, 7, 100]));
    assert_eq!(bridge_send_bytes("send", &[ParamValue::Array(vec![])], &None), Some(vec![]));
    assert_eq!(bridge_send_bytes("send", &[s("x")], &None), None);
    assert_eq!(bridge_send_bytes("send", &[], &None), None);
    assert_eq!(bridge_send_bytes("other", &[arr], &None), None);
}
