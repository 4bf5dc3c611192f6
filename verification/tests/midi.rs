use xtouch_gw::midi::convert;
use xtouch_gw::midi::{format_hex, format_sniffer, MidiMessage};

#[test]
fn test_note_on_parsing() {
    let data = vec![0x90, 60, 100];
    let msg = MidiMessage::parse(&data).unwrap();
    assert_eq!(msg, MidiMessage::NoteOn { channel: 0, note: 60, velocity: 100 });
}

#[test]
fn test_note_on_velocity_zero() {
    let data = vec![0x90, 60, 0];
    let msg = MidiMessage::parse(&data).unwrap();
    assert_eq!(msg, MidiMessage::NoteOff { channel: 0, note: 60, velocity: 0 });
}

#[test]
fn test_control_change() {
    let data = vec![0xB2, 7, 100];
    let msg = MidiMessage::parse(&data).unwrap();
    assert_eq!(msg, MidiMessage::ControlChange { channel: 2, cc: 7, value: 100 });
}

#[test]
fn test_pitch_bend() {
    let data = vec![0xE0, 0x00, 0x40];
    let msg = MidiMessage::parse(&data).unwrap();
    assert_eq!(msg, MidiMessage::PitchBend { channel: 0, value: 8192 });
}

#[test]
fn test_encode_note_on() {
    let msg = MidiMessage::NoteOn { channel: 0, note: 60, velocity: 100 };
    assert_eq!(msg.encode(), vec![0x90, 60, 100]);
}

#[test]
fn test_14bit_to_7bit() {
    assert_eq!(convert::to_7bit(0), 0);
    assert_eq!(convert::to_7bit(8192), 64);
    assert_eq!(convert::to_7bit(16383), 127);
}

#[test]
fn test_7bit_to_14bit() {
    assert_eq!(convert::to_14bit(0), 0);
    assert_eq!(convert::to_14bit(64), 8192);
    assert_eq!(convert::to_14bit(127), 16256);
}

#[test]
fn eight_bit_conversions() {
    assert_eq!(convert::to_8bit(16383), 255);
    assert_eq!(convert::to_8bit(8192), 128);
    assert_eq!(convert::from_8bit(128), 8192);
    assert_eq!(convert::to_8bit(convert::from_8bit(77)), 77);
    assert_eq!(convert::to_7bit(convert::to_14bit(99)), 99);
}

#[test]
fn parse_rejects_short_and_data_bytes() {
    assert_eq!(MidiMessage::parse(&[]), None);
    assert_eq!(MidiMessage::parse(&[0x90, 60]), None);
    assert_eq!(MidiMessage::parse(&[0x40, 1, 2]), None);
}

#[test]
fn parse_system_messages() {
    assert_eq!(MidiMessage::parse(&[0xF8]), Some(MidiMessage::TimingClock));
    assert_eq!(MidiMessage::parse(&[0xFF]), Some(MidiMessage::SystemReset));
    assert_eq!(MidiMessage::parse(&[0xF3, 5]), Some(MidiMessage::SongSelect { song: 5 }));
    assert_eq!(
        MidiMessage::parse(&[0xF0, 1, 2, 3, 0xF7]),
        Some(MidiMessage::SysEx { data: vec![1, 2, 3] })
    );
}

#[test]
fn encode_parse_roundtrip_examples() {
    let msgs = vec![
        MidiMessage::NoteOff { channel: 3, note: 10, velocity: 5 },
        MidiMessage::ControlChange { channel: 15, cc: 127, value: 0 },
        MidiMessage::PitchBend { channel: 1, value: 16383 },
        MidiMessage::ProgramChange { channel: 9, program: 42 },
        MidiMessage::ChannelPressure { channel: 0, pressure: 64 },
        MidiMessage::PolyPressure { channel: 2, note: 60, pressure: 1 },
        MidiMessage::SongPosition { position: 300 },
        MidiMessage::SysEx { data: vec![0x00, 0x20, 0x32] },
    ];
    for m in msgs {
        assert_eq!(MidiMessage::parse(&m.encode()), Some(m.clone()));
    }
}

#[test]
fn channel_and_kind_queries() {
    let cc = MidiMessage::ControlChange { channel: 4, cc: 1, value: 2 };
    assert_eq!(cc.channel(), Some(4));
    assert!(cc.is_channel_message());
    assert!(!cc.is_system_message());
    let clock = MidiMessage::TimingClock;
    assert_eq!(clock.channel(), None);
    assert!(clock.is_system_message());
    assert!(!clock.is_channel_message());
}

#[test]
fn hex_formatting() {
    assert_eq!(format_hex(&[]), "");
    assert_eq!(format_hex(&[0x90, 0x3C, 0x7F]), "90 3C 7F");
    assert_eq!(format_hex(&[0x0A]), "0A");
}

#[test]
fn sniffer_line_formatting() {
    assert_eq!(
        format_sniffer(42, "IN", "X-Touch", &[0x90, 60, 100]),
        "[00000042ms] IN X-Touch | 90 3C 64 => NoteOn ch:1 n:60 v:100"
    );
    assert_eq!(format_sniffer(7, "OUT", "p", &[0x40]), "[00000007ms] OUT p | 40");
}

#[test]
fn describe_messages() {
    assert_eq!(
        MidiMessage::PitchBend { channel: 0, value: 8192 }.describe(),
        "PitchBend ch:1 v:8192"
    );
    assert_eq!(MidiMessage::SysEx { data: vec![1, 2] }.describe(), "SysEx 2 bytes");
    assert_eq!(MidiMessage::SongSelect { song: 3 }.describe(), "SongSelect { song: 3 }");
}

#[test]
fn channel_messages_have_status_below_f0() {
    let on = MidiMessage::NoteOn { channel: 3, note: 60, velocity: 100 };
    let bytes = on.encode();
    assert!(bytes[0] < 0xF0);
    assert_eq!(on.channel(), Some(bytes[0] % 16));
    let clock = MidiMessage::TimingClock;
    assert!(clock.encode()[0] >= 0xF0);
    assert!(clock.is_system_message());
    assert!(!clock.is_channel_message());
}
