use xtouch_gw::midi::MidiMessage;
use xtouch_gw::midibridge::{
    apply_transform, compute_status, matches_filter, next_reconnect, parse_number_maybe_hex, pb_to_velocity,
    prepare_outgoing, prepare_outgoing_checked, transform_is_defined, BridgeStatus, MidiFilterConfig, Outgoing, PbToCcConfig, PbToNoteConfig, TransformConfig,
    RECONNECT_COUNTER_CAP,
};
use xtouch_gw::params::ParamValue;

fn s(v: &str) -> ParamValue {
    ParamValue::Str(v.to_string())
}

fn no_filter() -> MidiFilterConfig {
    MidiFilterConfig { channels: None, types: None, include_notes: None, exclude_notes: None }
}

#[test]
fn numbers_in_decimal_and_hex() {
    assert_eq!(parse_number_maybe_hex(&s("0x2D"), 0), 45);
    assert_eq!(parse_number_maybe_hex(&s("0X2d"), 0), 45);
    assert_eq!(parse_number_maybe_hex(&s("45"), 0), 45);
    assert_eq!(parse_number_maybe_hex(&s("+7"), 0), 7);
    assert_eq!(parse_number_maybe_hex(&ParamValue::UInt(46), 0), 46);
    assert_eq!(parse_number_maybe_hex(&ParamValue::UInt(65536 + 3), 0), 3);
    assert_eq!(parse_number_maybe_hex(&ParamValue::Int(-1), 9), 9);
    assert_eq!(parse_number_maybe_hex(&ParamValue::Fraction("3.7".to_string()), 9), 9);
    assert_eq!(parse_number_maybe_hex(&s("0x"), 9), 9);
    assert_eq!(parse_number_maybe_hex(&s("0x10000"), 9), 9);
    assert_eq!(parse_number_maybe_hex(&s("abc"), 9), 9);
    assert_eq!(parse_number_maybe_hex(&ParamValue::Null, 9), 9);
    assert_eq!(parse_number_maybe_hex(&ParamValue::Bool(true), 9), 9);
}

#[test]
fn filter_by_channel_kind_and_notes() {
    let note_on = MidiMessage::NoteOn { channel: 0, note: 60, velocity: 100 };
    let cc = MidiMessage::ControlChange { channel: 2, cc: 7, value: 1 };
    assert!(matches_filter(&None, &note_on));

    let mut f = no_filter();
    f.channels = Some(vec![1]);
    assert!(matches_filter(&Some(f.clone()), &note_on));
    assert!(!matches_filter(&Some(f.clone()), &cc));
    assert!(!matches_filter(&Some(f), &MidiMessage::TimingClock));

    let mut f = no_filter();
    f.types = Some(vec!["noteOn".to_string(), "pitchBend".to_string()]);
    assert!(matches_filter(&Some(f.clone()), &note_on));
    assert!(!matches_filter(&Some(f.clone()), &cc));
    assert!(!matches_filter(&Some(f.clone()), &MidiMessage::NoteOn { channel: 0, note: 60, velocity: 0 }));
    assert!(!matches_filter(&Some(f), &MidiMessage::SysEx { data: vec![] }));

    let mut f = no_filter();
    f.include_notes = Some(vec![60]);
    f.exclude_notes = Some(vec![61]);
    assert!(matches_filter(&Some(f.clone()), &note_on));
    assert!(!matches_filter(&Some(f.clone()), &MidiMessage::NoteOff { channel: 0, note: 62, velocity: 0 }));
    assert!(matches_filter(&Some(f.clone()), &cc));
    let mut g = no_filter();
    g.exclude_notes = Some(vec![61]);
    assert!(!matches_filter(&Some(g), &MidiMessage::PolyPressure { channel: 0, note: 61, pressure: 3 }));
}

#[test]
fn pitch_bend_becomes_control_change() {
    let t = Some(TransformConfig {
        pb_to_cc: Some(PbToCcConfig { target_channel: None, cc_by_channel: None, base_cc: None }),
        pb_to_note: None,
    });
    let pb = MidiMessage::PitchBend { channel: 3, value: 8192 };
    // base 45 + (3 - 1) = 47 on channel 1, value 8192 >> 7 = 64.
    assert_eq!(apply_transform(&t, pb), Some(vec![0xB1, 47, 64]));
    let other = MidiMessage::NoteOn { channel: 0, note: 1, velocity: 2 };
    assert_eq!(apply_transform(&t, other.clone()), Some(other.encode()));

    let t = Some(TransformConfig {
        pb_to_cc: Some(PbToCcConfig {
            target_channel: Some(5),
            cc_by_channel: Some(vec![(0, s("0x10")), (1, ParamValue::UInt(200))]),
            base_cc: Some(s("100")),
        }),
        pb_to_note: None,
    });
    assert_eq!(apply_transform(&t, MidiMessage::PitchBend { channel: 0, value: 16383 }), Some(vec![0xB5, 16, 127]));
    assert_eq!(apply_transform(&t, MidiMessage::PitchBend { channel: 1, value: 0 }), Some(vec![0xB5, 127, 0]));
    assert_eq!(apply_transform(&t, MidiMessage::PitchBend { channel: 4, value: 128 }), Some(vec![0xB5, 103, 1]));
}

#[test]
fn pitch_bend_becomes_note() {
    let t = Some(TransformConfig { pb_to_cc: None, pb_to_note: Some(PbToNoteConfig { note: None }) });
    assert_eq!(apply_transform(&t, MidiMessage::PitchBend { channel: 2, value: 16383 }), Some(vec![0x92, 60, 127]));
    let t = Some(TransformConfig { pb_to_cc: None, pb_to_note: Some(PbToNoteConfig { note: Some(200) }) });
    assert_eq!(apply_transform(&t, MidiMessage::PitchBend { channel: 0, value: 8192 }), Some(vec![0x90, 127, 63]));
    assert_eq!(apply_transform(&None, MidiMessage::PitchBend { channel: 0, value: 8192 }), Some(vec![0xE0, 0, 64]));
}

#[test]
fn velocity_scaling_matches_single_precision_formula() {
    for v in 0..=u16::MAX {
        let float_velocity = ((v as f32 / 16383.0) * 127.0) as u8;
        assert_eq!(pb_to_velocity(v), float_velocity, "value {v}");
    }
}

#[test]
fn outgoing_path() {
    let mut f = no_filter();
    f.channels = Some(vec![1]);
    let filter = Some(f);
    assert_eq!(prepare_outgoing(&filter, &None, &[0x40]), Outgoing::Unparsed);
    assert_eq!(prepare_outgoing(&filter, &None, &[0x91, 60, 1]), Outgoing::Filtered);
    assert_eq!(prepare_outgoing(&filter, &None, &[0x90, 60, 1]), Outgoing::Send(vec![0x90, 60, 1]));
    // A note on with velocity 0 is read as a note off and sent as one.
    assert_eq!(prepare_outgoing(&None, &None, &[0x90, 60, 0]), Outgoing::Send(vec![0x80, 60, 0]));
}

#[test]
fn reconnect_schedule() {
    assert_eq!(next_reconnect(0), (1, 250));
    assert_eq!(next_reconnect(3), (4, 1000));
    assert_eq!(next_reconnect(39), (40, 10_000));
    assert_eq!(next_reconnect(RECONNECT_COUNTER_CAP), (40, 10_000));
    assert_eq!(next_reconnect(usize::MAX), (40, 10_000));
}

#[test]
fn bridge_status() {
    assert_eq!(compute_status(true, true, 5, 5), BridgeStatus::Connected);
    assert_eq!(compute_status(true, false, 2, 7), BridgeStatus::Reconnecting { attempt: 7 });
    assert_eq!(compute_status(false, false, 0, 0), BridgeStatus::Disconnected);
}

#[test]
fn checked_outgoing_reports_undefined_rewriting() {
    let t = Some(TransformConfig {
        pb_to_cc: Some(PbToCcConfig { target_channel: None, cc_by_channel: None, base_cc: None }),
        pb_to_note: None,
    });
    // pitch bend on channel 0 under the base control rule
    assert!(!transform_is_defined(&t, &MidiMessage::PitchBend { channel: 0, value: 5 }));
    assert!(transform_is_defined(&t, &MidiMessage::PitchBend { channel: 2, value: 5 }));
    assert_eq!(prepare_outgoing_checked(&None, &t, &[0xE0, 0, 64]), None);
    assert_eq!(prepare_outgoing_checked(&None, &t, &[0xE3, 0, 64]), Some(Outgoing::Send(vec![0xB1, 47, 64])));
    assert_eq!(prepare_outgoing_checked(&None, &t, &[0x40]), Some(Outgoing::Unparsed));
    // held back by the filter, so nothing needs rewriting
    let mut f = no_filter();
    f.channels = Some(vec![2]);
    assert_eq!(prepare_outgoing_checked(&Some(f), &t, &[0xE0, 0, 64]), Some(Outgoing::Filtered));
}
