//! MIDI message parsing, encoding, and value conversions.

use vstd::prelude::*;

pub mod convert;

use crate::text::{
    decimal, hex_byte, push_char, push_decimal, push_decimal_padded, push_hex_byte, zero_padded,
};
use vstd::string::StringExecFns;

verus! {

/// MIDI messages. `Bytes` is the payload type of System Exclusive
/// messages: `Vec<u8>` for run-time values, `Seq<u8>` for their model.
#[derive(Debug, Clone, PartialEq, Eq)]
pub enum MidiMessageOf<Bytes> {
    /// Note Off: channel (0-15), note (0-127), velocity (0-127)
    NoteOff { channel: u8, note: u8, velocity: u8 },
    /// Note On: channel (0-15), note (0-127), velocity (0-127)
    NoteOn { channel: u8, note: u8, velocity: u8 },
    /// Polyphonic Key Pressure: channel (0-15), note (0-127), pressure (0-127)
    PolyPressure { channel: u8, note: u8, pressure: u8 },
    /// Control Change: channel (0-15), cc (0-127), value (0-127)
    ControlChange { channel: u8, cc: u8, value: u8 },
    /// Program Change: channel (0-15), program (0-127)
    ProgramChange { channel: u8, program: u8 },
    /// Channel Pressure: channel (0-15), pressure (0-127)
    ChannelPressure { channel: u8, pressure: u8 },
    /// Pitch Bend: channel (0-15), value (0-16383, 14-bit)
    PitchBend { channel: u8, value: u16 },
    /// System Exclusive payload (between 0xF0 and 0xF7)
    SysEx { data: Bytes },
    /// MIDI Time Code Quarter Frame
    MidiTimeCode { data: u8 },
    /// Song Position Pointer
    SongPosition { position: u16 },
    /// Song Select
    SongSelect { song: u8 },
    /// Tune Request
    TuneRequest,
    /// Timing Clock
    TimingClock,
    /// Start
    Start,
    /// Continue
    Continue,
    /// Stop
    Stop,
    /// Active Sensing
    ActiveSensing,
    /// System Reset
    SystemReset,
}

/// A MIDI message as handled at run time.
pub type MidiMessage = MidiMessageOf<Vec<u8>>;

/// The mathematical model of a MIDI message.
pub type MidiModel = MidiMessageOf<Seq<u8>>;

impl View for MidiMessageOf<Vec<u8>> {
    type V = MidiModel;

    open spec fn view(&self) -> MidiModel {
        match *self {
            MidiMessageOf::NoteOff { channel, note, velocity } => MidiMessageOf::NoteOff {
                channel,
                note,
                velocity,
            },
            MidiMessageOf::NoteOn { channel, note, velocity } => MidiMessageOf::NoteOn {
                channel,
                note,
                velocity,
            },
            MidiMessageOf::PolyPressure { channel, note, pressure } => MidiMessageOf::PolyPressure {
                channel,
                note,
                pressure,
            },
            MidiMessageOf::ControlChange { channel, cc, value } => MidiMessageOf::ControlChange {
                channel,
                cc,
                value,
            },
            MidiMessageOf::ProgramChange { channel, program } => MidiMessageOf::ProgramChange {
                channel,
                program,
            },
            MidiMessageOf::ChannelPressure { channel, pressure } => MidiMessageOf::ChannelPressure {
                channel,
                pressure,
            },
            MidiMessageOf::PitchBend { channel, value } => MidiMessageOf::PitchBend { channel, value },
            MidiMessageOf::SysEx { ref data } => MidiMessageOf::SysEx { data: data@ },
            MidiMessageOf::MidiTimeCode { data } => MidiMessageOf::MidiTimeCode { data },
            MidiMessageOf::SongPosition { position } => MidiMessageOf::SongPosition { position },
            MidiMessageOf::SongSelect { song } => MidiMessageOf::SongSelect { song },
            MidiMessageOf::TuneRequest => MidiMessageOf::TuneRequest,
            MidiMessageOf::TimingClock => MidiMessageOf::TimingClock,
            MidiMessageOf::Start => MidiMessageOf::Start,
            MidiMessageOf::Continue => MidiMessageOf::Continue,
            MidiMessageOf::Stop => MidiMessageOf::Stop,
            MidiMessageOf::ActiveSensing => MidiMessageOf::ActiveSensing,
            MidiMessageOf::SystemReset => MidiMessageOf::SystemReset,
        }
    }
}

/// The low seven bits of a byte.
pub open spec fn low7(b: u8) -> u8 {
    (b % 128) as u8
}

/// A 14-bit value from its least and most significant 7-bit halves.
pub open spec fn join14(lsb: u8, msb: u8) -> u16 {
    (low7(msb) * 128 + low7(lsb)) as u16
}

/// `i` is the first position of the System Exclusive terminator 0xF7 in `s`.
pub open spec fn is_first_eox(s: Seq<u8>, i: int) -> bool {
    0 <= i < s.len() && s[i] == 0xF7 && forall|j: int| 0 <= j < i ==> s[j] != 0xF7
}

/// The message that `parse` reads from the start of `s`.
pub open spec fn parse_spec(s: Seq<u8>) -> Option<MidiModel> {
    if s.len() == 0 {
        None
    } else {
        let status = s[0];
        if status < 0x80 {
            None
        } else if status < 0xF0 {
            let kind = status / 16;
            let channel = (status % 16) as u8;
            let need: int = if kind == 0xC || kind == 0xD { 2 } else { 3 };
            if s.len() < need {
                None
            } else if kind == 0x8 {
                Some(MidiMessageOf::NoteOff { channel, note: low7(s[1]), velocity: low7(s[2]) })
            } else if kind == 0x9 {
                if low7(s[2]) == 0 {
                    Some(MidiMessageOf::NoteOff { channel, note: low7(s[1]), velocity: 0 })
                } else {
                    Some(MidiMessageOf::NoteOn { channel, note: low7(s[1]), velocity: low7(s[2]) })
                }
            } else if kind == 0xA {
                Some(MidiMessageOf::PolyPressure { channel, note: low7(s[1]), pressure: low7(s[2]) })
            } else if kind == 0xB {
                Some(MidiMessageOf::ControlChange { channel, cc: low7(s[1]), value: low7(s[2]) })
            } else if kind == 0xC {
                Some(MidiMessageOf::ProgramChange { channel, program: low7(s[1]) })
            } else if kind == 0xD {
                Some(MidiMessageOf::ChannelPressure { channel, pressure: low7(s[1]) })
            } else {
                Some(MidiMessageOf::PitchBend { channel, value: join14(s[1], s[2]) })
            }
        } else if status == 0xF0 {
            if exists|i: int| is_first_eox(s, i) {
                let end = choose|i: int| is_first_eox(s, i);
                Some(MidiMessageOf::SysEx { data: s.subrange(1, end) })
            } else {
                None
            }
        } else if status == 0xF1 {
            if s.len() < 2 { None } else { Some(MidiMessageOf::MidiTimeCode { data: s[1] }) }
        } else if status == 0xF2 {
            if s.len() < 3 { None } else { Some(MidiMessageOf::SongPosition { position: join14(s[1], s[2]) }) }
        } else if status == 0xF3 {
            if s.len() < 2 { None } else { Some(MidiMessageOf::SongSelect { song: low7(s[1]) }) }
        } else if status == 0xF6 {
            Some(MidiMessageOf::TuneRequest)
        } else if status == 0xF8 {
            Some(MidiMessageOf::TimingClock)
        } else if status == 0xFA {
            Some(MidiMessageOf::Start)
        } else if status == 0xFB {
            Some(MidiMessageOf::Continue)
        } else if status == 0xFC {
            Some(MidiMessageOf::Stop)
        } else if status == 0xFE {
            Some(MidiMessageOf::ActiveSensing)
        } else if status == 0xFF {
            Some(MidiMessageOf::SystemReset)
        } else {
            None
        }
    }
}

/// A status byte for a channel message of the given kind (0x8..=0xE).
pub open spec fn status_byte(kind: u8, channel: u8) -> u8 {
    (kind * 16 + channel % 16) as u8
}

/// The bytes that `encode` produces for a message.
pub open spec fn encode_spec(m: MidiModel) -> Seq<u8> {
    match m {
        MidiMessageOf::NoteOff { channel, note, velocity } => seq![
            status_byte(0x8, channel),
            low7(note),
            low7(velocity),
        ],
        MidiMessageOf::NoteOn { channel, note, velocity } => seq![
            status_byte(0x9, channel),
            low7(note),
            low7(velocity),
        ],
        MidiMessageOf::PolyPressure { channel, note, pressure } => seq![
            status_byte(0xA, channel),
            low7(note),
            low7(pressure),
        ],
        MidiMessageOf::ControlChange { channel, cc, value } => seq![
            status_byte(0xB, channel),
            low7(cc),
            low7(value),
        ],
        MidiMessageOf::ProgramChange { channel, program } => seq![
            status_byte(0xC, channel),
            low7(program),
        ],
        MidiMessageOf::ChannelPressure { channel, pressure } => seq![
            status_byte(0xD, channel),
            low7(pressure),
        ],
        MidiMessageOf::PitchBend { channel, value } => seq![
            status_byte(0xE, channel),
            (value % 128) as u8,
            ((value / 128) % 128) as u8,
        ],
        MidiMessageOf::SysEx { data } => seq![0xF0u8] + data + seq![0xF7u8],
        MidiMessageOf::MidiTimeCode { data } => seq![0xF1u8, data],
        MidiMessageOf::SongPosition { position } => seq![
            0xF2u8,
            (position % 128) as u8,
            ((position / 128) % 128) as u8,
        ],
        MidiMessageOf::SongSelect { song } => seq![0xF3u8, low7(song)],
        MidiMessageOf::TuneRequest => seq![0xF6u8],
        MidiMessageOf::TimingClock => seq![0xF8u8],
        MidiMessageOf::Start => seq![0xFAu8],
        MidiMessageOf::Continue => seq![0xFBu8],
        MidiMessageOf::Stop => seq![0xFCu8],
        MidiMessageOf::ActiveSensing => seq![0xFEu8],
        MidiMessageOf::SystemReset => seq![0xFFu8],
    }
}

/// The channel of a channel message; `None` for system messages.
pub open spec fn channel_spec(m: MidiModel) -> Option<u8> {
    match m {
        MidiMessageOf::NoteOff { channel, .. } => Some(channel),
        MidiMessageOf::NoteOn { channel, .. } => Some(channel),
        MidiMessageOf::PolyPressure { channel, .. } => Some(channel),
        MidiMessageOf::ControlChange { channel, .. } => Some(channel),
        MidiMessageOf::ProgramChange { channel, .. } => Some(channel),
        MidiMessageOf::ChannelPressure { channel, .. } => Some(channel),
        MidiMessageOf::PitchBend { channel, .. } => Some(channel),
        _ => None,
    }
}

/// Every field of `m` lies in the range its encoding can carry, a Note On
/// has a non-zero velocity, and a System Exclusive payload holds no 0xF7.
pub open spec fn well_formed(m: MidiModel) -> bool {
    match m {
        MidiMessageOf::NoteOff { channel, note, velocity } =>
            channel < 16 && note < 128 && velocity < 128,
        MidiMessageOf::NoteOn { channel, note, velocity } =>
            channel < 16 && note < 128 && 0 < velocity < 128,
        MidiMessageOf::PolyPressure { channel, note, pressure } =>
            channel < 16 && note < 128 && pressure < 128,
        MidiMessageOf::ControlChange { channel, cc, value } =>
            channel < 16 && cc < 128 && value < 128,
        MidiMessageOf::ProgramChange { channel, program } => channel < 16 && program < 128,
        MidiMessageOf::ChannelPressure { channel, pressure } => channel < 16 && pressure < 128,
        MidiMessageOf::PitchBend { channel, value } => channel < 16 && value < 16384,
        MidiMessageOf::SysEx { data } => forall|i: int| 0 <= i < data.len() ==> data[i] != 0xF7,
        MidiMessageOf::SongPosition { position } => position < 16384,
        MidiMessageOf::SongSelect { song } => song < 128,
        _ => true,
    }
}

proof fn lemma_low7_bits(x: u8)
    ensures
        x & 0x7F == low7(x),
        low7(x) < 128,
{
    assert(x & 0x7F == x % 128) by (bit_vector);
}

proof fn lemma_status_bits(s: u8)
    ensures
        s & 0xF0 == (s / 16) * 16,
        s & 0x0F == s % 16,
{
    assert(s & 0xF0 == (s / 16) * 16) by (bit_vector);
    assert(s & 0x0F == s % 16) by (bit_vector);
}

proof fn lemma_join14_bits(lsb: u16, msb: u16)
    requires
        lsb < 128,
        msb < 128,
    ensures
        (msb << 7) | lsb == msb * 128 + lsb,
{
    assert(lsb < 128 && msb < 128 ==> (msb << 7) | lsb == msb * 128 + lsb) by (bit_vector);
}

proof fn lemma_split14_bits(v: u16)
    ensures
        v & 0x7F == v % 128,
        (v >> 7) & 0x7F == (v / 128) % 128,
{
    assert(v & 0x7F == v % 128) by (bit_vector);
    assert((v >> 7) & 0x7F == (v / 128) % 128) by (bit_vector);
}

proof fn lemma_status_encode_bits(kind: u8, channel: u8)
    requires
        8 <= kind <= 14,
    ensures
        (kind * 16) as u8 | (channel & 0x0F) == status_byte(kind, channel),
{
    assert(8 <= kind <= 14 ==> (((kind * 16) as u8) | (channel & 0x0F)) == ((kind * 16 + channel % 16) as u8)) by (bit_vector);
}

fn encode_status(kind: u8, channel: u8) -> (r: u8)
    requires
        8 <= kind <= 14,
    ensures
        r == status_byte(kind, channel),
{
    proof {
        lemma_status_encode_bits(kind, channel);
    }
    (kind * 16) | (channel & 0x0F)
}

fn seven(b: u8) -> (r: u8)
    ensures
        r == low7(b),
{
    proof {
        lemma_low7_bits(b);
    }
    b & 0x7F
}

fn fourteen(lsb: u8, msb: u8) -> (r: u16)
    ensures
        r == join14(lsb, msb),
{
    let l = seven(lsb) as u16;
    let m = seven(msb) as u16;
    proof {
        lemma_join14_bits(l, m);
    }
    (m << 7) | l
}

fn lsb14(v: u16) -> (r: u8)
    ensures
        r == (v % 128) as u8,
{
    proof {
        lemma_split14_bits(v);
    }
    (v & 0x7F) as u8
}

fn msb14(v: u16) -> (r: u8)
    ensures
        r == ((v / 128) % 128) as u8,
{
    proof {
        lemma_split14_bits(v);
    }
    ((v >> 7) & 0x7F) as u8
}

impl MidiMessageOf<Vec<u8>> {
    /// Parse a MIDI message from the start of raw bytes. Returns `None` for
    /// empty input, a leading data byte (running status), a truncated
    /// message, an unterminated System Exclusive, or an undefined status.
    /// A Note On with velocity 0 is read as a Note Off.
    pub fn parse(data: &[u8]) -> (r: Option<MidiMessage>)
        ensures
            r.is_some() == parse_spec(data@).is_some(),
            r matches Some(m) ==> Some(m@) == parse_spec(data@),
    {
        if data.len() == 0 {
            return None;
        }
        let status = data[0];
        if status < 0x80 {
            return None;
        }
        if status < 0xF0 {
            proof {
                lemma_status_bits(status);
            }
            let message_type = status & 0xF0;
            let channel = status & 0x0F;
            if message_type == 0x80 {
                if data.len() < 3 {
                    return None;
                }
                Some(MidiMessageOf::NoteOff { channel, note: seven(data[1]), velocity: seven(data[2]) })
            } else if message_type == 0x90 {
                if data.len() < 3 {
                    return None;
                }
                let note = seven(data[1]);
                let velocity = seven(data[2]);
                if velocity == 0 {
                    Some(MidiMessageOf::NoteOff { channel, note, velocity: 0 })
                } else {
                    Some(MidiMessageOf::NoteOn { channel, note, velocity })
                }
            } else if message_type == 0xA0 {
                if data.len() < 3 {
                    return None;
                }
                Some(MidiMessageOf::PolyPressure { channel, note: seven(data[1]), pressure: seven(data[2]) })
            } else if message_type == 0xB0 {
                if data.len() < 3 {
                    return None;
                }
                Some(MidiMessageOf::ControlChange { channel, cc: seven(data[1]), value: seven(data[2]) })
            } else if message_type == 0xC0 {
                if data.len() < 2 {
                    return None;
                }
                Some(MidiMessageOf::ProgramChange { channel, program: seven(data[1]) })
            } else if message_type == 0xD0 {
                if data.len() < 2 {
                    return None;
                }
                Some(MidiMessageOf::ChannelPressure { channel, pressure: seven(data[1]) })
            } else {
                if data.len() < 3 {
                    return None;
                }
                Some(MidiMessageOf::PitchBend { channel, value: fourteen(data[1], data[2]) })
            }
        } else if status == 0xF0 {
            Self::parse_sysex(data)
        } else if status == 0xF1 {
            if data.len() < 2 {
                return None;
            }
            Some(MidiMessageOf::MidiTimeCode { data: data[1] })
        } else if status == 0xF2 {
            if data.len() < 3 {
                return None;
            }
            Some(MidiMessageOf::SongPosition { position: fourteen(data[1], data[2]) })
        } else if status == 0xF3 {
            if data.len() < 2 {
                return None;
            }
            Some(MidiMessageOf::SongSelect { song: seven(data[1]) })
        } else if status == 0xF6 {
            Some(MidiMessageOf::TuneRequest)
        } else if status == 0xF8 {
            Some(MidiMessageOf::TimingClock)
        } else if status == 0xFA {
            Some(MidiMessageOf::Start)
        } else if status == 0xFB {
            Some(MidiMessageOf::Continue)
        } else if status == 0xFC {
            Some(MidiMessageOf::Stop)
        } else if status == 0xFE {
            Some(MidiMessageOf::ActiveSensing)
        } else if status == 0xFF {
            Some(MidiMessageOf::SystemReset)
        } else {
            None
        }
    }

    /// System Exclusive: the bytes between the leading 0xF0 and the first
    /// 0xF7.
    fn parse_sysex(data: &[u8]) -> (r: Option<MidiMessage>)
        requires
            data.len() > 0,
            data[0] == 0xF0,
        ensures
            r.is_some() == parse_spec(data@).is_some(),
            r matches Some(m) ==> Some(m@) == parse_spec(data@),
    {
        let mut end: usize = 0;
        while end < data.len() && data[end] != 0xF7
            invariant
                end <= data.len(),
                forall|j: int| 0 <= j < end ==> data@[j] != 0xF7,
            decreases data.len() - end,
        {
            end = end + 1;
        }
        if end == data.len() {
            assert(!exists|i: int| is_first_eox(data@, i));
            return None;
        }
        assert(is_first_eox(data@, end as int));
        proof {
            let c = choose|i: int| is_first_eox(data@, i);
            assert(is_first_eox(data@, c));
            if c < end as int {
                assert(data@[c] != 0xF7);
            }
            if end < c {
                assert(data@[end as int] != 0xF7);
            }
            assert(c == end as int);
        }
        let mut payload: Vec<u8> = Vec::new();
        let mut i: usize = 1;
        while i < end
            invariant
                1 <= i <= end,
                end < data.len(),
                payload@ == data@.subrange(1, i as int),
            decreases end - i,
        {
            payload.push(data[i]);
            i = i + 1;
            assert(payload@ =~= data@.subrange(1, i as int));
        }
        Some(MidiMessageOf::SysEx { data: payload })
    }

    /// Encode the message to MIDI bytes. Channel numbers keep their low four
    /// bits and data bytes their low seven bits.
    pub fn encode(&self) -> (r: Vec<u8>)
        ensures
            r@ == encode_spec(self@),
    {
        match self {
            MidiMessageOf::NoteOff { channel, note, velocity } => {
                let r = vec![encode_status(0x8, *channel), seven(*note), seven(*velocity)];
                assert(r@ =~= encode_spec(self@));
                r
            },
            MidiMessageOf::NoteOn { channel, note, velocity } => {
                let r = vec![encode_status(0x9, *channel), seven(*note), seven(*velocity)];
                assert(r@ =~= encode_spec(self@));
                r
            },
            MidiMessageOf::PolyPressure { channel, note, pressure } => {
                let r = vec![encode_status(0xA, *channel), seven(*note), seven(*pressure)];
                assert(r@ =~= encode_spec(self@));
                r
            },
            MidiMessageOf::ControlChange { channel, cc, value } => {
                let r = vec![encode_status(0xB, *channel), seven(*cc), seven(*value)];
                assert(r@ =~= encode_spec(self@));
                r
            },
            MidiMessageOf::ProgramChange { channel, program } => {
                let r = vec![encode_status(0xC, *channel), seven(*program)];
                assert(r@ =~= encode_spec(self@));
                r
            },
            MidiMessageOf::ChannelPressure { channel, pressure } => {
                let r = vec![encode_status(0xD, *channel), seven(*pressure)];
                assert(r@ =~= encode_spec(self@));
                r
            },
            MidiMessageOf::PitchBend { channel, value } => {
                let r = vec![encode_status(0xE, *channel), lsb14(*value), msb14(*value)];
                assert(r@ =~= encode_spec(self@));
                r
            },
            MidiMessageOf::SysEx { data } => {
                let mut r: Vec<u8> = Vec::new();
                r.push(0xF0);
                let mut i: usize = 0;
                while i < data.len()
                    invariant
                        i <= data.len(),
                        r@ == seq![0xF0u8] + data@.subrange(0, i as int),
                    decreases data.len() - i,
                {
                    r.push(data[i]);
                    i = i + 1;
                    assert(r@ =~= seq![0xF0u8] + data@.subrange(0, i as int));
                }
                r.push(0xF7);
                assert(r@ =~= encode_spec(self@));
                r
            },
            MidiMessageOf::MidiTimeCode { data } => {
                let r = vec![0xF1, *data];
                assert(r@ =~= encode_spec(self@));
                r
            },
            MidiMessageOf::SongPosition { position } => {
                let r = vec![0xF2, lsb14(*position), msb14(*position)];
                assert(r@ =~= encode_spec(self@));
                r
            },
            MidiMessageOf::SongSelect { song } => {
                let r = vec![0xF3, seven(*song)];
                assert(r@ =~= encode_spec(self@));
                r
            },
            MidiMessageOf::TuneRequest => {
                let r = vec![0xF6];
                assert(r@ =~= encode_spec(self@));
                r
            },
            MidiMessageOf::TimingClock => {
                let r = vec![0xF8];
                assert(r@ =~= encode_spec(self@));
                r
            },
            MidiMessageOf::Start => {
                let r = vec![0xFA];
                assert(r@ =~= encode_spec(self@));
                r
            },
            MidiMessageOf::Continue => {
                let r = vec![0xFB];
                assert(r@ =~= encode_spec(self@));
                r
            },
            MidiMessageOf::Stop => {
                let r = vec![0xFC];
                assert(r@ =~= encode_spec(self@));
                r
            },
            MidiMessageOf::ActiveSensing => {
                let r = vec![0xFE];
                assert(r@ =~= encode_spec(self@));
                r
            },
            MidiMessageOf::SystemReset => {
                let r = vec![0xFF];
                assert(r@ =~= encode_spec(self@));
                r
            },
        }
    }

    /// Get the channel for channel messages (0-15), `None` for system
    /// messages.
    pub fn channel(&self) -> (r: Option<u8>)
        ensures
            r == channel_spec(self@),
    {
        match self {
            MidiMessageOf::NoteOff { channel, .. } => Some(*channel),
            MidiMessageOf::NoteOn { channel, .. } => Some(*channel),
            MidiMessageOf::PolyPressure { channel, .. } => Some(*channel),
            MidiMessageOf::ControlChange { channel, .. } => Some(*channel),
            MidiMessageOf::ProgramChange { channel, .. } => Some(*channel),
            MidiMessageOf::ChannelPressure { channel, .. } => Some(*channel),
            MidiMessageOf::PitchBend { channel, .. } => Some(*channel),
            _ => None,
        }
    }

    /// Check if this is a channel message.
    pub fn is_channel_message(&self) -> (r: bool)
        ensures
            r == channel_spec(self@).is_some(),
    {
        self.channel().is_some()
    }

    /// Check if this is a system message.
    pub fn is_system_message(&self) -> (r: bool)
        ensures
            r == channel_spec(self@).is_none(),
    {
        !self.is_channel_message()
    }
}

/// Parsing the encoding of a well-formed message gives the message back.
pub proof fn lemma_parse_encode_roundtrip(m: MidiModel)
    requires
        well_formed(m),
    ensures
        parse_spec(encode_spec(m)) == Some(m),
{
    let e = encode_spec(m);
    match m {
        MidiMessageOf::PitchBend { channel, value } => {
            assert(join14(e[1], e[2]) == value);
        },
        MidiMessageOf::SongPosition { position } => {
            assert(join14(e[1], e[2]) == position);
        },
        MidiMessageOf::SysEx { data } => {
            let end: int = data.len() as int + 1;
            assert(e[end] == 0xF7);
            assert forall|j: int| 0 <= j < end implies e[j] != 0xF7 by {
                if j > 0 {
                    assert(e[j] == data[j - 1]);
                }
            }
            assert(is_first_eox(e, end));
            let c = choose|i: int| is_first_eox(e, i);
            assert(is_first_eox(e, c));
            if c < end {
                assert(e[c] != 0xF7);
            }
            if end < c {
                assert(e[end] != 0xF7);
            }
            assert(e.subrange(1, end) =~= data);
        },
        _ => {},
    }
}

/// Every message that `parse` produces is well formed; in particular a
/// channel message carries a channel below 16.
pub proof fn lemma_parse_well_formed(s: Seq<u8>)
    requires
        parse_spec(s).is_some(),
    ensures
        well_formed(parse_spec(s).unwrap()),
        channel_spec(parse_spec(s).unwrap()) matches Some(c) ==> c < 16,
{
    if s[0] == 0xF0 {
        let end = choose|i: int| is_first_eox(s, i);
        assert(is_first_eox(s, end));
        let d = s.subrange(1, end);
        assert forall|i: int| 0 <= i < d.len() implies d[i] != 0xF7 by {
            assert(d[i] == s[i + 1]);
        }
    }
}

/// Encoding a parsed message and parsing the bytes again gives the same
/// message.
pub proof fn lemma_parse_idempotent(s: Seq<u8>)
    requires
        parse_spec(s).is_some(),
    ensures
        parse_spec(encode_spec(parse_spec(s).unwrap())) == parse_spec(s),
{
    lemma_parse_well_formed(s);
    lemma_parse_encode_roundtrip(parse_spec(s).unwrap());
}

/// What each channel status nibble reads as: after a status byte
/// `0xK0 + c` (channel `c` below 16), the data bytes give a Note Off
/// (0x8), a Note On (0x9, read as a Note Off when its velocity is 0), a
/// Polyphonic Pressure (0xA), a Control Change (0xB), a Program Change
/// (0xC, one data byte), a Channel Pressure (0xD, one data byte) or a
/// Pitch Bend (0xE, least significant half first), each data byte keeping
/// its low seven bits; trailing bytes are ignored.
pub proof fn law_channel_status_nibbles(c: u8, d1: u8, d2: u8, rest: Seq<u8>)
    requires
        c < 16,
    ensures
        parse_spec(seq![(0x80 + c) as u8, d1, d2] + rest)
            == Some(MidiMessageOf::<Seq<u8>>::NoteOff { channel: c, note: d1 % 128, velocity: d2 % 128 }),
        d2 % 128 != 0 ==> parse_spec(seq![(0x90 + c) as u8, d1, d2] + rest)
            == Some(MidiMessageOf::<Seq<u8>>::NoteOn { channel: c, note: d1 % 128, velocity: d2 % 128 }),
        d2 % 128 == 0 ==> parse_spec(seq![(0x90 + c) as u8, d1, d2] + rest)
            == Some(MidiMessageOf::<Seq<u8>>::NoteOff { channel: c, note: d1 % 128, velocity: 0 }),
        parse_spec(seq![(0xA0 + c) as u8, d1, d2] + rest)
            == Some(MidiMessageOf::<Seq<u8>>::PolyPressure { channel: c, note: d1 % 128, pressure: d2 % 128 }),
        parse_spec(seq![(0xB0 + c) as u8, d1, d2] + rest)
            == Some(MidiMessageOf::<Seq<u8>>::ControlChange { channel: c, cc: d1 % 128, value: d2 % 128 }),
        parse_spec(seq![(0xC0 + c) as u8, d1] + rest)
            == Some(MidiMessageOf::<Seq<u8>>::ProgramChange { channel: c, program: d1 % 128 }),
        parse_spec(seq![(0xD0 + c) as u8, d1] + rest)
            == Some(MidiMessageOf::<Seq<u8>>::ChannelPressure { channel: c, pressure: d1 % 128 }),
        parse_spec(seq![(0xE0 + c) as u8, d1, d2] + rest)
            == Some(MidiMessageOf::<Seq<u8>>::PitchBend { channel: c, value: ((d2 % 128) * 128 + d1 % 128) as u16 }),
{
    let k = seq![(0xC0 + c) as u8, d1] + rest;
    assert(k[0] == (0xC0 + c) as u8 && k[1] == d1);
    let k = seq![(0xD0 + c) as u8, d1] + rest;
    assert(k[0] == (0xD0 + c) as u8 && k[1] == d1);
    let b: Seq<u8> = seq![(0x80 + c) as u8, d1, d2] + rest;
    assert(b[0] == (0x80 + c) as u8 && b[1] == d1 && b[2] == d2);
    let b: Seq<u8> = seq![(0x90 + c) as u8, d1, d2] + rest;
    assert(b[0] == (0x90 + c) as u8 && b[1] == d1 && b[2] == d2);
    let b: Seq<u8> = seq![(0xA0 + c) as u8, d1, d2] + rest;
    assert(b[0] == (0xA0 + c) as u8 && b[1] == d1 && b[2] == d2);
    let b: Seq<u8> = seq![(0xB0 + c) as u8, d1, d2] + rest;
    assert(b[0] == (0xB0 + c) as u8 && b[1] == d1 && b[2] == d2);
    let b: Seq<u8> = seq![(0xE0 + c) as u8, d1, d2] + rest;
    assert(b[0] == (0xE0 + c) as u8 && b[1] == d1 && b[2] == d2);
}

/// What each channel message encodes as: status `0xK0 + channel` with the
/// kind nibbles of [`law_channel_status_nibbles`] (Program Change 0xC0,
/// Channel Pressure 0xD0, ...), then its data bytes, seven bits each
/// (Pitch Bend least significant half first).
pub proof fn law_channel_encodings(c: u8, a: u8, b: u8, v: u16)
    requires
        c < 16,
        v < 16384,
    ensures
        encode_spec(MidiMessageOf::<Seq<u8>>::NoteOff { channel: c, note: a, velocity: b }) == seq![(0x80 + c) as u8, a % 128, b % 128],
        encode_spec(MidiMessageOf::<Seq<u8>>::NoteOn { channel: c, note: a, velocity: b }) == seq![(0x90 + c) as u8, a % 128, b % 128],
        encode_spec(MidiMessageOf::<Seq<u8>>::PolyPressure { channel: c, note: a, pressure: b }) == seq![(0xA0 + c) as u8, a % 128, b % 128],
        encode_spec(MidiMessageOf::<Seq<u8>>::ControlChange { channel: c, cc: a, value: b }) == seq![(0xB0 + c) as u8, a % 128, b % 128],
        encode_spec(MidiMessageOf::<Seq<u8>>::ProgramChange { channel: c, program: a }) == seq![(0xC0 + c) as u8, a % 128],
        encode_spec(MidiMessageOf::<Seq<u8>>::ChannelPressure { channel: c, pressure: a }) == seq![(0xD0 + c) as u8, a % 128],
        encode_spec(MidiMessageOf::<Seq<u8>>::PitchBend { channel: c, value: v }) == seq![(0xE0 + c) as u8, (v % 128) as u8, (v / 128) as u8],
{
}

/// A message is a channel message exactly when the status byte of its
/// encoding is below 0xF0, and then the status byte's low four bits are its
/// channel; system messages have status bytes from 0xF0 on.
pub proof fn law_channel_iff_status_below_f0(m: MidiModel)
    requires
        well_formed(m),
    ensures
        encode_spec(m).len() >= 1,
        channel_spec(m).is_some() <==> encode_spec(m)[0] < 0xF0,
        channel_spec(m) matches Some(c) ==> encode_spec(m)[0] % 16 == c,
{
    match m {
        MidiMessageOf::SysEx { data } => {
            assert((seq![0xF0u8] + data + seq![0xF7u8])[0] == 0xF0u8);
        },
        _ => {},
    }
}

/// The text that `describe` produces: the human-readable form used by the
/// MIDI sniffer (channels shown 1-based).
pub open spec fn describe_spec(m: MidiModel) -> Seq<char> {
    match m {
        MidiMessageOf::NoteOff { channel, note, velocity } => "NoteOff ch:"@ + decimal(
            channel as nat + 1,
        ) + " n:"@ + decimal(note as nat) + " v:"@ + decimal(velocity as nat),
        MidiMessageOf::NoteOn { channel, note, velocity } => "NoteOn ch:"@ + decimal(
            channel as nat + 1,
        ) + " n:"@ + decimal(note as nat) + " v:"@ + decimal(velocity as nat),
        MidiMessageOf::PolyPressure { channel, note, pressure } => "PolyPressure ch:"@ + decimal(
            channel as nat + 1,
        ) + " n:"@ + decimal(note as nat) + " p:"@ + decimal(pressure as nat),
        MidiMessageOf::ControlChange { channel, cc, value } => "CC ch:"@ + decimal(
            channel as nat + 1,
        ) + " cc:"@ + decimal(cc as nat) + " v:"@ + decimal(value as nat),
        MidiMessageOf::ProgramChange { channel, program } => "ProgramChange ch:"@ + decimal(
            channel as nat + 1,
        ) + " p:"@ + decimal(program as nat),
        MidiMessageOf::ChannelPressure { channel, pressure } => "ChannelPressure ch:"@ + decimal(
            channel as nat + 1,
        ) + " p:"@ + decimal(pressure as nat),
        MidiMessageOf::PitchBend { channel, value } => "PitchBend ch:"@ + decimal(
            channel as nat + 1,
        ) + " v:"@ + decimal(value as nat),
        MidiMessageOf::SysEx { data } => "SysEx "@ + decimal(data.len()) + " bytes"@,
        MidiMessageOf::MidiTimeCode { data } => "MidiTimeCode { data: "@ + decimal(data as nat)
            + " }"@,
        MidiMessageOf::SongPosition { position } => "SongPosition { position: "@ + decimal(
            position as nat,
        ) + " }"@,
        MidiMessageOf::SongSelect { song } => "SongSelect { song: "@ + decimal(song as nat)
            + " }"@,
        MidiMessageOf::TuneRequest => "TuneRequest"@,
        MidiMessageOf::TimingClock => "TimingClock"@,
        MidiMessageOf::Start => "Start"@,
        MidiMessageOf::Continue => "Continue"@,
        MidiMessageOf::Stop => "Stop"@,
        MidiMessageOf::ActiveSensing => "ActiveSensing"@,
        MidiMessageOf::SystemReset => "SystemReset"@,
    }
}

/// Bytes as upper-case two-digit hexadecimal, separated by single spaces.
pub open spec fn hex_listing(data: Seq<u8>) -> Seq<char>
    decreases data.len(),
{
    if data.len() == 0 {
        Seq::empty()
    } else if data.len() == 1 {
        hex_byte(data[0])
    } else {
        hex_listing(data.drop_last()) + " "@ + hex_byte(data.last())
    }
}

/// The sniffer line for a message: timestamp, direction, port, hex bytes
/// and, when the bytes parse, the decoded message.
pub open spec fn sniffer_line(
    timestamp_ms: u64,
    direction: Seq<char>,
    port: Seq<char>,
    data: Seq<u8>,
) -> Seq<char> {
    "["@ + zero_padded(decimal(timestamp_ms as nat), 8) + "ms] "@ + direction + " "@ + port
        + " | "@ + hex_listing(data) + match parse_spec(data) {
        Some(m) => " => "@ + describe_spec(m),
        None => Seq::empty(),
    }
}

fn push_ch(s: &mut String, prefix: &str, channel: u8)
    requires
        channel < 255,
    ensures
        final(s)@ == old(s)@ + prefix@ + decimal(channel as nat + 1),
{
    s.append(prefix);
    push_decimal(s, (channel + 1) as u64);
}

fn push_field(s: &mut String, label: &str, v: u64)
    ensures
        final(s)@ == old(s)@ + label@ + decimal(v as nat),
{
    s.append(label);
    push_decimal(s, v);
}

impl MidiMessageOf<Vec<u8>> {
    /// Human-readable form of the message (channels shown 1-based, as the
    /// X-Touch labels them). System messages other than SysEx use their
    /// structural form, e.g. `SongSelect { song: 3 }`.
    pub fn describe(&self) -> (r: String)
        requires
            channel_spec(self@) matches Some(c) ==> c < 255,
        ensures
            r@ == describe_spec(self@),
    {
        let mut s = String::new();
        match self {
            MidiMessageOf::NoteOff { channel, note, velocity } => {
                push_ch(&mut s, "NoteOff ch:", *channel);
                push_field(&mut s, " n:", *note as u64);
                push_field(&mut s, " v:", *velocity as u64);
            },
            MidiMessageOf::NoteOn { channel, note, velocity } => {
                push_ch(&mut s, "NoteOn ch:", *channel);
                push_field(&mut s, " n:", *note as u64);
                push_field(&mut s, " v:", *velocity as u64);
            },
            MidiMessageOf::PolyPressure { channel, note, pressure } => {
                push_ch(&mut s, "PolyPressure ch:", *channel);
                push_field(&mut s, " n:", *note as u64);
                push_field(&mut s, " p:", *pressure as u64);
            },
            MidiMessageOf::ControlChange { channel, cc, value } => {
                push_ch(&mut s, "CC ch:", *channel);
                push_field(&mut s, " cc:", *cc as u64);
                push_field(&mut s, " v:", *value as u64);
            },
            MidiMessageOf::ProgramChange { channel, program } => {
                push_ch(&mut s, "ProgramChange ch:", *channel);
                push_field(&mut s, " p:", *program as u64);
            },
            MidiMessageOf::ChannelPressure { channel, pressure } => {
                push_ch(&mut s, "ChannelPressure ch:", *channel);
                push_field(&mut s, " p:", *pressure as u64);
            },
            MidiMessageOf::PitchBend { channel, value } => {
                push_ch(&mut s, "PitchBend ch:", *channel);
                push_field(&mut s, " v:", *value as u64);
            },
            MidiMessageOf::SysEx { data } => {
                push_field(&mut s, "SysEx ", data.len() as u64);
                s.append(" bytes");
            },
            MidiMessageOf::MidiTimeCode { data } => {
                push_field(&mut s, "MidiTimeCode { data: ", *data as u64);
                s.append(" }");
            },
            MidiMessageOf::SongPosition { position } => {
                push_field(&mut s, "SongPosition { position: ", *position as u64);
                s.append(" }");
            },
            MidiMessageOf::SongSelect { song } => {
                push_field(&mut s, "SongSelect { song: ", *song as u64);
                s.append(" }");
            },
            MidiMessageOf::TuneRequest => s.append("TuneRequest"),
            MidiMessageOf::TimingClock => s.append("TimingClock"),
            MidiMessageOf::Start => s.append("Start"),
            MidiMessageOf::Continue => s.append("Continue"),
            MidiMessageOf::Stop => s.append("Stop"),
            MidiMessageOf::ActiveSensing => s.append("ActiveSensing"),
            MidiMessageOf::SystemReset => s.append("SystemReset"),
        }
        assert(s@ =~= describe_spec(self@));
        s
    }
}

/// Format MIDI bytes as a hex string for debugging, e.g. `"90 3C 64"`.
pub fn format_hex(data: &[u8]) -> (r: String)
    ensures
        r@ == hex_listing(data@),
{
    let mut s = String::new();
    let mut i: usize = 0;
    while i < data.len()
        invariant
            i <= data.len(),
            s@ == hex_listing(data@.subrange(0, i as int)),
        decreases data.len() - i,
    {
        let ghost prev = data@.subrange(0, i as int);
        if i > 0 {
            push_char(&mut s, ' ');
        }
        push_hex_byte(&mut s, data[i]);
        i = i + 1;
        proof {
            let cur = data@.subrange(0, i as int);
            assert(cur.drop_last() =~= prev);
            assert(cur.last() == data@[i - 1]);
            if i == 1 {
                assert(prev.len() == 0);
            } else {
                assert(seq![' '] =~= " "@) by {
                    reveal_strlit(" ");
                }
            }
            assert(s@ =~= hex_listing(cur));
        }
    }
    assert(data@.subrange(0, data.len() as int) =~= data@);
    s
}

/// Format a MIDI message for sniffer output:
/// `[{timestamp:08}ms] {direction} {port} | {hex}` followed by
/// ` => {message}` when the bytes parse.
pub fn format_sniffer(timestamp_ms: u64, direction: &str, port: &str, data: &[u8]) -> (r: String)
    ensures
        r@ == sniffer_line(timestamp_ms, direction@, port@, data@),
{
    let mut s = String::new();
    s.append("[");
    push_decimal_padded(&mut s, timestamp_ms, 8);
    s.append("ms] ");
    s.append(direction);
    s.append(" ");
    s.append(port);
    s.append(" | ");
    let hex = format_hex(data);
    s.append(hex.as_str());
    match MidiMessage::parse(data) {
        Some(m) => {
            proof {
                lemma_parse_well_formed(data@);
            }
            s.append(" => ");
            let d = m.describe();
            s.append(d.as_str());
        },
        None => {},
    }
    assert(s@ =~= sniffer_line(timestamp_ms, direction@, port@, data@));
    s
}

} // verus!
