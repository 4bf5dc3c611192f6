//! MIDI bridge rules: which messages pass to an application port, how
//! pitch bend is rewritten on the way, and the reconnection schedule.

use vstd::prelude::*;

use crate::midi::convert::to_7bit;
use crate::midi::{channel_spec, encode_spec, MidiMessage, MidiMessageOf, MidiModel};
use crate::params::ParamValue;
use crate::text::{char_range, chars_of, parse_u16_radix, parse_u16_spec, str_eq};

verus! {

/// Which messages a bridge lets through. Every configured criterion must
/// hold.
#[derive(Debug, Clone)]
pub struct MidiFilterConfig {
    /// Accepted channels, 1-based.
    pub channels: Option<Vec<u8>>,
    /// Accepted kinds: `noteOn`, `noteOff`, `controlChange`, `pitchBend`,
    /// `programChange`, `channelAftertouch`, `polyAftertouch`.
    pub types: Option<Vec<String>>,
    /// Notes let through (note messages only).
    pub include_notes: Option<Vec<u8>>,
    /// Notes held back (note messages only).
    pub exclude_notes: Option<Vec<u8>>,
}

/// Pitch bend to control change rewriting.
#[derive(Debug, Clone)]
pub struct PbToCcConfig {
    /// Channel of the produced control change (1 when unset).
    pub target_channel: Option<u8>,
    /// Control number per pitch bend channel (a number, or a string in
    /// decimal or `0x` hexadecimal).
    pub cc_by_channel: Option<Vec<(u8, ParamValue)>>,
    /// Control number of channel 1, the others following it (45 when
    /// unset).
    pub base_cc: Option<ParamValue>,
}

/// Pitch bend to note rewriting.
#[derive(Debug, Clone)]
pub struct PbToNoteConfig {
    /// Note played (60 when unset; at most 127).
    pub note: Option<u8>,
}

/// How a bridge rewrites messages.
#[derive(Debug, Clone)]
pub struct TransformConfig {
    pub pb_to_cc: Option<PbToCcConfig>,
    pub pb_to_note: Option<PbToNoteConfig>,
}

// ---------------------------------------------------------------------------
// Numbers written in decimal or hexadecimal
// ---------------------------------------------------------------------------

/// A number given as a parameter, or `default`: a non-negative integer
/// keeps its low 16 bits, a string is read in hexadecimal after `0x`/`0X`
/// and in decimal otherwise.
pub open spec fn number_maybe_hex_spec(value: ParamValue, default: u16) -> u16 {
    match value {
        ParamValue::UInt(n) => (n % 0x10000) as u16,
        ParamValue::Int(n) => if n >= 0 { (n % 0x10000) as u16 } else { default },
        ParamValue::Fraction(_) => default,
        ParamValue::Str(s) => {
            let cs = s@;
            let hex = cs.len() >= 2 && cs[0] == '0' && (cs[1] == 'x' || cs[1] == 'X');
            let parsed = if hex { parse_u16_spec(cs.skip(2), true) } else { parse_u16_spec(cs, false) };
            match parsed {
                Some(v) => v,
                None => default,
            }
        },
        _ => default,
    }
}

/// Parse a number that may be written in hexadecimal (`"0x2D"`), in
/// decimal (`"45"` or `45`), falling back to `default`.
pub fn parse_number_maybe_hex(value: &ParamValue, default: u16) -> (r: u16)
    ensures
        r == number_maybe_hex_spec(*value, default),
{
    match value {
        ParamValue::UInt(n) => (*n % 0x10000) as u16,
        ParamValue::Int(n) => if *n >= 0 {
            (*n % 0x10000) as u16
        } else {
            default
        },
        ParamValue::Str(s) => {
            let cs = chars_of(s.as_str());
            let hex = cs.len() >= 2 && cs[0] == '0' && (cs[1] == 'x' || cs[1] == 'X');
            let parsed = if hex {
                let digits = char_range(&cs, 2, cs.len());
                assert(digits@ =~= cs@.skip(2));
                parse_u16_radix(&digits, true)
            } else {
                parse_u16_radix(&cs, false)
            };
            match parsed {
                Some(v) => v,
                None => default,
            }
        },
        _ => default,
    }
}

// ---------------------------------------------------------------------------
// Filtering
// ---------------------------------------------------------------------------

/// The note a message is about (note on/off and polyphonic pressure).
pub open spec fn note_spec(m: MidiModel) -> Option<u8> {
    match m {
        MidiMessageOf::NoteOff { note, .. } => Some(note),
        MidiMessageOf::NoteOn { note, .. } => Some(note),
        MidiMessageOf::PolyPressure { note, .. } => Some(note),
        _ => None,
    }
}

/// The kind name of a channel voice message (a note on with velocity 0
/// counts as a note off); `None` for other messages.
pub open spec fn kind_name_spec(m: MidiModel) -> Option<Seq<char>> {
    match m {
        MidiMessageOf::NoteOn { velocity, .. } => if velocity > 0 { Some("noteOn"@) } else { Some("noteOff"@) },
        MidiMessageOf::NoteOff { .. } => Some("noteOff"@),
        MidiMessageOf::ControlChange { .. } => Some("controlChange"@),
        MidiMessageOf::PitchBend { .. } => Some("pitchBend"@),
        MidiMessageOf::ProgramChange { .. } => Some("programChange"@),
        MidiMessageOf::ChannelPressure { .. } => Some("channelAftertouch"@),
        MidiMessageOf::PolyPressure { .. } => Some("polyAftertouch"@),
        _ => None,
    }
}

/// The kinds listed by a filter.
pub open spec fn kinds_of(types: Seq<String>) -> Seq<Seq<char>> {
    types.map_values(|t: String| t@)
}

/// Whether the filter lets `m` through.
pub open spec fn filter_spec(filter: Option<MidiFilterConfig>, m: MidiModel) -> bool {
    match filter {
        None => true,
        Some(f) => {
            &&& (f.channels matches Some(chs) ==> (channel_spec(m) matches Some(c) && chs@.contains(
                (c + 1) as u8,
            )))
            &&& (f.types matches Some(ts) ==> (kind_name_spec(m) matches Some(k) && kinds_of(ts@).contains(k)))
            &&& (f.include_notes matches Some(inc) ==> (note_spec(m) matches Some(n) ==> inc@.contains(n)))
            &&& (f.exclude_notes matches Some(exc) ==> (note_spec(m) matches Some(n) ==> !exc@.contains(n)))
        },
    }
}

/// The filter can be evaluated on `m`: channel numbers are shown 1-based,
/// which needs a channel below 255.
pub open spec fn filter_defined(filter: Option<MidiFilterConfig>, m: MidiModel) -> bool {
    filter matches Some(f) && f.channels is Some ==> (channel_spec(m) matches Some(c) ==> c < 255)
}

/// A filter that only lists kinds lets a channel message through exactly
/// when the kind of its variant is listed: `"noteOn"` for a Note On with a
/// non-zero velocity, `"noteOff"` for a Note Off or a Note On with velocity
/// 0, `"polyAftertouch"` for Polyphonic Pressure, `"controlChange"`,
/// `"programChange"`, `"channelAftertouch"` for Channel Pressure and
/// `"pitchBend"`; it holds back every system message.
pub proof fn law_kind_filter_by_variant(f: MidiFilterConfig, m: MidiModel)
    requires
        f.channels is None,
        f.include_notes is None,
        f.exclude_notes is None,
        f.types is Some,
    ensures
        ({
            let kinds = kinds_of(f.types.unwrap()@);
            let passes = filter_spec(Some(f), m);
            &&& m is ChannelPressure ==> (passes <==> kinds.contains("channelAftertouch"@))
            &&& m is PolyPressure ==> (passes <==> kinds.contains("polyAftertouch"@))
            &&& m is ProgramChange ==> (passes <==> kinds.contains("programChange"@))
            &&& m is ControlChange ==> (passes <==> kinds.contains("controlChange"@))
            &&& m is PitchBend ==> (passes <==> kinds.contains("pitchBend"@))
            &&& m is NoteOff ==> (passes <==> kinds.contains("noteOff"@))
            &&& (m matches MidiMessageOf::NoteOn { velocity, .. } && velocity > 0) ==> (passes <==> kinds.contains("noteOn"@))
            &&& (m matches MidiMessageOf::NoteOn { velocity, .. } && velocity == 0) ==> (passes <==> kinds.contains("noteOff"@))
            &&& channel_spec(m) is None ==> !passes
        }),
{
}

fn byte_listed(list: &Vec<u8>, x: u8) -> (r: bool)
    ensures
        r == list@.contains(x),
{
    let mut i: usize = 0;
    while i < list.len()
        invariant
            i <= list@.len(),
            forall|j: int| 0 <= j < i ==> list@[j] != x,
        decreases list.len() - i,
    {
        if list[i] == x {
            return true;
        }
        i = i + 1;
    }
    false
}

fn kind_listed(list: &Vec<String>, kind: &str) -> (r: bool)
    ensures
        r == kinds_of(list@).contains(kind@),
{
    let mut i: usize = 0;
    while i < list.len()
        invariant
            i <= list@.len(),
            forall|j: int| 0 <= j < i ==> list@[j]@ != kind@,
        decreases list.len() - i,
    {
        if str_eq(list[i].as_str(), kind) {
            assert(kinds_of(list@)[i as int] == kind@);
            return true;
        }
        i = i + 1;
    }
    assert(!kinds_of(list@).contains(kind@)) by {
        if kinds_of(list@).contains(kind@) {
            let j = choose|j: int| 0 <= j < kinds_of(list@).len() && kinds_of(list@)[j] == kind@;
            assert(list@[j]@ == kind@);
        }
    }
    false
}

fn note_of(msg: &MidiMessage) -> (r: Option<u8>)
    ensures
        r == note_spec(msg@),
{
    match msg {
        MidiMessageOf::NoteOff { note, .. } => Some(*note),
        MidiMessageOf::NoteOn { note, .. } => Some(*note),
        MidiMessageOf::PolyPressure { note, .. } => Some(*note),
        _ => None,
    }
}

fn kind_name(msg: &MidiMessage) -> (r: Option<&'static str>)
    ensures
        r.is_some() == kind_name_spec(msg@).is_some(),
        r matches Some(k) ==> Some(k@) == kind_name_spec(msg@),
{
    match msg {
        MidiMessageOf::NoteOn { velocity, .. } => if *velocity > 0 {
            Some("noteOn")
        } else {
            Some("noteOff")
        },
        MidiMessageOf::NoteOff { .. } => Some("noteOff"),
        MidiMessageOf::ControlChange { .. } => Some("controlChange"),
        MidiMessageOf::PitchBend { .. } => Some("pitchBend"),
        MidiMessageOf::ProgramChange { .. } => Some("programChange"),
        MidiMessageOf::ChannelPressure { .. } => Some("channelAftertouch"),
        MidiMessageOf::PolyPressure { .. } => Some("polyAftertouch"),
        _ => None,
    }
}

/// Whether a message passes the bridge filter: without a filter every
/// message passes; a channel list admits channel messages on a listed
/// (1-based) channel; a kind list admits the listed kinds of channel voice
/// messages; note lists only constrain note messages.
pub fn matches_filter(filter: &Option<MidiFilterConfig>, msg: &MidiMessage) -> (r: bool)
    requires
        filter_defined(*filter, msg@),
    ensures
        r == filter_spec(*filter, msg@),
{
    let f = match filter {
        Some(f) => f,
        None => return true,
    };
    if let Some(channels) = &f.channels {
        match msg.channel() {
            Some(ch) => {
                if !byte_listed(channels, ch + 1) {
                    return false;
                }
            },
            None => return false,
        }
    }
    if let Some(types) = &f.types {
        match kind_name(msg) {
            Some(k) => {
                if !kind_listed(types, k) {
                    return false;
                }
            },
            None => return false,
        }
    }
    if let Some(admitted) = &f.include_notes {
        if let Some(n) = note_of(msg) {
            if !byte_listed(admitted, n) {
                return false;
            }
        }
    }
    if let Some(exclude) = &f.exclude_notes {
        if let Some(n) = note_of(msg) {
            if byte_listed(exclude, n) {
                return false;
            }
        }
    }
    true
}

// ---------------------------------------------------------------------------
// Rewriting
// ---------------------------------------------------------------------------

/// The first control number configured for `channel`, if any.
pub open spec fn cc_entry(map: Seq<(u8, ParamValue)>, channel: u8) -> Option<ParamValue>
    decreases map.len(),
{
    if map.len() == 0 {
        None
    } else if map[0].0 == channel {
        Some(map[0].1)
    } else {
        cc_entry(map.drop_first(), channel)
    }
}

/// The configured base control number.
pub open spec fn base_cc_spec(p: PbToCcConfig) -> u16 {
    match p.base_cc {
        Some(v) => number_maybe_hex_spec(v, 45),
        None => 45,
    }
}

/// The control number configured explicitly for a channel, if any.
pub open spec fn explicit_cc(p: PbToCcConfig, channel: u8) -> Option<u16> {
    match p.cc_by_channel {
        Some(m) => match cc_entry(m@, channel) {
            Some(v) => Some(number_maybe_hex_spec(v, 0)),
            None => None,
        },
        None => None,
    }
}

/// The control number a pitch bend on `channel` becomes, before it is
/// capped at 127: the explicit one, else the base plus `channel - 1`.
pub open spec fn pb_cc_number(p: PbToCcConfig, channel: u8) -> int {
    match explicit_cc(p, channel) {
        Some(c) => c as int,
        None => base_cc_spec(p) + channel - 1,
    }
}

/// The control number can be computed: an explicit number, or a channel of
/// at least 1 whose offset from the base stays within 16 bits.
pub open spec fn pb_cc_defined(p: PbToCcConfig, channel: u8) -> bool {
    explicit_cc(p, channel) is Some || (channel >= 1 && base_cc_spec(p) + channel - 1 <= 0xFFFF)
}

/// The velocity a pitch bend value becomes: `value * 127 / 16383`, capped
/// at 255. This is an integer model of the single-precision formula
/// `((value as f32 / 16383.0) * 127.0) as u8` (the float-to-integer cast
/// saturating at 255); the two agree on every `u16`, which the tests check
/// value by value.
pub open spec fn pb_velocity(value: u16) -> u8 {
    if value * 127 / 16383 > 255 {
        255
    } else {
        (value * 127 / 16383) as u8
    }
}

/// The bytes a message becomes on its way through the bridge.
pub open spec fn transform_spec(t: Option<TransformConfig>, m: MidiModel) -> Seq<u8> {
    match (t, m) {
        (Some(tc), MidiMessageOf::PitchBend { channel, value }) => match (tc.pb_to_cc, tc.pb_to_note) {
            (Some(p), _) => encode_spec(
                MidiMessageOf::ControlChange {
                    channel: match p.target_channel {
                        Some(c) => c,
                        None => 1,
                    },
                    cc: if pb_cc_number(p, channel) > 127 { 127 } else { pb_cc_number(p, channel) as u8 },
                    value: ((value / 128) % 128) as u8,
                },
            ),
            (None, Some(n)) => encode_spec(
                MidiMessageOf::NoteOn {
                    channel,
                    note: match n.note {
                        Some(k) => if k > 127 { 127 } else { k },
                        None => 60,
                    },
                    velocity: pb_velocity(value),
                },
            ),
            (None, None) => encode_spec(m),
        },
        _ => encode_spec(m),
    }
}

/// The rewriting can be computed for `m`.
pub open spec fn transform_defined(t: Option<TransformConfig>, m: MidiModel) -> bool {
    match (t, m) {
        (Some(tc), MidiMessageOf::PitchBend { channel, .. }) => match tc.pb_to_cc {
            Some(p) => pb_cc_defined(p, channel),
            None => true,
        },
        _ => true,
    }
}

fn lookup_cc(map: &Vec<(u8, ParamValue)>, channel: u8) -> (r: Option<&ParamValue>)
    ensures
        r.is_some() == cc_entry(map@, channel).is_some(),
        r matches Some(v) ==> Some(*v) == cc_entry(map@, channel),
{
    let mut i: usize = 0;
    assert(map@.skip(0) =~= map@);
    while i < map.len()
        invariant
            i <= map@.len(),
            cc_entry(map@, channel) == cc_entry(map@.skip(i as int), channel),
        decreases map.len() - i,
    {
        proof {
            assert(map@.skip(i as int).drop_first() =~= map@.skip(i + 1));
            assert(map@.skip(i as int)[0] == map@[i as int]);
        }
        if map[i].0 == channel {
            return Some(&map[i].1);
        }
        i = i + 1;
    }
    None
}

fn base_cc(p: &PbToCcConfig) -> (r: u16)
    ensures
        r == base_cc_spec(*p),
{
    match &p.base_cc {
        Some(v) => parse_number_maybe_hex(v, 45),
        None => 45,
    }
}

/// The velocity of a rewritten note: the pitch bend value scaled from
/// 0..=16383 to 0..=127, rounded down (capped at 255 beyond the range);
/// computed in integers (see [`pb_velocity`]).
pub fn pb_to_velocity(value: u16) -> (r: u8)
    ensures
        r == pb_velocity(value),
{
    let v: u32 = (value as u32) * 127 / 16383;
    if v > 255 {
        255
    } else {
        v as u8
    }
}

/// Rewrite a message on its way to the application: with a pitch bend to
/// control change rule, a pitch bend becomes a control change carrying its
/// 7-bit value; otherwise, with a pitch bend to note rule, a note on whose
/// velocity follows the bend; any other message is sent unchanged.
pub fn apply_transform(transform: &Option<TransformConfig>, msg: MidiMessage) -> (r: Option<Vec<u8>>)
    requires
        transform_defined(*transform, msg@),
    ensures
        r matches Some(b) && b@ == transform_spec(*transform, msg@),
{
    let t = match transform {
        Some(t) => t,
        None => return Some(msg.encode()),
    };
    if let MidiMessageOf::PitchBend { channel, value } = msg {
        if let Some(p) = &t.pb_to_cc {
            let value_7bit = to_7bit(value);
            let target_channel = match p.target_channel {
                Some(c) => c,
                None => 1,
            };
            let explicit = match &p.cc_by_channel {
                Some(map) => match lookup_cc(map, channel) {
                    Some(v) => Some(parse_number_maybe_hex(v, 0)),
                    None => None,
                },
                None => None,
            };
            let cc16: u16 = match explicit {
                Some(c) => c,
                None => base_cc(p) + (channel as u16 - 1),
            };
            let cc: u8 = if cc16 > 127 { 127 } else { cc16 as u8 };
            let out = MidiMessageOf::ControlChange { channel: target_channel, cc, value: value_7bit };
            return Some(out.encode());
        }
        if let Some(n) = &t.pb_to_note {
            let note = match n.note {
                Some(k) => if k > 127 { 127 } else { k },
                None => 60,
            };
            let out = MidiMessageOf::NoteOn { channel, note, velocity: pb_to_velocity(value) };
            return Some(out.encode());
        }
    }
    Some(msg.encode())
}

// ---------------------------------------------------------------------------
// The outgoing path
// ---------------------------------------------------------------------------

/// What the bridge does with bytes bound for the application.
#[derive(Debug, Clone, PartialEq, Eq)]
pub enum Outgoing {
    /// The bytes are not a MIDI message: nothing is sent.
    Unparsed,
    /// The filter holds the message back.
    Filtered,
    /// These bytes are sent.
    Send(Vec<u8>),
}

/// The fate of outgoing bytes: unparsed, filtered out, or sent as the
/// rewritten message.
pub open spec fn outgoing_spec(filter: Option<MidiFilterConfig>, transform: Option<TransformConfig>, data: Seq<u8>) -> Option<Option<Seq<u8>>> {
    match crate::midi::parse_spec(data) {
        None => None,
        Some(m) => if filter_spec(filter, m) {
            Some(Some(transform_spec(transform, m)))
        } else {
            Some(None)
        },
    }
}

/// `o` is what the bridge does with `data` (see [`outgoing_spec`]).
pub open spec fn outgoing_is(o: Outgoing, filter: Option<MidiFilterConfig>, transform: Option<TransformConfig>, data: Seq<u8>) -> bool {
    match (o, outgoing_spec(filter, transform, data)) {
        (Outgoing::Unparsed, None) => true,
        (Outgoing::Filtered, Some(None)) => true,
        (Outgoing::Send(b), Some(Some(s))) => b@ == s,
        _ => false,
    }
}

/// The rewriting can be computed for the outgoing bytes: they do not parse,
/// the filter holds them back, or the rewriting of their message is
/// defined (see [`transform_defined`]).
pub open spec fn outgoing_defined(filter: Option<MidiFilterConfig>, transform: Option<TransformConfig>, data: Seq<u8>) -> bool {
    crate::midi::parse_spec(data) matches Some(m) ==> (filter_spec(filter, m) ==> transform_defined(transform, m))
}

/// Whether the rewriting of `msg` can be computed.
pub fn transform_is_defined(transform: &Option<TransformConfig>, msg: &MidiMessage) -> (r: bool)
    ensures
        r == transform_defined(*transform, msg@),
{
    let t = match transform {
        Some(t) => t,
        None => return true,
    };
    let channel = match msg {
        MidiMessageOf::PitchBend { channel, .. } => *channel,
        _ => return true,
    };
    let p = match &t.pb_to_cc {
        Some(p) => p,
        None => return true,
    };
    let explicit = match &p.cc_by_channel {
        Some(m) => lookup_cc(m, channel).is_some(),
        None => false,
    };
    explicit || (channel >= 1 && (base_cc(p) as u32) + (channel as u32) - 1 <= 0xFFFF)
}

/// Decide what the bridge sends for outgoing bytes: parse them, apply the
/// filter, then the rewriting rules.
pub fn prepare_outgoing(filter: &Option<MidiFilterConfig>, transform: &Option<TransformConfig>, data: &[u8]) -> (r: Outgoing)
    requires
        outgoing_defined(*filter, *transform, data@),
    ensures
        outgoing_is(r, *filter, *transform, data@),
{
    let msg = match MidiMessage::parse(data) {
        Some(m) => m,
        None => return Outgoing::Unparsed,
    };
    proof {
        crate::midi::lemma_parse_well_formed(data@);
    }
    if !matches_filter(filter, &msg) {
        return Outgoing::Filtered;
    }
    match apply_transform(transform, msg) {
        Some(bytes) => Outgoing::Send(bytes),
        None => Outgoing::Filtered,
    }
}

/// [`prepare_outgoing`] for any bytes: `None` when the message passes the
/// filter but its rewriting cannot be computed (a pitch bend on channel 0,
/// or past the 16-bit control range, under the base control rule), else
/// what the bridge does with them.
pub fn prepare_outgoing_checked(filter: &Option<MidiFilterConfig>, transform: &Option<TransformConfig>, data: &[u8]) -> (r: Option<Outgoing>)
    ensures
        r is None <==> !outgoing_defined(*filter, *transform, data@),
        r matches Some(o) ==> outgoing_is(o, *filter, *transform, data@),
{
    let msg = match MidiMessage::parse(data) {
        Some(m) => m,
        None => return Some(Outgoing::Unparsed),
    };
    proof {
        crate::midi::lemma_parse_well_formed(data@);
    }
    if !matches_filter(filter, &msg) {
        return Some(Outgoing::Filtered);
    }
    if !transform_is_defined(transform, &msg) {
        return None;
    }
    match apply_transform(transform, msg) {
        Some(bytes) => Some(Outgoing::Send(bytes)),
        None => Some(Outgoing::Filtered),
    }
}

// ---------------------------------------------------------------------------
// Reconnection
// ---------------------------------------------------------------------------

/// The retry counter stops growing here; the delay is saturated long
/// before.
pub const RECONNECT_COUNTER_CAP: usize = 40;

/// The next reconnection attempt: the counter advanced (capped at
/// [`RECONNECT_COUNTER_CAP`]) and the delay before it, 250 ms per attempt
/// up to 10 s.
pub fn next_reconnect(count: usize) -> (r: (usize, u64))
    ensures
        r.0 == (if count >= RECONNECT_COUNTER_CAP { RECONNECT_COUNTER_CAP } else { (count + 1) as usize }),
        r.1 == (if 250 * r.0 > 10_000 { 10_000 } else { 250 * r.0 }),
{
    let next = if count >= RECONNECT_COUNTER_CAP { RECONNECT_COUNTER_CAP } else { count + 1 };
    let delay: u64 = 250 * (next as u64);
    (next, if delay > 10_000 { 10_000 } else { delay })
}

/// Connection status of a bridge.
#[derive(Debug, Clone, Copy, PartialEq, Eq, Structural)]
pub enum BridgeStatus {
    Connected,
    Reconnecting { attempt: usize },
    Disconnected,
}

/// A bridge is connected when both ports are open; otherwise it is
/// reconnecting while either direction has a retry count (reporting the
/// larger), else disconnected.
pub fn compute_status(out_connected: bool, in_connected: bool, out_count: usize, in_count: usize) -> (r: BridgeStatus)
    ensures
        r == (if out_connected && in_connected {
            BridgeStatus::Connected
        } else if out_count > 0 || in_count > 0 {
            BridgeStatus::Reconnecting { attempt: if out_count >= in_count { out_count } else { in_count } }
        } else {
            BridgeStatus::Disconnected
        }),
{
    if out_connected && in_connected {
        BridgeStatus::Connected
    } else {
        let max_count = if out_count >= in_count { out_count } else { in_count };
        if max_count > 0 {
            BridgeStatus::Reconnecting { attempt: max_count }
        } else {
            BridgeStatus::Disconnected
        }
    }
}


/// The bytes an array of parameters stands for: each value that is a
/// non-negative integer, in order, reduced modulo 256 (`as u8`); other
/// values are skipped.
pub open spec fn bytes_of_values(values: Seq<ParamValue>) -> Seq<u8>
    decreases values.len(),
{
    if values.len() == 0 {
        Seq::empty()
    } else {
        let rest = bytes_of_values(values.drop_last());
        match values.last() {
            ParamValue::UInt(n) => rest.push((n % 256) as u8),
            _ => rest,
        }
    }
}

/// The MIDI bytes an array of parameters stands for (see
/// [`bytes_of_values`]).
pub fn bytes_from_values(values: &[ParamValue]) -> (r: Vec<u8>)
    ensures
        r@ == bytes_of_values(values@),
{
    let mut out: Vec<u8> = Vec::new();
    let mut i: usize = 0;
    while i < values.len()
        invariant
            i <= values@.len(),
            out@ == bytes_of_values(values@.take(i as int)),
        decreases values.len() - i,
    {
        assert(values@.take(i as int) == values@.take((i + 1) as int).drop_last());
        match &values[i] {
            ParamValue::UInt(n) => {
                let b: u8 = (*n % 256) as u8;
                out.push(b);
            },
            _ => {},
        }
        i = i + 1;
    }
    assert(values@.take(values@.len() as int) == values@);
    out
}

/// What a bridge action sends: `passthrough` forwards the array in the
/// event value when it holds at least one byte; `send` sends the array
/// given as first parameter; anything else sends nothing.
pub open spec fn bridge_send_spec(action: Seq<char>, params: Seq<ParamValue>, value: Option<ParamValue>) -> Option<Seq<u8>> {
    if action == "passthrough"@ {
        match value {
            Some(ParamValue::Array(items)) => if bytes_of_values(items@).len() > 0 {
                Some(bytes_of_values(items@))
            } else {
                None
            },
            _ => None,
        }
    } else if action == "send"@ {
        if params.len() > 0 {
            match params[0] {
                ParamValue::Array(items) => Some(bytes_of_values(items@)),
                _ => None,
            }
        } else {
            None
        }
    } else {
        None
    }
}

/// The message a bridge action sends, if any (see [`bridge_send_spec`]).
pub fn bridge_send_bytes(action: &str, params: &[ParamValue], value: &Option<ParamValue>) -> (r: Option<Vec<u8>>)
    ensures
        match (r, bridge_send_spec(action@, params@, *value)) {
            (Some(b), Some(c)) => b@ == c,
            (None, None) => true,
            _ => false,
        },
{
    if str_eq(action, "passthrough") {
        match value {
            Some(ParamValue::Array(items)) => {
                let bytes = bytes_from_values(items.as_slice());
                if bytes.len() > 0 {
                    Some(bytes)
                } else {
                    None
                }
            },
            _ => None,
        }
    } else if str_eq(action, "send") {
        if params.len() > 0 {
            match &params[0] {
                ParamValue::Array(items) => Some(bytes_from_values(items.as_slice())),
                _ => None,
            }
        } else {
            None
        }
    } else {
        None
    }
}

} // verus!
