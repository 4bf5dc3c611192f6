//! Hardware MIDI addressing of the X-Touch controls.
//!
//! Each control id (`"fader1"`, `"mute4"`, `"play"`, ...) is addressed by one
//! MIDI message kind in each of the two surface modes (native X-Touch mode
//! and Mackie Control mode).

use vstd::prelude::*;

use crate::text::str_eq;

verus! {

/// How the surface addresses one control.
#[derive(Debug, Clone, Copy, PartialEq, Eq, Structural)]
pub enum MidiSpec {
    /// A motorized fader driven by 14-bit pitch bend on `channel` (0-based).
    PitchBend { channel: u8 },
    /// A control driven by a control change number on channel 0.
    ControlChange { cc: u8 },
    /// A button (and its LED) addressed by a note number on channel 0.
    Note { note: u8 },
}

/// The bytes that light (`lit`) or extinguish a control's LED.
pub open spec fn led_bytes_spec(spec: MidiSpec, lit: bool) -> Seq<u8> {
    match spec {
        MidiSpec::Note { note } => seq![0x90u8, note & 0x7F, if lit { 127u8 } else { 0u8 }],
        MidiSpec::ControlChange { cc } => seq![0xB0u8, cc & 0x7F, if lit { 127u8 } else { 0u8 }],
        MidiSpec::PitchBend { channel } => seq![
            0xE0u8 | (channel & 0x0F),
            if lit { 0x7Fu8 } else { 0u8 },
            if lit { 0x7Fu8 } else { 0u8 },
        ],
    }
}

impl MidiSpec {
    /// The MIDI message that lights or extinguishes this control's LED:
    /// a NoteOn on channel 0 with velocity 127 (lit) or 0 (unlit) for a
    /// note-addressed button; full scale or zero for the other kinds.
    pub fn led_bytes(&self, lit: bool) -> (r: Vec<u8>)
        ensures
            r@ == led_bytes_spec(*self, lit),
    {
        let level: u8 = if lit { 127 } else { 0 };
        let v = match *self {
            MidiSpec::Note { note } => vec![0x90u8, note & 0x7F, level],
            MidiSpec::ControlChange { cc } => vec![0xB0u8, cc & 0x7F, level],
            MidiSpec::PitchBend { channel } => vec![0xE0u8 | (channel & 0x0F), level, level],
        };
        assert(v@ =~= led_bytes_spec(*self, lit));
        v
    }
}

/// One row of the control addressing table.
#[derive(Debug, Clone)]
pub struct ControlMappingRow {
    pub control_id: String,
    /// Addressing in native X-Touch mode.
    pub native: Option<MidiSpec>,
    /// Addressing in Mackie Control mode.
    pub mcu: Option<MidiSpec>,
}

/// The control addressing table.
#[derive(Debug, Clone)]
pub struct ControlMappingDB {
    pub rows: Vec<ControlMappingRow>,
}

/// The first row, from position `i` on, for control `id`.
pub open spec fn row_index(rows: Seq<ControlMappingRow>, id: Seq<char>, i: int) -> Option<int>
    decreases rows.len() - i,
{
    if i < 0 || i >= rows.len() {
        None
    } else if rows[i].control_id@ == id {
        Some(i)
    } else {
        row_index(rows, id, i + 1)
    }
}

/// The addressing of control `id` in the given mode.
pub open spec fn midi_spec_of(rows: Seq<ControlMappingRow>, id: Seq<char>, mcu_mode: bool) -> Option<MidiSpec> {
    match row_index(rows, id, 0) {
        Some(i) => if mcu_mode { rows[i].mcu } else { rows[i].native },
        None => None,
    }
}

impl ControlMappingDB {
    /// How control `control_id` is addressed in the given mode, if the
    /// table lists it for that mode.
    pub fn get_midi_spec(&self, control_id: &str, mcu_mode: bool) -> (r: Option<MidiSpec>)
        ensures
            r == midi_spec_of(self.rows@, control_id@, mcu_mode),
    {
        let mut i: usize = 0;
        while i < self.rows.len()
            invariant
                i <= self.rows.len(),
                row_index(self.rows@, control_id@, 0) == row_index(self.rows@, control_id@, i as int),
            decreases self.rows.len() - i,
        {
            if str_eq(self.rows[i].control_id.as_str(), control_id) {
                return if mcu_mode { self.rows[i].mcu } else { self.rows[i].native };
            }
            i = i + 1;
        }
        None
    }
}

} // verus!
