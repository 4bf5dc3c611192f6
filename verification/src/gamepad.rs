//! Gamepad input: control ids, button mapping, slot assignment and
//! XInput state decoding.

use vstd::prelude::*;

use crate::text::{char_range, chars_of, find_char, first_index_of, string_from_chars};
use vstd::string::StringExecFns;

pub mod buttons;
pub mod connections;
pub mod hybrid_id;
pub mod mapper;
pub mod slot;
pub mod state;
pub mod xinput;

verus! {

/// Default gamepad slot identifier, used when a control id has no slot
/// prefix. All single-gamepad paths resolve to this slot.
pub const DEFAULT_GAMEPAD_SLOT: &'static str = "gamepad1";

/// Prefix of every gamepad control id (`"gamepad1.btn.a"`). Slot
/// identifiers are always `"{GAMEPAD_PREFIX}{n}"` with `n >= 1`.
pub const GAMEPAD_PREFIX: &'static str = "gamepad";

/// The part of `s` before its first `'.'` (all of `s` when it has none).
pub open spec fn first_segment(s: Seq<char>) -> Seq<char> {
    match first_index_of(s, '.') {
        Some(i) => s.take(i),
        None => s,
    }
}

/// The slot prefix of a control id: its first dot-separated segment, or
/// the default slot when that segment is empty.
pub open spec fn gamepad_slot_spec(control_id: Seq<char>) -> Seq<char> {
    if first_segment(control_id).len() == 0 {
        DEFAULT_GAMEPAD_SLOT@
    } else {
        first_segment(control_id)
    }
}

/// The first dot-separated segment of `s`.
pub fn first_segment_of(s: &str) -> (r: String)
    ensures
        r@ == first_segment(s@),
{
    let cs = chars_of(s);
    let end = match find_char(&cs, '.') {
        Some(i) => i,
        None => cs.len(),
    };
    let seg = char_range(&cs, 0, end);
    proof {
        if first_index_of(cs@, '.').is_none() {
            assert(cs@.subrange(0, cs@.len() as int) =~= cs@);
        }
    }
    string_from_chars(&seg)
}

/// Extract the gamepad slot prefix from a control id: `"gamepad1"` for
/// `"gamepad1.axis.lx"`. The first segment is returned without checking
/// that it names a gamepad (`"foo"` for `"foo.bar"`); an empty first
/// segment (empty input, or one starting with `'.'`) gives
/// [`DEFAULT_GAMEPAD_SLOT`].
pub fn extract_gamepad_slot(control_id: &str) -> (r: String)
    ensures
        r@ == gamepad_slot_spec(control_id@),
{
    let cs = chars_of(control_id);
    let end = match find_char(&cs, '.') {
        Some(i) => i,
        None => cs.len(),
    };
    proof {
        if first_index_of(cs@, '.').is_none() {
            assert(cs@.subrange(0, cs@.len() as int) =~= cs@);
        }
    }
    if end == 0 {
        String::from_str(DEFAULT_GAMEPAD_SLOT)
    } else {
        string_from_chars(&char_range(&cs, 0, end))
    }
}

/// The default slot identifier is a gamepad slot identifier.
pub proof fn law_default_slot_has_gamepad_prefix()
    ensures
        crate::text::is_prefix(GAMEPAD_PREFIX@, DEFAULT_GAMEPAD_SLOT@),
{
    reveal_strlit("gamepad");
    reveal_strlit("gamepad1");
    assert(DEFAULT_GAMEPAD_SLOT@.subrange(0, 7) =~= GAMEPAD_PREFIX@);
}

/// MIDI value of a button: 127 pressed, 0 released.
pub fn button_to_midi(pressed: bool) -> (r: u8)
    ensures
        r == (if pressed { 127u8 } else { 0u8 }),
{
    if pressed {
        127
    } else {
        0
    }
}

/// XInput left thumbstick deadzone radius (from the XInput
/// documentation).
pub const XINPUT_GAMEPAD_LEFT_THUMB_DEADZONE: i16 = 7849;

/// XInput right thumbstick deadzone radius; larger than the left one.
pub const XINPUT_GAMEPAD_RIGHT_THUMB_DEADZONE: i16 = 8689;

/// XInput trigger values below this threshold are treated as zero.
pub const XINPUT_GAMEPAD_TRIGGER_THRESHOLD: u8 = 30;

/// Which stick an X/Y pair belongs to.
#[derive(Debug, Clone, Copy, Hash, PartialEq, Eq, Structural)]
pub enum StickId {
    Left,
    Right,
}

/// How raw gilrs stick values are reshaped onto the unit circle.
#[derive(Debug, Clone, Copy, PartialEq, Eq, Structural)]
pub enum GilrsNormMode {
    /// Pass raw values through, only clamping magnitudes above 1; for
    /// sticks whose values already form a circle.
    RadialClamp,
    /// Shrink diagonals; for sticks whose values form a square (corners
    /// reaching (1, 1)).
    SquareToCircle,
    /// Expand diagonals; for sticks whose values form a concave diamond.
    AstroidToCircle,
}

/// The normalization applied to gilrs sticks.
pub const GILRS_NORM_MODE: GilrsNormMode = GilrsNormMode::SquareToCircle;

} // verus!
