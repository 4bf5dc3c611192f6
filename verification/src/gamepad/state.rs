//! Pressed/released state of every gamepad button, as shown by the
//! visualizer.

use vstd::prelude::*;

use crate::gamepad::buttons::PadButton;

verus! {

/// Which buttons are held.
#[derive(Debug, Default, Clone, Copy, PartialEq, Eq, Structural)]
pub struct ButtonStates {
    pub dpad_up: bool,
    pub dpad_down: bool,
    pub dpad_left: bool,
    pub dpad_right: bool,
    pub start: bool,
    pub back: bool,
    pub left_thumb: bool,
    pub right_thumb: bool,
    pub left_shoulder: bool,
    pub right_shoulder: bool,
    pub a: bool,
    pub b: bool,
    pub x: bool,
    pub y: bool,
    /// gilrs only.
    pub home: bool,
    /// gilrs only.
    pub capture: bool,
}

/// Bit `mask` of an XInput button field is set.
pub open spec fn bit_set(b: u16, mask: u16) -> bool {
    b & mask != 0
}

/// The button states an XInput button field describes (XInput has no
/// Home or Capture button).
pub open spec fn from_xinput_spec(b: u16) -> ButtonStates {
    ButtonStates {
        dpad_up: bit_set(b, 0x0001),
        dpad_down: bit_set(b, 0x0002),
        dpad_left: bit_set(b, 0x0004),
        dpad_right: bit_set(b, 0x0008),
        start: bit_set(b, 0x0010),
        back: bit_set(b, 0x0020),
        left_thumb: bit_set(b, 0x0040),
        right_thumb: bit_set(b, 0x0080),
        left_shoulder: bit_set(b, 0x0100),
        right_shoulder: bit_set(b, 0x0200),
        a: bit_set(b, 0x1000),
        b: bit_set(b, 0x2000),
        x: bit_set(b, 0x4000),
        y: bit_set(b, 0x8000),
        home: false,
        capture: false,
    }
}

/// The button states of a gilrs gamepad whose held buttons are `pressed`,
/// with the Nintendo-layout naming (East is A, South B, North X, West Y).
pub open spec fn from_gilrs_spec(pressed: Seq<PadButton>, capture: bool) -> ButtonStates {
    ButtonStates {
        a: pressed.contains(PadButton::East),
        b: pressed.contains(PadButton::South),
        x: pressed.contains(PadButton::North),
        y: pressed.contains(PadButton::West),
        left_shoulder: pressed.contains(PadButton::LeftTrigger),
        right_shoulder: pressed.contains(PadButton::RightTrigger),
        back: pressed.contains(PadButton::Select),
        start: pressed.contains(PadButton::Start),
        left_thumb: pressed.contains(PadButton::LeftThumb),
        right_thumb: pressed.contains(PadButton::RightThumb),
        dpad_up: pressed.contains(PadButton::DPadUp),
        dpad_down: pressed.contains(PadButton::DPadDown),
        dpad_left: pressed.contains(PadButton::DPadLeft),
        dpad_right: pressed.contains(PadButton::DPadRight),
        home: pressed.contains(PadButton::Mode),
        capture,
    }
}

/// The display list: (label, pressed) for each button, in display order.
pub open spec fn button_list_spec(s: ButtonStates) -> Seq<(Seq<char>, bool)> {
    seq![
        ("A"@, s.a),
        ("B"@, s.b),
        ("X"@, s.x),
        ("Y"@, s.y),
        ("LB"@, s.left_shoulder),
        ("RB"@, s.right_shoulder),
        ("Back"@, s.back),
        ("Start"@, s.start),
        ("L3"@, s.left_thumb),
        ("R3"@, s.right_thumb),
        ("D-Up"@, s.dpad_up),
        ("D-Down"@, s.dpad_down),
        ("D-Left"@, s.dpad_left),
        ("D-Right"@, s.dpad_right),
        ("Home"@, s.home),
        ("Capture"@, s.capture),
    ]
}

fn held(pressed: &[PadButton], b: PadButton) -> (r: bool)
    ensures
        r == pressed@.contains(b),
{
    let mut i: usize = 0;
    while i < pressed.len()
        invariant
            i <= pressed.len(),
            forall|j: int| 0 <= j < i ==> pressed@[j] != b,
        decreases pressed.len() - i,
    {
        if pressed[i] == b {
            return true;
        }
        i = i + 1;
    }
    false
}

impl ButtonStates {
    /// Update from an XInput button bit field.
    pub fn update_from_xinput(&mut self, b: u16)
        ensures
            *final(self) == from_xinput_spec(b),
    {
        *self = ButtonStates {
            dpad_up: b & 0x0001 != 0,
            dpad_down: b & 0x0002 != 0,
            dpad_left: b & 0x0004 != 0,
            dpad_right: b & 0x0008 != 0,
            start: b & 0x0010 != 0,
            back: b & 0x0020 != 0,
            left_thumb: b & 0x0040 != 0,
            right_thumb: b & 0x0080 != 0,
            left_shoulder: b & 0x0100 != 0,
            right_shoulder: b & 0x0200 != 0,
            a: b & 0x1000 != 0,
            b: b & 0x2000 != 0,
            x: b & 0x4000 != 0,
            y: b & 0x8000 != 0,
            home: false,
            capture: false,
        };
    }

    /// Update from the buttons a gilrs gamepad holds; `capture` is tracked
    /// from raw events, outside the gilrs mapping.
    pub fn update_from_gilrs(&mut self, pressed: &[PadButton], capture: bool)
        ensures
            *final(self) == from_gilrs_spec(pressed@, capture),
    {
        *self = ButtonStates {
            a: held(pressed, PadButton::East),
            b: held(pressed, PadButton::South),
            x: held(pressed, PadButton::North),
            y: held(pressed, PadButton::West),
            left_shoulder: held(pressed, PadButton::LeftTrigger),
            right_shoulder: held(pressed, PadButton::RightTrigger),
            back: held(pressed, PadButton::Select),
            start: held(pressed, PadButton::Start),
            left_thumb: held(pressed, PadButton::LeftThumb),
            right_thumb: held(pressed, PadButton::RightThumb),
            dpad_up: held(pressed, PadButton::DPadUp),
            dpad_down: held(pressed, PadButton::DPadDown),
            dpad_left: held(pressed, PadButton::DPadLeft),
            dpad_right: held(pressed, PadButton::DPadRight),
            home: held(pressed, PadButton::Mode),
            capture: capture,
        };
    }

    /// All buttons as (label, pressed) pairs, in display order.
    pub fn iter(&self) -> (r: Vec<(&'static str, bool)>)
        ensures
            r@.len() == 16,
            forall|i: int| 0 <= i < 16 ==> (#[trigger] r@[i]).0@ == button_list_spec(*self)[i].0 && r@[i].1
                == button_list_spec(*self)[i].1,
    {
        let v = vec![
            ("A", self.a),
            ("B", self.b),
            ("X", self.x),
            ("Y", self.y),
            ("LB", self.left_shoulder),
            ("RB", self.right_shoulder),
            ("Back", self.back),
            ("Start", self.start),
            ("L3", self.left_thumb),
            ("R3", self.right_thumb),
            ("D-Up", self.dpad_up),
            ("D-Down", self.dpad_down),
            ("D-Left", self.dpad_left),
            ("D-Right", self.dpad_right),
            ("Home", self.home),
            ("Capture", self.capture),
        ];
        v
    }
}

} // verus!
