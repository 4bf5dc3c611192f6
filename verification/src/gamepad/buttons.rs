//! Button and axis naming shared by the gamepad backends.
//!
//! Buttons are reported by physical position (South, East, North, West).
//! They are named Xbox-style assuming the Nintendo layout that most
//! third-party controllers report:
//!
//! ```text
//!       [X/North]           (top)
//!   [Y/West] [A/East]       (left/right)
//!       [B/South]           (bottom)
//! ```

use vstd::prelude::*;

use crate::text::push_char;
use vstd::string::StringExecFns;

verus! {

/// A gamepad button, by physical position (the gilrs button set).
#[derive(Debug, Clone, Copy, PartialEq, Eq, Structural)]
pub enum PadButton {
    South,
    East,
    North,
    West,
    C,
    Z,
    LeftTrigger,
    LeftTrigger2,
    RightTrigger,
    RightTrigger2,
    Select,
    Start,
    Mode,
    LeftThumb,
    RightThumb,
    DPadUp,
    DPadDown,
    DPadLeft,
    DPadRight,
    Unknown,
}

/// A gamepad axis (the gilrs axis set).
#[derive(Debug, Clone, Copy, PartialEq, Eq, Structural)]
pub enum PadAxis {
    LeftStickX,
    LeftStickY,
    LeftZ,
    RightStickX,
    RightStickY,
    RightZ,
    DPadX,
    DPadY,
    Unknown,
}

/// The Xbox-style name of a non-D-pad button.
pub open spec fn button_name_spec(b: PadButton) -> Option<Seq<char>> {
    match b {
        PadButton::East => Some("a"@),
        PadButton::South => Some("b"@),
        PadButton::North => Some("x"@),
        PadButton::West => Some("y"@),
        PadButton::LeftTrigger => Some("lb"@),
        PadButton::RightTrigger => Some("rb"@),
        PadButton::LeftTrigger2 => Some("lt"@),
        PadButton::RightTrigger2 => Some("rt"@),
        PadButton::Select => Some("minus"@),
        PadButton::Start => Some("plus"@),
        PadButton::Mode => Some("home"@),
        PadButton::LeftThumb => Some("l3"@),
        PadButton::RightThumb => Some("r3"@),
        PadButton::C => Some("c"@),
        PadButton::Z => Some("capture"@),
        _ => None,
    }
}

/// The direction name of a D-pad button.
pub open spec fn dpad_name_spec(b: PadButton) -> Option<Seq<char>> {
    match b {
        PadButton::DPadUp => Some("up"@),
        PadButton::DPadDown => Some("down"@),
        PadButton::DPadLeft => Some("left"@),
        PadButton::DPadRight => Some("right"@),
        _ => None,
    }
}

/// Xbox-style name of a button (Nintendo layout: East is "a", South "b",
/// North "x", West "y"); `None` for D-pad and unknown buttons.
pub fn gilrs_button_to_name(button: PadButton) -> (r: Option<&'static str>)
    ensures
        r.is_some() == button_name_spec(button).is_some(),
        r matches Some(s) ==> Some(s@) == button_name_spec(button),
{
    match button {
        PadButton::East => Some("a"),
        PadButton::South => Some("b"),
        PadButton::North => Some("x"),
        PadButton::West => Some("y"),
        PadButton::LeftTrigger => Some("lb"),
        PadButton::RightTrigger => Some("rb"),
        PadButton::LeftTrigger2 => Some("lt"),
        PadButton::RightTrigger2 => Some("rt"),
        PadButton::Select => Some("minus"),
        PadButton::Start => Some("plus"),
        PadButton::Mode => Some("home"),
        PadButton::LeftThumb => Some("l3"),
        PadButton::RightThumb => Some("r3"),
        PadButton::C => Some("c"),
        PadButton::Z => Some("capture"),
        _ => None,
    }
}

/// Direction name ("up", "down", "left", "right") of a D-pad button;
/// `None` for other buttons.
pub fn gilrs_dpad_to_name(button: PadButton) -> (r: Option<&'static str>)
    ensures
        r.is_some() == dpad_name_spec(button).is_some(),
        r matches Some(s) ==> Some(s@) == dpad_name_spec(button),
{
    match button {
        PadButton::DPadUp => Some("up"),
        PadButton::DPadDown => Some("down"),
        PadButton::DPadLeft => Some("left"),
        PadButton::DPadRight => Some("right"),
        _ => None,
    }
}

/// Appends every character of `t`.
pub fn push_str_chars(s: &mut String, t: &str)
    ensures
        final(s)@ == old(s)@ + t@,
{
    let cs = crate::text::chars_of(t);
    let mut i: usize = 0;
    while i < cs.len()
        invariant
            i <= cs.len(),
            cs@ == t@,
            s@ == old(s)@ + cs@.take(i as int),
        decreases cs.len() - i,
    {
        push_char(s, cs[i]);
        i = i + 1;
        assert(s@ =~= old(s)@ + cs@.take(i as int));
    }
    assert(cs@.take(cs.len() as int) =~= cs@);
}

/// `a` followed by `b`.
pub fn concat(a: &str, b: &str) -> (r: String)
    ensures
        r@ == a@ + b@,
{
    let mut s = String::from_str(a);
    push_str_chars(&mut s, b);
    s
}

/// The control id of a button: `<prefix>.dpad.<dir>` for D-pad buttons,
/// `<prefix>.btn.<name>` for the others.
pub open spec fn button_control_id_spec(b: PadButton, prefix: Seq<char>) -> Option<Seq<char>> {
    match dpad_name_spec(b) {
        Some(d) => Some(prefix + ".dpad."@ + d),
        None => match button_name_spec(b) {
            Some(n) => Some(prefix + ".btn."@ + n),
            None => None,
        },
    }
}

/// Every button's control id under prefix `prefix`: the face buttons by
/// Nintendo position (East "a", South "b", North "x", West "y"), the
/// shoulders "lb"/"rb", the triggers "lt"/"rt", Select "minus", Start
/// "plus", Mode "home", the stick clicks "l3"/"r3", C "c" and Z "capture"
/// under `.btn.`, the D-pad directions under `.dpad.`; an unknown button
/// has none.
pub proof fn law_button_control_ids(prefix: Seq<char>)
    ensures
        button_control_id_spec(PadButton::East, prefix) == Some(prefix + ".btn."@ + "a"@),
        button_control_id_spec(PadButton::South, prefix) == Some(prefix + ".btn."@ + "b"@),
        button_control_id_spec(PadButton::North, prefix) == Some(prefix + ".btn."@ + "x"@),
        button_control_id_spec(PadButton::West, prefix) == Some(prefix + ".btn."@ + "y"@),
        button_control_id_spec(PadButton::LeftTrigger, prefix) == Some(prefix + ".btn."@ + "lb"@),
        button_control_id_spec(PadButton::RightTrigger, prefix) == Some(prefix + ".btn."@ + "rb"@),
        button_control_id_spec(PadButton::LeftTrigger2, prefix) == Some(prefix + ".btn."@ + "lt"@),
        button_control_id_spec(PadButton::RightTrigger2, prefix) == Some(prefix + ".btn."@ + "rt"@),
        button_control_id_spec(PadButton::Select, prefix) == Some(prefix + ".btn."@ + "minus"@),
        button_control_id_spec(PadButton::Start, prefix) == Some(prefix + ".btn."@ + "plus"@),
        button_control_id_spec(PadButton::Mode, prefix) == Some(prefix + ".btn."@ + "home"@),
        button_control_id_spec(PadButton::LeftThumb, prefix) == Some(prefix + ".btn."@ + "l3"@),
        button_control_id_spec(PadButton::RightThumb, prefix) == Some(prefix + ".btn."@ + "r3"@),
        button_control_id_spec(PadButton::C, prefix) == Some(prefix + ".btn."@ + "c"@),
        button_control_id_spec(PadButton::Z, prefix) == Some(prefix + ".btn."@ + "capture"@),
        button_control_id_spec(PadButton::DPadUp, prefix) == Some(prefix + ".dpad."@ + "up"@),
        button_control_id_spec(PadButton::DPadDown, prefix) == Some(prefix + ".dpad."@ + "down"@),
        button_control_id_spec(PadButton::DPadLeft, prefix) == Some(prefix + ".dpad."@ + "left"@),
        button_control_id_spec(PadButton::DPadRight, prefix) == Some(prefix + ".dpad."@ + "right"@),
        button_control_id_spec(PadButton::Unknown, prefix) is None,
{
}

/// No two buttons share a control id: distinct buttons with an id get
/// distinct ids under the same prefix.
pub proof fn law_button_control_ids_distinct(b1: PadButton, b2: PadButton, prefix: Seq<char>)
    requires
        b1 != b2,
        button_control_id_spec(b1, prefix) is Some,
    ensures
        button_control_id_spec(b1, prefix) != button_control_id_spec(b2, prefix),
{
    reveal_strlit("a");
    reveal_strlit("b");
    reveal_strlit("x");
    reveal_strlit("y");
    reveal_strlit("lb");
    reveal_strlit("rb");
    reveal_strlit("lt");
    reveal_strlit("rt");
    reveal_strlit("minus");
    reveal_strlit("plus");
    reveal_strlit("home");
    reveal_strlit("l3");
    reveal_strlit("r3");
    reveal_strlit("c");
    reveal_strlit("capture");
    reveal_strlit("up");
    reveal_strlit("down");
    reveal_strlit("left");
    reveal_strlit("right");
    reveal_strlit(".btn.");
    reveal_strlit(".dpad.");
    if button_control_id_spec(b2, prefix) is Some {
        let i1 = button_control_id_spec(b1, prefix).unwrap();
        let i2 = button_control_id_spec(b2, prefix).unwrap();
        if i1 == i2 {
            let t1 = i1.skip(prefix.len() as int);
            let t2 = i2.skip(prefix.len() as int);
            assert(t1 == t2);
            let k1 = match dpad_name_spec(b1) { Some(d) => ".dpad."@ + d, None => ".btn."@ + button_name_spec(b1).unwrap() };
            let k2 = match dpad_name_spec(b2) { Some(d) => ".dpad."@ + d, None => ".btn."@ + button_name_spec(b2).unwrap() };
            assert(t1 =~= k1);
            assert(t2 =~= k2);
            assert(k1[1] == k2[1]);
            assert(k1.len() == k2.len());
            assert(k1[k1.len() - 1] == k2[k2.len() - 1]);
            assert(k1[k1.len() - 2] == k2[k2.len() - 2]);
            assert(k1[6] == k2[6]);
        }
    }
}

/// Full control id of a button (`"gamepad1.btn.a"`, `"gamepad1.dpad.up"`);
/// `None` for unknown buttons.
pub fn gilrs_button_to_control_id(button: PadButton, prefix: &str) -> (r: Option<String>)
    ensures
        r.is_some() == button_control_id_spec(button, prefix@).is_some(),
        r matches Some(s) ==> Some(s@) == button_control_id_spec(button, prefix@),
{
    if let Some(dir) = gilrs_dpad_to_name(button) {
        let mut s = concat(prefix, ".dpad.");
        push_str_chars(&mut s, dir);
        Some(s)
    } else {
        match gilrs_button_to_name(button) {
            Some(name) => {
                let mut s = concat(prefix, ".btn.");
                push_str_chars(&mut s, name);
                Some(s)
            },
            None => None,
        }
    }
}

/// The short name of an axis in control ids.
pub open spec fn axis_name_spec(a: PadAxis) -> Seq<char> {
    match a {
        PadAxis::LeftStickX => "lx"@,
        PadAxis::LeftStickY => "ly"@,
        PadAxis::RightStickX => "rx"@,
        PadAxis::RightStickY => "ry"@,
        PadAxis::LeftZ => "zl"@,
        PadAxis::RightZ => "zr"@,
        _ => "unknown"@,
    }
}

/// Control id of an axis: `<prefix>.axis.<name>` with names lx, ly, rx,
/// ry, zl, zr (`unknown` for other axes).
pub fn gilrs_axis_to_control_id(axis: PadAxis, prefix: &str) -> (r: String)
    ensures
        r@ == prefix@ + ".axis."@ + axis_name_spec(axis),
{
    let name = match axis {
        PadAxis::LeftStickX => "lx",
        PadAxis::LeftStickY => "ly",
        PadAxis::RightStickX => "rx",
        PadAxis::RightStickY => "ry",
        PadAxis::LeftZ => "zl",
        PadAxis::RightZ => "zr",
        _ => "unknown",
    };
    let mut s = concat(prefix, ".axis.");
    push_str_chars(&mut s, name);
    s
}

} // verus!
