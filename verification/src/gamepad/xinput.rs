//! XInput controller state and the button edges between two polls.

use vstd::prelude::*;

use crate::gamepad::buttons::{concat, push_str_chars};

verus! {

/// The last XInput state seen for a controller, kept for change
/// detection.
#[derive(Debug, Clone, Copy, PartialEq, Eq, Structural)]
pub struct CachedXInputState {
    pub packet_number: u32,
    pub buttons: u16,
    pub left_trigger: u8,
    pub right_trigger: u8,
    pub thumb_lx: i16,
    pub thumb_ly: i16,
    pub thumb_rx: i16,
    pub thumb_ry: i16,
}

/// A button press or release of a gamepad control.
#[derive(Debug, Clone, PartialEq)]
pub struct ButtonEvent {
    pub control_id: String,
    pub pressed: bool,
}

/// The XInput button bits, in event order, each with the control id suffix
/// it reports under (`.btn.<name>`, or `.dpad.<dir>` for the D-pad).
pub open spec fn xinput_button_table() -> Seq<(u16, Seq<char>)> {
    seq![
        (0x1000u16, ".btn.a"@),
        (0x2000u16, ".btn.b"@),
        (0x4000u16, ".btn.x"@),
        (0x8000u16, ".btn.y"@),
        (0x0100u16, ".btn.lb"@),
        (0x0200u16, ".btn.rb"@),
        (0x0020u16, ".btn.minus"@),
        (0x0010u16, ".btn.plus"@),
        (0x0040u16, ".btn.l3"@),
        (0x0080u16, ".btn.r3"@),
        (0x0001u16, ".dpad.up"@),
        (0x0002u16, ".dpad.down"@),
        (0x0004u16, ".dpad.left"@),
        (0x0008u16, ".dpad.right"@),
    ]
}

/// Whether button `flag` was held in a previous field (never, when there
/// is none).
pub open spec fn was_held(old: Option<u16>, flag: u16) -> bool {
    old matches Some(b) && b & flag != 0
}

/// The (control id, pressed) events of the first `n` table buttons whose
/// state differs between `old` and `new`, in table order.
pub open spec fn button_events_spec(old: Option<u16>, new: u16, prefix: Seq<char>, n: nat) -> Seq<(Seq<char>, bool)>
    decreases n,
{
    if n == 0 {
        Seq::empty()
    } else {
        let prev = button_events_spec(old, new, prefix, (n - 1) as nat);
        let e = xinput_button_table()[n - 1];
        let now = new & e.0 != 0;
        if was_held(old, e.0) != now {
            prev.push((prefix + e.1, now))
        } else {
            prev
        }
    }
}

/// Press and release events for the buttons whose state differs between
/// the previous button field (`None`: nothing held before) and the new
/// one, in the order A, B, X, Y, LB, RB, Back, Start, L3, R3, then the
/// D-pad.
pub fn convert_xinput_buttons(old_buttons: Option<u16>, new_buttons: u16, prefix: &str) -> (r: Vec<ButtonEvent>)
    ensures
        r@.len() == button_events_spec(old_buttons, new_buttons, prefix@, 14).len(),
        forall|i: int| 0 <= i < r@.len() ==> (#[trigger] r@[i]).control_id@ == button_events_spec(old_buttons, new_buttons, prefix@, 14)[i].0
            && r@[i].pressed == button_events_spec(old_buttons, new_buttons, prefix@, 14)[i].1,
{
    let table: Vec<(u16, &'static str)> = vec![
        (0x1000u16, ".btn.a"),
        (0x2000u16, ".btn.b"),
        (0x4000u16, ".btn.x"),
        (0x8000u16, ".btn.y"),
        (0x0100u16, ".btn.lb"),
        (0x0200u16, ".btn.rb"),
        (0x0020u16, ".btn.minus"),
        (0x0010u16, ".btn.plus"),
        (0x0040u16, ".btn.l3"),
        (0x0080u16, ".btn.r3"),
        (0x0001u16, ".dpad.up"),
        (0x0002u16, ".dpad.down"),
        (0x0004u16, ".dpad.left"),
        (0x0008u16, ".dpad.right"),
    ];
    assert(table@.len() == 14);
    assert(forall|k: int| 0 <= k < 14 ==> (#[trigger] table@[k]).0 == xinput_button_table()[k].0
        && table@[k].1@ == xinput_button_table()[k].1);
    let mut events: Vec<ButtonEvent> = Vec::new();
    let mut k: usize = 0;
    while k < table.len()
        invariant
            k <= table@.len(),
            table@.len() == 14,
            forall|j: int| 0 <= j < 14 ==> (#[trigger] table@[j]).0 == xinput_button_table()[j].0
                && table@[j].1@ == xinput_button_table()[j].1,
            events@.len() == button_events_spec(old_buttons, new_buttons, prefix@, k as nat).len(),
            forall|i: int| 0 <= i < events@.len() ==> (#[trigger] events@[i]).control_id@
                == button_events_spec(old_buttons, new_buttons, prefix@, k as nat)[i].0
                && events@[i].pressed == button_events_spec(old_buttons, new_buttons, prefix@, k as nat)[i].1,
        decreases table.len() - k,
    {
        let (flag, suffix) = table[k];
        let old_pressed = match old_buttons {
            Some(b) => b & flag != 0,
            None => false,
        };
        let new_pressed = new_buttons & flag != 0;
        if old_pressed != new_pressed {
            let control_id = concat(prefix, suffix);
            events.push(ButtonEvent { control_id, pressed: new_pressed });
        }
        k = k + 1;
    }
    events
}

/// Between two equal button fields no event is reported.
pub proof fn law_no_button_events_without_change(buttons: u16, prefix: Seq<char>, n: nat)
    requires
        n <= 14,
    ensures
        button_events_spec(Some(buttons), buttons, prefix, n).len() == 0,
    decreases n,
{
    if n > 0 {
        law_no_button_events_without_change(buttons, prefix, (n - 1) as nat);
    }
}

/// Every event reports the button's new state, and a button pressed in
/// the new field from nothing held is reported pressed.
pub proof fn law_button_events_report_new_state(old: Option<u16>, new: u16, prefix: Seq<char>, n: nat)
    requires
        n <= 14,
    ensures
        forall|i: int| 0 <= i < button_events_spec(old, new, prefix, n).len() ==> {
            let ev = #[trigger] button_events_spec(old, new, prefix, n)[i];
            exists|k: int| 0 <= k < n && ev.0 == prefix + xinput_button_table()[k].1
                && ev.1 == (new & xinput_button_table()[k].0 != 0)
                && was_held(old, xinput_button_table()[k].0) != ev.1
        },
    decreases n,
{
    if n > 0 {
        law_button_events_report_new_state(old, new, prefix, (n - 1) as nat);
        let prev = button_events_spec(old, new, prefix, (n - 1) as nat);
        let cur = button_events_spec(old, new, prefix, n);
        assert forall|i: int| 0 <= i < cur.len() implies {
            let ev = #[trigger] cur[i];
            exists|k: int| 0 <= k < n && ev.0 == prefix + xinput_button_table()[k].1
                && ev.1 == (new & xinput_button_table()[k].0 != 0)
                && was_held(old, xinput_button_table()[k].0) != ev.1
        } by {
            if i < prev.len() {
                assert(cur[i] == prev[i]);
                let ev = prev[i];
                let k = choose|k: int| 0 <= k < n - 1 && ev.0 == prefix + xinput_button_table()[k].1
                    && ev.1 == (new & xinput_button_table()[k].0 != 0)
                    && was_held(old, xinput_button_table()[k].0) != ev.1;
                assert(0 <= k < n);
            } else {
                let k = n - 1;
                assert(0 <= k < n);
            }
        }
    }
}

} // verus!
