//! One identifier for controllers of both backends: gilrs (Windows Gaming
//! Input) and XInput.

use vstd::prelude::*;

use crate::text::{decimal, push_decimal};
use vstd::string::StringExecFns;

verus! {

/// A controller identifier across backends.
#[derive(Debug, Clone, Copy, PartialEq, Eq, Hash, Structural)]
pub enum HybridControllerId {
    /// A controller seen through gilrs, by its gilrs gamepad index.
    Gilrs(usize),
    /// A controller seen through XInput, by its user index (0-3).
    XInput(usize),
}

/// The logging form of an identifier: `gilrs:N` or `xinput:N`.
pub open spec fn id_string_spec(id: HybridControllerId) -> Seq<char> {
    match id {
        HybridControllerId::Gilrs(n) => "gilrs:"@ + decimal(n as nat),
        HybridControllerId::XInput(n) => "xinput:"@ + decimal(n as nat),
    }
}

impl HybridControllerId {
    /// The identifier of a gilrs gamepad.
    pub fn from_gilrs(id: usize) -> (r: HybridControllerId)
        ensures
            r == HybridControllerId::Gilrs(id),
    {
        HybridControllerId::Gilrs(id)
    }

    /// The identifier of an XInput user index (0-3).
    pub fn from_xinput(user_index: usize) -> (r: HybridControllerId)
        ensures
            r == HybridControllerId::XInput(user_index),
    {
        HybridControllerId::XInput(user_index)
    }

    /// A stable string identifier for logging (`"gilrs:0"`, `"xinput:2"`).
    pub fn to_string(&self) -> (r: String)
        ensures
            r@ == id_string_spec(*self),
    {
        match *self {
            HybridControllerId::Gilrs(n) => {
                let mut s = String::from_str("gilrs:");
                push_decimal(&mut s, n as u64);
                s
            },
            HybridControllerId::XInput(n) => {
                let mut s = String::from_str("xinput:");
                push_decimal(&mut s, n as u64);
                s
            },
        }
    }
}

} // verus!
