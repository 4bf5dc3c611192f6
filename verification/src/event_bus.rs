//! Kinds of live events broadcast to the editor.

use vstd::prelude::*;

verus! {

/// What a hardware control did.
#[derive(Debug, Clone, Copy, PartialEq, Eq, Structural)]
pub enum HwEventKind {
    Press,
    Release,
    Rotate,
    Axis,
    Fader,
    Encoder,
}

/// Connection state of a driver or hardware target.
#[derive(Debug, Clone, Copy, PartialEq, Eq, Structural)]
pub enum ConnectionStatus {
    Up,
    Down,
}

/// Default buffer capacity of the live event channel (events).
pub const DEFAULT_CAPACITY: usize = 256;

} // verus!
