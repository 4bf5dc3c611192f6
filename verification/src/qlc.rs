//! QLC+ lighting control. QLC+ receives its MIDI through the MIDI bridge;
//! the driver itself keeps no state.

use vstd::prelude::*;

verus! {

/// QLC+ lighting control driver.
#[derive(Debug, Clone, Copy, PartialEq, Eq, Structural)]
pub struct QlcDriver;

impl QlcDriver {
    /// Create a new QLC+ driver.
    pub fn new() -> (r: QlcDriver)
        ensures
            r == QlcDriver,
    {
        QlcDriver
    }
}

impl Default for QlcDriver {
    fn default() -> (r: QlcDriver)
        ensures
            r == QlcDriver,
    {
        QlcDriver::new()
    }
}

} // verus!
