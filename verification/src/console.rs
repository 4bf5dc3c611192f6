//! The console driver: it accepts every action once initialized and counts
//! the actions it has taken, for testing bindings without applications.

use vstd::prelude::*;

verus! {

/// A driver that records the actions it is asked to run.
#[derive(Debug, Clone)]
pub struct ConsoleDriver {
    name: String,
    initialized: bool,
    execution_count: u64,
}

impl ConsoleDriver {
    /// The driver's name.
    pub closed spec fn name_spec(&self) -> Seq<char> {
        self.name@
    }

    /// Whether the driver has been initialized (and not shut down since).
    pub closed spec fn initialized_spec(&self) -> bool {
        self.initialized
    }

    /// The number of actions run since the last initialization.
    pub closed spec fn count_spec(&self) -> nat {
        self.execution_count as nat
    }

    /// A driver named `name`, not yet initialized, that has run nothing.
    pub fn new(name: String) -> (r: ConsoleDriver)
        ensures
            r.name_spec() == name@,
            !r.initialized_spec(),
            r.count_spec() == 0,
    {
        ConsoleDriver { name, initialized: false, execution_count: 0 }
    }

    /// The driver's name.
    pub fn name(&self) -> (r: &str)
        ensures
            r@ == self.name_spec(),
    {
        self.name.as_str()
    }

    /// Whether the driver is initialized.
    pub fn is_initialized(&self) -> (r: bool)
        ensures
            r == self.initialized_spec(),
    {
        self.initialized
    }

    /// The number of actions run since the last initialization.
    pub fn execution_count(&self) -> (r: u64)
        ensures
            r == self.count_spec(),
    {
        self.execution_count
    }

    /// Initialize: the driver accepts actions and its count starts over.
    pub fn init(&mut self)
        ensures
            final(self).name_spec() == old(self).name_spec(),
            final(self).initialized_spec(),
            final(self).count_spec() == 0,
    {
        self.initialized = true;
        self.execution_count = 0;
    }

    /// Run an action: before initialization nothing happens and `None` comes
    /// back; after it the count goes up by one and its new value (the
    /// action's number) comes back.
    pub fn execute(&mut self) -> (r: Option<u64>)
        requires
            old(self).count_spec() < u64::MAX,
        ensures
            final(self).name_spec() == old(self).name_spec(),
            final(self).initialized_spec() == old(self).initialized_spec(),
            old(self).initialized_spec() ==> final(self).count_spec() == old(self).count_spec() + 1
                && r == Some(final(self).count_spec() as u64),
            !old(self).initialized_spec() ==> final(self).count_spec() == old(self).count_spec() && r is None,
    {
        if !self.initialized {
            return None;
        }
        self.execution_count = self.execution_count + 1;
        Some(self.execution_count)
    }

    /// Shut down: the driver stops accepting actions. Returns the number of
    /// actions run when it was initialized, `None` when it was not.
    pub fn shutdown(&mut self) -> (r: Option<u64>)
        ensures
            final(self).name_spec() == old(self).name_spec(),
            !final(self).initialized_spec(),
            final(self).count_spec() == old(self).count_spec(),
            r == (if old(self).initialized_spec() { Some(old(self).count_spec() as u64) } else { None }),
    {
        let was = self.initialized;
        self.initialized = false;
        if was {
            Some(self.execution_count)
        } else {
            None
        }
    }
}

} // verus!
