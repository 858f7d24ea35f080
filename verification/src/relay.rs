use vstd::prelude::*;

verus! {

/// The single binary output that the controller drives.
///
/// The logical state is the last commanded value; there is no separate
/// shadow variable, so a read always returns what was last written.
pub struct RelayState {
    on: bool,
}

impl RelayState {
    /// The relay as a single boolean: `true` means ON.
    pub closed spec fn is_on(&self) -> bool {
        self.on
    }

    /// A relay starts OFF at boot.
    pub fn new() -> (r: RelayState)
        ensures
            !r.is_on(),
    {
        RelayState { on: false }
    }

    /// Commands the relay; idempotent, no error path.
    pub fn set(&mut self, level: bool)
        ensures
            final(self).is_on() == level,
    {
        self.on = level;
    }

    /// Reads back the last commanded state.
    pub fn get(&self) -> (r: bool)
        ensures
            r == self.is_on(),
    {
        self.on
    }
}

} // verus!
