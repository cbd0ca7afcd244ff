//! The process-wide exclusivity gate.
//!
//! The driver cannot serve two instances at once, so a session may only be
//! opened while no other session is live. A program embeds one `Lock` for
//! the whole process, guards it with its atomic primitive, and threads it
//! through `Termbox::open` and `Termbox::close`. Acquisition is a single
//! attempt and never blocks: when the flag is already held, the attempt
//! fails at once.

use vstd::prelude::*;

verus! {

/// The exclusivity flag: held while a session owns the terminal.
pub struct Lock {
    locked: bool,
}

impl Lock {
    /// Whether the flag is currently held.
    pub closed spec fn spec_held(self) -> bool {
        self.locked
    }

    /// A fresh flag, not held.
    pub fn new() -> (r: Lock)
        ensures
            !r.spec_held(),
    {
        Lock { locked: false }
    }

    /// A single acquisition attempt: takes the flag and reports whether it
    /// was free. A second attempt while the flag is held fails immediately
    /// and changes nothing; it never waits.
    pub fn acquire(&mut self) -> (r: bool)
        ensures
            r == !old(self).spec_held(),
            final(self).spec_held(),
    {
        let was_held = self.locked;
        self.locked = true;
        !was_held
    }

    /// Releases the flag.
    pub fn release(&mut self)
        ensures
            !final(self).spec_held(),
    {
        self.locked = false;
    }
}

} // verus!
