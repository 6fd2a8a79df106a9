//! Monotonic element identity source. A process holds one generator (the
//! embedding program may guard it with an atomic or a lock) and every
//! identifier it hands out is strictly larger than every earlier one, so
//! identifiers are never reused.

use vstd::prelude::*;

verus! {

/// A monotonically increasing source of element identifiers.
pub struct IdGenerator {
    next: u64,
}

impl IdGenerator {
    pub closed spec fn spec_next(self) -> u64 {
        self.next
    }

    /// A fresh generator; the first identifier handed out is 1, so 0 can
    /// stand for "not yet assigned".
    pub fn new() -> (r: IdGenerator)
        ensures
            r.spec_next() == 1,
    {
        IdGenerator { next: 1 }
    }

    /// Hands out the next identifier: strictly larger than every one
    /// handed out before, never zero, and never reused.
    pub fn next_id(&mut self) -> (r: u64)
        requires
            old(self).spec_next() < u64::MAX,
            old(self).spec_next() >= 1,
        ensures
            r == old(self).spec_next(),
            final(self).spec_next() == old(self).spec_next() + 1,
            r >= 1,
    {
        let id = self.next;
        self.next = self.next + 1;
        id
    }
}

} // verus!
