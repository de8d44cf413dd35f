//! The identifier allocator: unique, strictly increasing record identifiers.

use vstd::prelude::*;

verus! {

/// Produces the strictly increasing sequence 0, 1, 2, ... of record
/// identifiers. Its abstract value is the next identifier it will hand out;
/// no identifier is ever handed out twice and none below the counter is
/// skipped.
pub struct IdentifierAllocator {
    counter: u64,
}

impl View for IdentifierAllocator {
    type V = u64;

    closed spec fn view(&self) -> u64 {
        self.counter
    }
}

impl IdentifierAllocator {
    /// A fresh allocator; the first identifier it hands out is 0.
    pub fn new() -> (r: IdentifierAllocator)
        ensures
            r@ == 0,
    {
        IdentifierAllocator { counter: 0 }
    }

    /// The identifier the next call of `next` would hand out, without
    /// advancing the counter.
    pub fn peek(&self) -> (id: u64)
        ensures
            id == self@,
    {
        self.counter
    }

    /// Hands out the next identifier and advances the counter by exactly one.
    /// The result is strictly greater than every identifier handed out
    /// before, since each earlier call returned the then-current counter.
    pub fn next(&mut self) -> (id: u64)
        requires
            old(self)@ < u64::MAX,
        ensures
            id == old(self)@,
            final(self)@ == old(self)@ + 1,
    {
        let id = self.counter;
        self.counter = self.counter + 1;
        id
    }
}

} // verus!
