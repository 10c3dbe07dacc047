//! Node identities and the allocator that mints them.
//!
//! An identity is an opaque, totally ordered value whose only role is to
//! serve as a lookup key into the externally maintained layout and style
//! tables. The allocator is explicit state owned by the application root:
//! every identity it hands out is distinct from every earlier one.

use vstd::prelude::*;

verus! {

/// A process-unique key for one view node.
#[derive(Clone, Copy, PartialEq, Eq, Structural, PartialOrd, Ord, Hash, Debug)]
pub struct Id {
    pub value: u64,
}

/// Mints identities for view nodes. Identities grow strictly, so two calls
/// never return the same value.
pub struct IdAllocator {
    pub next_value: u64,
}

impl IdAllocator {
    /// A fresh allocator; the first identity it mints has value zero.
    pub fn new() -> (alloc: IdAllocator)
        ensures
            alloc.next_value == 0,
    {
        IdAllocator { next_value: 0 }
    }

    /// Mints the next identity: returns the current counter and advances it,
    /// so the result differs from everything minted before and after.
    pub fn next_identity(&mut self) -> (id: Id)
        requires
            old(self).next_value < u64::MAX,
        ensures
            id.value == old(self).next_value,
            final(self).next_value == old(self).next_value + 1,
    {
        let id = Id { value: self.next_value };
        self.next_value = self.next_value + 1;
        id
    }
}

} // verus!
