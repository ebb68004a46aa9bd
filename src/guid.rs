use vstd::prelude::*;

verus! {

pub type Guid = u32;

/// Hands out shape ids: 0, 1, 2, ... in order, never the same one twice.
/// Taking an id needs `&mut`, so two callers can never draw the same value.
#[derive(Debug)]
pub struct GuidGenerator {
    next: u32,
}

impl GuidGenerator {
    /// The id that the next call of `next_guid` returns.
    pub closed spec fn spec_next(&self) -> u32 {
        self.next
    }

    pub fn new() -> (r: GuidGenerator)
        ensures
            r.spec_next() == 0,
    {
        GuidGenerator { next: 0 }
    }

    /// The id that the next call of `next_guid` returns.
    pub fn peek(&self) -> (r: Guid)
        ensures
            r == self.spec_next(),
    {
        self.next
    }

    pub fn next_guid(&mut self) -> (r: Guid)
        requires
            old(self).spec_next() < u32::MAX,
        ensures
            r == old(self).spec_next(),
            final(self).spec_next() == old(self).spec_next() + 1,
    {
        let id = self.next;
        self.next = self.next + 1;
        id
    }
}

} // verus!
