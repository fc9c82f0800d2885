use vstd::prelude::*;

verus! {

/// The identity of a dependency record.
#[derive(Clone, Copy, Debug, PartialEq, Eq, Structural, Hash, PartialOrd, Ord)]
pub struct DependencyId(pub u32);

/// The source of fresh dependency ids: the value the next id takes.
#[derive(Debug)]
pub struct DependencyIdCounter {
    pub next: u32,
}

/// The counter value after one id was taken: a 32-bit counter that wraps.
pub open spec fn next_counter(n: u32) -> u32 {
    if n == u32::MAX {
        0
    } else {
        (n + 1) as u32
    }
}

impl DependencyIdCounter {
    /// A counter whose first id is 0.
    pub fn new() -> (r: DependencyIdCounter)
        ensures
            r.next == 0,
    {
        DependencyIdCounter { next: 0 }
    }
}

impl DependencyId {
    /// Takes the next id from the counter and advances it.
    pub fn new(counter: &mut DependencyIdCounter) -> (r: DependencyId)
        ensures
            r == DependencyId(old(counter).next),
            final(counter).next == next_counter(old(counter).next),
    {
        let id = counter.next;
        counter.next = if id == u32::MAX {
            0
        } else {
            id + 1
        };
        DependencyId(id)
    }

    /// An id with the given number.
    pub fn from(id: u32) -> (r: DependencyId)
        ensures
            r.0 == id,
    {
        DependencyId(id)
    }

    /// The number of this id.
    pub fn as_u32(&self) -> (r: u32)
        ensures
            r == self.0,
    {
        self.0
    }
}

} // verus!
