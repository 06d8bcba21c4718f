use vstd::prelude::*;
use crate::error::{GameError, GameResult};

verus! {

/// What a GPU buffer binds as.
#[derive(Debug, Clone, Copy, PartialEq, Eq, Structural, Hash)]
pub enum BufferTarget {
    Vertex,
    Element,
}

/// The usage hint a GPU buffer is allocated with.
#[derive(Debug, Clone, Copy, PartialEq, Eq, Structural, Hash)]
pub enum BufferUsage {
    Static,
    Dynamic,
    Stream,
}

/// Buffer limits stay below this bound so that the geometric growth
/// arithmetic cannot overflow a `usize` on any supported platform.
pub const BUFFER_LIMIT_BOUND: usize = 0x1000_0000;

/// The capacity after making room for `needed` units: unchanged when it
/// already fits, otherwise grown geometrically (at least half again) and
/// clamped to the session limit.
pub open spec fn grown_capacity(cap: nat, needed: nat, limit: nat) -> nat {
    if needed <= cap {
        cap
    } else {
        let geometric = cap + (cap + 1) / 2;
        let candidate = if needed > geometric {
            needed
        } else {
            geometric
        };
        if candidate > limit {
            limit
        } else {
            candidate
        }
    }
}

/// Capacity bookkeeping for one GPU buffer: the units currently allocated
/// and the per-session growth limit. Capacity only ever grows within a
/// session, geometrically, to amortize reallocation cost.
pub struct BufferPlan {
    capacity: usize,
    limit: usize,
}

impl BufferPlan {
    pub closed spec fn spec_capacity(&self) -> usize {
        self.capacity
    }

    pub closed spec fn spec_limit(&self) -> usize {
        self.limit
    }

    pub closed spec fn wf(&self) -> bool {
        self.capacity <= self.limit && self.limit <= BUFFER_LIMIT_BOUND
    }

    pub fn new(limit: usize) -> (r: Self)
        requires
            limit <= BUFFER_LIMIT_BOUND,
        ensures
            r.wf(),
            r.spec_capacity() == 0,
            r.spec_limit() == limit,
    {
        Self { capacity: 0, limit }
    }

    /// The units currently allocated.
    pub fn capacity(&self) -> (r: usize)
        ensures
            r == self.spec_capacity(),
    {
        self.capacity
    }

    /// Whether `needed` units can ever be made to fit under the limit.
    pub fn fits(&self, needed: usize) -> (r: bool)
        ensures
            r == (needed <= self.spec_limit()),
    {
        needed <= self.limit
    }

    /// Make room for `needed` units. Returns whether the underlying buffer
    /// must be reallocated (capacity grew); exceeding the session limit is
    /// the resource-exhaustion error and leaves the plan unchanged.
    pub fn ensure(&mut self, needed: usize) -> (r: GameResult<bool>)
        requires
            old(self).wf(),
        ensures
            final(self).wf(),
            final(self).spec_limit() == old(self).spec_limit(),
            (r is Ok) == (needed <= old(self).spec_limit()),
            r is Ok ==> final(self).spec_capacity() == grown_capacity(
                old(self).spec_capacity() as nat,
                needed as nat,
                old(self).spec_limit() as nat,
            ),
            r is Ok ==> needed <= final(self).spec_capacity(),
            r is Ok ==> old(self).spec_capacity() <= final(self).spec_capacity(),
            r matches Ok(grew) ==> grew == (needed > old(self).spec_capacity()),
            r is Err ==> final(self).spec_capacity() == old(self).spec_capacity(),
            r matches Err(e) ==> e is ResourceError,
    {
        if needed > self.limit {
            return Err(
                GameError::ResourceError("buffer growth past the session limit".to_owned()),
            );
        }
        if needed <= self.capacity {
            return Ok(false);
        }
        let geometric = self.capacity + (self.capacity + 1) / 2;
        let candidate = if needed > geometric {
            needed
        } else {
            geometric
        };
        let clamped = if candidate > self.limit {
            self.limit
        } else {
            candidate
        };
        self.capacity = clamped;
        Ok(true)
    }
}

} // verus!
