//! Buffer reservation objects.
//!
//! A reservation records the fences of the operations on a buffer, each
//! under a usage class. The classes are ordered: a test for a class covers
//! the fences of that class and of every class before it.
use vstd::prelude::*;
use crate::error::Error;
use crate::fence::FencePool;

verus! {

/// The usage class of a fence in a reservation, in order.
#[derive(Clone, Copy, Debug, PartialEq, Eq, Structural)]
pub enum DmaResvUsage {
    /// Memory management by the kernel.
    Kernel,
    /// Implicit write synchronization.
    Write,
    /// Implicit read synchronization.
    Read,
    /// Neither read nor write synchronization.
    Bookkeep,
}

/// The position of a usage class in the order.
pub open spec fn usage_rank(u: DmaResvUsage) -> int {
    match u {
        DmaResvUsage::Kernel => 0,
        DmaResvUsage::Write => 1,
        DmaResvUsage::Read => 2,
        DmaResvUsage::Bookkeep => 3,
    }
}

/// Whether a test for `query` covers a fence recorded under `u`.
pub fn usage_covers(u: DmaResvUsage, query: DmaResvUsage) -> (r: bool)
    ensures
        r == (usage_rank(u) <= usage_rank(query)),
{
    let a: u8 = match u {
        DmaResvUsage::Kernel => 0,
        DmaResvUsage::Write => 1,
        DmaResvUsage::Read => 2,
        DmaResvUsage::Bookkeep => 3,
    };
    let b: u8 = match query {
        DmaResvUsage::Kernel => 0,
        DmaResvUsage::Write => 1,
        DmaResvUsage::Read => 2,
        DmaResvUsage::Bookkeep => 3,
    };
    a <= b
}

/// The most fences a reservation can hold.
pub const MAX_RESV_FENCES: u32 = 0xffff_ffff;

/// A reservation object: the fences recorded on one buffer, by the name
/// they have in the device's [`FencePool`].
pub struct DmaResv {
    fences: Vec<(usize, DmaResvUsage)>,
}

impl DmaResv {
    pub closed spec fn view(&self) -> Seq<(usize, DmaResvUsage)> {
        self.fences@
    }

    /// Every fence recorded here exists in `pool`.
    pub open spec fn wf(&self, pool: &FencePool) -> bool {
        forall|i: int| 0 <= i < self@.len() ==> (#[trigger] self@[i]).0 < pool@.len()
    }

    /// All fences recorded under a class that `usage` covers are signaled.
    pub open spec fn spec_signaled(&self, usage: DmaResvUsage, pool: &FencePool) -> bool {
        forall|i: int|
            0 <= i < self@.len() && usage_rank((#[trigger] self@[i]).1) <= usage_rank(usage)
                ==> pool.signaled(self@[i].0 as int)
    }

    /// Creates a reservation without fences.
    pub fn new() -> (r: DmaResv)
        ensures
            r@.len() == 0,
    {
        DmaResv { fences: Vec::new() }
    }

    /// The number of fences recorded.
    pub fn len(&self) -> (r: usize)
        ensures
            r == self@.len(),
    {
        self.fences.len()
    }

    /// The class that an access must wait for: a write waits for readers
    /// and writers, a read for writers only.
    pub fn usage_rw(&self, write: bool) -> (r: DmaResvUsage)
        ensures
            r == if write { DmaResvUsage::Read } else { DmaResvUsage::Write },
    {
        if write { DmaResvUsage::Read } else { DmaResvUsage::Write }
    }

    /// Checks that room for `num_fences` more fences can be had.
    pub fn reserve_fences(&self, num_fences: u32) -> (r: Result<(), Error>)
        ensures
            r is Ok <==> self@.len() + num_fences <= MAX_RESV_FENCES,
            r matches Err(e) ==> e == Error::OutOfMemory,
    {
        let len = self.fences.len();
        if len as u64 <= MAX_RESV_FENCES as u64
            && num_fences as u64 <= MAX_RESV_FENCES as u64 - len as u64 {
            Ok(())
        } else {
            Err(Error::OutOfMemory)
        }
    }

    /// Records the fence named `fence` under `usage`, after reserving room
    /// for `num_fences`. On failure nothing is recorded.
    pub fn add_fences(&mut self, fence: usize, num_fences: u32, usage: DmaResvUsage) -> (r: Result<(), Error>)
        ensures
            r is Ok <==> old(self)@.len() + num_fences <= MAX_RESV_FENCES && old(self)@.len() < MAX_RESV_FENCES,
            r matches Err(e) ==> e == Error::OutOfMemory && *final(self) == *old(self),
            r is Ok ==> final(self)@ == old(self)@.push((fence, usage)),
    {
        let ret = self.reserve_fences(num_fences);
        match ret {
            Ok(()) => {
                if self.fences.len() as u64 >= MAX_RESV_FENCES as u64 {
                    return Err(Error::OutOfMemory);
                }
                self.fences.push((fence, usage));
                Ok(())
            },
            Err(e) => Err(e),
        }
    }

    /// Whether every fence recorded under a class that `usage` covers is
    /// signaled.
    pub fn test_signaled(&self, usage: DmaResvUsage, pool: &FencePool) -> (r: bool)
        requires
            self.wf(pool),
        ensures
            r == self.spec_signaled(usage, pool),
    {
        let n = self.fences.len();
        let mut i: usize = 0;
        while i < n
            invariant
                n == self@.len(),
                self.wf(pool),
                i <= n,
                forall|j: int|
                    0 <= j < i && usage_rank((#[trigger] self@[j]).1) <= usage_rank(usage)
                        ==> pool.signaled(self@[j].0 as int),
            decreases n - i,
        {
            let (id, u) = self.fences[i];
            if usage_covers(u, usage) && !pool.is_signaled(id) {
                return false;
            }
            i = i + 1;
        }
        true
    }
}

} // verus!
