//! Buffer objects.
use vstd::prelude::*;
use crate::dma_resv::DmaResv;

verus! {

/// A shared buffer, seen through its reservation object.
pub struct Object {
    resv: DmaResv,
}

impl Object {
    pub closed spec fn spec_resv(&self) -> DmaResv {
        self.resv
    }

    /// Creates a buffer whose reservation holds no fences.
    pub fn new() -> (r: Object)
        ensures
            r.spec_resv()@.len() == 0,
    {
        Object { resv: DmaResv::new() }
    }

    /// The buffer's reservation object.
    pub fn resv(&self) -> (r: &DmaResv)
        ensures
            *r == self.spec_resv(),
    {
        &self.resv
    }

    /// The buffer's reservation object, for recording a fence.
    pub fn resv_mut(&mut self) -> (r: &mut DmaResv)
        ensures
            *r == old(self).spec_resv(),
            final(self).spec_resv() == *final(r),
            *final(r) == old(self).spec_resv() ==> *final(self) == *old(self),
    {
        &mut self.resv
    }
}

} // verus!
