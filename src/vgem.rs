//! The device: its buffers and its fences.
use vstd::prelude::*;
use crate::dma_resv::{DmaResvUsage, MAX_RESV_FENCES};
use crate::error::Error;
use crate::fence::{fence_timeout_jiffies, FencePool};
use crate::gem::Object;
use crate::time::{wrapped_add, Jiffies};

verus! {

/// Every fence of `before` is in `after`, and each one that was signaled is
/// still signaled: a fence never goes back to unsignaled.
pub open spec fn signaled_kept(before: FencePool, after: FencePool) -> bool {
    &&& before@.len() <= after@.len()
    &&& forall|i: int| 0 <= i < before@.len() && before.signaled(i) ==> #[trigger] after.signaled(i)
}

/// A fence stays signaled across any run of operations: what holds from
/// one state to the next holds from the first state to the last.
pub proof fn lemma_signaled_kept_transitive(a: FencePool, b: FencePool, c: FencePool)
    requires
        signaled_kept(a, b),
        signaled_kept(b, c),
    ensures
        signaled_kept(a, c),
{
    assert forall|i: int| 0 <= i < a@.len() && a.signaled(i) implies #[trigger] c.signaled(i) by {
        assert(b.signaled(i));
    }
}

/// `after` is `before` where each fence whose timer was due at `now` has
/// been signaled by it, its timer now idle.
pub open spec fn timers_expired(before: FencePool, after: FencePool, now: Jiffies) -> bool {
    &&& after@.len() == before@.len()
    &&& forall|j: int| 0 <= j < before@.len() ==> {
        if (#[trigger] before@[j]).spec_timer().spec_due(now) {
            &&& before@[j].spec_fence().signaled_as(after@[j].spec_fence())
            &&& !after@[j].spec_timer().spec_pending()
            &&& after@[j].spec_timer().spec_shut_down() == before@[j].spec_timer().spec_shut_down()
        } else {
            after@[j] == before@[j]
        }
    }
}

/// `after` is `before` with one more fence, created at `now` on a
/// timeline of its own, with its timer armed; `signaled` tells whether it
/// has been signaled since.
pub open spec fn fence_created(before: FencePool, after: FencePool, now: Jiffies, signaled: bool) -> bool {
    let id = before@.len() as int;
    &&& after@.len() == id + 1
    &&& after@.subrange(0, id as int) == before@
    &&& after@[id].spec_fence().spec_context() == id
    &&& after@[id].spec_fence().spec_seqno() == 0
    &&& after.signaled(id) == signaled
    &&& after@[id].spec_timer().spec_pending()
    &&& !after@[id].spec_timer().spec_shut_down()
    &&& after@[id].spec_timer().spec_expires() == wrapped_add(now, fence_timeout_jiffies())
}

/// `after` is `before` where the fence named `id` has been signaled, its
/// timer left as it was.
pub open spec fn fence_signaled(before: FencePool, after: FencePool, id: int) -> bool {
    &&& after@.len() == before@.len()
    &&& before@[id].spec_fence().signaled_as(after@[id].spec_fence())
    &&& after@[id].spec_timer() == before@[id].spec_timer()
    &&& forall|j: int| 0 <= j < before@.len() && j != id ==> #[trigger] after@[j] == before@[j]
}

/// A fence that was created and then signaled is a fence created
/// signaled.
pub proof fn lemma_created_then_signaled(before: FencePool, mid: FencePool, after: FencePool, now: Jiffies)
    requires
        fence_created(before, mid, now, false),
        fence_signaled(mid, after, before@.len() as int),
    ensures
        fence_created(before, after, now, true),
{
    let id = before@.len() as int;
    assert(after@.subrange(0, id) =~= mid@.subrange(0, id));
}

/// The virtual GEM device.
pub struct VgemDevice {
    pool: FencePool,
    objects: Vec<Object>,
}

impl VgemDevice {
    pub closed spec fn spec_pool(&self) -> FencePool {
        self.pool
    }

    pub closed spec fn spec_objects(&self) -> Seq<Object> {
        self.objects@
    }

    /// Every reservation names only fences of the pool.
    pub open spec fn wf(&self) -> bool {
        forall|o: int|
            0 <= o < self.spec_objects().len() ==> (#[trigger] self.spec_objects()[o]).spec_resv().wf(
                &self.spec_pool(),
            )
    }

    /// Creates a device without buffers or fences.
    pub fn new() -> (r: VgemDevice)
        ensures
            r.wf(),
            r.spec_pool()@.len() == 0,
            r.spec_objects().len() == 0,
    {
        VgemDevice { pool: FencePool::new(), objects: Vec::new() }
    }

    /// The device's fences.
    pub fn pool(&self) -> (r: &FencePool)
        ensures
            *r == self.spec_pool(),
    {
        &self.pool
    }

    /// The number of buffers.
    pub fn num_objects(&self) -> (r: usize)
        ensures
            r == self.spec_objects().len(),
    {
        self.objects.len()
    }

    /// The buffer named `obj`.
    pub fn object(&self, obj: usize) -> (r: &Object)
        requires
            obj < self.spec_objects().len(),
        ensures
            *r == self.spec_objects()[obj as int],
    {
        &self.objects[obj]
    }

    /// Creates a buffer and returns its name; `None` when no more buffers
    /// can be named.
    pub fn create_object(&mut self) -> (r: Option<usize>)
        requires
            old(self).wf(),
        ensures
            final(self).wf(),
            final(self).spec_pool() == old(self).spec_pool(),
            r is None <==> old(self).spec_objects().len() == usize::MAX,
            r is None ==> final(self).spec_objects() == old(self).spec_objects(),
            r matches Some(o) ==> o == old(self).spec_objects().len()
                && final(self).spec_objects().len() == o + 1
                && final(self).spec_objects().subrange(0, o as int) == old(self).spec_objects()
                && final(self).spec_objects()[o as int].spec_resv()@.len() == 0,
    {
        let o = self.objects.len();
        if o == usize::MAX {
            return None;
        }
        self.objects.push(Object::new());
        assert(self.objects@.subrange(0, o as int) =~= old(self).objects@);
        Some(o)
    }

    /// Creates a fence armed at `now` and returns its name; `None` when the
    /// pool cannot name another fence.
    pub fn create_fence(&mut self, now: Jiffies) -> (r: Option<usize>)
        requires
            old(self).wf(),
        ensures
            final(self).wf(),
            final(self).spec_objects() == old(self).spec_objects(),
            r is None <==> old(self).spec_pool()@.len() == usize::MAX,
            r is None ==> *final(self) == *old(self),
            r matches Some(id) ==> id == old(self).spec_pool()@.len()
                && fence_created(old(self).spec_pool(), final(self).spec_pool(), now, false),
    {
        let r = self.pool.create(now);
        proof {
            assert forall|o: int| 0 <= o < self.spec_objects().len() implies
                (#[trigger] self.spec_objects()[o]).spec_resv().wf(&self.spec_pool()) by {
                assert(old(self).spec_objects()[o].spec_resv().wf(&old(self).spec_pool()));
            }
        }
        r
    }

    /// Signals the fence named `id`; returns whether this call completed it.
    pub fn signal_fence(&mut self, id: usize) -> (won: bool)
        requires
            old(self).wf(),
            id < old(self).spec_pool()@.len(),
        ensures
            final(self).wf(),
            final(self).spec_objects() == old(self).spec_objects(),
            won == !old(self).spec_pool().signaled(id as int),
            final(self).spec_pool().signaled(id as int),
            fence_signaled(old(self).spec_pool(), final(self).spec_pool(), id as int),
            signaled_kept(old(self).spec_pool(), final(self).spec_pool()),
    {
        let won = self.pool.signal(id);
        proof {
            assert forall|o: int| 0 <= o < self.spec_objects().len() implies
                (#[trigger] self.spec_objects()[o]).spec_resv().wf(&self.spec_pool()) by {
                assert(old(self).spec_objects()[o].spec_resv().wf(&old(self).spec_pool()));
            }
        }
        won
    }

    /// Records the fence named `fence` under `usage` in the reservation of
    /// the buffer named `obj`. On failure nothing changes.
    pub fn publish(&mut self, obj: usize, fence: usize, usage: DmaResvUsage) -> (r: Result<(), Error>)
        requires
            old(self).wf(),
            obj < old(self).spec_objects().len(),
            fence < old(self).spec_pool()@.len(),
        ensures
            final(self).wf(),
            final(self).spec_pool() == old(self).spec_pool(),
            final(self).spec_objects().len() == old(self).spec_objects().len(),
            r is Ok <==> old(self).spec_objects()[obj as int].spec_resv()@.len() < MAX_RESV_FENCES,
            r matches Err(e) ==> e == Error::OutOfMemory && final(self).spec_objects() == old(self).spec_objects(),
            r is Ok ==> final(self).spec_objects()[obj as int].spec_resv()@
                == old(self).spec_objects()[obj as int].spec_resv()@.push((fence, usage)),
            forall|o: int| 0 <= o < old(self).spec_objects().len() && o != obj
                ==> #[trigger] final(self).spec_objects()[o] == old(self).spec_objects()[o],
    {
        let r = self.objects[obj].resv_mut().add_fences(fence, 1, usage);
        proof {
            if r is Err {
                assert(self.objects@ =~= old(self).objects@);
            }
            assert forall|o: int| 0 <= o < self.spec_objects().len() implies
                (#[trigger] self.spec_objects()[o]).spec_resv().wf(&self.spec_pool()) by {
                assert(old(self).spec_objects()[o].spec_resv().wf(&old(self).spec_pool()));
                if o == obj {
                    let rv = self.spec_objects()[o].spec_resv();
                    assert forall|i: int| 0 <= i < rv@.len() implies (#[trigger] rv@[i]).0 < self.spec_pool()@.len() by {
                        if i < rv@.len() - 1 {
                            assert(rv@[i] == old(self).spec_objects()[o].spec_resv()@[i]);
                        }
                    }
                }
            }
        }
        r
    }

    /// Runs every fence timer that is due at `now`; returns how many fired.
    pub fn expire_timers(&mut self, now: Jiffies) -> (fired: usize)
        requires
            old(self).wf(),
        ensures
            final(self).wf(),
            final(self).spec_objects() == old(self).spec_objects(),
            timers_expired(old(self).spec_pool(), final(self).spec_pool(), now),
            signaled_kept(old(self).spec_pool(), final(self).spec_pool()),
    {
        let fired = self.pool.expire_timers(now);
        proof {
            assert forall|o: int| 0 <= o < self.spec_objects().len() implies
                (#[trigger] self.spec_objects()[o]).spec_resv().wf(&self.spec_pool()) by {
                assert(old(self).spec_objects()[o].spec_resv().wf(&old(self).spec_pool()));
            }
        }
        fired
    }
}

} // verus!
