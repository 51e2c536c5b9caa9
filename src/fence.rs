//! Completion fences that expire on their own.
//!
//! A [`UniqueFence`] goes from unsignaled to signaled once and never back.
//! A [`VgemFence`] keeps its fence inside a [`Timer`] whose callback signals
//! it, so that a fence that nobody signals still completes after
//! [`FENCE_TIMEOUT_MS`] milliseconds. All fences live in a [`FencePool`] and
//! are named there by their index; the reservation objects and the handle
//! tables hold such indices.
use vstd::prelude::*;
use crate::time::{msecs_to_jiffies, wrapped_add, Jiffies, HZ};
use crate::timer::{Next, RawTimer, Timer, TimerOps};

verus! {

/// How long a fence may stay unsignaled before its timer signals it.
pub const FENCE_TIMEOUT_MS: u64 = 10_000;

/// The expiry delay in jiffies.
pub open spec fn fence_timeout_jiffies() -> Jiffies {
    (FENCE_TIMEOUT_MS as int * HZ as int / 1000) as Jiffies
}

/// A one-shot completion fence.
#[derive(Clone, Copy, Debug, PartialEq, Eq, Structural)]
pub struct UniqueFence {
    context: u64,
    seqno: u64,
    signaled: bool,
}

impl UniqueFence {
    pub closed spec fn spec_context(&self) -> u64 {
        self.context
    }

    pub closed spec fn spec_seqno(&self) -> u64 {
        self.seqno
    }

    pub closed spec fn spec_signaled(&self) -> bool {
        self.signaled
    }

    /// `after` is this fence, signaled.
    pub open spec fn signaled_as(self, after: UniqueFence) -> bool {
        &&& after.spec_context() == self.spec_context()
        &&& after.spec_seqno() == self.spec_seqno()
        &&& after.spec_signaled()
    }

    /// Creates an unsignaled fence on the timeline `context`.
    pub fn new(context: u64, seqno: u64) -> (r: UniqueFence)
        ensures
            r.spec_context() == context,
            r.spec_seqno() == seqno,
            !r.spec_signaled(),
    {
        UniqueFence { context, seqno, signaled: false }
    }

    /// The timeline that the fence belongs to.
    pub fn context(&self) -> (r: u64)
        ensures
            r == self.spec_context(),
    {
        self.context
    }

    /// The fence's sequence number on its timeline.
    pub fn seqno(&self) -> (r: u64)
        ensures
            r == self.spec_seqno(),
    {
        self.seqno
    }

    /// Whether the fence has been signaled. This never changes back.
    pub fn is_signaled(&self) -> (r: bool)
        ensures
            r == self.spec_signaled(),
    {
        self.signaled
    }

    /// Signals the fence. Only the call that finds it unsignaled completes
    /// it and wakes its waiters; it alone returns `true`. Any later call is
    /// a no-op that returns `false`.
    pub fn signal(&mut self) -> (won: bool)
        ensures
            won == !old(self).spec_signaled(),
            old(self).signaled_as(*final(self)),
            old(self).spec_signaled() ==> *final(self) == *old(self),
    {
        let won = !self.signaled;
        self.signaled = true;
        won
    }

    /// The value the fence reports for itself: its sequence number.
    pub fn fence_value(&self) -> (r: u64)
        ensures
            r == self.spec_seqno(),
    {
        self.seqno
    }

    /// The value the fence reports for its timeline: its sequence number
    /// once signaled, zero before.
    pub fn timeline_value(&self) -> (r: u64)
        ensures
            r == if self.spec_signaled() { self.spec_seqno() } else { 0 },
    {
        if self.signaled { self.seqno } else { 0 }
    }

    /// The name of the driver that made the fence.
    pub fn get_driver_name(&self) -> (r: &'static str)
        ensures
            r@ == "vgem"@,
    {
        proof { reveal_strlit("vgem"); }
        "vgem"
    }

    /// The name of the fence's timeline.
    pub fn get_timeline_name(&self) -> (r: &'static str)
        ensures
            r@ == "unbound"@,
    {
        proof { reveal_strlit("unbound"); }
        "unbound"
    }
}

/// The timer callback of the fences: it signals the fence and stops.
pub struct VgemFenceOps {}

impl TimerOps for VgemFenceOps {
    type Inner = UniqueFence;

    open spec fn callback_effect(before: UniqueFence, after: UniqueFence, next: Next) -> bool {
        &&& before.signaled_as(after)
        &&& before.spec_signaled() ==> after == before
        &&& next is Done
    }

    fn timer_callback(inner: &mut UniqueFence) -> (next: Next) {
        inner.signal();
        Next::Done
    }
}

/// A fence together with the timer that makes it expire.
pub struct VgemFence {
    timer: Timer<VgemFenceOps, UniqueFence>,
}

impl VgemFence {
    pub closed spec fn spec_fence(&self) -> UniqueFence {
        self.timer.spec_inner()
    }

    pub closed spec fn spec_timer(&self) -> RawTimer {
        self.timer.spec_raw()
    }

    /// Creates an unsignaled fence on the timeline `context` and arms its
    /// timer to fire [`FENCE_TIMEOUT_MS`] milliseconds after `now`.
    pub fn create(context: u64, now: Jiffies) -> (r: VgemFence)
        ensures
            r.spec_fence().spec_context() == context,
            r.spec_fence().spec_seqno() == 0,
            !r.spec_fence().spec_signaled(),
            r.spec_timer().spec_pending(),
            !r.spec_timer().spec_shut_down(),
            r.spec_timer().spec_expires() == wrapped_add(now, fence_timeout_jiffies()),
    {
        let fence = UniqueFence::new(context, 0);
        let mut timer = Timer::<VgemFenceOps, UniqueFence>::setup(fence);
        let timeout = msecs_to_jiffies(FENCE_TIMEOUT_MS);
        timer.modify(timeout, now);
        VgemFence { timer }
    }

    /// The fence.
    pub fn fence(&self) -> (r: &UniqueFence)
        ensures
            *r == self.spec_fence(),
    {
        self.timer.inner()
    }

    /// The state of the fence's timer.
    pub fn timer(&self) -> (r: &RawTimer)
        ensures
            *r == self.spec_timer(),
    {
        self.timer.unique().raw()
    }

    /// Whether the fence has been signaled.
    pub fn is_signaled(&self) -> (r: bool)
        ensures
            r == self.spec_fence().spec_signaled(),
    {
        self.timer.inner().is_signaled()
    }

    /// Signals the fence; its timer, if still pending, will find nothing
    /// left to do. Returns whether this call completed the fence.
    pub fn signal(&mut self) -> (won: bool)
        ensures
            won == !old(self).spec_fence().spec_signaled(),
            old(self).spec_fence().signaled_as(final(self).spec_fence()),
            old(self).spec_fence().spec_signaled() ==> *final(self) == *old(self),
            final(self).spec_timer() == old(self).spec_timer(),
    {
        let mut fence = *self.timer.inner();
        let won = fence.signal();
        self.timer.set_inner(fence);
        won
    }

    /// Runs the timer if it is due at `now`: the fence is then signaled and
    /// the timer is idle. Returns whether the timer fired.
    pub fn expire(&mut self, now: Jiffies) -> (fired: bool)
        ensures
            fired == old(self).spec_timer().spec_due(now),
            !fired ==> *final(self) == *old(self),
            fired ==> old(self).spec_fence().signaled_as(final(self).spec_fence())
                && !final(self).spec_timer().spec_pending(),
            old(self).spec_fence().spec_signaled() ==> final(self).spec_fence() == old(self).spec_fence(),
            final(self).spec_timer().spec_shut_down() == old(self).spec_timer().spec_shut_down(),
    {
        match self.timer.expire(now) {
            Some(_) => true,
            None => false,
        }
    }
}

/// All fences of a device, each named by its index.
pub struct FencePool {
    fences: Vec<VgemFence>,
}

impl FencePool {
    pub closed spec fn view(&self) -> Seq<VgemFence> {
        self.fences@
    }

    /// The fence named `id` is signaled.
    pub open spec fn signaled(&self, id: int) -> bool {
        self@[id].spec_fence().spec_signaled()
    }

    /// Creates an empty pool.
    pub fn new() -> (r: FencePool)
        ensures
            r@.len() == 0,
    {
        FencePool { fences: Vec::new() }
    }

    /// The number of fences in the pool.
    pub fn len(&self) -> (r: usize)
        ensures
            r == self@.len(),
    {
        self.fences.len()
    }

    /// The fence named `id`.
    pub fn get(&self, id: usize) -> (r: &VgemFence)
        requires
            id < self@.len(),
        ensures
            *r == self@[id as int],
    {
        &self.fences[id]
    }

    /// Whether the fence named `id` has been signaled.
    pub fn is_signaled(&self, id: usize) -> (r: bool)
        requires
            id < self@.len(),
        ensures
            r == self.signaled(id as int),
    {
        self.fences[id].is_signaled()
    }

    /// Creates a fence with its own timeline, armed to expire after the
    /// timeout counted from `now`, and returns its name; `None` when the
    /// pool cannot name another fence.
    pub fn create(&mut self, now: Jiffies) -> (r: Option<usize>)
        ensures
            r is None <==> old(self)@.len() == usize::MAX,
            r is None ==> *final(self) == *old(self),
            r matches Some(id) ==> {
                &&& id == old(self)@.len()
                &&& final(self)@.len() == old(self)@.len() + 1
                &&& final(self)@.subrange(0, id as int) == old(self)@
                &&& final(self)@[id as int].spec_fence().spec_context() == id
                &&& final(self)@[id as int].spec_fence().spec_seqno() == 0
                &&& !final(self).signaled(id as int)
                &&& final(self)@[id as int].spec_timer().spec_pending()
                &&& !final(self)@[id as int].spec_timer().spec_shut_down()
                &&& final(self)@[id as int].spec_timer().spec_expires()
                    == wrapped_add(now, fence_timeout_jiffies())
            },
    {
        let id = self.fences.len();
        if id == usize::MAX {
            return None;
        }
        let fence = VgemFence::create(id as u64, now);
        self.fences.push(fence);
        assert(self.fences@.subrange(0, id as int) =~= old(self)@);
        Some(id)
    }

    /// Signals the fence named `id`. Returns whether this call completed it.
    pub fn signal(&mut self, id: usize) -> (won: bool)
        requires
            id < old(self)@.len(),
        ensures
            won == !old(self).signaled(id as int),
            final(self)@.len() == old(self)@.len(),
            final(self).signaled(id as int),
            old(self)@[id as int].spec_fence().signaled_as(final(self)@[id as int].spec_fence()),
            final(self)@[id as int].spec_timer() == old(self)@[id as int].spec_timer(),
            forall|j: int| 0 <= j < old(self)@.len() && j != id ==> final(self)@[j] == old(self)@[j],
            won == false ==> final(self)@ == old(self)@,
    {
        let won = self.fences[id].signal();
        proof {
            if !won {
                assert(self@ =~= old(self)@);
            }
        }
        won
    }

    /// Runs every timer that is due at `now`. Each fence whose timer was
    /// due is signaled afterwards and its timer idle; the others are left as
    /// they were. Returns how many timers fired.
    pub fn expire_timers(&mut self, now: Jiffies) -> (fired: usize)
        ensures
            final(self)@.len() == old(self)@.len(),
            fired <= old(self)@.len(),
            forall|j: int| 0 <= j < old(self)@.len() ==> {
                if old(self)@[j].spec_timer().spec_due(now) {
                    &&& old(self)@[j].spec_fence().signaled_as(final(self)@[j].spec_fence())
                    &&& !final(self)@[j].spec_timer().spec_pending()
                    &&& final(self)@[j].spec_timer().spec_shut_down()
                        == old(self)@[j].spec_timer().spec_shut_down()
                } else {
                    final(self)@[j] == old(self)@[j]
                }
            },
            forall|j: int| 0 <= j < old(self)@.len() && old(self).signaled(j)
                ==> final(self)@[j].spec_fence() == old(self)@[j].spec_fence(),
    {
        let n = self.fences.len();
        let mut fired: usize = 0;
        let mut i: usize = 0;
        while i < n
            invariant
                n == old(self)@.len(),
                self@.len() == n,
                i <= n,
                fired <= i,
                forall|j: int| 0 <= j < i ==> {
                    if old(self)@[j].spec_timer().spec_due(now) {
                        &&& old(self)@[j].spec_fence().signaled_as(self@[j].spec_fence())
                        &&& !self@[j].spec_timer().spec_pending()
                        &&& self@[j].spec_timer().spec_shut_down()
                            == old(self)@[j].spec_timer().spec_shut_down()
                    } else {
                        self@[j] == old(self)@[j]
                    }
                },
                forall|j: int| 0 <= j < i && old(self).signaled(j)
                    ==> self@[j].spec_fence() == old(self)@[j].spec_fence(),
                forall|j: int| i <= j < n ==> self@[j] == old(self)@[j],
            decreases n - i,
        {
            if self.fences[i].expire(now) {
                fired = fired + 1;
            }
            i = i + 1;
        }
        fired
    }
}

} // verus!
