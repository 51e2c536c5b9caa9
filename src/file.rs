//! A client session: its handle table of fences and its buffer handles,
//! and the two commands a client issues, attach and signal.
use vstd::prelude::*;
use crate::dma_resv::{DmaResvUsage, MAX_RESV_FENCES};
use crate::error::Error;
use crate::fence::FencePool;
use crate::time::Jiffies;
use crate::vgem::{
    fence_created, fence_signaled, lemma_created_then_signaled, signaled_kept, timers_expired, VgemDevice,
};
use crate::xarray::XArray;

verus! {

/// The attach flag that asks for write access; no other flag is defined.
pub const VGEM_FENCE_WRITE: u32 = 1;

/// The arguments of the attach command.
#[derive(Clone, Copy, Debug, PartialEq, Eq, Structural)]
pub struct DrmVgemFenceAttach {
    /// The buffer to attach the fence to.
    pub handle: u32,
    /// [`VGEM_FENCE_WRITE`] or nothing.
    pub flags: u32,
    /// Set to the handle of the new fence.
    pub out_fence: u32,
    /// Must be zero.
    pub pad: u32,
}

/// The arguments of the signal command.
#[derive(Clone, Copy, Debug, PartialEq, Eq, Structural)]
pub struct DrmVgemFenceSignal {
    /// The handle of the fence to signal.
    pub fence: u32,
    /// Must be zero.
    pub flags: u32,
}

/// The attach flags hold no unknown bit and the padding is zero.
pub open spec fn attach_args_valid(flags: u32, pad: u32) -> bool {
    flags & !VGEM_FENCE_WRITE == 0 && pad == 0
}

/// The attach flags ask for write access.
pub open spec fn wants_write(flags: u32) -> bool {
    flags & VGEM_FENCE_WRITE != 0
}

/// The class a fence is published under: write for a writer, read else.
pub open spec fn publish_usage(flags: u32) -> DmaResvUsage {
    if wants_write(flags) { DmaResvUsage::Write } else { DmaResvUsage::Read }
}

/// The class whose fences must all be signaled before an attach: a writer
/// waits for readers and writers, a reader for writers.
pub open spec fn wait_usage(flags: u32) -> DmaResvUsage {
    if wants_write(flags) { DmaResvUsage::Read } else { DmaResvUsage::Write }
}

/// What signal returns for the fence handle `fence` and `flags`, given
/// the session's fence table and the device's fences.
pub open spec fn signal_outcome(fences: XArray<Option<usize>>, pool: FencePool, fence: u32, flags: u32) -> Result<u32, Error> {
    if flags != 0 {
        Err(Error::InvalidArgument)
    } else {
        match fences.entry(fence as int) {
            Some(Some(id)) => if pool.signaled(id as int) {
                Err(Error::Timeout)
            } else {
                Ok(0)
            },
            _ => Err(Error::NotFound),
        }
    }
}

/// A fence handle is consumed by the first signal that finds its fence:
/// whether that signal succeeded or found the fence expired, every later
/// signal of the same handle finds nothing, whatever the fences have become
/// since. So at most one signal of a handle ever completes its fence.
pub proof fn lemma_signal_consumes_handle(
    fences: XArray<Option<usize>>,
    after: XArray<Option<usize>>,
    pool: FencePool,
    later_pool: FencePool,
    fence: u32,
)
    requires
        signal_outcome(fences, pool, fence, 0) is Ok
            || signal_outcome(fences, pool, fence, 0) == Err::<u32, Error>(Error::Timeout),
        fences.stored(&after, fence as int, None),
    ensures
        signal_outcome(after, later_pool, fence, 0) == Err::<u32, Error>(Error::NotFound),
{
}

/// A fence whose timer was due when the timers ran is signaled, so a
/// client that signals its handle afterwards is told it was too late.
pub proof fn lemma_expired_fence_times_out(
    fences: XArray<Option<usize>>,
    before: FencePool,
    after: FencePool,
    now: Jiffies,
    fence: u32,
)
    requires
        fences.entry(fence as int) matches Some(Some(id)) && id < before@.len()
            && before@[id as int].spec_timer().spec_due(now),
        timers_expired(before, after, now),
    ensures
        signal_outcome(fences, after, fence, 0) == Err::<u32, Error>(Error::Timeout),
{
    let id = fences.entry(fence as int)->Some_0->Some_0;
    assert(before@[id as int].spec_timer().spec_due(now));
}

/// A client session.
pub struct File {
    fences: XArray<Option<usize>>,
    handles: XArray<usize>,
}

impl File {
    /// The session's fence table: a handle in use holds the name of a
    /// fence until signal consumes it, and nothing after.
    pub closed spec fn spec_fences(&self) -> XArray<Option<usize>> {
        self.fences
    }

    /// The session's buffer handles, each naming a buffer of the device.
    pub closed spec fn spec_handles(&self) -> XArray<usize> {
        self.handles
    }

    /// The tables are sound and name only buffers and fences of `device`.
    pub open spec fn wf(&self, device: &VgemDevice) -> bool {
        &&& self.spec_fences().wf()
        &&& self.spec_handles().wf()
        &&& forall|h: int| #[trigger] self.spec_handles().entry(h) matches Some(o)
            ==> o < device.spec_objects().len()
        &&& forall|h: int| #[trigger] self.spec_fences().entry(h) matches Some(Some(id))
            ==> id < device.spec_pool()@.len()
    }

    /// Opens a session with empty tables.
    pub fn open(device: &VgemDevice) -> (r: File)
        ensures
            r.wf(device),
            forall|h: int| !(#[trigger] r.spec_fences().in_use(h)),
            forall|h: int| !(#[trigger] r.spec_handles().in_use(h)),
    {
        let r = File { fences: XArray::new(), handles: XArray::new() };
        assert forall|h: int| r.spec_fences().entry(h) is None && r.spec_handles().entry(h) is None by {
            assert(!r.spec_fences().in_use(h));
            assert(!r.spec_handles().in_use(h));
        }
        r
    }

    /// Gives the buffer named `obj` a handle in this session: the lowest
    /// free one from 1 on.
    pub fn create_handle(&mut self, device: &VgemDevice, obj: usize) -> (r: Result<u32, Error>)
        requires
            old(self).wf(device),
            obj < device.spec_objects().len(),
        ensures
            final(self).wf(device),
            final(self).spec_fences() == old(self).spec_fences(),
            r is Err <==> old(self).spec_handles().full(),
            r matches Err(e) ==> e == Error::TableExhausted && final(self).spec_handles()@ == old(self).spec_handles()@,
            r matches Ok(h) ==> {
                &&& 1 <= h
                &&& !old(self).spec_handles().in_use(h as int)
                &&& forall|k: int| 1 <= k < h ==> #[trigger] old(self).spec_handles().in_use(k)
                &&& old(self).spec_handles().stored(&final(self).spec_handles(), h as int, obj)
            },
    {
        let r = self.handles.allocate(obj);
        proof {
            assert forall|h: int| #[trigger] self.spec_handles().entry(h) matches Some(o)
                ==> o < device.spec_objects().len() by {
                if r is Err || h != r->Ok_0 {
                    assert(self.spec_handles().entry(h) == old(self).spec_handles().entry(h));
                }
            }
        }
        r
    }

    /// The buffer that `handle` names in this session.
    pub fn lookup_handle(&self, handle: u32) -> (r: Option<usize>)
        ensures
            r == self.spec_handles().entry(handle as int),
    {
        match self.handles.get(handle as usize) {
            Some(o) => Some(*o),
            None => None,
        }
    }

    /// The attach command: creates a fence, armed to expire at the timeout
    /// counted from `now`, publishes it in the reservation of the buffer
    /// that `data.handle` names, and hands out a handle for it in
    /// `data.out_fence`.
    ///
    /// Fails with [`Error::InvalidArgument`] on an unknown flag or a nonzero
    /// padding, and with [`Error::NotFound`] on an unknown buffer handle;
    /// then nothing changes. Fails with [`Error::OutOfMemory`] when no fence
    /// can be created, again changing nothing. When the buffer's reservation
    /// still holds an unsignaled fence that this access must wait for, the
    /// new fence is signaled at once and the result is [`Error::Busy`].
    /// When the reservation has no room left the new fence is signaled too,
    /// and the result is [`Error::OutOfMemory`]. Otherwise the fence is
    /// published and the result is `Ok(0)`; it then gets the lowest free
    /// handle, unless the session's table is full, in which case it stays
    /// published without a handle and `data` is unchanged.
    pub fn attach(device: &mut VgemDevice, data: &mut DrmVgemFenceAttach, file: &mut File, now: Jiffies) -> (r: Result<u32, Error>)
        requires
            old(device).wf(),
            old(file).wf(old(device)),
        ensures
            final(device).wf(),
            final(file).wf(final(device)),
            signaled_kept(old(device).spec_pool(), final(device).spec_pool()),
            final(file).spec_handles() == old(file).spec_handles(),
            final(data).handle == old(data).handle,
            final(data).flags == old(data).flags,
            final(data).pad == old(data).pad,
            ({
                let valid = attach_args_valid(old(data).flags, old(data).pad);
                let lookup = old(file).spec_handles().entry(old(data).handle as int);
                let pool = old(device).spec_pool();
                let id = pool@.len();
                if !valid || lookup is None || id == usize::MAX {
                    &&& r == if !valid {
                        Err::<u32, Error>(Error::InvalidArgument)
                    } else if lookup is None {
                        Err(Error::NotFound)
                    } else {
                        Err(Error::OutOfMemory)
                    }
                    &&& *final(device) == *old(device)
                    &&& *final(file) == *old(file)
                    &&& *final(data) == *old(data)
                } else {
                    let o = lookup->Some_0;
                    let resv = old(device).spec_objects()[o as int].spec_resv();
                    let busy = !resv.spec_signaled(wait_usage(old(data).flags), &pool);
                    let full = resv@.len() >= MAX_RESV_FENCES;
                    if busy || full {
                        &&& r == if busy { Err::<u32, Error>(Error::Busy) } else { Err(Error::OutOfMemory) }
                        &&& fence_created(pool, final(device).spec_pool(), now, true)
                        &&& final(device).spec_objects() == old(device).spec_objects()
                        &&& *final(file) == *old(file)
                        &&& *final(data) == *old(data)
                    } else {
                        &&& r == Ok::<u32, Error>(0u32)
                        &&& fence_created(pool, final(device).spec_pool(), now, false)
                        &&& final(device).spec_objects().len() == old(device).spec_objects().len()
                        &&& final(device).spec_objects()[o as int].spec_resv()@
                            == resv@.push((id as usize, publish_usage(old(data).flags)))
                        &&& forall|k: int| 0 <= k < old(device).spec_objects().len() && k != o
                            ==> #[trigger] final(device).spec_objects()[k] == old(device).spec_objects()[k]
                        &&& if old(file).spec_fences().full() {
                            &&& *final(file) == *old(file)
                            &&& *final(data) == *old(data)
                        } else {
                            let h = final(data).out_fence;
                            &&& 1 <= h
                            &&& !old(file).spec_fences().in_use(h as int)
                            &&& forall|k: int| 1 <= k < h ==> #[trigger] old(file).spec_fences().in_use(k)
                            &&& old(file).spec_fences().stored(&final(file).spec_fences(), h as int, Some(id as usize))
                        }
                    }
                }
            }),
    {
        if (data.flags & !VGEM_FENCE_WRITE) != 0 {
            return Err(Error::InvalidArgument);
        }
        if data.pad != 0 {
            return Err(Error::InvalidArgument);
        }
        let obj = match file.lookup_handle(data.handle) {
            Some(o) => o,
            None => return Err(Error::NotFound),
        };
        let fence = match device.create_fence(now) {
            Some(id) => id,
            None => return Err(Error::OutOfMemory),
        };
        let ghost created = device.spec_pool();
        let write = (data.flags & VGEM_FENCE_WRITE) != 0;

        // Check for a conflicting fence
        let resv = device.object(obj).resv();
        let usage = resv.usage_rw(write);
        assert(old(device).spec_objects()[obj as int].spec_resv().wf(&old(device).spec_pool()));
        assert(resv.spec_signaled(usage, &created) == resv.spec_signaled(usage, &old(device).spec_pool())) by {
            assert forall|i: int| 0 <= i < resv@.len() implies
                created.signaled((#[trigger] resv@[i]).0 as int) == old(device).spec_pool().signaled(resv@[i].0 as int) by {
                assert(created@[resv@[i].0 as int] == created@.subrange(0, fence as int)[resv@[i].0 as int]);
            }
        }
        if !resv.test_signaled(usage, device.pool()) {
            device.signal_fence(fence);
            proof {
                lemma_created_then_signaled(old(device).spec_pool(), created, device.spec_pool(), now);
            }
            return Err(Error::Busy);
        }

        // Expose the fence through the buffer's reservation
        let usage = if write { DmaResvUsage::Write } else { DmaResvUsage::Read };
        match device.publish(obj, fence, usage) {
            Ok(()) => {},
            Err(e) => {
                device.signal_fence(fence);
                proof {
                    lemma_created_then_signaled(old(device).spec_pool(), created, device.spec_pool(), now);
                }
                return Err(e);
            },
        }

        // Record the fence for later signaling
        let ghost old_fences = file.fences;
        match file.fences.allocate(Some(fence)) {
            Ok(id) => {
                data.out_fence = id;
            },
            Err(_) => {},
        }
        proof {
            assert forall|h: int| #[trigger] file.spec_fences().entry(h) matches Some(Some(id))
                ==> id < device.spec_pool()@.len() by {
                if file.spec_fences().entry(h) != old_fences.entry(h) {
                    assert(file.spec_fences().entry(h) == Some(Some(fence)));
                }
            }
        }
        Ok(0)
    }

    /// The signal command: consumes the fence handle `data.fence` and
    /// signals its fence.
    ///
    /// Fails with [`Error::InvalidArgument`] when `data.flags` is not zero,
    /// with [`Error::NotFound`] when the handle holds no fence (never
    /// allocated, or already consumed), and with [`Error::Timeout`] when the
    /// fence's timer signaled it first; in that last case the handle is
    /// consumed all the same. Only a successful call changes a fence.
    pub fn signal(device: &mut VgemDevice, data: &mut DrmVgemFenceSignal, file: &mut File) -> (r: Result<u32, Error>)
        requires
            old(device).wf(),
            old(file).wf(old(device)),
        ensures
            final(device).wf(),
            final(file).wf(final(device)),
            *final(data) == *old(data),
            r == signal_outcome(old(file).spec_fences(), old(device).spec_pool(), old(data).fence, old(data).flags),
            final(device).spec_objects() == old(device).spec_objects(),
            final(file).spec_handles() == old(file).spec_handles(),
            signaled_kept(old(device).spec_pool(), final(device).spec_pool()),
            old(data).flags == 0 && old(file).spec_fences().in_use(old(data).fence as int)
                ==> old(file).spec_fences().stored(&final(file).spec_fences(), old(data).fence as int, None),
            !(old(data).flags == 0 && old(file).spec_fences().in_use(old(data).fence as int))
                ==> final(file).spec_fences() == old(file).spec_fences(),
            r is Ok ==> (old(file).spec_fences().entry(old(data).fence as int) matches Some(Some(id))
                && fence_signaled(old(device).spec_pool(), final(device).spec_pool(), id as int)),
            r is Err ==> final(device).spec_pool() == old(device).spec_pool(),
    {
        if data.flags != 0 {
            return Err(Error::InvalidArgument);
        }
        let ghost old_fences = file.fences;
        let slot = file.fences.replace(data.fence as usize, None);
        proof {
            assert forall|h: int| #[trigger] file.spec_fences().entry(h) matches Some(Some(id))
                ==> id < device.spec_pool()@.len() by {
                if h != data.fence as int {
                    assert(file.spec_fences().entry(h) == old_fences.entry(h));
                }
            }
        }
        match slot {
            Some(Some(id)) => {
                if device.pool().is_signaled(id) {
                    return Err(Error::Timeout);
                }
                device.signal_fence(id);
                Ok(0)
            },
            _ => Err(Error::NotFound),
        }
    }

    /// Ends the session. The fences that it still held stay with the
    /// device: their reservations and their timers still hold them.
    pub fn close(self) {
    }
}

} // verus!
