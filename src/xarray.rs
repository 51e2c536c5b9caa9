//! A sparse table from small integer handles to values.
//!
//! Handles start at 1; 0 is never used. A new value gets the lowest free
//! handle, and handles fit in a `u32`.
use vstd::prelude::*;
use crate::error::Error;

verus! {

/// The largest handle a table hands out.
pub open spec fn max_handle() -> int {
    u32::MAX as int
}

/// A handle table.
pub struct XArray<T> {
    entries: Vec<Option<T>>,
}

impl<T> XArray<T> {
    /// The entry under each handle, from handle 0 up to the highest one
    /// ever used; every handle past the end is free.
    pub closed spec fn view(&self) -> Seq<Option<T>> {
        self.entries@
    }

    /// The entry under `h`.
    pub open spec fn entry(&self, h: int) -> Option<T> {
        if 0 <= h < self@.len() {
            self@[h]
        } else {
            None
        }
    }

    /// `h` is a handle in use.
    pub open spec fn in_use(&self, h: int) -> bool {
        self.entry(h) is Some
    }

    /// Every handle from 1 to the largest is in use.
    pub open spec fn full(&self) -> bool {
        forall|h: int| 1 <= h <= max_handle() ==> #[trigger] self.in_use(h)
    }

    pub open spec fn wf(&self) -> bool {
        &&& 1 <= self@.len() <= max_handle() + 1
        &&& self@[0] is None
    }

    /// The table after `v` is stored under `h`, all else kept.
    pub open spec fn stored(&self, other: &XArray<T>, h: int, v: T) -> bool {
        &&& other.entry(h) == Some(v)
        &&& forall|k: int| k != h ==> #[trigger] other.entry(k) == self.entry(k)
    }

    /// Creates an empty table.
    pub fn new() -> (r: XArray<T>)
        ensures
            r.wf(),
            forall|h: int| !(#[trigger] r.in_use(h)),
    {
        let mut entries: Vec<Option<T>> = Vec::new();
        entries.push(None);
        XArray { entries }
    }

    /// The entry under `h`, if any.
    pub fn get(&self, h: usize) -> (r: Option<&T>)
        ensures
            r matches Some(v) ==> self.entry(h as int) == Some(*v),
            r is None ==> self.entry(h as int) is None,
    {
        if h < self.entries.len() {
            match &self.entries[h] {
                Some(v) => Some(v),
                None => None,
            }
        } else {
            None
        }
    }

    /// Stores `value` under the lowest free handle from 1 on and returns
    /// that handle. When every handle is in use the table is unchanged and
    /// the error is [`Error::TableExhausted`].
    pub fn allocate(&mut self, value: T) -> (r: Result<u32, Error>)
        requires
            old(self).wf(),
        ensures
            final(self).wf(),
            r is Err <==> old(self).full(),
            r matches Err(e) ==> e == Error::TableExhausted && *final(self) == *old(self),
            r matches Ok(h) ==> {
                &&& 1 <= h
                &&& !old(self).in_use(h as int)
                &&& forall|k: int| 1 <= k < h ==> #[trigger] old(self).in_use(k)
                &&& old(self).stored(final(self), h as int, value)
            },
    {
        let n = self.entries.len();
        let mut i: usize = 1;
        while i < n
            invariant
                n == self@.len(),
                *self == *old(self),
                old(self).wf(),
                1 <= i <= n,
                forall|k: int| 1 <= k < i ==> #[trigger] old(self).in_use(k),
            decreases n - i,
        {
            if self.entries[i].is_none() {
                assert(!old(self).in_use(i as int));
                self.entries[i] = Some(value);
                assert(forall|k: int| k != i ==> #[trigger] self.entry(k) == old(self).entry(k));
                return Ok(i as u32);
            }
            i = i + 1;
        }
        if n as u64 > u32::MAX as u64 {
            assert forall|h: int| 1 <= h <= max_handle() implies #[trigger] old(self).in_use(h) by {
                assert(h < n);
            }
            return Err(Error::TableExhausted);
        }
        self.entries.push(Some(value));
        proof {
            assert(!old(self).in_use(n as int));
            assert(forall|k: int| k != n ==> #[trigger] self.entry(k) == old(self).entry(k));
        }
        Ok(n as u32)
    }

    /// Swaps `value` into the entry under `h` and returns what was there.
    /// When `h` is not in use nothing is stored and the result is `None`.
    pub fn replace(&mut self, h: usize, value: T) -> (r: Option<T>)
        requires
            old(self).wf(),
        ensures
            final(self).wf(),
            r == old(self).entry(h as int),
            r is None ==> *final(self) == *old(self),
            r is Some ==> old(self).stored(final(self), h as int, value),
    {
        if h >= self.entries.len() || self.entries[h].is_none() {
            return None;
        }
        let mut slot = Some(value);
        core::mem::swap(&mut self.entries[h], &mut slot);
        assert(forall|k: int| k != h ==> #[trigger] self.entry(k) == old(self).entry(k));
        slot
    }
}

} // verus!
