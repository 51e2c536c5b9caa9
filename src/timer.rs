//! One-shot timers over the jiffy counter.
//!
//! A [`RawTimer`] is the timer's state: whether it is pending, the time at
//! which it is due, and whether it has been shut down. A [`Timer`] owns such
//! a state together with the data that its callback works on; the callback
//! is given by a [`TimerOps`] implementation. Time is passed in explicitly:
//! whoever drives the timers calls [`Timer::expire`] with the current time.
use vstd::prelude::*;
use crate::time::{before_or_equal, is_before_or_equal, jiffies_later, wrapped_add, Jiffies};

verus! {

/// What a timer does once its callback has run.
#[derive(Clone, Copy, Debug, PartialEq, Eq, Structural)]
pub enum Next {
    /// No more next step.
    Done,
    /// Schedules the timer again, this many jiffies after its expiry.
    Again(Jiffies),
}

/// The state of a timer.
pub struct RawTimer {
    expires: Jiffies,
    pending: bool,
    shut_down: bool,
}

impl RawTimer {
    pub closed spec fn spec_expires(&self) -> Jiffies {
        self.expires
    }

    pub closed spec fn spec_pending(&self) -> bool {
        self.pending
    }

    pub closed spec fn spec_shut_down(&self) -> bool {
        self.shut_down
    }

    /// The timer's callback is owed at the time `now`.
    pub open spec fn spec_due(&self, now: Jiffies) -> bool {
        self.spec_pending() && is_before_or_equal(self.spec_expires(), now)
    }

    /// Creates an idle timer: not pending and not shut down.
    pub fn new() -> (r: RawTimer)
        ensures
            !r.spec_pending(),
            !r.spec_shut_down(),
            r.spec_expires() == 0,
    {
        RawTimer { expires: 0, pending: false, shut_down: false }
    }

    /// Whether the timer is waiting to fire.
    pub fn is_pending(&self) -> (r: bool)
        ensures
            r == self.spec_pending(),
    {
        self.pending
    }

    /// The time at which the timer was last scheduled to fire.
    pub fn expires(&self) -> (r: Jiffies)
        ensures
            r == self.spec_expires(),
    {
        self.expires
    }

    /// Whether the timer has been shut down for good.
    pub fn is_shut_down(&self) -> (r: bool)
        ensures
            r == self.spec_shut_down(),
    {
        self.shut_down
    }

    /// Whether the timer's callback is owed at the time `now`.
    pub fn is_due(&self, now: Jiffies) -> (r: bool)
        ensures
            r == self.spec_due(now),
    {
        self.pending && before_or_equal(self.expires, now)
    }

    /// Schedules the timer to fire at `expires`, replacing any earlier
    /// expiry. A timer that was shut down stays idle.
    pub fn schedule_at(&mut self, expires: Jiffies)
        ensures
            final(self).spec_shut_down() == old(self).spec_shut_down(),
            old(self).spec_shut_down() ==> *final(self) == *old(self),
            !old(self).spec_shut_down() ==> final(self).spec_pending()
                && final(self).spec_expires() == expires,
    {
        if !self.shut_down {
            self.pending = true;
            self.expires = expires;
        }
    }

    /// Cancels a scheduled firing. Returns whether the timer was pending.
    pub fn cancel(&mut self) -> (r: bool)
        ensures
            r == old(self).spec_pending(),
            !final(self).spec_pending(),
            final(self).spec_shut_down() == old(self).spec_shut_down(),
            final(self).spec_expires() == old(self).spec_expires(),
    {
        let was_pending = self.pending;
        self.pending = false;
        was_pending
    }

    /// Shuts the timer down: it is no longer pending, and any later
    /// scheduling is ignored.
    pub fn shutdown(&mut self)
        ensures
            !final(self).spec_pending(),
            final(self).spec_shut_down(),
            final(self).spec_expires() == old(self).spec_expires(),
    {
        self.pending = false;
        self.shut_down = true;
    }

    /// Takes a due timer off the pending state, as the timer interrupt does
    /// before it runs the callback. Returns whether the timer was due.
    pub fn take_due(&mut self, now: Jiffies) -> (r: bool)
        ensures
            r == old(self).spec_due(now),
            r ==> !final(self).spec_pending()
                && final(self).spec_shut_down() == old(self).spec_shut_down()
                && final(self).spec_expires() == old(self).spec_expires(),
            !r ==> *final(self) == *old(self),
    {
        if self.is_due(now) {
            self.pending = false;
            true
        } else {
            false
        }
    }

    /// Acts on what a callback asked for after the timer fired at `now`:
    /// [`Next::Again`] schedules it once more, [`Next::Done`] leaves it idle.
    pub fn bridge(&mut self, next: Next, now: Jiffies)
        ensures
            match next {
                Next::Done => *final(self) == *old(self),
                Next::Again(d) => old(self).spec_shut_down() ==> *final(self) == *old(self),
            },
            match next {
                Next::Done => true,
                Next::Again(d) => !old(self).spec_shut_down() ==> final(self).spec_pending()
                    && final(self).spec_expires() == wrapped_add(now, d),
            },
            final(self).spec_shut_down() == old(self).spec_shut_down(),
    {
        match next {
            Next::Done => {},
            Next::Again(duration) => {
                self.schedule_at(jiffies_later(now, duration));
            },
        }
    }
}

/// The behaviour of a timer's callback.
pub trait TimerOps: Sized {
    /// The data that the callback works on.
    type Inner;

    /// How the callback may change the data, and what it asks for next.
    spec fn callback_effect(before: Self::Inner, after: Self::Inner, next: Next) -> bool;

    /// Runs when the timer fires.
    fn timer_callback(inner: &mut Self::Inner) -> (next: Next)
        ensures
            Self::callback_effect(*old(inner), *final(inner), next),
    ;
}

/// A timer together with the data that its callback works on.
#[verifier::reject_recursive_types(D)]
pub struct UniqueTimer<T: TimerOps<Inner = D>, D> {
    timer: RawTimer,
    inner: D,
    _p: core::marker::PhantomData<T>,
}

impl<T: TimerOps<Inner = D>, D> UniqueTimer<T, D> {
    pub closed spec fn spec_inner(&self) -> D {
        self.inner
    }

    pub closed spec fn spec_raw(&self) -> RawTimer {
        self.timer
    }

    /// Returns the data that the callback works on.
    pub fn inner(&self) -> (r: &D)
        ensures
            *r == self.spec_inner(),
    {
        &self.inner
    }

    /// Sets the timer to fire `duration` jiffies after `now`.
    pub fn modify(&mut self, duration: Jiffies, now: Jiffies)
        ensures
            final(self).spec_inner() == old(self).spec_inner(),
            final(self).spec_raw().spec_shut_down() == old(self).spec_raw().spec_shut_down(),
            !old(self).spec_raw().spec_shut_down() ==> final(self).spec_raw().spec_pending()
                && final(self).spec_raw().spec_expires() == wrapped_add(now, duration),
            old(self).spec_raw().spec_shut_down() ==> *final(self) == *old(self),
    {
        self.timer.schedule_at(jiffies_later(now, duration));
    }

    /// Returns the timer's state.
    pub fn raw(&self) -> (r: &RawTimer)
        ensures
            *r == self.spec_raw(),
    {
        &self.timer
    }
}

/// A timer that owns its callback's data.
#[verifier::reject_recursive_types(D)]
pub struct Timer<T: TimerOps<Inner = D>, D>(UniqueTimer<T, D>);

impl<T: TimerOps<Inner = D>, D> Timer<T, D> {
    pub closed spec fn spec_unique(&self) -> UniqueTimer<T, D> {
        self.0
    }

    pub open spec fn spec_inner(&self) -> D {
        self.spec_unique().spec_inner()
    }

    pub open spec fn spec_raw(&self) -> RawTimer {
        self.spec_unique().spec_raw()
    }

    /// Creates an idle timer around `inner`.
    pub fn setup(inner: D) -> (r: Self)
        ensures
            r.spec_inner() == inner,
            !r.spec_raw().spec_pending(),
            !r.spec_raw().spec_shut_down(),
    {
        Timer(UniqueTimer { timer: RawTimer::new(), inner, _p: core::marker::PhantomData })
    }

    /// The timer with its data.
    pub fn unique(&self) -> (r: &UniqueTimer<T, D>)
        ensures
            *r == self.spec_unique(),
    {
        &self.0
    }

    /// Returns the data that the callback works on.
    pub fn inner(&self) -> (r: &D)
        ensures
            *r == self.spec_inner(),
    {
        self.0.inner()
    }

    /// Sets the timer to fire `duration` jiffies after `now`.
    pub fn modify(&mut self, duration: Jiffies, now: Jiffies)
        ensures
            final(self).spec_inner() == old(self).spec_inner(),
            final(self).spec_raw().spec_shut_down() == old(self).spec_raw().spec_shut_down(),
            !old(self).spec_raw().spec_shut_down() ==> final(self).spec_raw().spec_pending()
                && final(self).spec_raw().spec_expires() == wrapped_add(now, duration),
            old(self).spec_raw().spec_shut_down() ==> *final(self) == *old(self),
    {
        self.0.modify(duration, now);
    }

    /// Changes the data that the callback works on, leaving the timer's
    /// state as it is; `f` is the new data.
    pub fn set_inner(&mut self, f: D)
        ensures
            final(self).spec_inner() == f,
            final(self).spec_raw() == old(self).spec_raw(),
            f == old(self).spec_inner() ==> *final(self) == *old(self),
    {
        self.0.inner = f;
    }

    /// Fires the timer if it is due at `now`: the callback runs once and
    /// the timer then does what the callback asked for. Returns whether the
    /// callback ran.
    pub fn expire(&mut self, now: Jiffies) -> (r: Option<Next>)
        ensures
            r is Some <==> old(self).spec_raw().spec_due(now),
            r is None ==> *final(self) == *old(self),
            r matches Some(next) ==> T::callback_effect(old(self).spec_inner(), final(self).spec_inner(), next),
            r matches Some(Next::Done) ==> !final(self).spec_raw().spec_pending(),
            final(self).spec_raw().spec_shut_down() == old(self).spec_raw().spec_shut_down(),
    {
        if self.0.timer.take_due(now) {
            let next = T::timer_callback(&mut self.0.inner);
            self.0.timer.bridge(next, now);
            Some(next)
        } else {
            None
        }
    }

    /// Shuts the timer down for good, as is done before its data goes away.
    pub fn shutdown(&mut self)
        ensures
            final(self).spec_inner() == old(self).spec_inner(),
            !final(self).spec_raw().spec_pending(),
            final(self).spec_raw().spec_shut_down(),
    {
        self.0.timer.shutdown();
    }
}

} // verus!
