//! Jiffy-based timestamps.
//!
//! A jiffy counter wraps around, so points in time are compared by the sign
//! of their wrapped difference, as the kernel's `time_before_eq()` does.
use vstd::prelude::*;

verus! {

/// The kernel's time unit. One jiffy is `1 / HZ` second.
pub type Jiffies = u64;

/// Ticks of the jiffy counter per second.
pub const HZ: Jiffies = 1000;

/// The number of distinct jiffy values.
pub open spec fn jiffies_range() -> int {
    0x1_0000_0000_0000_0000
}

/// `t + d` on the wrapping jiffy counter.
pub open spec fn wrapped_add(t: Jiffies, d: Jiffies) -> Jiffies {
    ((t as int + d as int) % jiffies_range()) as Jiffies
}

/// The distance from `t1` forward to `t2` on the wrapping counter.
pub open spec fn wrapped_distance(t1: Jiffies, t2: Jiffies) -> int {
    (t2 as int - t1 as int) % jiffies_range()
}

/// `t1` is not after `t2`: `t2` lies less than half the counter's range
/// ahead of `t1`.
pub open spec fn is_before_or_equal(t1: Jiffies, t2: Jiffies) -> bool {
    wrapped_distance(t1, t2) < jiffies_range() / 2
}

/// The point in time `duration` jiffies after `now`.
pub fn jiffies_later(now: Jiffies, duration: Jiffies) -> (r: Jiffies)
    ensures
        r == wrapped_add(now, duration),
{
    now.wrapping_add(duration)
}

/// Checks whether `t1` is before or equal to `t2`.
pub fn before_or_equal(t1: Jiffies, t2: Jiffies) -> (r: bool)
    ensures
        r == is_before_or_equal(t1, t2),
{
    let d: Jiffies = t2.wrapping_sub(t1);
    d <= 0x7fff_ffff_ffff_ffff
}

/// Checks whether `expires` has passed at the time `now`.
pub fn jiffies_expired(expires: Jiffies, now: Jiffies) -> (r: bool)
    ensures
        r == is_before_or_equal(expires, now),
{
    before_or_equal(expires, now)
}

/// Converts milliseconds to jiffies, rounding up, saturating at the
/// largest jiffy value.
pub fn msecs_to_jiffies(ms: u64) -> (r: Jiffies)
    ensures
        r == if (ms as int * HZ as int + 999) / 1000 > u64::MAX as int {
            u64::MAX as int
        } else {
            (ms as int * HZ as int + 999) / 1000
        },
{
    let whole: u64 = ms / 1000;
    let rest: u64 = ms % 1000;
    let part: u64 = (rest * HZ + 999) / 1000;
    assert(ms as int * HZ as int + 999 == (whole as int * HZ as int) * 1000 + rest as int * HZ as int + 999) by (nonlinear_arith)
        requires whole == ms / 1000, rest == ms % 1000, HZ == 1000;
    if whole > (u64::MAX - part) / HZ {
        u64::MAX
    } else {
        whole * HZ + part
    }
}

} // verus!
