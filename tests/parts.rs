use vgem::dma_resv::{DmaResv, DmaResvUsage};
use vgem::error::Error;
use vgem::fence::{FencePool, UniqueFence, VgemFence, VgemFenceOps};
use vgem::time::{before_or_equal, jiffies_expired, jiffies_later, msecs_to_jiffies};
use vgem::timer::{Next, RawTimer, Timer};
use vgem::xarray::XArray;

#[test]
fn jiffies_later_wraps() {
    assert_eq!(jiffies_later(10, 5), 15);
    assert_eq!(jiffies_later(u64::MAX, 1), 0);
    assert_eq!(jiffies_later(u64::MAX - 1, 10), 8);
}

#[test]
fn before_or_equal_across_wrap() {
    assert!(before_or_equal(5, 5));
    assert!(before_or_equal(5, 6));
    assert!(!before_or_equal(6, 5));
    assert!(before_or_equal(u64::MAX, 3));
    assert!(!before_or_equal(3, u64::MAX));
    assert!(before_or_equal(0, 0x7fff_ffff_ffff_ffff));
    assert!(!before_or_equal(0, 0x8000_0000_0000_0000));
}

#[test]
fn expired_checks() {
    assert!(jiffies_expired(100, 100));
    assert!(jiffies_expired(100, 101));
    assert!(!jiffies_expired(100, 99));
    assert!(jiffies_expired(u64::MAX, 0));
}

#[test]
fn msecs_conversion() {
    assert_eq!(msecs_to_jiffies(10_000), 10_000);
    assert_eq!(msecs_to_jiffies(0), 0);
    assert_eq!(msecs_to_jiffies(u64::MAX), u64::MAX);
}

#[test]
fn raw_timer_lifecycle() {
    let mut t = RawTimer::new();
    assert!(!t.is_pending());
    assert!(!t.is_due(0));
    t.schedule_at(50);
    assert!(t.is_pending());
    assert_eq!(t.expires(), 50);
    assert!(!t.is_due(49));
    assert!(t.is_due(50));
    assert!(t.cancel());
    assert!(!t.cancel());
    t.schedule_at(60);
    assert!(!t.take_due(59));
    assert!(t.take_due(61));
    assert!(!t.is_pending());
    t.bridge(Next::Again(5), 61);
    assert!(t.is_pending());
    assert_eq!(t.expires(), 66);
    t.shutdown();
    assert!(!t.is_pending());
    assert!(t.is_shut_down());
    t.schedule_at(100);
    assert!(!t.is_pending());
}

#[test]
fn timer_runs_fence_callback_once() {
    let mut timer = Timer::<VgemFenceOps, UniqueFence>::setup(UniqueFence::new(3, 7));
    assert_eq!(timer.expire(0), None);
    timer.modify(10, 0);
    assert!(timer.unique().raw().is_pending());
    assert_eq!(timer.expire(9), None);
    assert!(!timer.inner().is_signaled());
    assert_eq!(timer.expire(10), Some(Next::Done));
    assert!(timer.inner().is_signaled());
    assert_eq!(timer.unique().inner().seqno(), 7);
    assert_eq!(timer.expire(20), None);
    timer.shutdown();
    timer.modify(5, 30);
    assert!(!timer.unique().raw().is_pending());
}

#[test]
fn fence_signals_once() {
    let mut f = UniqueFence::new(1, 9);
    assert!(!f.is_signaled());
    assert_eq!(f.timeline_value(), 0);
    assert_eq!(f.fence_value(), 9);
    assert!(f.signal());
    assert!(f.is_signaled());
    assert!(!f.signal());
    assert!(f.is_signaled());
    assert_eq!(f.timeline_value(), 9);
    assert_eq!(f.get_driver_name(), "vgem");
    assert_eq!(f.get_timeline_name(), "unbound");
}

#[test]
fn vgem_fence_expires() {
    let mut f = VgemFence::create(4, 1000);
    assert_eq!(f.timer().expires(), 11_000);
    assert!(!f.expire(10_999));
    assert!(f.expire(11_000));
    assert!(f.is_signaled());
    assert!(!f.signal());
}

#[test]
fn pool_signal_and_expiry() {
    let mut pool = FencePool::new();
    assert_eq!(pool.create(0), Some(0));
    assert_eq!(pool.create(5_000), Some(1));
    assert!(pool.signal(1));
    assert!(!pool.signal(1));
    assert_eq!(pool.expire_timers(10_000), 1);
    assert!(pool.is_signaled(0));
    assert_eq!(pool.expire_timers(15_000), 1);
    assert_eq!(pool.expire_timers(20_000), 0);
}

#[test]
fn xarray_lowest_free_handle() {
    let mut xa: XArray<u8> = XArray::new();
    assert_eq!(xa.allocate(10), Ok(1));
    assert_eq!(xa.allocate(20), Ok(2));
    assert_eq!(xa.allocate(30), Ok(3));
    assert_eq!(xa.get(2), Some(&20));
    assert_eq!(xa.get(0), None);
    assert_eq!(xa.get(4), None);
    assert_eq!(xa.replace(2, 21), Some(20));
    assert_eq!(xa.get(2), Some(&21));
    assert_eq!(xa.replace(7, 1), None);
    assert_eq!(xa.get(7), None);
    assert_eq!(xa.replace(0, 1), None);
    assert_eq!(xa.allocate(40), Ok(4));
}

#[test]
fn resv_usage_and_signaled_test() {
    let mut pool = FencePool::new();
    let r0 = pool.create(0).unwrap();
    let w0 = pool.create(0).unwrap();
    let mut resv = DmaResv::new();
    assert_eq!(resv.usage_rw(true), DmaResvUsage::Read);
    assert_eq!(resv.usage_rw(false), DmaResvUsage::Write);
    assert!(resv.test_signaled(DmaResvUsage::Bookkeep, &pool));
    assert_eq!(resv.add_fences(r0, 1, DmaResvUsage::Read), Ok(()));
    assert!(resv.test_signaled(DmaResvUsage::Write, &pool));
    assert!(!resv.test_signaled(DmaResvUsage::Read, &pool));
    assert_eq!(resv.add_fences(w0, 1, DmaResvUsage::Write), Ok(()));
    assert!(!resv.test_signaled(DmaResvUsage::Write, &pool));
    assert!(resv.test_signaled(DmaResvUsage::Kernel, &pool));
    pool.signal(w0);
    assert!(resv.test_signaled(DmaResvUsage::Write, &pool));
    pool.signal(r0);
    assert!(resv.test_signaled(DmaResvUsage::Bookkeep, &pool));
    assert_eq!(resv.len(), 2);
}

#[test]
fn resv_reserve_limit() {
    let resv = DmaResv::new();
    assert_eq!(resv.reserve_fences(1), Ok(()));
    assert_eq!(resv.reserve_fences(u32::MAX), Ok(()));
    let mut pool = FencePool::new();
    let id = pool.create(0).unwrap();
    let mut resv2 = DmaResv::new();
    assert_eq!(resv2.add_fences(id, 1, DmaResvUsage::Read), Ok(()));
    assert_eq!(resv2.reserve_fences(u32::MAX), Err(Error::OutOfMemory));
    assert_eq!(resv2.add_fences(id, u32::MAX, DmaResvUsage::Read), Err(Error::OutOfMemory));
    assert_eq!(resv2.len(), 1);
}
