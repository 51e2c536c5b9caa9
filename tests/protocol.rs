use vgem::error::Error;
use vgem::fence::FENCE_TIMEOUT_MS;
use vgem::file::{DrmVgemFenceAttach, DrmVgemFenceSignal, File, VGEM_FENCE_WRITE};
use vgem::time::Jiffies;
use vgem::vgem::VgemDevice;

const TIMEOUT: Jiffies = FENCE_TIMEOUT_MS;

/// A device with `n` buffers, and a session whose buffer handles 1..=n
/// name them in order.
fn setup(n: usize) -> (VgemDevice, File) {
    let mut device = VgemDevice::new();
    let mut file = File::open(&device);
    for i in 0..n {
        let obj = device.create_object().unwrap();
        assert_eq!(obj, i);
        let h = file.create_handle(&device, obj).unwrap();
        assert_eq!(h as usize, i + 1);
    }
    (device, file)
}

fn attach_args(handle: u32, flags: u32, pad: u32) -> DrmVgemFenceAttach {
    DrmVgemFenceAttach { handle, flags, out_fence: 0, pad }
}

fn signal_args(fence: u32, flags: u32) -> DrmVgemFenceSignal {
    DrmVgemFenceSignal { fence, flags }
}

#[test]
fn attach_then_signal_read_fence() {
    let (mut device, mut file) = setup(5);
    let mut a = attach_args(5, 0, 0);
    assert_eq!(File::attach(&mut device, &mut a, &mut file, 0), Ok(0));
    assert_eq!(a.out_fence, 1);
    assert_eq!(device.pool().len(), 1);
    assert!(!device.pool().is_signaled(0));
    assert_eq!(device.object(4).resv().len(), 1);

    let mut s = signal_args(1, 0);
    assert_eq!(File::signal(&mut device, &mut s, &mut file), Ok(0));
    assert!(device.pool().is_signaled(0));
}

#[test]
fn write_attach_busy_behind_unsignaled_read() {
    let (mut device, mut file) = setup(5);
    let mut a = attach_args(5, 0, 0);
    assert_eq!(File::attach(&mut device, &mut a, &mut file, 0), Ok(0));
    assert_eq!(a.out_fence, 1);

    let mut w = attach_args(5, VGEM_FENCE_WRITE, 0);
    assert_eq!(File::attach(&mut device, &mut w, &mut file, 0), Err(Error::Busy));
    assert_eq!(w.out_fence, 0);
    // The fence made for the refused attach was signaled, not left pending.
    assert_eq!(device.pool().len(), 2);
    assert!(device.pool().is_signaled(1));
    assert!(!device.pool().is_signaled(0));
    assert_eq!(device.object(4).resv().len(), 1);
    // No handle was handed out for it.
    let mut s = signal_args(2, 0);
    assert_eq!(File::signal(&mut device, &mut s, &mut file), Err(Error::NotFound));
}

#[test]
fn read_attach_not_blocked_by_reads() {
    let (mut device, mut file) = setup(1);
    let mut a = attach_args(1, 0, 0);
    assert_eq!(File::attach(&mut device, &mut a, &mut file, 0), Ok(0));
    let mut b = attach_args(1, 0, 0);
    assert_eq!(File::attach(&mut device, &mut b, &mut file, 0), Ok(0));
    assert_eq!(b.out_fence, 2);
    assert_eq!(device.object(0).resv().len(), 2);
}

#[test]
fn read_attach_busy_behind_unsignaled_write() {
    let (mut device, mut file) = setup(1);
    let mut w = attach_args(1, VGEM_FENCE_WRITE, 0);
    assert_eq!(File::attach(&mut device, &mut w, &mut file, 0), Ok(0));
    let mut r = attach_args(1, 0, 0);
    assert_eq!(File::attach(&mut device, &mut r, &mut file, 0), Err(Error::Busy));
    // Once the writer signals, readers may attach.
    let mut s = signal_args(w.out_fence, 0);
    assert_eq!(File::signal(&mut device, &mut s, &mut file), Ok(0));
    let mut r2 = attach_args(1, 0, 0);
    assert_eq!(File::attach(&mut device, &mut r2, &mut file, 0), Ok(0));
    assert_eq!(r2.out_fence, 2);
}

#[test]
fn unsignaled_fence_expires_and_signal_times_out() {
    let (mut device, mut file) = setup(5);
    let mut a = attach_args(5, 0, 0);
    assert_eq!(File::attach(&mut device, &mut a, &mut file, 100), Ok(0));
    let h = a.out_fence;

    // Not yet due one jiffy before the timeout.
    assert_eq!(device.expire_timers(100 + TIMEOUT - 1), 0);
    assert!(!device.pool().is_signaled(0));

    assert_eq!(device.expire_timers(100 + TIMEOUT), 1);
    assert!(device.pool().is_signaled(0));
    assert!(!device.pool().get(0).timer().is_pending());

    let mut s = signal_args(h, 0);
    assert_eq!(File::signal(&mut device, &mut s, &mut file), Err(Error::Timeout));
    // The handle was consumed all the same.
    assert_eq!(File::signal(&mut device, &mut s, &mut file), Err(Error::NotFound));
}

#[test]
fn signal_unknown_handle_is_not_found() {
    let (mut device, mut file) = setup(5);
    let mut s = signal_args(999, 0);
    assert_eq!(File::signal(&mut device, &mut s, &mut file), Err(Error::NotFound));
    let mut z = signal_args(0, 0);
    assert_eq!(File::signal(&mut device, &mut z, &mut file), Err(Error::NotFound));
}

#[test]
fn signal_twice_second_is_not_found() {
    let (mut device, mut file) = setup(1);
    let mut a = attach_args(1, 0, 0);
    assert_eq!(File::attach(&mut device, &mut a, &mut file, 0), Ok(0));
    let mut s = signal_args(a.out_fence, 0);
    assert_eq!(File::signal(&mut device, &mut s, &mut file), Ok(0));
    assert_eq!(File::signal(&mut device, &mut s, &mut file), Err(Error::NotFound));
    assert_eq!(File::signal(&mut device, &mut s, &mut file), Err(Error::NotFound));
}

#[test]
fn signal_with_flags_is_invalid_and_keeps_handle() {
    let (mut device, mut file) = setup(1);
    let mut a = attach_args(1, 0, 0);
    assert_eq!(File::attach(&mut device, &mut a, &mut file, 0), Ok(0));
    let mut bad = signal_args(a.out_fence, 1);
    assert_eq!(File::signal(&mut device, &mut bad, &mut file), Err(Error::InvalidArgument));
    assert!(!device.pool().is_signaled(0));
    let mut s = signal_args(a.out_fence, 0);
    assert_eq!(File::signal(&mut device, &mut s, &mut file), Ok(0));
}

#[test]
fn attach_with_unknown_flag_is_invalid() {
    let (mut device, mut file) = setup(5);
    for flags in [2u32, 3, 0x8000_0000, u32::MAX] {
        let mut a = attach_args(5, flags, 0);
        assert_eq!(File::attach(&mut device, &mut a, &mut file, 0), Err(Error::InvalidArgument));
        assert_eq!(a.out_fence, 0);
    }
    assert_eq!(device.pool().len(), 0);
    assert_eq!(device.object(4).resv().len(), 0);
}

#[test]
fn attach_with_nonzero_pad_is_invalid() {
    let (mut device, mut file) = setup(5);
    let mut a = attach_args(5, 0, 1);
    assert_eq!(File::attach(&mut device, &mut a, &mut file, 0), Err(Error::InvalidArgument));
    assert_eq!(device.pool().len(), 0);
    assert_eq!(device.object(4).resv().len(), 0);
}

#[test]
fn attach_unknown_buffer_is_not_found() {
    let (mut device, mut file) = setup(2);
    let mut a = attach_args(3, 0, 0);
    assert_eq!(File::attach(&mut device, &mut a, &mut file, 0), Err(Error::NotFound));
    assert_eq!(device.pool().len(), 0);
}

#[test]
fn manual_signal_leaves_timer_harmless() {
    let (mut device, mut file) = setup(1);
    let mut a = attach_args(1, 0, 0);
    assert_eq!(File::attach(&mut device, &mut a, &mut file, 0), Ok(0));
    let mut s = signal_args(a.out_fence, 0);
    assert_eq!(File::signal(&mut device, &mut s, &mut file), Ok(0));
    // The timer is still armed; when it fires the fence stays signaled.
    assert!(device.pool().get(0).timer().is_pending());
    assert_eq!(device.expire_timers(TIMEOUT), 1);
    assert!(device.pool().is_signaled(0));
    assert_eq!(device.expire_timers(TIMEOUT * 2), 0);
    assert!(device.pool().is_signaled(0));
}

#[test]
fn handles_are_reused_only_after_teardown() {
    let (mut device, mut file) = setup(1);
    for expected in 1..=3u32 {
        let mut a = attach_args(1, 0, 0);
        assert_eq!(File::attach(&mut device, &mut a, &mut file, 0), Ok(0));
        assert_eq!(a.out_fence, expected);
        let mut s = signal_args(a.out_fence, 0);
        assert_eq!(File::signal(&mut device, &mut s, &mut file), Ok(0));
    }
}

#[test]
fn teardown_with_outstanding_fence() {
    let (mut device, mut file) = setup(1);
    let mut a = attach_args(1, 0, 0);
    assert_eq!(File::attach(&mut device, &mut a, &mut file, 0), Ok(0));
    file.close();
    // The reservation still holds the fence and its timer still fires.
    assert_eq!(device.object(0).resv().len(), 1);
    assert!(!device.pool().is_signaled(0));
    assert!(device.pool().get(0).timer().is_pending());
    assert_eq!(device.expire_timers(TIMEOUT), 1);
    assert!(device.pool().is_signaled(0));
    // A new session sees the buffer free for writing again.
    let mut file2 = File::open(&device);
    assert_eq!(file2.create_handle(&device, 0), Ok(1));
    let mut w = attach_args(1, VGEM_FENCE_WRITE, 0);
    assert_eq!(File::attach(&mut device, &mut w, &mut file2, TIMEOUT), Ok(0));
    assert_eq!(w.out_fence, 1);
}

#[test]
fn signaled_state_never_reverts() {
    let (mut device, mut file) = setup(1);
    let mut a = attach_args(1, 0, 0);
    assert_eq!(File::attach(&mut device, &mut a, &mut file, 0), Ok(0));
    let mut s = signal_args(a.out_fence, 0);
    assert_eq!(File::signal(&mut device, &mut s, &mut file), Ok(0));
    assert!(device.pool().is_signaled(0));
    let mut b = attach_args(1, VGEM_FENCE_WRITE, 0);
    assert_eq!(File::attach(&mut device, &mut b, &mut file, 5), Ok(0));
    assert!(device.pool().is_signaled(0));
    device.expire_timers(u64::MAX);
    assert!(device.pool().is_signaled(0));
    assert_eq!(File::signal(&mut device, &mut s, &mut file), Err(Error::NotFound));
    assert!(device.pool().is_signaled(0));
}

#[test]
fn new_fence_expiry_is_ten_seconds_later() {
    let (mut device, mut file) = setup(1);
    let mut a = attach_args(1, 0, 0);
    assert_eq!(File::attach(&mut device, &mut a, &mut file, 42), Ok(0));
    let f = device.pool().get(0);
    assert_eq!(f.timer().expires(), 42 + 10_000);
    assert_eq!(f.fence().seqno(), 0);
    assert_eq!(f.fence().context(), 0);
}

#[test]
fn errno_values() {
    assert_eq!(Error::InvalidArgument.to_errno(), -22);
    assert_eq!(Error::NotFound.to_errno(), -2);
    assert_eq!(Error::Busy.to_errno(), -16);
    assert_eq!(Error::Timeout.to_errno(), -110);
    assert_eq!(Error::OutOfMemory.to_errno(), -12);
    assert_eq!(Error::TableExhausted.to_errno(), -16);
}
