//! A verified model of a virtual GEM provider's fence subsystem: completion
//! fences with a safety-net expiry timer, a per-session table of fence
//! handles, buffer reservation objects, and the attach / signal protocol.
pub mod dma_resv;
pub mod error;
pub mod fence;
pub mod file;
pub mod gem;
pub mod time;
pub mod timer;
pub mod vgem;
pub mod xarray;
