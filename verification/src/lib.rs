//! Verified core of an input daemon that turns touchpad contacts into
//! relative pointer motion, scrolling and taps, watches keyboards for
//! disable-while-typing, and keeps the table of tracked devices.
//!
//! All I/O (reading kernel events, writing to uinput, hotplug watching,
//! the clock) happens outside this crate; the functions here take plain
//! values and return plain values.

pub mod codes;
pub mod event;
pub mod config;
pub mod device;
pub mod output;
pub mod identify;
pub mod tracker;
pub mod properties;
pub mod behaviour;
