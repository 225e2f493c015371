//! Numeric codes of the Linux input event interface that the daemon reads
//! and writes, and the time windows of its gestures.
use vstd::prelude::*;

verus! {

/// `EV_SYN`: synchronisation events.
pub const EV_SYN: u16 = 0x00;
/// `EV_KEY`: keys and buttons.
pub const EV_KEY: u16 = 0x01;
/// `EV_REL`: relative axes.
pub const EV_REL: u16 = 0x02;
/// `EV_ABS`: absolute axes.
pub const EV_ABS: u16 = 0x03;

/// `SYN_REPORT`: end of one hardware report.
pub const SYN_REPORT: u16 = 0x00;

/// `REL_X`.
pub const REL_X: u16 = 0x00;
/// `REL_Y`.
pub const REL_Y: u16 = 0x01;
/// `REL_WHEEL`.
pub const REL_WHEEL: u16 = 0x08;

/// `ABS_X`.
pub const ABS_X: u16 = 0x00;
/// `ABS_Y`.
pub const ABS_Y: u16 = 0x01;

/// `KEY_R`.
pub const KEY_R: u16 = 19;
/// `KEY_LEFTCTRL`.
pub const KEY_LEFTCTRL: u16 = 29;
/// `KEY_A`.
pub const KEY_A: u16 = 30;
/// `KEY_LEFTALT`.
pub const KEY_LEFTALT: u16 = 56;
/// `KEY_RIGHTCTRL`.
pub const KEY_RIGHTCTRL: u16 = 97;
/// `KEY_RIGHTALT`.
pub const KEY_RIGHTALT: u16 = 100;

/// `BTN_LEFT`.
pub const BTN_LEFT: u16 = 0x110;
/// `BTN_RIGHT`.
pub const BTN_RIGHT: u16 = 0x111;
/// `BTN_MIDDLE`.
pub const BTN_MIDDLE: u16 = 0x112;
/// `BTN_TOUCH`: a finger is on the pad.
pub const BTN_TOUCH: u16 = 0x14a;
/// `BTN_TOOL_DOUBLETAP`: two fingers are on the pad.
pub const BTN_TOOL_DOUBLETAP: u16 = 0x14d;
/// `BTN_TOOL_TRIPLETAP`: three fingers are on the pad.
pub const BTN_TOOL_TRIPLETAP: u16 = 0x14e;

/// `ENODEV` on Linux: the device node went away.
pub const ENODEV: i32 = 19;

/// A keystroke younger than this (in nanoseconds) pauses the touchpad.
pub const TYPING_WINDOW_NS: u64 = 500_000_000;
/// A touch shorter than this (in nanoseconds) is a tap.
pub const TAP_WINDOW_NS: u64 = 250_000_000;

/// The token under which the hotplug watch is registered; no device gets it.
pub const HOTPLUG_TOKEN: usize = usize::MAX;

} // verus!
