//! The per-device state machine: what one input event does to a tracked
//! device and what the daemon has to do about it.
use vstd::prelude::*;

use crate::codes::{
    ABS_X, ABS_Y, BTN_LEFT, BTN_MIDDLE, BTN_RIGHT, BTN_TOOL_DOUBLETAP, BTN_TOOL_TRIPLETAP,
    BTN_TOUCH, EV_ABS, EV_KEY, EV_SYN, KEY_LEFTALT, KEY_LEFTCTRL, KEY_RIGHTALT, KEY_RIGHTCTRL,
    SYN_REPORT, TAP_WINDOW_NS, TYPING_WINDOW_NS,
};
use crate::config::InputConfig;
use crate::event::RawEvent;
use crate::identify::DeviceRole;

verus! {

/// A tracked input device and everything the daemon remembers about it.
pub struct DeviceWrapper {
    /// The device node, e.g. `/dev/input/event5`.
    pub path: String,
    /// The device reports absolute axes (a touchpad).
    pub is_absolute: bool,
    /// The device has keys and `KEY_A` among them (a keyboard).
    pub is_keyboard: bool,
    /// A finger is on the pad.
    pub touch_active: bool,
    /// How many fingers are on the pad (0 to 3).
    pub touch_fingers: u32,
    /// The last absolute X seen since the touch began.
    pub last_x: Option<i32>,
    /// The last absolute Y seen since the touch began.
    pub last_y: Option<i32>,
    /// X motion gathered since the last report.
    pub current_dx: i32,
    /// Y motion gathered since the last report.
    pub current_dy: i32,
    /// When the current touch began (nanoseconds on the daemon's clock).
    pub touch_start_time: Option<u64>,
    /// The current touch can no longer be a tap.
    pub tap_emitted: bool,
    /// When this keyboard last saw a key go down or repeat.
    pub last_typing_time: Option<u64>,
    /// The left Ctrl key of this keyboard is held.
    pub left_ctrl_held: bool,
    /// The right Ctrl key of this keyboard is held.
    pub right_ctrl_held: bool,
    /// The left Alt key of this keyboard is held.
    pub left_alt_held: bool,
    /// The right Alt key of this keyboard is held.
    pub right_alt_held: bool,
}

/// What the daemon has to do after one event.
#[derive(Clone, Copy, Debug, PartialEq, Eq, Structural)]
pub enum Reaction {
    /// Nothing.
    Ignore,
    /// Send this event on to the virtual device.
    Forward(RawEvent),
    /// Click the left button (press, report, release); failures are ignored.
    TapClick,
    /// Drop the sub-pixel remainders of the scaled motion, then forward the report.
    DiscardMotion(RawEvent),
    /// Scale this motion into pointer steps and send them; when that
    /// succeeded, call `finish_report` and forward the report.
    MovePointer { dx: i32, dy: i32, report: RawEvent },
    /// Scale this vertical motion into wheel steps and send them; when that
    /// succeeded, call `finish_report` and forward the report.
    Scroll { dy: i32, report: RawEvent },
}

/// The time from `since` to `now`, zero if `now` is earlier.
pub open spec fn elapsed_ns(now: u64, since: u64) -> nat {
    if now >= since {
        (now - since) as nat
    } else {
        0
    }
}

/// Disable-while-typing is on and a keystroke happened less than the
/// typing window ago.
pub open spec fn typing_recent(config: InputConfig, last_typing: Option<u64>, now: u64) -> bool {
    config.disable_while_typing && match last_typing {
        Some(t) => elapsed_ns(now, t) < TYPING_WINDOW_NS,
        None => false,
    }
}

/// One of the three pointer buttons.
pub open spec fn is_pointer_button(code: u16) -> bool {
    code == BTN_LEFT || code == BTN_RIGHT || code == BTN_MIDDLE
}

/// A value that fits in an `i32`.
pub open spec fn fits_i32(x: int) -> bool {
    i32::MIN <= x <= i32::MAX
}

/// Lifting the finger now makes a tap: tapping is on, the touch has not
/// moved or been spoiled, nobody typed just now, and it lasted less than
/// the tap window.
pub open spec fn makes_tap(d: DeviceWrapper, config: InputConfig, typing: bool, now: u64) -> bool {
    &&& config.tap_to_click
    &&& !d.tap_emitted
    &&& !typing
    &&& match d.touch_start_time {
        Some(t) => elapsed_ns(now, t) < TAP_WINDOW_NS,
        None => false,
    }
}

/// Whether the key `code` is held after `ev`: a key event for it goes down
/// (or repeats) or up; other events leave it as it was.
pub open spec fn held_after(held: bool, ev: RawEvent, code: u16) -> bool {
    if ev.kind == EV_KEY && ev.code == code {
        ev.value != 0
    } else {
        held
    }
}

/// Either Ctrl key of the keyboard is held.
pub open spec fn ctrl_held(d: DeviceWrapper) -> bool {
    d.left_ctrl_held || d.right_ctrl_held
}

/// Either Alt key of the keyboard is held.
pub open spec fn alt_held(d: DeviceWrapper) -> bool {
    d.left_alt_held || d.right_alt_held
}

/// A keyboard notes when a key went down or repeated, and which modifier keys are held.
pub open spec fn keyboard_step(d: DeviceWrapper, ev: RawEvent, now: u64) -> DeviceWrapper {
    let key = ev.kind == EV_KEY;
    DeviceWrapper {
        last_typing_time: if key && ev.value != 0 {
            Some(now)
        } else {
            d.last_typing_time
        },
        left_ctrl_held: held_after(d.left_ctrl_held, ev, KEY_LEFTCTRL),
        right_ctrl_held: held_after(d.right_ctrl_held, ev, KEY_RIGHTCTRL),
        left_alt_held: held_after(d.left_alt_held, ev, KEY_LEFTALT),
        right_alt_held: held_after(d.right_alt_held, ev, KEY_RIGHTALT),
        ..d
    }
}

/// `BTN_TOUCH` on a touchpad: a touch begins, or ends and all tracking is reset.
pub open spec fn touch_step(d: DeviceWrapper, ev: RawEvent, now: u64) -> DeviceWrapper {
    if ev.value != 0 {
        DeviceWrapper {
            touch_active: true,
            touch_start_time: Some(now),
            tap_emitted: false,
            touch_fingers: 1,
            last_x: None,
            last_y: None,
            ..d
        }
    } else {
        DeviceWrapper {
            touch_active: false,
            last_x: None,
            last_y: None,
            current_dx: 0,
            current_dy: 0,
            touch_start_time: None,
            touch_fingers: 0,
            ..d
        }
    }
}

/// The finger count after a `BTN_TOOL_DOUBLETAP` or `BTN_TOOL_TRIPLETAP`
/// event: `many` while the tool is down, one fewer when it goes up during a touch.
pub open spec fn fingers_after(d: DeviceWrapper, ev: RawEvent, many: u32) -> u32 {
    if ev.value != 0 {
        many
    } else if d.touch_active {
        (many - 1) as u32
    } else {
        d.touch_fingers
    }
}

/// What a key event does to a touchpad's state.
pub open spec fn key_state_step(d: DeviceWrapper, ev: RawEvent, now: u64) -> DeviceWrapper {
    if ev.code == BTN_TOUCH {
        touch_step(d, ev, now)
    } else if ev.code == BTN_TOOL_DOUBLETAP {
        DeviceWrapper { touch_fingers: fingers_after(d, ev, 2), ..d }
    } else if ev.code == BTN_TOOL_TRIPLETAP {
        DeviceWrapper { touch_fingers: fingers_after(d, ev, 3), ..d }
    } else {
        d
    }
}

/// What the daemon does about a key event of a touchpad.
pub open spec fn key_reaction(
    d: DeviceWrapper,
    ev: RawEvent,
    config: InputConfig,
    typing: bool,
    now: u64,
) -> Reaction {
    if ev.code == BTN_TOUCH && ev.value == 0 && makes_tap(d, config, typing, now) {
        Reaction::TapClick
    } else if is_pointer_button(ev.code) {
        Reaction::Forward(ev)
    } else {
        Reaction::Ignore
    }
}

/// The motion gathered on one axis after a new absolute coordinate `v`:
/// the step from the previous coordinate is added while a finger is down.
pub open spec fn gathered(active: bool, last: Option<i32>, delta: i32, v: i32) -> i32 {
    match last {
        Some(p) if active => (delta + (v - p)) as i32,
        _ => delta,
    }
}

/// What an absolute-axis event does to a touchpad's state.
pub open spec fn abs_step(d: DeviceWrapper, ev: RawEvent) -> DeviceWrapper {
    if ev.code == ABS_X {
        DeviceWrapper {
            current_dx: gathered(d.touch_active, d.last_x, d.current_dx, ev.value),
            last_x: Some(ev.value),
            ..d
        }
    } else if ev.code == ABS_Y {
        DeviceWrapper {
            current_dy: gathered(d.touch_active, d.last_y, d.current_dy, ev.value),
            last_y: Some(ev.value),
            ..d
        }
    } else {
        d
    }
}

/// A synchronisation event of a touchpad. At the end of a report the
/// gathered motion is dropped while typing, or handed out as pointer
/// motion (one finger) or scrolling (two fingers); any motion spoils a tap.
pub open spec fn sync_step(d: DeviceWrapper, ev: RawEvent, typing: bool) -> (DeviceWrapper, Reaction) {
    if ev.code != SYN_REPORT {
        (d, Reaction::Forward(ev))
    } else if typing {
        (
            DeviceWrapper { current_dx: 0, current_dy: 0, tap_emitted: true, ..d },
            Reaction::DiscardMotion(ev),
        )
    } else if d.current_dx != 0 || d.current_dy != 0 {
        let moved = DeviceWrapper { tap_emitted: true, ..d };
        if d.touch_fingers == 1 {
            (moved, Reaction::MovePointer { dx: d.current_dx, dy: d.current_dy, report: ev })
        } else if d.touch_fingers == 2 {
            (moved, Reaction::Scroll { dy: d.current_dy, report: ev })
        } else {
            (DeviceWrapper { current_dx: 0, current_dy: 0, ..moved }, Reaction::Forward(ev))
        }
    } else {
        (d, Reaction::Forward(ev))
    }
}

/// The whole transition: the device after `ev` and the daemon's reaction,
/// given the settings, the last keystroke on any keyboard and the time.
pub open spec fn step(
    d: DeviceWrapper,
    ev: RawEvent,
    config: InputConfig,
    last_typing: Option<u64>,
    now: u64,
) -> (DeviceWrapper, Reaction) {
    if d.is_keyboard {
        (keyboard_step(d, ev, now), Reaction::Ignore)
    } else if !d.is_absolute {
        (d, Reaction::Forward(ev))
    } else {
        let typing = typing_recent(config, last_typing, now);
        if ev.kind == EV_KEY {
            (key_state_step(d, ev, now), key_reaction(d, ev, config, typing, now))
        } else if ev.kind == EV_ABS {
            (abs_step(d, ev), Reaction::Ignore)
        } else if ev.kind == EV_SYN {
            sync_step(d, ev, typing)
        } else {
            (d, Reaction::Ignore)
        }
    }
}

/// The coordinate step of an absolute event, and the sum it makes, fit in
/// an `i32` (the event would otherwise overflow the motion counter).
pub open spec fn gathers_in_range(active: bool, last: Option<i32>, delta: i32, v: i32) -> bool {
    match last {
        Some(p) if active => fits_i32(v - p) && fits_i32(delta + (v - p)),
        _ => true,
    }
}

/// The device can take `ev` without overflowing its motion counters.
pub open spec fn accepts(d: DeviceWrapper, ev: RawEvent) -> bool {
    (!d.is_keyboard && d.is_absolute && ev.kind == EV_ABS) ==> {
        &&& ev.code == ABS_X ==> gathers_in_range(d.touch_active, d.last_x, d.current_dx, ev.value)
        &&& ev.code == ABS_Y ==> gathers_in_range(d.touch_active, d.last_y, d.current_dy, ev.value)
    }
}

/// The time from `since` to `now`, zero if `now` is earlier.
fn elapsed(now: u64, since: u64) -> (e: u64)
    ensures
        e == elapsed_ns(now, since),
{
    if now >= since {
        now - since
    } else {
        0
    }
}

/// The motion on one axis after a new coordinate (see `gathered`).
fn gather(active: bool, last: Option<i32>, delta: i32, v: i32) -> (r: i32)
    requires
        gathers_in_range(active, last, delta, v),
    ensures
        r == gathered(active, last, delta, v),
{
    match last {
        Some(p) if active => delta + (v - p),
        _ => delta,
    }
}

/// Whether adding the step to a new coordinate stays in range (see `gathers_in_range`).
fn gather_fits(active: bool, last: Option<i32>, delta: i32, v: i32) -> (b: bool)
    ensures
        b == gathers_in_range(active, last, delta, v),
{
    match last {
        Some(p) if active => {
            let step: i64 = v as i64 - p as i64;
            if step < i32::MIN as i64 || step > i32::MAX as i64 {
                false
            } else {
                let sum: i64 = delta as i64 + step;
                sum >= i32::MIN as i64 && sum <= i32::MAX as i64
            }
        },
        _ => true,
    }
}

impl DeviceWrapper {
    /// A device that is not a keyboard, with no touch, no motion and no
    /// keystroke yet.
    pub open spec fn new_spec(path: String, has_absolute_axes: bool) -> DeviceWrapper {
        DeviceWrapper {
            path,
            is_absolute: has_absolute_axes,
            is_keyboard: false,
            touch_active: false,
            touch_fingers: 0,
            last_x: None,
            last_y: None,
            current_dx: 0,
            current_dy: 0,
            touch_start_time: None,
            tap_emitted: false,
            last_typing_time: None,
            left_ctrl_held: false,
            right_ctrl_held: false,
            left_alt_held: false,
            right_alt_held: false,
        }
    }

    /// A freshly opened device at `path`: absolute if it reports absolute
    /// axes, a keyboard if it reports keys and `KEY_A` is among them; no
    /// touch, no motion, no keystroke yet.
    pub fn new(path: String, has_absolute_axes: bool, has_keys: bool, has_key_a: bool) -> (d:
        DeviceWrapper)
        ensures
            d.path == path,
            d.is_absolute == has_absolute_axes,
            d.is_keyboard == (has_keys && has_key_a),
            !d.touch_active,
            d.touch_fingers == 0,
            d.last_x is None,
            d.last_y is None,
            d.current_dx == 0,
            d.current_dy == 0,
            d.touch_start_time is None,
            !d.tap_emitted,
            d.last_typing_time is None,
            !d.left_ctrl_held,
            !d.right_ctrl_held,
            !d.left_alt_held,
            !d.right_alt_held,
    {
        DeviceWrapper {
            path,
            is_absolute: has_absolute_axes,
            is_keyboard: has_keys && has_key_a,
            touch_active: false,
            touch_fingers: 0,
            last_x: None,
            last_y: None,
            current_dx: 0,
            current_dy: 0,
            touch_start_time: None,
            tap_emitted: false,
            last_typing_time: None,
            left_ctrl_held: false,
            right_ctrl_held: false,
            left_alt_held: false,
            right_alt_held: false,
        }
    }

    /// The state of a device the daemon opened in `role`: a keyboard is
    /// watched as a keyboard; a pointer is never taken for a keyboard, so
    /// its events are translated and passed on; absolute if it reports
    /// absolute axes; otherwise as `new`.
    pub fn opened(path: String, role: DeviceRole, has_absolute_axes: bool) -> (d: DeviceWrapper)
        ensures
            d == (DeviceWrapper {
                is_keyboard: role == DeviceRole::Keyboard,
                ..DeviceWrapper::new_spec(path, has_absolute_axes)
            }),
            role == DeviceRole::Pointer ==> !d.is_keyboard,
    {
        let is_keyboard = match role {
            DeviceRole::Keyboard => true,
            _ => false,
        };
        DeviceWrapper::new(path, has_absolute_axes, is_keyboard, is_keyboard)
    }

    /// Whether `process_event` can take `ev` without its motion counters
    /// overflowing.
    pub fn can_process(&self, ev: &RawEvent) -> (b: bool)
        ensures
            b == accepts(*self, *ev),
    {
        if !self.is_keyboard && self.is_absolute && ev.kind == EV_ABS {
            let x_ok = ev.code != ABS_X || gather_fits(
                self.touch_active,
                self.last_x,
                self.current_dx,
                ev.value,
            );
            let y_ok = ev.code != ABS_Y || gather_fits(
                self.touch_active,
                self.last_y,
                self.current_dy,
                ev.value,
            );
            x_ok && y_ok
        } else {
            true
        }
    }

    /// Feeds one event of this device through the state machine.
    /// `last_global_typing_time` is the last keystroke on any keyboard and
    /// `now` the current time, both in nanoseconds on the daemon's clock.
    pub fn process_event(
        &mut self,
        ev: RawEvent,
        config: &InputConfig,
        last_global_typing_time: Option<u64>,
        now: u64,
    ) -> (r: Reaction)
        requires
            accepts(*old(self), ev),
        ensures
            *final(self) == step(*old(self), ev, *config, last_global_typing_time, now).0,
            r == step(*old(self), ev, *config, last_global_typing_time, now).1,
    {
        if self.is_keyboard {
            if ev.kind == EV_KEY {
                if ev.value != 0 {
                    self.last_typing_time = Some(now);
                }
                if ev.code == KEY_LEFTCTRL {
                    self.left_ctrl_held = ev.value != 0;
                } else if ev.code == KEY_RIGHTCTRL {
                    self.right_ctrl_held = ev.value != 0;
                } else if ev.code == KEY_LEFTALT {
                    self.left_alt_held = ev.value != 0;
                } else if ev.code == KEY_RIGHTALT {
                    self.right_alt_held = ev.value != 0;
                }
            }
            return Reaction::Ignore;
        }
        if !self.is_absolute {
            return Reaction::Forward(ev);
        }
        let typing = config.disable_while_typing && match last_global_typing_time {
            Some(t) => elapsed(now, t) < TYPING_WINDOW_NS,
            None => false,
        };
        if ev.kind == EV_KEY {
            let mut reaction = Reaction::Ignore;
            if ev.code == BTN_TOUCH {
                self.touch_active = ev.value != 0;
                if self.touch_active {
                    self.touch_start_time = Some(now);
                    self.tap_emitted = false;
                    self.touch_fingers = 1;
                    self.last_x = None;
                    self.last_y = None;
                } else {
                    if config.tap_to_click && !self.tap_emitted && !typing {
                        if let Some(start) = self.touch_start_time {
                            if elapsed(now, start) < TAP_WINDOW_NS {
                                reaction = Reaction::TapClick;
                            }
                        }
                    }
                    self.last_x = None;
                    self.last_y = None;
                    self.current_dx = 0;
                    self.current_dy = 0;
                    self.touch_start_time = None;
                    self.touch_fingers = 0;
                }
            } else if ev.code == BTN_TOOL_DOUBLETAP {
                if ev.value != 0 {
                    self.touch_fingers = 2;
                } else if self.touch_active {
                    self.touch_fingers = 1;
                }
            } else if ev.code == BTN_TOOL_TRIPLETAP {
                if ev.value != 0 {
                    self.touch_fingers = 3;
                } else if self.touch_active {
                    self.touch_fingers = 2;
                }
            }
            if ev.code == BTN_LEFT || ev.code == BTN_RIGHT || ev.code == BTN_MIDDLE {
                reaction = Reaction::Forward(ev);
            }
            reaction
        } else if ev.kind == EV_ABS {
            if ev.code == ABS_X {
                self.current_dx = gather(self.touch_active, self.last_x, self.current_dx, ev.value);
                self.last_x = Some(ev.value);
            } else if ev.code == ABS_Y {
                self.current_dy = gather(self.touch_active, self.last_y, self.current_dy, ev.value);
                self.last_y = Some(ev.value);
            }
            Reaction::Ignore
        } else if ev.kind == EV_SYN {
            if ev.code != SYN_REPORT {
                return Reaction::Forward(ev);
            }
            if typing {
                self.current_dx = 0;
                self.current_dy = 0;
                self.tap_emitted = true;
                Reaction::DiscardMotion(ev)
            } else if self.current_dx != 0 || self.current_dy != 0 {
                self.tap_emitted = true;
                if self.touch_fingers == 1 {
                    Reaction::MovePointer { dx: self.current_dx, dy: self.current_dy, report: ev }
                } else if self.touch_fingers == 2 {
                    Reaction::Scroll { dy: self.current_dy, report: ev }
                } else {
                    self.current_dx = 0;
                    self.current_dy = 0;
                    Reaction::Forward(ev)
                }
            } else {
                Reaction::Forward(ev)
            }
        } else {
            Reaction::Ignore
        }
    }

    /// Completes a report whose motion was sent: the gathered motion is spent.
    pub fn finish_report(&mut self)
        ensures
            *final(self) == (DeviceWrapper { current_dx: 0, current_dy: 0, ..*old(self) }),
    {
        self.current_dx = 0;
        self.current_dy = 0;
    }
}

} // verus!
