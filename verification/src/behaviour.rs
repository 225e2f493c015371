//! What the daemon's operations are for, stated directly in terms of
//! event codes, times, device fields and results, and proved of the
//! transitions the library implements.
use vstd::prelude::*;

use crate::codes::{
    ABS_X, ABS_Y, BTN_TOOL_DOUBLETAP, BTN_TOOL_TRIPLETAP, BTN_TOUCH, EV_ABS, EV_KEY, EV_REL, EV_SYN,
    KEY_R, REL_WHEEL, REL_X, REL_Y, SYN_REPORT, TAP_WINDOW_NS, TYPING_WINDOW_NS,
};
use crate::config::InputConfig;
use crate::device::{accepts, step, DeviceWrapper, Reaction};
use crate::event::RawEvent;
use crate::identify::{role_of, DeviceRole};
use crate::output::{axis_steps, wheel_value};
use crate::properties::{feed, is_touchpad};
use crate::tracker::{fetch_failure, table_step, FetchFailure, TableView};

verus! {

/// No keystroke pauses a touchpad at `now`: disable-while-typing is off,
/// no key went down yet, or the last one is at least the typing window old.
pub open spec fn no_recent_keystroke(config: InputConfig, last_typing: Option<u64>, now: u64) -> bool {
    ||| !config.disable_while_typing
    ||| last_typing is None
    ||| last_typing matches Some(t) && now >= t && now - t >= TYPING_WINDOW_NS
}

/// The end of a report with no gathered motion, while nobody typed, changes
/// nothing on a touchpad (in particular a tap stays possible) and is
/// passed on.
pub proof fn quiet_report_changes_nothing(
    d: DeviceWrapper,
    ev: RawEvent,
    config: InputConfig,
    last_typing: Option<u64>,
    now: u64,
)
    requires
        is_touchpad(d),
        ev.kind == EV_SYN,
        ev.code == SYN_REPORT,
        d.current_dx == 0,
        d.current_dy == 0,
        no_recent_keystroke(config, last_typing, now),
    ensures
        step(d, ev, config, last_typing, now) == (d, Reaction::Forward(ev)),
{
}

/// Reports without motion leave a touchpad as it was.
proof fn quiet_reports_change_nothing(
    d: DeviceWrapper,
    reports: Seq<RawEvent>,
    config: InputConfig,
    last_typing: Option<u64>,
    now: u64,
)
    requires
        is_touchpad(d),
        d.current_dx == 0,
        d.current_dy == 0,
        forall|i: int|
            0 <= i < reports.len() ==> (#[trigger] reports[i]).kind == EV_SYN && reports[i].code
                == SYN_REPORT,
        no_recent_keystroke(config, last_typing, now),
    ensures
        feed(d, reports, config, last_typing, now) == d,
    decreases reports.len(),
{
    if reports.len() > 0 {
        let front = reports.drop_last();
        assert(forall|i: int| 0 <= i < front.len() ==> front[i] == reports[i]);
        quiet_reports_change_nothing(d, front, config, last_typing, now);
        quiet_report_changes_nothing(d, reports.last(), config, last_typing, now);
    }
}

/// Tap-to-click: with tapping on and nobody typing, a finger put down
/// and lifted again without motion, with any number of motion-free
/// reports in between, clicks exactly when it was lifted less than the
/// tap window after it went down.
pub proof fn still_short_touch_clicks(
    d: DeviceWrapper,
    press: RawEvent,
    reports: Seq<RawEvent>,
    lift: RawEvent,
    config: InputConfig,
    last_typing: Option<u64>,
    t0: u64,
    t1: u64,
    t2: u64,
)
    requires
        is_touchpad(d),
        d.current_dx == 0,
        d.current_dy == 0,
        config.tap_to_click,
        press.kind == EV_KEY && press.code == BTN_TOUCH && press.value != 0,
        forall|i: int|
            0 <= i < reports.len() ==> (#[trigger] reports[i]).kind == EV_SYN && reports[i].code
                == SYN_REPORT,
        lift.kind == EV_KEY && lift.code == BTN_TOUCH && lift.value == 0,
        no_recent_keystroke(config, last_typing, t1),
        no_recent_keystroke(config, last_typing, t2),
        t0 <= t2,
    ensures
        ({
            let touched = step(d, press, config, last_typing, t0).0;
            let waited = feed(touched, reports, config, last_typing, t1);
            let r = step(waited, lift, config, last_typing, t2).1;
            &&& t2 - t0 < TAP_WINDOW_NS ==> r == Reaction::TapClick
            &&& t2 - t0 >= TAP_WINDOW_NS ==> r == Reaction::Ignore
        }),
{
    let touched = step(d, press, config, last_typing, t0).0;
    quiet_reports_change_nothing(touched, reports, config, last_typing, t1);
}

/// Disable-while-typing does not outlast its window: a keystroke at
/// least the typing window old does not pause the touchpad, and the one
/// finger's gathered motion is handed out whole.
pub proof fn old_keystroke_does_not_pause(
    d: DeviceWrapper,
    ev: RawEvent,
    config: InputConfig,
    t: u64,
    now: u64,
)
    requires
        is_touchpad(d),
        d.touch_fingers == 1,
        d.current_dx != 0 || d.current_dy != 0,
        ev.kind == EV_SYN,
        ev.code == SYN_REPORT,
        now >= t,
        now - t >= TYPING_WINDOW_NS,
    ensures
        step(d, ev, config, Some(t), now).1 == (Reaction::MovePointer {
            dx: d.current_dx,
            dy: d.current_dy,
            report: ev,
        }),
{
}

/// Disable-while-typing covers its whole window: with the switch on, a
/// keystroke less than the typing window old (or stamped later than now)
/// makes the end of a touchpad report throw its motion away.
pub proof fn recent_keystroke_pauses(
    d: DeviceWrapper,
    ev: RawEvent,
    config: InputConfig,
    t: u64,
    now: u64,
)
    requires
        is_touchpad(d),
        config.disable_while_typing,
        ev.kind == EV_SYN,
        ev.code == SYN_REPORT,
        now < t || now - t < TYPING_WINDOW_NS,
    ensures
        step(d, ev, config, Some(t), now).1 == Reaction::DiscardMotion(ev),
        step(d, ev, config, Some(t), now).0.current_dx == 0,
        step(d, ev, config, Some(t), now).0.current_dy == 0,
        step(d, ev, config, Some(t), now).0.tap_emitted,
{
}

/// A reset is asked for exactly when `R` goes down on a keyboard while a
/// Ctrl key and an Alt key of it are held; no other event asks for one.
pub proof fn reset_only_on_ctrl_alt_r(
    tv: TableView,
    token: usize,
    ev: RawEvent,
    config: InputConfig,
    now: u64,
)
    ensures
        match table_step(tv, token, ev, config, now).1 {
            Some(out) => {
                let d = tv.devices[token];
                out.reset_requested == (d.is_keyboard && ev == RawEvent {
                    kind: EV_KEY,
                    code: KEY_R,
                    value: 1,
                } && (d.left_ctrl_held || d.right_ctrl_held) && (d.left_alt_held
                    || d.right_alt_held))
            },
            None => !tv.devices.contains_key(token),
        },
{
}

/// One of the names that mark a pointing device.
pub open spec fn is_pointer_marker(m: Seq<char>) -> bool {
    ||| m == "touchpad"@
    ||| m == "trackpoint"@
    ||| m == "elan"@
    ||| m == "synaptics"@
    ||| m == "mouse"@
}

/// A lower-cased name in which "touchpad", "trackpoint", "elan",
/// "synaptics" or "mouse" occurs belongs to a pointing device, whatever
/// its keys.
pub proof fn marker_makes_pointer(
    lower: Seq<char>,
    marker: Seq<char>,
    i: int,
    has_keys: bool,
    has_key_a: bool,
)
    requires
        is_pointer_marker(marker),
        0 <= i,
        i + marker.len() <= lower.len(),
        lower.subrange(i, i + marker.len()) == marker,
    ensures
        role_of(lower, has_keys, has_key_a) == DeviceRole::Pointer,
{
}

/// A lower-cased name in which none of the pointer markers occurs belongs
/// to a keyboard if the device has keys and `KEY_A`, and to nothing the
/// daemon takes otherwise.
pub proof fn no_marker_no_pointer(lower: Seq<char>, has_keys: bool, has_key_a: bool)
    requires
        forall|m: Seq<char>, i: int|
            is_pointer_marker(m) && 0 <= i && i + m.len() <= lower.len() ==> #[trigger] lower.subrange(
                i,
                i + m.len(),
            ) != m,
    ensures
        role_of(lower, has_keys, has_key_a) == if has_keys && has_key_a {
            DeviceRole::Keyboard
        } else {
            DeviceRole::Other
        },
{
    assert(is_pointer_marker("touchpad"@));
    assert(is_pointer_marker("trackpoint"@));
    assert(is_pointer_marker("elan"@));
    assert(is_pointer_marker("synaptics"@));
    assert(is_pointer_marker("mouse"@));
}

/// Every non-zero scroll is sent as exactly one wheel event of the same
/// size: the tick count itself under natural scrolling, its negation
/// otherwise; zero ticks send nothing.
pub proof fn wheel_ticks_are_sent(ticks: i32, natural: bool)
    requires
        !natural ==> ticks != i32::MIN,
    ensures
        ({
            let v = axis_steps(REL_WHEEL, wheel_value(ticks, natural) as i32);
            &&& ticks == 0 ==> v.len() == 0
            &&& ticks != 0 ==> v.len() == 1 && v[0].kind == EV_REL && v[0].code == REL_WHEEL
                && v[0].value == if natural {
                ticks as int
            } else {
                -ticks
            }
        }),
{
}

/// With tapping off, lifting a finger never clicks.
pub proof fn tap_off_never_clicks(
    d: DeviceWrapper,
    ev: RawEvent,
    config: InputConfig,
    last_typing: Option<u64>,
    now: u64,
)
    requires
        !config.tap_to_click,
    ensures
        step(d, ev, config, last_typing, now).1 != Reaction::TapClick,
{
}

/// A finger lifted while a keystroke is recent (disable-while-typing on)
/// does not click.
pub proof fn typing_blocks_tap(d: DeviceWrapper, ev: RawEvent, config: InputConfig, t: u64, now: u64)
    requires
        config.disable_while_typing,
        now < t || now - t < TYPING_WINDOW_NS,
    ensures
        step(d, ev, config, Some(t), now).1 != Reaction::TapClick,
{
}

/// Absolute coordinates of a touchpad gather motion: during a touch a
/// new X (or Y) adds its distance from the previous one to the gathered
/// X (or Y) motion and leaves the other axis alone; without a touch, or
/// for the first coordinate of a touch, no motion is added; either way
/// the coordinate is remembered.
pub proof fn coordinates_gather_motion(
    d: DeviceWrapper,
    ev: RawEvent,
    config: InputConfig,
    last_typing: Option<u64>,
    now: u64,
)
    requires
        is_touchpad(d),
        ev.kind == EV_ABS,
        ev.code == ABS_X || ev.code == ABS_Y,
        accepts(d, ev),
    ensures
        ({
            let (d2, r) = step(d, ev, config, last_typing, now);
            &&& r == Reaction::Ignore
            &&& ev.code == ABS_X ==> {
                &&& d2.last_x == Some(ev.value)
                &&& d2.current_dy == d.current_dy
                &&& d2.current_dx == match d.last_x {
                    Some(p) if d.touch_active => d.current_dx + (ev.value - p),
                    _ => d.current_dx as int,
                }
            }
            &&& ev.code == ABS_Y ==> {
                &&& d2.last_y == Some(ev.value)
                &&& d2.current_dx == d.current_dx
                &&& d2.current_dy == match d.last_y {
                    Some(p) if d.touch_active => d.current_dy + (ev.value - p),
                    _ => d.current_dy as int,
                }
            }
        }),
{
}

/// The end of a report while nobody typed hands the gathered motion out
/// whole and spoils the tap: one finger moves the pointer by both axes,
/// two fingers scroll by the vertical motion, more fingers drop it.
pub proof fn report_hands_out_motion(
    d: DeviceWrapper,
    ev: RawEvent,
    config: InputConfig,
    last_typing: Option<u64>,
    now: u64,
)
    requires
        is_touchpad(d),
        ev.kind == EV_SYN,
        ev.code == SYN_REPORT,
        d.current_dx != 0 || d.current_dy != 0,
        no_recent_keystroke(config, last_typing, now),
    ensures
        ({
            let (d2, r) = step(d, ev, config, last_typing, now);
            &&& d2.tap_emitted
            &&& d.touch_fingers == 1 ==> r == (Reaction::MovePointer {
                dx: d.current_dx,
                dy: d.current_dy,
                report: ev,
            }) && d2.current_dx == d.current_dx && d2.current_dy == d.current_dy
            &&& d.touch_fingers == 2 ==> r == (Reaction::Scroll { dy: d.current_dy, report: ev })
                && d2.current_dx == d.current_dx && d2.current_dy == d.current_dy
            &&& d.touch_fingers != 1 && d.touch_fingers != 2 ==> r == Reaction::Forward(ev)
                && d2.current_dx == 0 && d2.current_dy == 0
        }),
{
}

/// The tool keys count the fingers on a touchpad: the double-tap tool
/// going down means two fingers and the triple-tap tool three; either
/// going up during a touch means one finger fewer; without a touch a
/// tool going up changes nothing.
pub proof fn tools_count_fingers(
    d: DeviceWrapper,
    ev: RawEvent,
    config: InputConfig,
    last_typing: Option<u64>,
    now: u64,
)
    requires
        is_touchpad(d),
        ev.kind == EV_KEY,
        ev.code == BTN_TOOL_DOUBLETAP || ev.code == BTN_TOOL_TRIPLETAP,
    ensures
        ({
            let d2 = step(d, ev, config, last_typing, now).0;
            let many: u32 = if ev.code == BTN_TOOL_DOUBLETAP { 2 } else { 3 };
            &&& ev.value != 0 ==> d2.touch_fingers == many
            &&& ev.value == 0 && d.touch_active ==> d2.touch_fingers == many - 1
            &&& ev.value == 0 && !d.touch_active ==> d2.touch_fingers == d.touch_fingers
            &&& d2 == (DeviceWrapper { touch_fingers: d2.touch_fingers, ..d })
        }),
{
}

/// Of a touchpad's key events exactly the left, right and middle buttons
/// are passed on.
pub proof fn touchpad_passes_the_three_buttons(
    d: DeviceWrapper,
    ev: RawEvent,
    config: InputConfig,
    last_typing: Option<u64>,
    now: u64,
)
    requires
        is_touchpad(d),
        ev.kind == EV_KEY,
    ensures
        (step(d, ev, config, last_typing, now).1 == Reaction::Forward(ev)) == (ev.code == 0x110
            || ev.code == 0x111 || ev.code == 0x112),
{
}

/// The table remembers a keystroke: a key going down or repeating on a
/// keyboard makes its time the last keystroke; every other event leaves
/// the last keystroke as it was.
pub proof fn keystroke_is_recorded(
    tv: TableView,
    token: usize,
    ev: RawEvent,
    config: InputConfig,
    now: u64,
)
    ensures
        table_step(tv, token, ev, config, now).0.last_typing == if tv.devices.contains_key(token)
            && tv.devices[token].is_keyboard && ev.kind == EV_KEY && ev.value != 0 {
            Some(now)
        } else {
            tv.last_typing
        },
{
}

/// A read error is sorted by its cause: a vanished device (`ENODEV`) or
/// an unexpected end of file drops the device, "would block" is no error,
/// anything else is reported.
pub proof fn read_errors_by_cause(os_error: Option<i32>, unexpected_eof: bool, would_block: bool)
    ensures
        (os_error == Some(19i32) || unexpected_eof) ==> fetch_failure(
            os_error,
            unexpected_eof,
            would_block,
        ) == FetchFailure::Disconnected,
        !(os_error == Some(19i32) || unexpected_eof) && would_block ==> fetch_failure(
            os_error,
            unexpected_eof,
            would_block,
        ) == FetchFailure::NotReady,
        !(os_error == Some(19i32) || unexpected_eof) && !would_block ==> fetch_failure(
            os_error,
            unexpected_eof,
            would_block,
        ) == FetchFailure::Failed,
{
}

/// A motion scaled to whole steps is sent as a `REL_X` event of the X
/// steps, if any, followed by a `REL_Y` event of the Y steps, if any.
pub proof fn pointer_steps_are_sent(step_x: i32, step_y: i32)
    ensures
        ({
            let v = axis_steps(REL_X, step_x) + axis_steps(REL_Y, step_y);
            &&& v.len() == (if step_x != 0 { 1int } else { 0 }) + (if step_y != 0 { 1int } else { 0 })
            &&& step_x != 0 ==> v[0] == RawEvent { kind: EV_REL, code: REL_X, value: step_x }
            &&& step_y != 0 ==> v[v.len() - 1] == RawEvent { kind: EV_REL, code: REL_Y, value: step_y }
        }),
{
}

} // verus!
