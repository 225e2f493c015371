//! Properties of the gesture state machine and of the device table that
//! hold for every input, proved from the definitions of `step` and
//! `table_step`.
use vstd::prelude::*;

use crate::codes::{
    ABS_X, BTN_TOUCH, EV_ABS, EV_KEY, EV_SYN, KEY_LEFTALT, KEY_LEFTCTRL, KEY_R, KEY_RIGHTALT,
    KEY_RIGHTCTRL, EV_REL, REL_WHEEL, REL_X, REL_Y, SYN_REPORT, TYPING_WINDOW_NS,
};
use crate::config::InputConfig;
use crate::device::{
    accepts, alt_held, ctrl_held, is_pointer_button, makes_tap, step, typing_recent, DeviceWrapper,
    Reaction,
};
use crate::event::RawEvent;
use crate::identify::{ascii_lower_char, ascii_lowercase, role_of};
use crate::output::{axis_steps, click_sequence, wheel_value};
use crate::tracker::{is_keystroke, is_reset_combo, table_step, Dispatch, TableView};

verus! {

/// A touchpad as the state machine sees it: absolute axes, not a keyboard.
pub open spec fn is_touchpad(d: DeviceWrapper) -> bool {
    !d.is_keyboard && d.is_absolute
}

/// The reaction hands out motion: pointer steps or wheel ticks.
pub open spec fn moves(r: Reaction) -> bool {
    r is MovePointer || r is Scroll
}

/// A keyboard never makes the daemon emit anything; a key that goes down
/// or repeats is noted as the keyboard's last keystroke; only the
/// keystroke time and the held modifier keys change.
pub proof fn keyboard_is_silent(
    d: DeviceWrapper,
    ev: RawEvent,
    config: InputConfig,
    last_typing: Option<u64>,
    now: u64,
)
    requires
        d.is_keyboard,
    ensures
        step(d, ev, config, last_typing, now).1 == Reaction::Ignore,
        ev.kind == EV_KEY && ev.value != 0 ==> step(d, ev, config, last_typing, now).0.last_typing_time
            == Some(now),
        step(d, ev, config, last_typing, now).0 == (DeviceWrapper {
            last_typing_time: step(d, ev, config, last_typing, now).0.last_typing_time,
            left_ctrl_held: step(d, ev, config, last_typing, now).0.left_ctrl_held,
            right_ctrl_held: step(d, ev, config, last_typing, now).0.right_ctrl_held,
            left_alt_held: step(d, ev, config, last_typing, now).0.left_alt_held,
            right_alt_held: step(d, ev, config, last_typing, now).0.right_alt_held,
            ..d
        }),
{
}

/// A relative device (a mouse, a trackpoint) has every event forwarded
/// unchanged, and its state does not change.
pub proof fn relative_devices_pass_through(
    d: DeviceWrapper,
    ev: RawEvent,
    config: InputConfig,
    last_typing: Option<u64>,
    now: u64,
)
    requires
        !d.is_keyboard,
        !d.is_absolute,
    ensures
        step(d, ev, config, last_typing, now) == (d, Reaction::Forward(ev)),
{
}

/// Disable-while-typing: while a keystroke is recent, a touchpad gives no
/// pointer motion, no scrolling and no tap, and the end of each report
/// throws the gathered motion away and spoils the current tap.
pub proof fn typing_silences_touchpad(
    d: DeviceWrapper,
    ev: RawEvent,
    config: InputConfig,
    last_typing: Option<u64>,
    now: u64,
)
    requires
        is_touchpad(d),
        typing_recent(config, last_typing, now),
    ensures
        !moves(step(d, ev, config, last_typing, now).1),
        step(d, ev, config, last_typing, now).1 != Reaction::TapClick,
        ev.kind == EV_SYN && ev.code == SYN_REPORT ==> {
            let (d2, r) = step(d, ev, config, last_typing, now);
            &&& r == Reaction::DiscardMotion(ev)
            &&& d2.current_dx == 0
            &&& d2.current_dy == 0
            &&& d2.tap_emitted
        },
{
}

/// Tap-to-click: the daemon clicks exactly when a touchpad's finger is
/// lifted and the touch makes a tap (tapping on, no motion since the touch
/// began, no recent keystroke, shorter than the tap window).
pub proof fn tap_exactly_when(
    d: DeviceWrapper,
    ev: RawEvent,
    config: InputConfig,
    last_typing: Option<u64>,
    now: u64,
)
    ensures
        (step(d, ev, config, last_typing, now).1 == Reaction::TapClick) <==> {
            &&& is_touchpad(d)
            &&& ev.kind == EV_KEY
            &&& ev.code == BTN_TOUCH
            &&& ev.value == 0
            &&& makes_tap(d, config, typing_recent(config, last_typing, now), now)
        },
{
}

/// Once a touch is spoiled for tapping (it moved, or a keystroke was
/// recent at a report), it stays spoiled until a new touch begins.
pub proof fn spoiled_tap_stays_spoiled(
    d: DeviceWrapper,
    ev: RawEvent,
    config: InputConfig,
    last_typing: Option<u64>,
    now: u64,
)
    requires
        d.tap_emitted,
        !(is_touchpad(d) && ev.kind == EV_KEY && ev.code == BTN_TOUCH && ev.value != 0),
    ensures
        step(d, ev, config, last_typing, now).0.tap_emitted,
        step(d, ev, config, last_typing, now).1 != Reaction::TapClick,
{
}

/// Gathered motion at the end of a report spoils the tap.
pub proof fn motion_spoils_tap(
    d: DeviceWrapper,
    ev: RawEvent,
    config: InputConfig,
    last_typing: Option<u64>,
    now: u64,
)
    requires
        is_touchpad(d),
        ev.kind == EV_SYN,
        ev.code == SYN_REPORT,
        d.current_dx != 0 || d.current_dy != 0,
    ensures
        step(d, ev, config, last_typing, now).0.tap_emitted,
{
}

/// Lifting the finger resets the tracking: no touch, no fingers, no last
/// coordinates, no gathered motion, no start time.
pub proof fn lift_resets_tracking(
    d: DeviceWrapper,
    ev: RawEvent,
    config: InputConfig,
    last_typing: Option<u64>,
    now: u64,
)
    requires
        is_touchpad(d),
        ev.kind == EV_KEY,
        ev.code == BTN_TOUCH,
        ev.value == 0,
    ensures
        ({
            let d2 = step(d, ev, config, last_typing, now).0;
            &&& !d2.touch_active
            &&& d2.touch_fingers == 0
            &&& d2.last_x is None
            &&& d2.last_y is None
            &&& d2.current_dx == 0
            &&& d2.current_dy == 0
            &&& d2.touch_start_time is None
        }),
{
}

/// A new touch starts fresh: one finger, tap possible again, started now,
/// and its first coordinate only sets the baseline (no motion from the
/// previous touch's position).
pub proof fn touch_starts_fresh(
    d: DeviceWrapper,
    press: RawEvent,
    x: RawEvent,
    config: InputConfig,
    last_typing: Option<u64>,
    t1: u64,
    t2: u64,
)
    requires
        is_touchpad(d),
        press.kind == EV_KEY,
        press.code == BTN_TOUCH,
        press.value != 0,
        x.kind == EV_ABS,
        x.code == ABS_X,
    ensures
        ({
            let d1 = step(d, press, config, last_typing, t1).0;
            let d2 = step(d1, x, config, last_typing, t2).0;
            &&& d1.touch_active
            &&& d1.touch_fingers == 1
            &&& !d1.tap_emitted
            &&& d1.touch_start_time == Some(t1)
            &&& accepts(d1, x)
            &&& d2.current_dx == d.current_dx
            &&& d2.last_x == Some(x.value)
        }),
{
}

/// The device after a run of events, all at the same time.
pub open spec fn feed(
    d: DeviceWrapper,
    evs: Seq<RawEvent>,
    config: InputConfig,
    last_typing: Option<u64>,
    now: u64,
) -> DeviceWrapper
    decreases evs.len(),
{
    if evs.len() == 0 {
        d
    } else {
        step(feed(d, evs.drop_last(), config, last_typing, now), evs.last(), config, last_typing, now).0
    }
}

/// Every event of the run can be taken by the device it reaches.
pub open spec fn feed_accepted(
    d: DeviceWrapper,
    evs: Seq<RawEvent>,
    config: InputConfig,
    last_typing: Option<u64>,
    now: u64,
) -> bool
    decreases evs.len(),
{
    evs.len() == 0 || (feed_accepted(d, evs.drop_last(), config, last_typing, now) && accepts(
        feed(d, evs.drop_last(), config, last_typing, now),
        evs.last(),
    ))
}

/// Motion adds up: during a touch, a run of X coordinates moves the
/// gathered X motion by exactly the distance from the coordinate before
/// the run to the last one of the run, whatever lies between.
pub proof fn motion_telescopes(
    d: DeviceWrapper,
    evs: Seq<RawEvent>,
    config: InputConfig,
    last_typing: Option<u64>,
    now: u64,
)
    requires
        is_touchpad(d),
        d.touch_active,
        d.last_x is Some,
        evs.len() > 0,
        forall|i: int| 0 <= i < evs.len() ==> (#[trigger] evs[i]).kind == EV_ABS && evs[i].code == ABS_X,
        feed_accepted(d, evs, config, last_typing, now),
    ensures
        feed(d, evs, config, last_typing, now).current_dx == d.current_dx + (evs.last().value
            - d.last_x->0),
        feed(d, evs, config, last_typing, now).last_x == Some(evs.last().value),
        feed(d, evs, config, last_typing, now).touch_active,
        is_touchpad(feed(d, evs, config, last_typing, now)),
    decreases evs.len(),
{
    if evs.len() > 1 {
        let front = evs.drop_last();
        assert(forall|i: int| 0 <= i < front.len() ==> front[i] == evs[i]);
        motion_telescopes(d, front, config, last_typing, now);
    }
}

/// Only the three pointer buttons of a touchpad are passed on among its key events.
pub proof fn only_buttons_pass(
    d: DeviceWrapper,
    ev: RawEvent,
    config: InputConfig,
    last_typing: Option<u64>,
    now: u64,
)
    requires
        is_touchpad(d),
        ev.kind == EV_KEY,
    ensures
        (step(d, ev, config, last_typing, now).1 == Reaction::Forward(ev)) <==> is_pointer_button(
            ev.code,
        ),
{
}

/// Every synchronisation event of a touchpad is passed on: forwarded
/// directly, or after the motion of the report was dealt with.
pub proof fn reports_always_pass(
    d: DeviceWrapper,
    ev: RawEvent,
    config: InputConfig,
    last_typing: Option<u64>,
    now: u64,
)
    requires
        is_touchpad(d),
        ev.kind == EV_SYN,
    ensures
        ({
            let r = step(d, ev, config, last_typing, now).1;
            ||| r == Reaction::Forward(ev)
            ||| r == Reaction::DiscardMotion(ev)
            ||| r matches Reaction::MovePointer { report, .. } && report == ev
            ||| r matches Reaction::Scroll { report, .. } && report == ev
        }),
{
}

/// Motion is handed out whole: one finger moves the pointer by exactly
/// the gathered X and Y motion, two fingers scroll by exactly the gathered
/// Y motion, and completing the report leaves no motion behind.
pub proof fn motion_handed_out_whole(
    d: DeviceWrapper,
    ev: RawEvent,
    config: InputConfig,
    last_typing: Option<u64>,
    now: u64,
)
    requires
        is_touchpad(d),
        ev.kind == EV_SYN,
        ev.code == SYN_REPORT,
        !typing_recent(config, last_typing, now),
        d.current_dx != 0 || d.current_dy != 0,
    ensures
        d.touch_fingers == 1 ==> step(d, ev, config, last_typing, now).1 == (Reaction::MovePointer {
            dx: d.current_dx,
            dy: d.current_dy,
            report: ev,
        }),
        d.touch_fingers == 2 ==> step(d, ev, config, last_typing, now).1 == (Reaction::Scroll {
            dy: d.current_dy,
            report: ev,
        }),
        d.touch_fingers != 1 && d.touch_fingers != 2 ==> {
            let (d2, r) = step(d, ev, config, last_typing, now);
            r == Reaction::Forward(ev) && d2.current_dx == 0 && d2.current_dy == 0
        },
{
}

/// A keystroke on any keyboard pauses every touchpad: after a key goes
/// down on a keyboard in the table, the end of a touchpad report less than
/// the typing window later throws its motion away.
pub proof fn keystroke_pauses_touchpads(
    tv: TableView,
    keyboard: usize,
    touchpad: usize,
    key: RawEvent,
    report: RawEvent,
    config: InputConfig,
    t1: u64,
    t2: u64,
)
    requires
        keyboard != touchpad,
        tv.has_token(keyboard),
        tv.devices[keyboard].is_keyboard,
        tv.has_token(touchpad),
        is_touchpad(tv.devices[touchpad]),
        key.kind == EV_KEY,
        key.value != 0,
        report.kind == EV_SYN,
        report.code == SYN_REPORT,
        config.disable_while_typing,
        t1 <= t2,
        t2 - t1 < TYPING_WINDOW_NS,
    ensures
        ({
            let tv2 = table_step(tv, keyboard, key, config, t1).0;
            let (tv3, out) = table_step(tv2, touchpad, report, config, t2);
            &&& out == Some(Dispatch { reaction: Reaction::DiscardMotion(report), reset_requested: false })
            &&& tv3.devices[touchpad].current_dx == 0
            &&& tv3.devices[touchpad].current_dy == 0
        }),
{
    let tv2 = table_step(tv, keyboard, key, config, t1).0;
    assert(tv2.devices[touchpad] == tv.devices[touchpad]);
}

/// The table after a run of dispatched events, each (token, event, time).
pub open spec fn table_run(
    tv: TableView,
    run: Seq<(usize, RawEvent, u64)>,
    config: InputConfig,
) -> TableView
    decreases run.len(),
{
    if run.len() == 0 {
        tv
    } else {
        let before = table_run(tv, run.drop_last(), config);
        table_step(before, run.last().0, run.last().1, config, run.last().2).0
    }
}

/// The `k`-th event of the run is a key going down or repeating on a
/// keyboard of the table.
pub open spec fn keystroke_at(tv: TableView, run: Seq<(usize, RawEvent, u64)>, k: int) -> bool {
    tv.has_token(run[k].0) && is_keystroke(tv.devices[run[k].0], run[k].1)
}

/// A run of dispatched events keeps the set of tokens and which devices
/// are keyboards.
pub proof fn run_keeps_devices(tv: TableView, run: Seq<(usize, RawEvent, u64)>, config: InputConfig)
    ensures
        table_run(tv, run, config).devices.dom() == tv.devices.dom(),
        forall|t: usize|
            #[trigger] tv.devices.contains_key(t) ==> table_run(tv, run, config).devices[t].is_keyboard
                == tv.devices[t].is_keyboard,
    decreases run.len(),
{
    if run.len() > 0 {
        run_keeps_devices(tv, run.drop_last(), config);
        let before = table_run(tv, run.drop_last(), config);
        let after = table_run(tv, run, config);
        assert(after.devices.dom() =~= before.devices.dom());
    }
}

/// The last event of a run sets the last keystroke to its own time if it
/// is a keystroke on a keyboard of the table, and leaves it otherwise.
proof fn last_event_typing(tv: TableView, run: Seq<(usize, RawEvent, u64)>, config: InputConfig)
    requires
        run.len() > 0,
    ensures
        table_run(tv, run, config).last_typing == if keystroke_at(tv, run, run.len() - 1) {
            Some(run[run.len() - 1].2)
        } else {
            table_run(tv, run.drop_last(), config).last_typing
        },
{
    let front = run.drop_last();
    run_keeps_devices(tv, front, config);
    let before = table_run(tv, front, config);
    let tok = run.last().0;
    if tv.has_token(tok) {
        assert(before.devices.dom().contains(tok));
        assert(before.devices[tok].is_keyboard == tv.devices[tok].is_keyboard);
    } else {
        assert(!before.devices.dom().contains(tok));
    }
}

/// Disable-while-typing across keyboards: after any run of dispatched
/// events, the table's last keystroke is the time of the latest key that
/// went down or repeated on any keyboard in the run, and what it was
/// before when there was none.
pub proof fn last_keystroke_is_latest(
    tv: TableView,
    run: Seq<(usize, RawEvent, u64)>,
    config: InputConfig,
)
    ensures
        forall|k: int|
            0 <= k < run.len() && #[trigger] keystroke_at(tv, run, k) && (forall|m: int|
                k < m < run.len() ==> !keystroke_at(tv, run, m)) ==> table_run(tv, run, config).last_typing
                == Some(run[k].2),
        (forall|k: int| 0 <= k < run.len() ==> !keystroke_at(tv, run, k)) ==> table_run(
            tv,
            run,
            config,
        ).last_typing == tv.last_typing,
    decreases run.len(),
{
    if run.len() > 0 {
        let front = run.drop_last();
        let n = run.len() - 1;
        last_keystroke_is_latest(tv, front, config);
        last_event_typing(tv, run, config);
        assert forall|k: int| 0 <= k < front.len() implies #[trigger] keystroke_at(tv, front, k)
            == keystroke_at(tv, run, k) by {
            assert(front[k] == run[k]);
        }
        if !keystroke_at(tv, run, n) {
            assert forall|k: int|
                0 <= k < run.len() && #[trigger] keystroke_at(tv, run, k) && (forall|m: int|
                    k < m < run.len() ==> !keystroke_at(tv, run, m)) implies table_run(
                tv,
                run,
                config,
            ).last_typing == Some(run[k].2) by {
                assert(k < n);
                assert(keystroke_at(tv, front, k));
                assert forall|m: int| k < m < front.len() implies !keystroke_at(tv, front, m) by {
                    assert(!keystroke_at(tv, run, m));
                }
            }
            assert((forall|k: int| 0 <= k < run.len() ==> !keystroke_at(tv, run, k)) ==> (forall|
                k: int,
            | 0 <= k < front.len() ==> !keystroke_at(tv, front, k)));
        }
    }
}

/// Each Ctrl and Alt key of a keyboard is followed on its own: a Ctrl
/// key going down makes Ctrl held, one going up leaves Ctrl held exactly
/// when the other Ctrl key still is, and other keys change nothing; the
/// same for Alt.
pub proof fn modifiers_follow_each_key(
    d: DeviceWrapper,
    ev: RawEvent,
    config: InputConfig,
    last_typing: Option<u64>,
    now: u64,
)
    requires
        d.is_keyboard,
        ev.kind == EV_KEY,
    ensures
        ({
            let d2 = step(d, ev, config, last_typing, now).0;
            &&& ctrl_held(d2) == if ev.code == KEY_LEFTCTRL {
                ev.value != 0 || d.right_ctrl_held
            } else if ev.code == KEY_RIGHTCTRL {
                ev.value != 0 || d.left_ctrl_held
            } else {
                ctrl_held(d)
            }
            &&& alt_held(d2) == if ev.code == KEY_LEFTALT {
                ev.value != 0 || d.right_alt_held
            } else if ev.code == KEY_RIGHTALT {
                ev.value != 0 || d.left_alt_held
            } else {
                alt_held(d)
            }
        }),
{
}

/// Pressing R on a keyboard asks for a reset exactly when a Ctrl key and
/// an Alt key are held; holding either Ctrl and either Alt key and then
/// pressing R asks for it.
pub proof fn ctrl_alt_r_requests_reset(
    d: DeviceWrapper,
    ctrl: RawEvent,
    alt: RawEvent,
    r: RawEvent,
    config: InputConfig,
    last_typing: Option<u64>,
    t1: u64,
    t2: u64,
)
    requires
        d.is_keyboard,
        ctrl.kind == EV_KEY && (ctrl.code == KEY_LEFTCTRL || ctrl.code == KEY_RIGHTCTRL) && ctrl.value
            != 0,
        alt.kind == EV_KEY && (alt.code == KEY_LEFTALT || alt.code == KEY_RIGHTALT) && alt.value != 0,
        r == (RawEvent { kind: EV_KEY, code: KEY_R, value: 1 }),
    ensures
        is_reset_combo(d, r) == (ctrl_held(d) && alt_held(d)),
        is_reset_combo(step(step(d, ctrl, config, last_typing, t1).0, alt, config, last_typing, t2).0, r),
{
}

/// An event the virtual pointer may be sent: a synchronisation event, a
/// pointer button, or a non-zero step on `REL_X`, `REL_Y` or `REL_WHEEL`.
pub open spec fn pointer_output(e: RawEvent) -> bool {
    ||| e.kind == EV_SYN
    ||| e.kind == EV_KEY && is_pointer_button(e.code)
    ||| e.kind == EV_REL && (e.code == REL_X || e.code == REL_Y || e.code == REL_WHEEL) && e.value != 0
}

/// A touchpad only ever makes the daemon send pointer events: whatever
/// a reaction forwards, the click of a tap, and the pointer and wheel
/// steps of its motion (never its absolute axes, its touch and tool keys
/// or other events, and never a zero step).
pub proof fn touchpad_sends_only_pointer_events(
    d: DeviceWrapper,
    ev: RawEvent,
    config: InputConfig,
    last_typing: Option<u64>,
    now: u64,
    step_x: i32,
    step_y: i32,
    ticks: i32,
    natural: bool,
)
    requires
        is_touchpad(d),
        !natural ==> ticks != i32::MIN,
    ensures
        match step(d, ev, config, last_typing, now).1 {
            Reaction::Forward(e) => pointer_output(e),
            Reaction::DiscardMotion(e) => pointer_output(e),
            Reaction::MovePointer { report, .. } => pointer_output(report),
            Reaction::Scroll { report, .. } => pointer_output(report),
            _ => true,
        },
        forall|i: int| 0 <= i < click_sequence().len() ==> pointer_output(#[trigger] click_sequence()[i]),
        forall|i: int|
            0 <= i < (axis_steps(REL_X, step_x) + axis_steps(REL_Y, step_y)).len() ==> pointer_output(
                #[trigger] (axis_steps(REL_X, step_x) + axis_steps(REL_Y, step_y))[i],
            ),
        forall|i: int|
            0 <= i < axis_steps(REL_WHEEL, wheel_value(ticks, natural) as i32).len() ==> pointer_output(
                #[trigger] axis_steps(REL_WHEEL, wheel_value(ticks, natural) as i32)[i],
            ),
{
    let both = axis_steps(REL_X, step_x) + axis_steps(REL_Y, step_y);
    assert forall|i: int| 0 <= i < both.len() implies pointer_output(#[trigger] both[i]) by {
        if i < axis_steps(REL_X, step_x).len() {
            assert(both[i] == axis_steps(REL_X, step_x)[i]);
        } else {
            assert(both[i] == axis_steps(REL_Y, step_y)[i - axis_steps(REL_X, step_x).len()]);
        }
    }
}

/// The motion bookkeeping of a device: no motion is gathered without a
/// finger on the pad, and at most three fingers are counted.
pub open spec fn motion_consistent(d: DeviceWrapper) -> bool {
    &&& !d.touch_active ==> d.current_dx == 0 && d.current_dy == 0
    &&& d.touch_fingers <= 3
}

/// Every event, and completing a report, keeps the motion bookkeeping
/// consistent; a new device starts consistent. So no motion stays
/// pending once the finger is lifted.
pub proof fn motion_stays_consistent(
    d: DeviceWrapper,
    ev: RawEvent,
    config: InputConfig,
    last_typing: Option<u64>,
    now: u64,
)
    requires
        motion_consistent(d),
    ensures
        motion_consistent(step(d, ev, config, last_typing, now).0),
        motion_consistent(DeviceWrapper { current_dx: 0, current_dy: 0, ..d }),
        motion_consistent(DeviceWrapper::new_spec(d.path, d.is_absolute)),
{
}

/// Device names are matched without regard to letter case: two ASCII
/// names that differ only in the case of their letters lower-case to the
/// same name and so get the same role.
pub proof fn name_matching_ignores_case(a: Seq<char>, b: Seq<char>, has_keys: bool, has_key_a: bool)
    requires
        a.len() == b.len(),
        forall|i: int| 0 <= i < a.len() ==> ascii_lower_char(#[trigger] a[i]) == ascii_lower_char(b[i]),
    ensures
        ascii_lowercase(a) == ascii_lowercase(b),
        role_of(ascii_lowercase(a), has_keys, has_key_a) == role_of(
            ascii_lowercase(b),
            has_keys,
            has_key_a,
        ),
{
    assert(ascii_lowercase(a) =~= ascii_lowercase(b));
}

} // verus!
