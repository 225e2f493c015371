//! The events the daemon writes to its virtual pointer.
use vstd::prelude::*;

use crate::codes::{BTN_LEFT, EV_KEY, EV_REL, EV_SYN, REL_WHEEL, REL_X, REL_Y, SYN_REPORT};
use crate::event::RawEvent;

verus! {

/// A relative-axis event.
pub open spec fn rel_event(axis: u16, value: i32) -> RawEvent {
    RawEvent { kind: EV_REL, code: axis, value }
}

/// A left click: press, end of report, release.
pub open spec fn click_sequence() -> Seq<RawEvent> {
    seq![
        RawEvent { kind: EV_KEY, code: BTN_LEFT, value: 1 },
        RawEvent { kind: EV_SYN, code: SYN_REPORT, value: 0 },
        RawEvent { kind: EV_KEY, code: BTN_LEFT, value: 0 },
    ]
}

/// One event on `axis` with `value`, none when the value is zero.
pub open spec fn axis_steps(axis: u16, value: i32) -> Seq<RawEvent> {
    if value != 0 {
        seq![rel_event(axis, value)]
    } else {
        Seq::empty()
    }
}

/// The wheel step that a vertical finger motion gives. Moving the fingers
/// down raises Y; under natural scrolling the content follows the fingers,
/// so that is a step up (positive), and the traditional direction is the
/// reverse.
pub open spec fn wheel_value(steps: i32, natural: bool) -> int {
    if natural {
        steps as int
    } else {
        -steps
    }
}

/// The events of a tap: a left click.
pub fn tap_click_events() -> (v: Vec<RawEvent>)
    ensures
        v@ == click_sequence(),
{
    let mut v: Vec<RawEvent> = Vec::new();
    v.push(RawEvent::new(EV_KEY, BTN_LEFT, 1));
    v.push(RawEvent::new(EV_SYN, SYN_REPORT, 0));
    v.push(RawEvent::new(EV_KEY, BTN_LEFT, 0));
    assert(v@ =~= click_sequence());
    v
}

/// The pointer events for a motion already scaled to whole steps:
/// `REL_X` then `REL_Y`, each only when it is not zero.
pub fn pointer_events(step_x: i32, step_y: i32) -> (v: Vec<RawEvent>)
    ensures
        v@ == axis_steps(REL_X, step_x) + axis_steps(REL_Y, step_y),
{
    let mut v: Vec<RawEvent> = Vec::new();
    if step_x != 0 {
        v.push(RawEvent::new(EV_REL, REL_X, step_x));
    }
    if step_y != 0 {
        v.push(RawEvent::new(EV_REL, REL_Y, step_y));
    }
    assert(v@ =~= axis_steps(REL_X, step_x) + axis_steps(REL_Y, step_y));
    v
}

/// The wheel event for a scroll already scaled to whole ticks: none for
/// zero ticks, else one `REL_WHEEL` event, following the fingers under
/// natural scrolling and reversed otherwise.
pub fn wheel_events(ticks: i32, natural: bool) -> (v: Vec<RawEvent>)
    requires
        !natural ==> ticks != i32::MIN,
    ensures
        v@ == axis_steps(REL_WHEEL, wheel_value(ticks, natural) as i32),
        ticks == 0 ==> v@.len() == 0,
        ticks != 0 ==> v@.len() == 1 && v@[0].kind == EV_REL && v@[0].code == REL_WHEEL && v@[0].value
            == if natural {
            ticks as int
        } else {
            -ticks
        },
{
    let mut v: Vec<RawEvent> = Vec::new();
    if ticks != 0 {
        let mut value = ticks;
        if !natural {
            value = -value;
        }
        v.push(RawEvent::new(EV_REL, REL_WHEEL, value));
    }
    assert(v@ =~= axis_steps(REL_WHEEL, wheel_value(ticks, natural) as i32));
    v
}

} // verus!
