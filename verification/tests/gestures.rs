use libinput_rs::codes::{
    ABS_X, ABS_Y, BTN_LEFT, BTN_RIGHT, BTN_TOOL_DOUBLETAP, BTN_TOOL_TRIPLETAP, BTN_TOUCH, EV_ABS,
    EV_KEY, EV_REL, EV_SYN, KEY_A, REL_X, SYN_REPORT,
};
use libinput_rs::config::InputConfig;
use libinput_rs::device::{DeviceWrapper, Reaction};
use libinput_rs::event::RawEvent;

const MS: u64 = 1_000_000;

fn all_on() -> InputConfig {
    InputConfig { tap_to_click: true, natural_scrolling: true, disable_while_typing: true }
}

fn touchpad() -> DeviceWrapper {
    DeviceWrapper::new("/dev/input/event5".to_string(), true, true, false)
}

fn key(code: u16, value: i32) -> RawEvent {
    RawEvent::new(EV_KEY, code, value)
}

fn abs(code: u16, value: i32) -> RawEvent {
    RawEvent::new(EV_ABS, code, value)
}

fn report() -> RawEvent {
    RawEvent::new(EV_SYN, SYN_REPORT, 0)
}

#[test]
fn new_device_is_idle() {
    let d = touchpad();
    assert_eq!(d.path, "/dev/input/event5");
    assert!(d.is_absolute);
    assert!(!d.is_keyboard);
    assert!(!d.touch_active);
    assert_eq!(d.touch_fingers, 0);
    assert_eq!(d.last_x, None);
    assert_eq!(d.current_dx, 0);
    assert_eq!(d.touch_start_time, None);
    assert_eq!(d.last_typing_time, None);
    let k = DeviceWrapper::new("/dev/input/event2".to_string(), false, true, true);
    assert!(k.is_keyboard);
    let no_a = DeviceWrapper::new("/dev/input/event3".to_string(), false, true, false);
    assert!(!no_a.is_keyboard);
}

#[test]
fn keyboard_notes_keystrokes_and_emits_nothing() {
    let mut k = DeviceWrapper::new("kbd".to_string(), false, true, true);
    let cfg = all_on();
    assert_eq!(k.process_event(key(KEY_A, 1), &cfg, None, 5), Reaction::Ignore);
    assert_eq!(k.last_typing_time, Some(5));
    assert_eq!(k.process_event(key(KEY_A, 2), &cfg, None, 9), Reaction::Ignore);
    assert_eq!(k.last_typing_time, Some(9));
    assert_eq!(k.process_event(key(KEY_A, 0), &cfg, None, 12), Reaction::Ignore);
    assert_eq!(k.last_typing_time, Some(9));
    assert_eq!(k.process_event(report(), &cfg, None, 20), Reaction::Ignore);
    assert_eq!(k.last_typing_time, Some(9));
}

#[test]
fn relative_device_forwards_everything() {
    let mut m = DeviceWrapper::new("mouse".to_string(), false, true, false);
    let cfg = all_on();
    let ev = RawEvent::new(EV_REL, REL_X, -4);
    assert_eq!(m.process_event(ev, &cfg, Some(0), 1), Reaction::Forward(ev));
    assert_eq!(m.process_event(report(), &cfg, Some(0), 1), Reaction::Forward(report()));
    let b = key(BTN_LEFT, 1);
    assert_eq!(m.process_event(b, &cfg, None, 1), Reaction::Forward(b));
}

#[test]
fn short_touch_is_a_tap() {
    let mut d = touchpad();
    let cfg = all_on();
    assert_eq!(d.process_event(key(BTN_TOUCH, 1), &cfg, None, 1000), Reaction::Ignore);
    assert!(d.touch_active);
    assert_eq!(d.touch_fingers, 1);
    assert_eq!(d.touch_start_time, Some(1000));
    assert_eq!(d.process_event(key(BTN_TOUCH, 0), &cfg, None, 1000 + 100 * MS), Reaction::TapClick);
    assert!(!d.touch_active);
    assert_eq!(d.touch_fingers, 0);
    assert_eq!(d.touch_start_time, None);
}

#[test]
fn long_touch_is_no_tap() {
    let mut d = touchpad();
    let cfg = all_on();
    d.process_event(key(BTN_TOUCH, 1), &cfg, None, 0);
    assert_eq!(d.process_event(key(BTN_TOUCH, 0), &cfg, None, 250 * MS), Reaction::Ignore);
    let mut e = touchpad();
    e.process_event(key(BTN_TOUCH, 1), &cfg, None, 0);
    assert_eq!(e.process_event(key(BTN_TOUCH, 0), &cfg, None, 250 * MS - 1), Reaction::TapClick);
}

#[test]
fn tap_off_means_no_click() {
    let mut d = touchpad();
    let cfg = InputConfig { tap_to_click: false, ..all_on() };
    d.process_event(key(BTN_TOUCH, 1), &cfg, None, 0);
    assert_eq!(d.process_event(key(BTN_TOUCH, 0), &cfg, None, MS), Reaction::Ignore);
}

#[test]
fn clock_going_back_counts_as_no_time() {
    let mut d = touchpad();
    let cfg = all_on();
    d.process_event(key(BTN_TOUCH, 1), &cfg, None, 10 * MS);
    assert_eq!(d.process_event(key(BTN_TOUCH, 0), &cfg, None, 0), Reaction::TapClick);
}

#[test]
fn one_finger_moves_the_pointer() {
    let mut d = touchpad();
    let cfg = all_on();
    d.process_event(key(BTN_TOUCH, 1), &cfg, None, 0);
    assert_eq!(d.process_event(abs(ABS_X, 100), &cfg, None, 1), Reaction::Ignore);
    assert_eq!(d.process_event(abs(ABS_Y, 200), &cfg, None, 1), Reaction::Ignore);
    assert_eq!(d.current_dx, 0);
    assert_eq!(d.process_event(report(), &cfg, None, 1), Reaction::Forward(report()));
    d.process_event(abs(ABS_X, 110), &cfg, None, 2);
    d.process_event(abs(ABS_X, 113), &cfg, None, 2);
    d.process_event(abs(ABS_Y, 195), &cfg, None, 2);
    assert_eq!(d.current_dx, 13);
    assert_eq!(d.current_dy, -5);
    assert_eq!(
        d.process_event(report(), &cfg, None, 3),
        Reaction::MovePointer { dx: 13, dy: -5, report: report() }
    );
    assert!(d.tap_emitted);
    assert_eq!(d.current_dx, 13);
    d.finish_report();
    assert_eq!(d.current_dx, 0);
    assert_eq!(d.current_dy, 0);
    assert_eq!(d.process_event(key(BTN_TOUCH, 0), &cfg, None, 4), Reaction::Ignore);
}

#[test]
fn coordinates_without_touch_gather_nothing() {
    let mut d = touchpad();
    let cfg = all_on();
    d.process_event(abs(ABS_X, 10), &cfg, None, 0);
    d.process_event(abs(ABS_X, 50), &cfg, None, 0);
    assert_eq!(d.current_dx, 0);
    assert_eq!(d.last_x, Some(50));
    d.process_event(key(BTN_TOUCH, 1), &cfg, None, 0);
    assert_eq!(d.last_x, None);
    d.process_event(abs(ABS_X, 70), &cfg, None, 0);
    assert_eq!(d.current_dx, 0);
}

#[test]
fn two_fingers_scroll() {
    let mut d = touchpad();
    let cfg = all_on();
    d.process_event(key(BTN_TOUCH, 1), &cfg, None, 0);
    d.process_event(key(BTN_TOOL_DOUBLETAP, 1), &cfg, None, 0);
    assert_eq!(d.touch_fingers, 2);
    d.process_event(abs(ABS_X, 0), &cfg, None, 0);
    d.process_event(abs(ABS_Y, 0), &cfg, None, 0);
    d.process_event(abs(ABS_X, 7), &cfg, None, 0);
    d.process_event(abs(ABS_Y, 300), &cfg, None, 0);
    assert_eq!(
        d.process_event(report(), &cfg, None, 0),
        Reaction::Scroll { dy: 300, report: report() }
    );
    d.process_event(key(BTN_TOOL_DOUBLETAP, 0), &cfg, None, 0);
    assert_eq!(d.touch_fingers, 1);
}

#[test]
fn three_fingers_drop_motion() {
    let mut d = touchpad();
    let cfg = all_on();
    d.process_event(key(BTN_TOUCH, 1), &cfg, None, 0);
    d.process_event(key(BTN_TOOL_TRIPLETAP, 1), &cfg, None, 0);
    assert_eq!(d.touch_fingers, 3);
    d.process_event(abs(ABS_X, 0), &cfg, None, 0);
    d.process_event(abs(ABS_X, 40), &cfg, None, 0);
    assert_eq!(d.process_event(report(), &cfg, None, 0), Reaction::Forward(report()));
    assert_eq!(d.current_dx, 0);
    assert!(d.tap_emitted);
    d.process_event(key(BTN_TOOL_TRIPLETAP, 0), &cfg, None, 0);
    assert_eq!(d.touch_fingers, 2);
    d.process_event(key(BTN_TOUCH, 0), &cfg, None, 0);
    d.process_event(key(BTN_TOOL_TRIPLETAP, 0), &cfg, None, 0);
    assert_eq!(d.touch_fingers, 0);
}

#[test]
fn typing_pauses_the_touchpad() {
    let mut d = touchpad();
    let cfg = all_on();
    let typed = Some(1000 * MS);
    d.process_event(key(BTN_TOUCH, 1), &cfg, typed, 1000 * MS);
    d.process_event(abs(ABS_X, 0), &cfg, typed, 1000 * MS);
    d.process_event(abs(ABS_X, 9), &cfg, typed, 1000 * MS);
    assert_eq!(d.process_event(report(), &cfg, typed, 1100 * MS), Reaction::DiscardMotion(report()));
    assert_eq!(d.current_dx, 0);
    assert!(d.tap_emitted);
    assert_eq!(d.process_event(key(BTN_TOUCH, 0), &cfg, typed, 1100 * MS), Reaction::Ignore);
    // Exactly the typing window later the pause is over.
    let mut e = touchpad();
    e.process_event(key(BTN_TOUCH, 1), &cfg, typed, 1400 * MS);
    e.process_event(abs(ABS_X, 0), &cfg, typed, 1400 * MS);
    e.process_event(abs(ABS_X, 9), &cfg, typed, 1400 * MS);
    assert_eq!(
        e.process_event(report(), &cfg, typed, 1500 * MS),
        Reaction::MovePointer { dx: 9, dy: 0, report: report() }
    );
}

#[test]
fn typing_blocks_taps() {
    let mut d = touchpad();
    let cfg = all_on();
    d.process_event(key(BTN_TOUCH, 1), &cfg, None, 0);
    assert_eq!(d.process_event(key(BTN_TOUCH, 0), &cfg, Some(0), MS), Reaction::Ignore);
    let mut e = touchpad();
    let off = InputConfig { disable_while_typing: false, ..all_on() };
    e.process_event(key(BTN_TOUCH, 1), &off, None, 0);
    assert_eq!(e.process_event(key(BTN_TOUCH, 0), &off, Some(0), MS), Reaction::TapClick);
}

#[test]
fn touchpad_passes_only_buttons_and_reports() {
    let mut d = touchpad();
    let cfg = all_on();
    let left = key(BTN_LEFT, 1);
    assert_eq!(d.process_event(left, &cfg, None, 0), Reaction::Forward(left));
    let right = key(BTN_RIGHT, 0);
    assert_eq!(d.process_event(right, &cfg, None, 0), Reaction::Forward(right));
    assert_eq!(d.process_event(key(KEY_A, 1), &cfg, None, 0), Reaction::Ignore);
    let misc = RawEvent::new(4, 4, 7);
    assert_eq!(d.process_event(misc, &cfg, None, 0), Reaction::Ignore);
    let rel = RawEvent::new(EV_REL, REL_X, 1);
    assert_eq!(d.process_event(rel, &cfg, None, 0), Reaction::Ignore);
    let dropped = RawEvent::new(EV_SYN, 3, 0);
    assert_eq!(d.process_event(dropped, &cfg, None, 0), Reaction::Forward(dropped));
}

#[test]
fn overflowing_motion_is_refused() {
    let mut d = touchpad();
    let cfg = all_on();
    d.process_event(key(BTN_TOUCH, 1), &cfg, None, 0);
    d.process_event(abs(ABS_X, i32::MIN), &cfg, None, 0);
    assert!(!d.can_process(&abs(ABS_X, i32::MAX)));
    assert!(!d.can_process(&abs(ABS_X, 0)));
    assert!(d.can_process(&abs(ABS_X, -1)));
    assert!(d.can_process(&abs(ABS_Y, i32::MAX)));
    d.process_event(abs(ABS_X, -1), &cfg, None, 0);
    assert_eq!(d.current_dx, i32::MAX);
    assert!(!d.can_process(&abs(ABS_X, 0)));
    assert!(d.can_process(&abs(ABS_X, -2)));
}

#[test]
fn default_config_turns_everything_on() {
    let c = InputConfig::default();
    assert!(c.tap_to_click && c.natural_scrolling && c.disable_while_typing);
}
