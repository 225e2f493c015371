use libinput_rs::codes::{
    ABS_X, BTN_TOUCH, ENODEV, EV_ABS, EV_KEY, EV_SYN, HOTPLUG_TOKEN, KEY_A, KEY_LEFTALT,
    KEY_LEFTCTRL, KEY_R, KEY_RIGHTALT, KEY_RIGHTCTRL, SYN_REPORT,
};
use libinput_rs::config::InputConfig;
use libinput_rs::device::{DeviceWrapper, Reaction};
use libinput_rs::event::RawEvent;
use libinput_rs::tracker::{classify_fetch_error, DeviceTable, Dispatch, FetchFailure};

const MS: u64 = 1_000_000;

fn cfg() -> InputConfig {
    InputConfig::default()
}

fn add(table: &mut DeviceTable, path: &str, abs: bool, keys: bool, key_a: bool) -> usize {
    let token = table.allocate_token();
    table.insert(token, DeviceWrapper::new(path.to_string(), abs, keys, key_a));
    token
}

#[test]
fn tokens_are_handed_out_in_order() {
    let mut t = DeviceTable::new();
    assert_eq!(t.len(), 0);
    assert_eq!(t.next_token(), 0);
    let a = add(&mut t, "/dev/input/event0", true, true, false);
    let b = add(&mut t, "/dev/input/event1", false, true, true);
    assert_eq!((a, b), (0, 1));
    assert_ne!(a, HOTPLUG_TOKEN);
    let skipped = t.allocate_token();
    assert_eq!(skipped, 2);
    assert_eq!(t.next_token(), 3);
    assert_eq!(t.len(), 2);
}

#[test]
fn tracked_paths_are_known() {
    let mut t = DeviceTable::new();
    let a = add(&mut t, "/dev/input/event4", true, true, false);
    assert!(t.is_tracked(&"/dev/input/event4".to_string()));
    assert!(!t.is_tracked(&"/dev/input/event5".to_string()));
    t.remove(a);
    assert!(!t.is_tracked(&"/dev/input/event4".to_string()));
    assert_eq!(t.len(), 0);
    t.remove(a);
    assert_eq!(t.len(), 0);
}

#[test]
fn unknown_token_does_nothing() {
    let mut t = DeviceTable::new();
    add(&mut t, "/dev/input/event4", true, true, false);
    assert_eq!(t.process(7, RawEvent::new(EV_KEY, KEY_A, 1), &cfg(), 0), None);
    assert!(t.can_process(7, &RawEvent::new(EV_ABS, ABS_X, 0)));
    t.finish_report(7);
    assert_eq!(t.len(), 1);
}

#[test]
fn keystroke_pauses_another_touchpad() {
    let mut t = DeviceTable::new();
    let pad = add(&mut t, "/dev/input/event5", true, true, false);
    let kbd = add(&mut t, "/dev/input/event2", false, true, true);
    let c = cfg();
    assert_eq!(t.last_global_typing_time(), None);
    let out = t.process(kbd, RawEvent::new(EV_KEY, KEY_A, 1), &c, 100 * MS).unwrap();
    assert_eq!(out, Dispatch { reaction: Reaction::Ignore, reset_requested: false });
    assert_eq!(t.last_global_typing_time(), Some(100 * MS));
    t.process(pad, RawEvent::new(EV_KEY, BTN_TOUCH, 1), &c, 150 * MS);
    t.process(pad, RawEvent::new(EV_ABS, ABS_X, 10), &c, 150 * MS);
    t.process(pad, RawEvent::new(EV_ABS, ABS_X, 30), &c, 150 * MS);
    let report = RawEvent::new(EV_SYN, SYN_REPORT, 0);
    let out = t.process(pad, report, &c, 200 * MS).unwrap();
    assert_eq!(out.reaction, Reaction::DiscardMotion(report));
    t.process(pad, RawEvent::new(EV_ABS, ABS_X, 45), &c, 700 * MS);
    let out = t.process(pad, report, &c, 700 * MS).unwrap();
    assert_eq!(out.reaction, Reaction::MovePointer { dx: 15, dy: 0, report });
    t.finish_report(pad);
    t.process(pad, RawEvent::new(EV_ABS, ABS_X, 46), &c, 701 * MS);
    let out = t.process(pad, report, &c, 701 * MS).unwrap();
    assert_eq!(out.reaction, Reaction::MovePointer { dx: 1, dy: 0, report });
}

#[test]
fn ctrl_alt_r_requests_a_reset() {
    let mut t = DeviceTable::new();
    let kbd = add(&mut t, "/dev/input/event2", false, true, true);
    let c = cfg();
    let r = RawEvent::new(EV_KEY, KEY_R, 1);
    assert!(!t.process(kbd, r, &c, 0).unwrap().reset_requested);
    t.process(kbd, RawEvent::new(EV_KEY, KEY_LEFTCTRL, 1), &c, 0);
    assert!(!t.process(kbd, r, &c, 0).unwrap().reset_requested);
    t.process(kbd, RawEvent::new(EV_KEY, KEY_LEFTALT, 1), &c, 0);
    assert!(t.process(kbd, r, &c, 0).unwrap().reset_requested);
    assert!(!t.process(kbd, RawEvent::new(EV_KEY, KEY_R, 2), &c, 0).unwrap().reset_requested);
    t.process(kbd, RawEvent::new(EV_KEY, KEY_LEFTCTRL, 0), &c, 0);
    assert!(!t.process(kbd, r, &c, 0).unwrap().reset_requested);
    t.process(kbd, RawEvent::new(EV_KEY, KEY_RIGHTCTRL, 1), &c, 0);
    assert!(t.process(kbd, r, &c, 0).unwrap().reset_requested);
    let pad = add(&mut t, "/dev/input/event5", true, true, false);
    assert!(!t.process(pad, r, &c, 0).unwrap().reset_requested);
}

#[test]
fn read_errors_are_sorted() {
    assert_eq!(classify_fetch_error(Some(ENODEV), false, false), FetchFailure::Disconnected);
    assert_eq!(classify_fetch_error(None, true, false), FetchFailure::Disconnected);
    assert_eq!(classify_fetch_error(Some(11), false, true), FetchFailure::NotReady);
    assert_eq!(classify_fetch_error(Some(5), false, false), FetchFailure::Failed);
    assert_eq!(classify_fetch_error(None, false, false), FetchFailure::Failed);
}

#[test]
fn last_keystroke_never_moves_back() {
    let mut t = DeviceTable::new();
    let a = add(&mut t, "/dev/input/event2", false, true, true);
    let b = add(&mut t, "/dev/input/event3", false, true, true);
    let c = cfg();
    t.process(b, RawEvent::new(EV_KEY, KEY_A, 1), &c, 0);
    assert_eq!(t.last_global_typing_time(), Some(0));
    t.process(a, RawEvent::new(EV_KEY, KEY_A, 1), &c, 100);
    assert_eq!(t.last_global_typing_time(), Some(100));
    t.process(b, RawEvent::new(EV_KEY, KEY_A, 0), &c, 200);
    assert_eq!(t.last_global_typing_time(), Some(100));
    t.process(b, RawEvent::new(EV_SYN, SYN_REPORT, 0), &c, 300);
    assert_eq!(t.last_global_typing_time(), Some(100));
    t.process(b, RawEvent::new(EV_KEY, KEY_A, 2), &c, 400);
    assert_eq!(t.last_global_typing_time(), Some(400));
}

#[test]
fn touchpad_events_are_no_keystrokes() {
    let mut t = DeviceTable::new();
    let pad = add(&mut t, "/dev/input/event5", true, true, false);
    let c = cfg();
    t.process(pad, RawEvent::new(EV_KEY, BTN_TOUCH, 1), &c, 50);
    assert_eq!(t.last_global_typing_time(), None);
}

#[test]
fn either_ctrl_and_either_alt_make_the_chord() {
    let mut t = DeviceTable::new();
    let kbd = add(&mut t, "/dev/input/event2", false, true, true);
    let c = cfg();
    let r = RawEvent::new(EV_KEY, KEY_R, 1);
    t.process(kbd, RawEvent::new(EV_KEY, KEY_LEFTCTRL, 1), &c, 0);
    t.process(kbd, RawEvent::new(EV_KEY, KEY_RIGHTCTRL, 1), &c, 0);
    t.process(kbd, RawEvent::new(EV_KEY, KEY_RIGHTCTRL, 0), &c, 0);
    t.process(kbd, RawEvent::new(EV_KEY, KEY_LEFTALT, 1), &c, 0);
    assert!(t.process(kbd, r, &c, 0).unwrap().reset_requested);
    t.process(kbd, RawEvent::new(EV_KEY, KEY_RIGHTALT, 1), &c, 0);
    t.process(kbd, RawEvent::new(EV_KEY, KEY_LEFTALT, 0), &c, 0);
    assert!(t.process(kbd, r, &c, 0).unwrap().reset_requested);
    t.process(kbd, RawEvent::new(EV_KEY, KEY_RIGHTALT, 0), &c, 0);
    assert!(!t.process(kbd, r, &c, 0).unwrap().reset_requested);
}
