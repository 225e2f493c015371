use evdev::{AbsoluteAxisType, EventType, Key, RelativeAxisType};
use libinput_rs::codes;

#[test]
fn codes_match_evdev() {
    assert_eq!(EventType::SYNCHRONIZATION.0, codes::EV_SYN);
    assert_eq!(EventType::KEY.0, codes::EV_KEY);
    assert_eq!(EventType::RELATIVE.0, codes::EV_REL);
    assert_eq!(EventType::ABSOLUTE.0, codes::EV_ABS);
    assert_eq!(RelativeAxisType::REL_X.0, codes::REL_X);
    assert_eq!(RelativeAxisType::REL_Y.0, codes::REL_Y);
    assert_eq!(RelativeAxisType::REL_WHEEL.0, codes::REL_WHEEL);
    assert_eq!(AbsoluteAxisType::ABS_X.0, codes::ABS_X);
    assert_eq!(AbsoluteAxisType::ABS_Y.0, codes::ABS_Y);
    assert_eq!(Key::KEY_R.code(), codes::KEY_R);
    assert_eq!(Key::KEY_A.code(), codes::KEY_A);
    assert_eq!(Key::KEY_LEFTCTRL.code(), codes::KEY_LEFTCTRL);
    assert_eq!(Key::KEY_RIGHTCTRL.code(), codes::KEY_RIGHTCTRL);
    assert_eq!(Key::KEY_LEFTALT.code(), codes::KEY_LEFTALT);
    assert_eq!(Key::KEY_RIGHTALT.code(), codes::KEY_RIGHTALT);
    assert_eq!(Key::BTN_LEFT.code(), codes::BTN_LEFT);
    assert_eq!(Key::BTN_RIGHT.code(), codes::BTN_RIGHT);
    assert_eq!(Key::BTN_MIDDLE.code(), codes::BTN_MIDDLE);
    assert_eq!(Key::BTN_TOUCH.code(), codes::BTN_TOUCH);
    assert_eq!(Key::BTN_TOOL_DOUBLETAP.code(), codes::BTN_TOOL_DOUBLETAP);
    assert_eq!(Key::BTN_TOOL_TRIPLETAP.code(), codes::BTN_TOOL_TRIPLETAP);
    assert_eq!(codes::SYN_REPORT, 0);
}

#[test]
fn enodev_matches_libc() {
    assert_eq!(nix::libc::ENODEV, codes::ENODEV);
}
