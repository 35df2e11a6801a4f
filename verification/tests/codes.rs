use evdev::{AbsoluteAxisCode, EventType, KeyCode, RelativeAxisCode};
use libinput_rs::codes;

#[test]
fn event_type_codes_match_evdev() {
    assert_eq!(codes::EV_SYN, EventType::SYNCHRONIZATION.0);
    assert_eq!(codes::EV_KEY, EventType::KEY.0);
    assert_eq!(codes::EV_REL, EventType::RELATIVE.0);
    assert_eq!(codes::EV_ABS, EventType::ABSOLUTE.0);
}

#[test]
fn key_codes_match_evdev() {
    assert_eq!(codes::KEY_A, KeyCode::KEY_A.0);
    assert_eq!(codes::BTN_LEFT, KeyCode::BTN_LEFT.0);
    assert_eq!(codes::BTN_RIGHT, KeyCode::BTN_RIGHT.0);
    assert_eq!(codes::BTN_MIDDLE, KeyCode::BTN_MIDDLE.0);
    assert_eq!(codes::BTN_SIDE, KeyCode::BTN_SIDE.0);
    assert_eq!(codes::BTN_EXTRA, KeyCode::BTN_EXTRA.0);
    assert_eq!(codes::BTN_TOUCH, KeyCode::BTN_TOUCH.0);
    assert_eq!(codes::BTN_TOOL_DOUBLETAP, KeyCode::BTN_TOOL_DOUBLETAP.0);
    assert_eq!(codes::BTN_TOOL_TRIPLETAP, KeyCode::BTN_TOOL_TRIPLETAP.0);
    assert_eq!(codes::BTN_TOOL_QUADTAP, KeyCode::BTN_TOOL_QUADTAP.0);
}

#[test]
fn axis_codes_match_evdev() {
    assert_eq!(codes::REL_X, RelativeAxisCode::REL_X.0);
    assert_eq!(codes::REL_Y, RelativeAxisCode::REL_Y.0);
    assert_eq!(codes::REL_WHEEL, RelativeAxisCode::REL_WHEEL.0);
    assert_eq!(codes::REL_HWHEEL, RelativeAxisCode::REL_HWHEEL.0);
    assert_eq!(codes::ABS_X, AbsoluteAxisCode::ABS_X.0);
    assert_eq!(codes::ABS_Y, AbsoluteAxisCode::ABS_Y.0);
    assert_eq!(codes::ABS_MT_SLOT, AbsoluteAxisCode::ABS_MT_SLOT.0);
    assert_eq!(codes::ABS_MT_POSITION_X, AbsoluteAxisCode::ABS_MT_POSITION_X.0);
    assert_eq!(codes::ABS_MT_POSITION_Y, AbsoluteAxisCode::ABS_MT_POSITION_Y.0);
    assert_eq!(codes::ABS_MT_TRACKING_ID, AbsoluteAxisCode::ABS_MT_TRACKING_ID.0);
    assert_eq!(codes::ABS_MT_DISTANCE, AbsoluteAxisCode::ABS_MT_DISTANCE.0);
}

#[test]
fn enodev_matches_libc() {
    assert_eq!(codes::ENODEV, libc::ENODEV);
}

#[test]
fn elapsed_saturates() {
    assert_eq!(codes::elapsed_usec(1_000, 400), 600);
    assert_eq!(codes::elapsed_usec(400, 1_000), 0);
}
