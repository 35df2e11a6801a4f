use libinput_rs::backend::{
    classify_device, device_display_name, dwt_active, read_error_means_gone, systime_to_usec,
    usec_from_epoch_offset, Backend, DeviceCaps, DeviceKind, DeviceProbe, TrackedDevice,
};
use libinput_rs::codes::{BTN_TOUCH, EV_KEY, EV_REL, KEY_A, REL_X};
use libinput_rs::events::{EventPayload, LibinputEventType, RawEvent};
use libinput_rs::touchpad::SynAction;
use std::time::{Duration, UNIX_EPOCH};

fn probe(pointer: bool, rel: bool, abs: bool, key_a: bool) -> DeviceProbe {
    DeviceProbe {
        prop_pointer: pointer,
        prop_buttonpad: false,
        has_relative: rel,
        has_absolute: abs,
        has_key_a: key_a,
    }
}

#[test]
fn classification_of_opened_devices() {
    assert_eq!(
        classify_device("Logitech Mouse", &probe(false, true, false, false)),
        Some(DeviceCaps { is_pointer: true, is_keyboard: false, is_absolute: false })
    );
    assert_eq!(
        classify_device("AT Keyboard", &probe(false, false, false, true)),
        Some(DeviceCaps { is_pointer: false, is_keyboard: true, is_absolute: false })
    );
    assert_eq!(
        classify_device("Touchpad", &probe(true, false, true, false)),
        Some(DeviceCaps { is_pointer: true, is_keyboard: false, is_absolute: true })
    );
    let buttonpad = DeviceProbe { prop_buttonpad: true, ..probe(false, false, true, false) };
    assert_eq!(classify_device("Clickpad", &buttonpad).map(|c| c.is_pointer), Some(true));
    assert_eq!(classify_device("Power Button", &probe(false, false, false, false)), None);
    assert_eq!(classify_device("libinput-rs Virtual Pointer", &probe(false, true, false, false)), None);
    assert_eq!(classify_device("my virtual pointer", &probe(false, true, false, false)), None);
}

#[test]
fn unnamed_device_is_unknown() {
    assert_eq!(device_display_name(None), "Unknown");
    assert_eq!(device_display_name(Some("Pad")), "Pad");
}

#[test]
fn tracked_device_pointer_needs_no_keyboard() {
    let kbd_with_rel = TrackedDevice::new(3, "/dev/input/event3".to_string(), &probe(false, true, false, true), 1);
    assert!(kbd_with_rel.is_keyboard);
    assert!(!kbd_with_rel.is_pointer);
    assert_eq!(kbd_with_rel.kind(), DeviceKind::Keyboard);
    let mouse = TrackedDevice::new(4, "/dev/input/event4".to_string(), &probe(false, true, false, false), 2);
    assert_eq!(mouse.kind(), DeviceKind::Relative);
    let pad = TrackedDevice::new(5, "/dev/input/event5".to_string(), &probe(true, false, true, false), 3);
    assert_eq!(pad.kind(), DeviceKind::Touchpad);
}

#[test]
fn devices_are_added_once_and_removed() {
    let mut b = Backend::new();
    let added = b.track(7, "/dev/input/event7".to_string(), &probe(false, true, false, false), 70);
    let e = added.unwrap();
    assert_eq!(e.event_type, LibinputEventType::LIBINPUT_EVENT_DEVICE_ADDED);
    assert_eq!(e.payload, EventPayload::DeviceAdded);
    assert_eq!(e.device, 70);
    assert!(b.track(7, "/dev/input/event7".to_string(), &probe(false, true, false, false), 71).is_none());
    assert_eq!(b.fds(), vec![7]);
    assert!(b.has_fd(7));
    assert!(b.has_path("/dev/input/event7"));
    assert!(b.has_path("/dev/input//event7"));
    assert!(!b.has_path("/dev/input/event8"));
    let removed = b.remove(7).unwrap();
    assert_eq!(removed.event_type, LibinputEventType::LIBINPUT_EVENT_DEVICE_REMOVED);
    assert_eq!(removed.payload, EventPayload::DeviceRemoved);
    assert_eq!(removed.device, 70);
    assert!(b.remove(7).is_none());
    assert!(b.fds().is_empty());
}

#[test]
fn events_are_dispatched_by_device_kind() {
    let mut b = Backend::new();
    b.track(1, "/dev/input/event1".to_string(), &probe(false, false, false, true), 10);
    b.track(2, "/dev/input/event2".to_string(), &probe(false, true, false, false), 20);
    b.track(3, "/dev/input/event3".to_string(), &probe(true, false, true, false), 30);
    let mut out = Vec::new();
    let a = b.process_event(1, &RawEvent { event_type: EV_KEY, code: KEY_A, value: 1 }, 100, true, true, 1_000_000, &mut out);
    assert_eq!(a, SynAction::Nothing);
    assert_eq!(b.global_typing_time, Some(1_000_000));
    b.process_event(2, &RawEvent { event_type: EV_REL, code: REL_X, value: 4 }, 101, true, true, 1_000_100, &mut out);
    // typing 100 us ago: the touchpad's tap is suppressed
    b.process_event(3, &RawEvent { event_type: EV_KEY, code: BTN_TOUCH, value: 1 }, 102, true, true, 1_000_200, &mut out);
    b.process_event(3, &RawEvent { event_type: EV_KEY, code: BTN_TOUCH, value: 0 }, 103, true, true, 1_000_300, &mut out);
    assert_eq!(out.len(), 2);
    assert_eq!(out[0].device, 10);
    assert_eq!(out[0].event_type, LibinputEventType::LIBINPUT_EVENT_KEYBOARD_KEY);
    assert_eq!(out[1].device, 20);
    assert_eq!(out[1].event_type, LibinputEventType::LIBINPUT_EVENT_POINTER_MOTION);
    // with disable-while-typing off on the touchpad, the tap clicks
    b.process_event(3, &RawEvent { event_type: EV_KEY, code: BTN_TOUCH, value: 1 }, 104, true, false, 1_000_400, &mut out);
    b.process_event(3, &RawEvent { event_type: EV_KEY, code: BTN_TOUCH, value: 0 }, 105, true, false, 1_000_500, &mut out);
    assert_eq!(out.len(), 4);
    assert_eq!(out[2].event_type, LibinputEventType::LIBINPUT_EVENT_POINTER_BUTTON);
    assert_eq!(out[3].device, 30);
    // an unknown descriptor does nothing
    b.process_event(99, &RawEvent { event_type: EV_REL, code: REL_X, value: 4 }, 1, true, true, 1, &mut out);
    assert_eq!(out.len(), 4);
}

#[test]
fn repeat_pass_covers_keyboards_only() {
    let mut b = Backend::new();
    b.track(1, "/dev/input/event1".to_string(), &probe(false, false, false, true), 10);
    b.track(2, "/dev/input/event2".to_string(), &probe(false, true, false, false), 20);
    let mut out = Vec::new();
    b.process_event(1, &RawEvent { event_type: EV_KEY, code: KEY_A, value: 1 }, 5, true, true, 0, &mut out);
    out.clear();
    b.emit_key_repeats(200_000, &mut out);
    assert_eq!(out.len(), 1);
    assert_eq!(out[0].device, 10);
    match out[0].payload {
        EventPayload::KeyboardKey(k) => {
            assert_eq!((k.time_usec, k.key, k.state), (5, KEY_A as u32, 2));
        }
        _ => panic!("not a key"),
    }
}

#[test]
fn disable_while_typing_window_is_500ms() {
    assert!(dwt_active(true, Some(1_000), 1_000 + 499_999));
    assert!(!dwt_active(true, Some(1_000), 1_000 + 500_000));
    assert!(!dwt_active(false, Some(1_000), 1_001));
    assert!(!dwt_active(true, None, 1_001));
}

#[test]
fn read_errors() {
    assert!(!read_error_means_gone(true, Some(libc::ENODEV), false));
    assert!(read_error_means_gone(false, Some(libc::ENODEV), false));
    assert!(read_error_means_gone(false, None, true));
    assert!(!read_error_means_gone(false, Some(libc::EIO), false));
}

#[test]
fn timestamps_in_microseconds() {
    assert_eq!(usec_from_epoch_offset(Some((2, 500))), 2_000_500);
    assert_eq!(usec_from_epoch_offset(None), 0);
    assert_eq!(usec_from_epoch_offset(Some((u64::MAX, 0))), (u64::MAX as u128 * 1_000_000) as u64);
    let t = UNIX_EPOCH + Duration::new(3, 4_000);
    assert_eq!(systime_to_usec(t), 3_000_004);
    assert_eq!(systime_to_usec(UNIX_EPOCH), 0);
    let before = UNIX_EPOCH - Duration::from_secs(1);
    assert_eq!(systime_to_usec(before), 0);
}
