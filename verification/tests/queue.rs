use libinput_rs::accessors::{
    gesture_angle_source, gesture_delta_source, gesture_scale_source,
    libinput_event_get_device, libinput_event_get_gesture_event,
    libinput_event_get_keyboard_event, libinput_event_get_pointer_event,
    libinput_event_get_type, libinput_event_gesture_get_cancelled,
    libinput_event_gesture_get_finger_count, libinput_event_keyboard_get_key,
    libinput_event_keyboard_get_key_state, libinput_event_keyboard_get_seat_key_count,
    libinput_event_keyboard_get_time, libinput_event_pointer_get_axis_source,
    libinput_event_pointer_get_button, libinput_event_pointer_get_button_state,
    libinput_event_pointer_get_seat_button_count, libinput_event_pointer_get_time,
    libinput_event_pointer_get_time_usec, libinput_event_pointer_has_axis,
    libinput_event_pointer_get_base_event, libinput_event_switch_get_switch_state,
    libinput_event_touch_get_slot, libinput_event_touch_get_time, pointer_axis_payload,
};
use libinput_rs::context::{
    libinput_get_event, libinput_next_event_type, libinput_ref, libinput_unref, LibinputContext,
};
use libinput_rs::events::{
    EventPayload, GestureEvent, GestureMotion, KeyboardKeyEvent, LibinputEvent, LibinputEventType,
    PointerAxisEvent, PointerButtonEvent, SlotPair, SwitchEvent, TouchEvent,
};
use libinput_rs::seat::{
    libinput_device_set_seat_logical_name, libinput_seat_get_logical_name,
    libinput_seat_get_physical_name,
};

fn button(ts: u64, state: u32) -> LibinputEvent {
    LibinputEvent {
        event_type: LibinputEventType::LIBINPUT_EVENT_POINTER_BUTTON,
        payload: EventPayload::PointerButton(PointerButtonEvent { time_usec: ts, button: 0x110, state }),
        device: 3,
    }
}

fn key(ts: u64, state: u32) -> LibinputEvent {
    LibinputEvent {
        event_type: LibinputEventType::LIBINPUT_EVENT_KEYBOARD_KEY,
        payload: EventPayload::KeyboardKey(KeyboardKeyEvent { time_usec: ts, key: 30, state }),
        device: 4,
    }
}

#[test]
fn queue_is_first_in_first_out() {
    let mut ctx = LibinputContext::new();
    assert_eq!(libinput_next_event_type(Some(&ctx)), LibinputEventType::LIBINPUT_EVENT_NONE);
    assert_eq!(libinput_get_event(&mut ctx), None);
    ctx.enqueue_events(vec![button(1, 1), key(2, 1)]);
    ctx.enqueue_events(vec![button(3, 0)]);
    assert_eq!(libinput_next_event_type(Some(&ctx)), LibinputEventType::LIBINPUT_EVENT_POINTER_BUTTON);
    assert_eq!(libinput_get_event(&mut ctx), Some(button(1, 1)));
    assert_eq!(libinput_next_event_type(Some(&ctx)), LibinputEventType::LIBINPUT_EVENT_KEYBOARD_KEY);
    assert_eq!(libinput_get_event(&mut ctx), Some(key(2, 1)));
    assert_eq!(libinput_get_event(&mut ctx), Some(button(3, 0)));
    assert_eq!(libinput_get_event(&mut ctx), None);
    assert_eq!(libinput_next_event_type(None), LibinputEventType::LIBINPUT_EVENT_NONE);
}

#[test]
fn context_reference_counting_and_devices() {
    let mut ctx = LibinputContext::new();
    assert_eq!(ctx.ref_count(), 1);
    libinput_ref(&mut ctx);
    assert_eq!(ctx.ref_count(), 2);
    assert!(libinput_unref(&mut ctx));
    assert!(!libinput_unref(&mut ctx));
    assert_eq!(ctx.last_device(), None);
    ctx.add_device(11);
    ctx.add_device(12);
    assert_eq!(ctx.last_device(), Some(12));
}

#[test]
fn seat_names() {
    let mut ctx = LibinputContext::new();
    assert_eq!(libinput_seat_get_physical_name(Some(&ctx.seat)), Some(&b"seat0\0"[..]));
    assert_eq!(libinput_seat_get_logical_name(Some(&ctx.seat)), Some(&b"default\0"[..]));
    ctx.assign_seat_name("seat1");
    assert_eq!(libinput_seat_get_logical_name(Some(&ctx.seat)), Some(&b"seat1\0"[..]));
    assert_eq!(libinput_device_set_seat_logical_name(&mut ctx.seat, "bad\0name"), -1);
    assert_eq!(libinput_seat_get_logical_name(Some(&ctx.seat)), Some(&b"seat1\0"[..]));
    assert_eq!(libinput_device_set_seat_logical_name(&mut ctx.seat, "left"), 0);
    assert_eq!(libinput_seat_get_logical_name(Some(&ctx.seat)), Some(&b"left\0"[..]));
    assert_eq!(libinput_seat_get_logical_name(None), None);
}

#[test]
fn pointer_and_keyboard_queries() {
    let b = button(12_345_678, 1);
    assert_eq!(libinput_event_get_type(Some(&b)), LibinputEventType::LIBINPUT_EVENT_POINTER_BUTTON);
    assert_eq!(libinput_event_get_type(None), LibinputEventType::LIBINPUT_EVENT_NONE);
    assert_eq!(libinput_event_get_device(Some(&b)), 3);
    assert_eq!(libinput_event_get_pointer_event(Some(&b)), Some(&b));
    assert_eq!(libinput_event_get_keyboard_event(Some(&b)), None);
    assert_eq!(libinput_event_pointer_get_base_event(Some(&b)), Some(&b));
    assert_eq!(libinput_event_pointer_get_time(Some(&b)), 12_345);
    assert_eq!(libinput_event_pointer_get_time_usec(Some(&b)), 12_345_678);
    assert_eq!(libinput_event_pointer_get_button(Some(&b)), 0x110);
    assert_eq!(libinput_event_pointer_get_button_state(Some(&b)), 1);
    assert_eq!(libinput_event_pointer_get_seat_button_count(Some(&b)), 1);
    assert_eq!(libinput_event_pointer_get_seat_button_count(Some(&button(1, 0))), 0);
    assert_eq!(libinput_event_pointer_has_axis(Some(&b), 0), 0);
    let k = key(5_000, 2);
    assert_eq!(libinput_event_keyboard_get_time(Some(&k)), 5);
    assert_eq!(libinput_event_keyboard_get_key(Some(&k)), 30);
    assert_eq!(libinput_event_keyboard_get_key_state(Some(&k)), 2);
    assert_eq!(libinput_event_keyboard_get_seat_key_count(Some(&k)), 1);
    assert_eq!(libinput_event_keyboard_get_seat_key_count(Some(&key(5, 0))), 0);
    assert_eq!(libinput_event_keyboard_get_key(Some(&b)), 0);
    assert_eq!(libinput_event_pointer_get_time(Some(&k)), 0);
    // times past 2^32 ms wrap as the C interface's 32-bit time does
    let late = button((1u64 << 32) * 1000 + 7_000, 1);
    assert_eq!(libinput_event_pointer_get_time(Some(&late)), 7);
}

#[test]
fn axis_touch_gesture_and_switch_queries() {
    let axis = LibinputEvent {
        event_type: LibinputEventType::LIBINPUT_EVENT_POINTER_SCROLL_WHEEL,
        payload: EventPayload::PointerAxis(PointerAxisEvent { time_usec: 1, axis: 0, value: 30, value_discrete: 2, source: 1 }),
        device: 1,
    };
    assert_eq!(libinput_event_pointer_has_axis(Some(&axis), 0), 1);
    assert_eq!(libinput_event_pointer_has_axis(Some(&axis), 1), 0);
    assert_eq!(libinput_event_pointer_get_axis_source(Some(&axis)), 1);
    assert_eq!(pointer_axis_payload(Some(&axis), 0).map(|a| a.value), Some(30));
    assert_eq!(pointer_axis_payload(Some(&axis), 1), None);
    let hwheel = LibinputEvent {
        event_type: LibinputEventType::LIBINPUT_EVENT_POINTER_SCROLL_WHEEL,
        payload: EventPayload::PointerAxis(PointerAxisEvent { time_usec: 1, axis: 1, value: -15, value_discrete: -1, source: 1 }),
        device: 1,
    };
    assert_eq!(libinput_event_pointer_has_axis(Some(&hwheel), 0), 0);
    assert_eq!(libinput_event_pointer_has_axis(Some(&hwheel), 1), 1);
    assert_eq!(libinput_event_pointer_has_axis(None, 1), 0);
    let touch = LibinputEvent {
        event_type: LibinputEventType::LIBINPUT_EVENT_TOUCH_UP,
        payload: EventPayload::TouchUp(TouchEvent { time_usec: 9_000, slot: 2, seat_slot: 2, x: 0, y: 0 }),
        device: 1,
    };
    assert_eq!(libinput_event_touch_get_time(Some(&touch)), 9);
    assert_eq!(libinput_event_touch_get_slot(Some(&touch)), -1);
    let base = SlotPair { x0: 0, y0: 0, x1: 10, y1: 0 };
    let pinch_end = LibinputEvent {
        event_type: LibinputEventType::LIBINPUT_EVENT_GESTURE_PINCH_END,
        payload: EventPayload::GesturePinchEnd(GestureEvent {
            time_usec: 1,
            finger_count: 2,
            motion: GestureMotion::Pinch { base, current: None },
            cancelled: false,
        }),
        device: 1,
    };
    assert_eq!(libinput_event_get_gesture_event(Some(&pinch_end)), Some(&pinch_end));
    assert_eq!(libinput_event_gesture_get_finger_count(Some(&pinch_end)), 2);
    assert_eq!(libinput_event_gesture_get_cancelled(Some(&pinch_end)), 0);
    assert_eq!(gesture_delta_source(Some(&pinch_end)), GestureMotion::Still);
    assert_eq!(gesture_scale_source(Some(&pinch_end)), GestureMotion::Pinch { base, current: None });
    assert_eq!(gesture_angle_source(Some(&pinch_end)), GestureMotion::Still);
    let sw = LibinputEvent {
        event_type: LibinputEventType::LIBINPUT_EVENT_SWITCH_TOGGLE,
        payload: EventPayload::SwitchToggle(SwitchEvent { time_usec: 1, switch: 1, state: 1 }),
        device: 1,
    };
    assert_eq!(libinput_event_switch_get_switch_state(Some(&sw)), 1);
}

#[test]
fn event_type_numbers() {
    assert_eq!(LibinputEventType::LIBINPUT_EVENT_NONE.code(), 0);
    assert_eq!(LibinputEventType::LIBINPUT_EVENT_KEYBOARD_KEY.code(), 300);
    assert_eq!(LibinputEventType::LIBINPUT_EVENT_POINTER_SCROLL_FINGER.code(), 405);
    assert_eq!(LibinputEventType::LIBINPUT_EVENT_GESTURE_PINCH_END.code(), 805);
    assert_eq!(LibinputEventType::LIBINPUT_EVENT_TABLET_PAD_STRIP.code(), 702);
    assert_eq!(LibinputEventType::LIBINPUT_EVENT_SWITCH_TOGGLE.code(), 900);
}
