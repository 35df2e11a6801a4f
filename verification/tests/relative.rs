use libinput_rs::codes::{BTN_LEFT, BTN_SIDE, EV_KEY, EV_REL, EV_SYN, REL_HWHEEL, REL_WHEEL, REL_X, REL_Y};
use libinput_rs::events::{
    EventPayload, LibinputEventType, PointerAxisEvent, PointerButtonEvent, PointerMotionEvent,
    RawEvent,
};
use libinput_rs::relative::process_relative_event;

fn rel(code: u16, value: i32) -> RawEvent {
    RawEvent { event_type: EV_REL, code, value }
}

#[test]
fn motion_is_reported_per_axis() {
    let mut out = Vec::new();
    process_relative_event(&rel(REL_X, 5), 10, 1, &mut out);
    process_relative_event(&rel(REL_Y, -3), 11, 1, &mut out);
    assert_eq!(out.len(), 2);
    assert_eq!(out[0].event_type, LibinputEventType::LIBINPUT_EVENT_POINTER_MOTION);
    assert_eq!(
        out[0].payload,
        EventPayload::PointerMotion(PointerMotionEvent {
            time_usec: 10,
            dx: 5,
            dy: 0,
            raw_dx: 5,
            raw_dy: 0,
            from_touchpad: false
        })
    );
    assert_eq!(
        out[1].payload,
        EventPayload::PointerMotion(PointerMotionEvent {
            time_usec: 11,
            dx: 0,
            dy: -3,
            raw_dx: 0,
            raw_dy: -3,
            from_touchpad: false
        })
    );
}

#[test]
fn wheels_scroll_fifteen_per_detent() {
    let mut out = Vec::new();
    process_relative_event(&rel(REL_WHEEL, -2), 7, 1, &mut out);
    process_relative_event(&rel(REL_HWHEEL, 1), 8, 1, &mut out);
    assert_eq!(out[0].event_type, LibinputEventType::LIBINPUT_EVENT_POINTER_SCROLL_WHEEL);
    assert_eq!(
        out[0].payload,
        EventPayload::PointerAxis(PointerAxisEvent {
            time_usec: 7,
            axis: 0,
            value: -30,
            value_discrete: -2,
            source: 1
        })
    );
    assert_eq!(
        out[1].payload,
        EventPayload::PointerAxis(PointerAxisEvent {
            time_usec: 8,
            axis: 1,
            value: 15,
            value_discrete: 1,
            source: 1
        })
    );
}

#[test]
fn mouse_buttons_are_reported_and_others_dropped() {
    let mut out = Vec::new();
    process_relative_event(&RawEvent { event_type: EV_KEY, code: BTN_LEFT, value: 1 }, 1, 2, &mut out);
    process_relative_event(&RawEvent { event_type: EV_KEY, code: BTN_SIDE, value: 0 }, 2, 2, &mut out);
    process_relative_event(&RawEvent { event_type: EV_KEY, code: 30, value: 1 }, 3, 2, &mut out);
    process_relative_event(&RawEvent { event_type: EV_SYN, code: 0, value: 0 }, 4, 2, &mut out);
    process_relative_event(&rel(0x09, 1), 5, 2, &mut out);
    assert_eq!(out.len(), 2);
    assert_eq!(out[0].event_type, LibinputEventType::LIBINPUT_EVENT_POINTER_BUTTON);
    assert_eq!(
        out[0].payload,
        EventPayload::PointerButton(PointerButtonEvent { time_usec: 1, button: BTN_LEFT as u32, state: 1 })
    );
    assert_eq!(
        out[1].payload,
        EventPayload::PointerButton(PointerButtonEvent { time_usec: 2, button: BTN_SIDE as u32, state: 0 })
    );
}
