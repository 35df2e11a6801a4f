//! Relative devices (mice, trackpoints): motion, wheels and buttons.

use vstd::prelude::*;

use crate::codes::{
    AXIS_SCROLL_HORIZONTAL, AXIS_SCROLL_VERTICAL, AXIS_SOURCE_WHEEL, BTN_EXTRA, BTN_LEFT,
    BTN_MIDDLE, BTN_RIGHT, BTN_SIDE, EV_KEY, EV_REL, REL_HWHEEL, REL_WHEEL, REL_X, REL_Y,
    SCROLL_STEP,
};
use crate::events::{
    all_from, EventPayload, LibinputEvent, LibinputEventType, PointerAxisEvent, PointerButtonEvent,
    PointerMotionEvent, RawEvent,
};

verus! {

/// Relative motion of `dx`, `dy` device units, unaccelerated.
pub open spec fn relative_motion(ts_usec: u64, dx: i32, dy: i32, device: usize) -> LibinputEvent {
    LibinputEvent {
        event_type: LibinputEventType::LIBINPUT_EVENT_POINTER_MOTION,
        payload: EventPayload::PointerMotion(
            PointerMotionEvent {
                time_usec: ts_usec,
                dx: dx,
                dy: dy,
                raw_dx: dx,
                raw_dy: dy,
                from_touchpad: false,
            },
        ),
        device: device,
    }
}

/// A wheel turned by `detents` on one axis: 15 units per detent.
pub open spec fn wheel_scroll(ts_usec: u64, axis: u32, detents: i32, device: usize) -> LibinputEvent {
    LibinputEvent {
        event_type: LibinputEventType::LIBINPUT_EVENT_POINTER_SCROLL_WHEEL,
        payload: EventPayload::PointerAxis(
            PointerAxisEvent {
                time_usec: ts_usec,
                axis: axis,
                value: (detents as i64 * SCROLL_STEP) as i64,
                value_discrete: detents,
                source: AXIS_SOURCE_WHEEL,
            },
        ),
        device: device,
    }
}

/// The buttons that a relative device reports.
pub open spec fn is_mouse_button(code: u16) -> bool {
    code == BTN_LEFT || code == BTN_RIGHT || code == BTN_MIDDLE || code == BTN_SIDE || code
        == BTN_EXTRA
}

/// The event that a relative device reports for one kernel event, if any.
pub open spec fn relative_output(ev: RawEvent, ts_usec: u64, device: usize) -> Option<LibinputEvent> {
    if ev.event_type == EV_REL {
        if ev.code == REL_X {
            Some(relative_motion(ts_usec, ev.value, 0, device))
        } else if ev.code == REL_Y {
            Some(relative_motion(ts_usec, 0, ev.value, device))
        } else if ev.code == REL_WHEEL {
            Some(wheel_scroll(ts_usec, AXIS_SCROLL_VERTICAL, ev.value, device))
        } else if ev.code == REL_HWHEEL {
            Some(wheel_scroll(ts_usec, AXIS_SCROLL_HORIZONTAL, ev.value, device))
        } else {
            None
        }
    } else if ev.event_type == EV_KEY && is_mouse_button(ev.code) {
        Some(
            LibinputEvent {
                event_type: LibinputEventType::LIBINPUT_EVENT_POINTER_BUTTON,
                payload: EventPayload::PointerButton(
                    PointerButtonEvent {
                        time_usec: ts_usec,
                        button: ev.code as u32,
                        state: ev.value as u32,
                    },
                ),
                device: device,
            },
        )
    } else {
        None
    }
}

/// Processes one kernel event of a relative device: motion on one axis,
/// vertical and horizontal wheels, and the five mouse buttons are reported;
/// everything else is dropped.
pub fn process_relative_event(
    ev: &RawEvent,
    ts_usec: u64,
    device: usize,
    out: &mut Vec<LibinputEvent>,
)
    ensures
        final(out)@ == (match relative_output(*ev, ts_usec, device) {
            Some(e) => old(out)@.push(e),
            None => old(out)@,
        }),
{
    if ev.event_type == EV_REL {
        let code = ev.code;
        let val = ev.value;
        if code == REL_X || code == REL_Y {
            let (dx, dy) = if code == REL_X { (val, 0i32) } else { (0i32, val) };
            out.push(
                LibinputEvent {
                    event_type: LibinputEventType::LIBINPUT_EVENT_POINTER_MOTION,
                    payload: EventPayload::PointerMotion(
                        PointerMotionEvent {
                            time_usec: ts_usec,
                            dx: dx,
                            dy: dy,
                            raw_dx: dx,
                            raw_dy: dy,
                            from_touchpad: false,
                        },
                    ),
                    device: device,
                },
            );
        } else if code == REL_WHEEL || code == REL_HWHEEL {
            let axis = if code == REL_WHEEL { AXIS_SCROLL_VERTICAL } else { AXIS_SCROLL_HORIZONTAL };
            out.push(
                LibinputEvent {
                    event_type: LibinputEventType::LIBINPUT_EVENT_POINTER_SCROLL_WHEEL,
                    payload: EventPayload::PointerAxis(
                        PointerAxisEvent {
                            time_usec: ts_usec,
                            axis: axis,
                            value: val as i64 * SCROLL_STEP,
                            value_discrete: val,
                            source: AXIS_SOURCE_WHEEL,
                        },
                    ),
                    device: device,
                },
            );
        }
    } else if ev.event_type == EV_KEY {
        let code = ev.code;
        if code == BTN_LEFT || code == BTN_RIGHT || code == BTN_MIDDLE || code == BTN_SIDE || code
            == BTN_EXTRA {
            out.push(
                LibinputEvent {
                    event_type: LibinputEventType::LIBINPUT_EVENT_POINTER_BUTTON,
                    payload: EventPayload::PointerButton(
                        PointerButtonEvent {
                            time_usec: ts_usec,
                            button: code as u32,
                            state: ev.value as u32,
                        },
                    ),
                    device: device,
                },
            );
        }
    }
}


/// The event of a relative device is well typed and carries the device's
/// handle.
pub proof fn law_relative_events_well_typed(ev: RawEvent, ts_usec: u64, device: usize)
    ensures
        relative_output(ev, ts_usec, device) matches Some(e) ==> all_from(seq![e], device),
{
}

/// What a relative device reports, over all kernel events: each of the five
/// mouse buttons (`BTN_LEFT` to `BTN_EXTRA`, 0x110 to 0x114) reports one
/// button event with that button and the event's value as its state; other
/// keys report nothing; `REL_X` and `REL_Y` report unaccelerated motion on
/// their axis; `REL_WHEEL` and `REL_HWHEEL` report a wheel scroll on the
/// vertical and horizontal axis, 15 units per detent; other relative axes
/// and other event types report nothing.
pub proof fn law_relative_output(ev: RawEvent, ts_usec: u64, device: usize)
    ensures
        ev.event_type == 1 && 0x110 <= ev.code <= 0x114 ==> relative_output(ev, ts_usec, device)
            == Some(
            LibinputEvent {
                event_type: LibinputEventType::LIBINPUT_EVENT_POINTER_BUTTON,
                payload: EventPayload::PointerButton(
                    PointerButtonEvent {
                        time_usec: ts_usec,
                        button: ev.code as u32,
                        state: ev.value as u32,
                    },
                ),
                device: device,
            },
        ),
        ev.event_type == 1 && !(0x110 <= ev.code <= 0x114) ==> relative_output(ev, ts_usec, device)
            is None,
        ev.event_type == 2 && (ev.code == 0 || ev.code == 1) ==> relative_output(ev, ts_usec, device)
            == Some(
            LibinputEvent {
                event_type: LibinputEventType::LIBINPUT_EVENT_POINTER_MOTION,
                payload: EventPayload::PointerMotion(
                    PointerMotionEvent {
                        time_usec: ts_usec,
                        dx: if ev.code == 0 { ev.value } else { 0 },
                        dy: if ev.code == 1 { ev.value } else { 0 },
                        raw_dx: if ev.code == 0 { ev.value } else { 0 },
                        raw_dy: if ev.code == 1 { ev.value } else { 0 },
                        from_touchpad: false,
                    },
                ),
                device: device,
            },
        ),
        ev.event_type == 2 && (ev.code == 8 || ev.code == 6) ==> relative_output(ev, ts_usec, device)
            == Some(
            LibinputEvent {
                event_type: LibinputEventType::LIBINPUT_EVENT_POINTER_SCROLL_WHEEL,
                payload: EventPayload::PointerAxis(
                    PointerAxisEvent {
                        time_usec: ts_usec,
                        axis: if ev.code == 8 { 0 } else { 1 },
                        value: (ev.value * 15) as i64,
                        value_discrete: ev.value,
                        source: 1,
                    },
                ),
                device: device,
            },
        ),
        ev.event_type == 2 && !(ev.code == 0 || ev.code == 1 || ev.code == 6 || ev.code == 8)
            ==> relative_output(ev, ts_usec, device) is None,
        ev.event_type != 1 && ev.event_type != 2 ==> relative_output(ev, ts_usec, device) is None,
{
}

} // verus!
