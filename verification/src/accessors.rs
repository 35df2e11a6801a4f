//! Queries on events: the event type filters of the C interface and the
//! integer-valued event fields.
//!
//! Each query takes the event as an option (the absent event of the C
//! interface) and answers a fixed default for an absent event or an event
//! of another kind.  Fields that the C interface reports as floating-point
//! values are handed out as the payload they are computed from.

use vstd::prelude::*;

use crate::events::{
    EventPayload, GestureMotion, LibinputEvent, LibinputEventType, PointerAxisEvent,
    PointerMotionAbsoluteEvent, PointerMotionEvent, TouchEvent,
};

verus! {

/// Milliseconds of a microsecond timestamp, truncated to 32 bits.
pub open spec fn millis(usec: u64) -> u32 {
    (usec / 1000) as u32
}

fn millis_exec(usec: u64) -> (r: u32)
    ensures
        r == millis(usec),
{
    (usec / 1000) as u32
}

/// The type of an event.
pub fn libinput_event_get_type(event: Option<&LibinputEvent>) -> (r: LibinputEventType)
    ensures
        r == (match event {
            Some(e) => e.event_type,
            None => LibinputEventType::LIBINPUT_EVENT_NONE,
        }),
{
    match event {
        Some(e) => e.event_type,
        None => LibinputEventType::LIBINPUT_EVENT_NONE,
    }
}

/// The handle of the device an event comes from (0 for no event).
pub fn libinput_event_get_device(event: Option<&LibinputEvent>) -> (r: usize)
    ensures
        r == (match event {
            Some(e) => e.device,
            None => 0,
        }),
{
    match event {
        Some(e) => e.device,
        None => 0,
    }
}

/// The event itself when it is a device added or removed event.
pub fn libinput_event_get_device_notify_event<'a>(event: Option<&'a LibinputEvent>) -> (r: Option<&'a LibinputEvent>)
    ensures
        r == (match event {
            Some(e) => if e.event_type.spec_is_device_notify() {
                Some(e)
            } else {
                None
            },
            None => None,
        }),
{
    match event {
        Some(e) => if e.event_type.is_device_notify() {
            Some(e)
        } else {
            None
        },
        None => None,
    }
}

/// The event itself when it is a pointer event.
pub fn libinput_event_get_pointer_event<'a>(event: Option<&'a LibinputEvent>) -> (r: Option<&'a LibinputEvent>)
    ensures
        r == (match event {
            Some(e) => if e.event_type.spec_is_pointer() {
                Some(e)
            } else {
                None
            },
            None => None,
        }),
{
    match event {
        Some(e) => if e.event_type.is_pointer() {
            Some(e)
        } else {
            None
        },
        None => None,
    }
}

/// The event itself when it is a touch event.
pub fn libinput_event_get_touch_event<'a>(event: Option<&'a LibinputEvent>) -> (r: Option<&'a LibinputEvent>)
    ensures
        r == (match event {
            Some(e) => if e.event_type.spec_is_touch() {
                Some(e)
            } else {
                None
            },
            None => None,
        }),
{
    match event {
        Some(e) => if e.event_type.is_touch() {
            Some(e)
        } else {
            None
        },
        None => None,
    }
}

/// The event itself when it is a gesture event.
pub fn libinput_event_get_gesture_event<'a>(event: Option<&'a LibinputEvent>) -> (r: Option<&'a LibinputEvent>)
    ensures
        r == (match event {
            Some(e) => if e.event_type.spec_is_gesture() {
                Some(e)
            } else {
                None
            },
            None => None,
        }),
{
    match event {
        Some(e) => if e.event_type.is_gesture() {
            Some(e)
        } else {
            None
        },
        None => None,
    }
}

/// The event itself when it is a tablet pad event.
pub fn libinput_event_get_tablet_pad_event<'a>(event: Option<&'a LibinputEvent>) -> (r: Option<&'a LibinputEvent>)
    ensures
        r == (match event {
            Some(e) => if e.event_type.spec_is_tablet_pad() {
                Some(e)
            } else {
                None
            },
            None => None,
        }),
{
    match event {
        Some(e) => if e.event_type.is_tablet_pad() {
            Some(e)
        } else {
            None
        },
        None => None,
    }
}

/// The event itself when it is a tablet tool event.
pub fn libinput_event_get_tablet_tool_event<'a>(event: Option<&'a LibinputEvent>) -> (r: Option<&'a LibinputEvent>)
    ensures
        r == (match event {
            Some(e) => if e.event_type.spec_is_tablet_tool() {
                Some(e)
            } else {
                None
            },
            None => None,
        }),
{
    match event {
        Some(e) => if e.event_type.is_tablet_tool() {
            Some(e)
        } else {
            None
        },
        None => None,
    }
}

/// The event itself when it is a keyboard event.
pub fn libinput_event_get_keyboard_event<'a>(event: Option<&'a LibinputEvent>) -> (r: Option<&'a LibinputEvent>)
    ensures
        r == (match event {
            Some(e) => if e.event_type == LibinputEventType::LIBINPUT_EVENT_KEYBOARD_KEY {
                Some(e)
            } else {
                None
            },
            None => None,
        }),
{
    match event {
        Some(e) => if e.event_type == LibinputEventType::LIBINPUT_EVENT_KEYBOARD_KEY {
            Some(e)
        } else {
            None
        },
        None => None,
    }
}

/// The event itself when it is a switch event.
pub fn libinput_event_get_switch_event<'a>(event: Option<&'a LibinputEvent>) -> (r: Option<&'a LibinputEvent>)
    ensures
        r == (match event {
            Some(e) => if e.event_type == LibinputEventType::LIBINPUT_EVENT_SWITCH_TOGGLE {
                Some(e)
            } else {
                None
            },
            None => None,
        }),
{
    match event {
        Some(e) => if e.event_type == LibinputEventType::LIBINPUT_EVENT_SWITCH_TOGGLE {
            Some(e)
        } else {
            None
        },
        None => None,
    }
}

/// Every event is its own base event.
pub fn libinput_event_device_notify_get_base_event<'a>(event: Option<&'a LibinputEvent>) -> (r: Option<&'a LibinputEvent>)
    ensures
        r == event,
{
    event
}

/// Every event is its own base event.
pub fn libinput_event_pointer_get_base_event<'a>(event: Option<&'a LibinputEvent>) -> (r: Option<&'a LibinputEvent>)
    ensures
        r == event,
{
    event
}

/// Every event is its own base event.
pub fn libinput_event_keyboard_get_base_event<'a>(event: Option<&'a LibinputEvent>) -> (r: Option<&'a LibinputEvent>)
    ensures
        r == event,
{
    event
}

/// Every event is its own base event.
pub fn libinput_event_touch_get_base_event<'a>(event: Option<&'a LibinputEvent>) -> (r: Option<&'a LibinputEvent>)
    ensures
        r == event,
{
    event
}

/// Every event is its own base event.
pub fn libinput_event_gesture_get_base_event<'a>(event: Option<&'a LibinputEvent>) -> (r: Option<&'a LibinputEvent>)
    ensures
        r == event,
{
    event
}

/// Every event is its own base event.
pub fn libinput_event_switch_get_base_event<'a>(event: Option<&'a LibinputEvent>) -> (r: Option<&'a LibinputEvent>)
    ensures
        r == event,
{
    event
}

/// Every event is its own base event.
pub fn libinput_event_tablet_pad_get_base_event<'a>(event: Option<&'a LibinputEvent>) -> (r: Option<&'a LibinputEvent>)
    ensures
        r == event,
{
    event
}

/// Every event is its own base event.
pub fn libinput_event_tablet_tool_get_base_event<'a>(event: Option<&'a LibinputEvent>) -> (r: Option<&'a LibinputEvent>)
    ensures
        r == event,
{
    event
}

/// The time of a pointer event, in milliseconds.
pub fn libinput_event_pointer_get_time(event: Option<&LibinputEvent>) -> (r: u32)
    ensures
        r == (match event {
            Some(ev) => match ev.payload {
                EventPayload::PointerMotion(e) => millis(e.time_usec),
                EventPayload::PointerMotionAbsolute(e) => millis(e.time_usec),
                EventPayload::PointerButton(e) => millis(e.time_usec),
                EventPayload::PointerAxis(e) => millis(e.time_usec),
                _ => 0u32,
            },
            None => 0u32,
        }),
{
    match event {
        Some(ev) => match ev.payload {
            EventPayload::PointerMotion(e) => millis_exec(e.time_usec),
            EventPayload::PointerMotionAbsolute(e) => millis_exec(e.time_usec),
            EventPayload::PointerButton(e) => millis_exec(e.time_usec),
            EventPayload::PointerAxis(e) => millis_exec(e.time_usec),
            _ => 0u32,
        },
        None => 0u32,
    }
}

/// The time of a pointer event, in microseconds.
pub fn libinput_event_pointer_get_time_usec(event: Option<&LibinputEvent>) -> (r: u64)
    ensures
        r == (match event {
            Some(ev) => match ev.payload {
                EventPayload::PointerMotion(e) => e.time_usec,
                EventPayload::PointerMotionAbsolute(e) => e.time_usec,
                EventPayload::PointerButton(e) => e.time_usec,
                EventPayload::PointerAxis(e) => e.time_usec,
                _ => 0u64,
            },
            None => 0u64,
        }),
{
    match event {
        Some(ev) => match ev.payload {
            EventPayload::PointerMotion(e) => e.time_usec,
            EventPayload::PointerMotionAbsolute(e) => e.time_usec,
            EventPayload::PointerButton(e) => e.time_usec,
            EventPayload::PointerAxis(e) => e.time_usec,
            _ => 0u64,
        },
        None => 0u64,
    }
}

/// The button of a button event.
pub fn libinput_event_pointer_get_button(event: Option<&LibinputEvent>) -> (r: u32)
    ensures
        r == (match event {
            Some(ev) => match ev.payload {
                EventPayload::PointerButton(e) => e.button,
                _ => 0u32,
            },
            None => 0u32,
        }),
{
    match event {
        Some(ev) => match ev.payload {
            EventPayload::PointerButton(e) => e.button,
            _ => 0u32,
        },
        None => 0u32,
    }
}

/// The state of a button event: 1 pressed, 0 released.
pub fn libinput_event_pointer_get_button_state(event: Option<&LibinputEvent>) -> (r: u32)
    ensures
        r == (match event {
            Some(ev) => match ev.payload {
                EventPayload::PointerButton(e) => e.state,
                _ => 0u32,
            },
            None => 0u32,
        }),
{
    match event {
        Some(ev) => match ev.payload {
            EventPayload::PointerButton(e) => e.state,
            _ => 0u32,
        },
        None => 0u32,
    }
}

/// The number of devices on the seat that hold the button down: one on a press, none otherwise.
pub fn libinput_event_pointer_get_seat_button_count(event: Option<&LibinputEvent>) -> (r: u32)
    ensures
        r == (match event {
            Some(ev) => match ev.payload {
                EventPayload::PointerButton(e) => if e.state == 1u32 { 1u32 } else { 0u32 },
                _ => 0u32,
            },
            None => 0u32,
        }),
{
    match event {
        Some(ev) => match ev.payload {
            EventPayload::PointerButton(e) => if e.state == 1u32 { 1u32 } else { 0u32 },
            _ => 0u32,
        },
        None => 0u32,
    }
}

/// The source of an axis event: 1 wheel, 2 finger.
pub fn libinput_event_pointer_get_axis_source(event: Option<&LibinputEvent>) -> (r: u32)
    ensures
        r == (match event {
            Some(ev) => match ev.payload {
                EventPayload::PointerAxis(e) => e.source,
                _ => 0u32,
            },
            None => 0u32,
        }),
{
    match event {
        Some(ev) => match ev.payload {
            EventPayload::PointerAxis(e) => e.source,
            _ => 0u32,
        },
        None => 0u32,
    }
}

/// Whether an event has a value on the scroll axis `axis`: an axis event
/// has exactly the axis it reports.
pub fn libinput_event_pointer_has_axis(event: Option<&LibinputEvent>, axis: u32) -> (r: i32)
    ensures
        r == (match event {
            Some(ev) => match ev.payload {
                EventPayload::PointerAxis(e) => if e.axis == axis { 1i32 } else { 0i32 },
                _ => 0i32,
            },
            None => 0i32,
        }),
{
    match event {
        Some(ev) => match ev.payload {
            EventPayload::PointerAxis(e) => if e.axis == axis { 1i32 } else { 0i32 },
            _ => 0i32,
        },
        None => 0i32,
    }
}

/// The time of a key event, in milliseconds.
pub fn libinput_event_keyboard_get_time(event: Option<&LibinputEvent>) -> (r: u32)
    ensures
        r == (match event {
            Some(ev) => match ev.payload {
                EventPayload::KeyboardKey(e) => millis(e.time_usec),
                _ => 0u32,
            },
            None => 0u32,
        }),
{
    match event {
        Some(ev) => match ev.payload {
            EventPayload::KeyboardKey(e) => millis_exec(e.time_usec),
            _ => 0u32,
        },
        None => 0u32,
    }
}

/// The time of a key event, in microseconds.
pub fn libinput_event_keyboard_get_time_usec(event: Option<&LibinputEvent>) -> (r: u64)
    ensures
        r == (match event {
            Some(ev) => match ev.payload {
                EventPayload::KeyboardKey(e) => e.time_usec,
                _ => 0u64,
            },
            None => 0u64,
        }),
{
    match event {
        Some(ev) => match ev.payload {
            EventPayload::KeyboardKey(e) => e.time_usec,
            _ => 0u64,
        },
        None => 0u64,
    }
}

/// The key of a key event.
pub fn libinput_event_keyboard_get_key(event: Option<&LibinputEvent>) -> (r: u32)
    ensures
        r == (match event {
            Some(ev) => match ev.payload {
                EventPayload::KeyboardKey(e) => e.key,
                _ => 0u32,
            },
            None => 0u32,
        }),
{
    match event {
        Some(ev) => match ev.payload {
            EventPayload::KeyboardKey(e) => e.key,
            _ => 0u32,
        },
        None => 0u32,
    }
}

/// The state of a key event: 0 released, 1 pressed, 2 repeated.
pub fn libinput_event_keyboard_get_key_state(event: Option<&LibinputEvent>) -> (r: u32)
    ensures
        r == (match event {
            Some(ev) => match ev.payload {
                EventPayload::KeyboardKey(e) => e.state,
                _ => 0u32,
            },
            None => 0u32,
        }),
{
    match event {
        Some(ev) => match ev.payload {
            EventPayload::KeyboardKey(e) => e.state,
            _ => 0u32,
        },
        None => 0u32,
    }
}

/// The number of devices on the seat that hold the key down: one unless released.
pub fn libinput_event_keyboard_get_seat_key_count(event: Option<&LibinputEvent>) -> (r: u32)
    ensures
        r == (match event {
            Some(ev) => match ev.payload {
                EventPayload::KeyboardKey(e) => if e.state >= 1u32 { 1u32 } else { 0u32 },
                _ => 0u32,
            },
            None => 0u32,
        }),
{
    match event {
        Some(ev) => match ev.payload {
            EventPayload::KeyboardKey(e) => if e.state >= 1u32 { 1u32 } else { 0u32 },
            _ => 0u32,
        },
        None => 0u32,
    }
}

/// The time of a touch event, in milliseconds.
pub fn libinput_event_touch_get_time(event: Option<&LibinputEvent>) -> (r: u32)
    ensures
        r == (match event {
            Some(ev) => match ev.payload {
                EventPayload::TouchDown(e) => millis(e.time_usec),
                EventPayload::TouchUp(e) => millis(e.time_usec),
                EventPayload::TouchMotion(e) => millis(e.time_usec),
                EventPayload::TouchCancel(e) => millis(e.time_usec),
                EventPayload::TouchFrame { time_usec } => millis(time_usec),
                _ => 0u32,
            },
            None => 0u32,
        }),
{
    match event {
        Some(ev) => match ev.payload {
            EventPayload::TouchDown(e) => millis_exec(e.time_usec),
            EventPayload::TouchUp(e) => millis_exec(e.time_usec),
            EventPayload::TouchMotion(e) => millis_exec(e.time_usec),
            EventPayload::TouchCancel(e) => millis_exec(e.time_usec),
            EventPayload::TouchFrame { time_usec } => millis_exec(time_usec),
            _ => 0u32,
        },
        None => 0u32,
    }
}

/// The time of a touch event, in microseconds.
pub fn libinput_event_touch_get_time_usec(event: Option<&LibinputEvent>) -> (r: u64)
    ensures
        r == (match event {
            Some(ev) => match ev.payload {
                EventPayload::TouchDown(e) => e.time_usec,
                EventPayload::TouchUp(e) => e.time_usec,
                EventPayload::TouchMotion(e) => e.time_usec,
                EventPayload::TouchCancel(e) => e.time_usec,
                EventPayload::TouchFrame { time_usec } => time_usec,
                _ => 0u64,
            },
            None => 0u64,
        }),
{
    match event {
        Some(ev) => match ev.payload {
            EventPayload::TouchDown(e) => e.time_usec,
            EventPayload::TouchUp(e) => e.time_usec,
            EventPayload::TouchMotion(e) => e.time_usec,
            EventPayload::TouchCancel(e) => e.time_usec,
            EventPayload::TouchFrame { time_usec } => time_usec,
            _ => 0u64,
        },
        None => 0u64,
    }
}

/// The slot of a touch down or motion event (-1 otherwise).
pub fn libinput_event_touch_get_slot(event: Option<&LibinputEvent>) -> (r: i32)
    ensures
        r == (match event {
            Some(ev) => match ev.payload {
                EventPayload::TouchDown(e) => e.slot,
                EventPayload::TouchMotion(e) => e.slot,
                _ => -1i32,
            },
            None => -1i32,
        }),
{
    match event {
        Some(ev) => match ev.payload {
            EventPayload::TouchDown(e) => e.slot,
            EventPayload::TouchMotion(e) => e.slot,
            _ => -1i32,
        },
        None => -1i32,
    }
}

/// The seat slot of a touch down or motion event (-1 otherwise).
pub fn libinput_event_touch_get_seat_slot(event: Option<&LibinputEvent>) -> (r: i32)
    ensures
        r == (match event {
            Some(ev) => match ev.payload {
                EventPayload::TouchDown(e) => e.seat_slot,
                EventPayload::TouchMotion(e) => e.seat_slot,
                _ => -1i32,
            },
            None => -1i32,
        }),
{
    match event {
        Some(ev) => match ev.payload {
            EventPayload::TouchDown(e) => e.seat_slot,
            EventPayload::TouchMotion(e) => e.seat_slot,
            _ => -1i32,
        },
        None => -1i32,
    }
}

/// The time of a gesture event, in milliseconds.
pub fn libinput_event_gesture_get_time(event: Option<&LibinputEvent>) -> (r: u32)
    ensures
        r == (match event {
            Some(ev) => match ev.payload {
                EventPayload::GestureSwipeBegin(e) => millis(e.time_usec),
                EventPayload::GestureSwipeUpdate(e) => millis(e.time_usec),
                EventPayload::GestureSwipeEnd(e) => millis(e.time_usec),
                EventPayload::GesturePinchBegin(e) => millis(e.time_usec),
                EventPayload::GesturePinchUpdate(e) => millis(e.time_usec),
                EventPayload::GesturePinchEnd(e) => millis(e.time_usec),
                _ => 0u32,
            },
            None => 0u32,
        }),
{
    match event {
        Some(ev) => match ev.payload {
            EventPayload::GestureSwipeBegin(e) => millis_exec(e.time_usec),
            EventPayload::GestureSwipeUpdate(e) => millis_exec(e.time_usec),
            EventPayload::GestureSwipeEnd(e) => millis_exec(e.time_usec),
            EventPayload::GesturePinchBegin(e) => millis_exec(e.time_usec),
            EventPayload::GesturePinchUpdate(e) => millis_exec(e.time_usec),
            EventPayload::GesturePinchEnd(e) => millis_exec(e.time_usec),
            _ => 0u32,
        },
        None => 0u32,
    }
}

/// The time of a gesture event, in microseconds.
pub fn libinput_event_gesture_get_time_usec(event: Option<&LibinputEvent>) -> (r: u64)
    ensures
        r == (match event {
            Some(ev) => match ev.payload {
                EventPayload::GestureSwipeBegin(e) => e.time_usec,
                EventPayload::GestureSwipeUpdate(e) => e.time_usec,
                EventPayload::GestureSwipeEnd(e) => e.time_usec,
                EventPayload::GesturePinchBegin(e) => e.time_usec,
                EventPayload::GesturePinchUpdate(e) => e.time_usec,
                EventPayload::GesturePinchEnd(e) => e.time_usec,
                _ => 0u64,
            },
            None => 0u64,
        }),
{
    match event {
        Some(ev) => match ev.payload {
            EventPayload::GestureSwipeBegin(e) => e.time_usec,
            EventPayload::GestureSwipeUpdate(e) => e.time_usec,
            EventPayload::GestureSwipeEnd(e) => e.time_usec,
            EventPayload::GesturePinchBegin(e) => e.time_usec,
            EventPayload::GesturePinchUpdate(e) => e.time_usec,
            EventPayload::GesturePinchEnd(e) => e.time_usec,
            _ => 0u64,
        },
        None => 0u64,
    }
}

/// The number of fingers of a gesture event.
pub fn libinput_event_gesture_get_finger_count(event: Option<&LibinputEvent>) -> (r: i32)
    ensures
        r == (match event {
            Some(ev) => match ev.payload {
                EventPayload::GestureSwipeBegin(e) => e.finger_count,
                EventPayload::GestureSwipeUpdate(e) => e.finger_count,
                EventPayload::GestureSwipeEnd(e) => e.finger_count,
                EventPayload::GesturePinchBegin(e) => e.finger_count,
                EventPayload::GesturePinchUpdate(e) => e.finger_count,
                EventPayload::GesturePinchEnd(e) => e.finger_count,
                _ => 0i32,
            },
            None => 0i32,
        }),
{
    match event {
        Some(ev) => match ev.payload {
            EventPayload::GestureSwipeBegin(e) => e.finger_count,
            EventPayload::GestureSwipeUpdate(e) => e.finger_count,
            EventPayload::GestureSwipeEnd(e) => e.finger_count,
            EventPayload::GesturePinchBegin(e) => e.finger_count,
            EventPayload::GesturePinchUpdate(e) => e.finger_count,
            EventPayload::GesturePinchEnd(e) => e.finger_count,
            _ => 0i32,
        },
        None => 0i32,
    }
}

/// Whether a gesture end event ends a cancelled gesture.
pub fn libinput_event_gesture_get_cancelled(event: Option<&LibinputEvent>) -> (r: i32)
    ensures
        r == (match event {
            Some(ev) => match ev.payload {
                EventPayload::GestureSwipeEnd(e) => if e.cancelled { 1i32 } else { 0i32 },
                EventPayload::GesturePinchEnd(e) => if e.cancelled { 1i32 } else { 0i32 },
                _ => 0i32,
            },
            None => 0i32,
        }),
{
    match event {
        Some(ev) => match ev.payload {
            EventPayload::GestureSwipeEnd(e) => if e.cancelled { 1i32 } else { 0i32 },
            EventPayload::GesturePinchEnd(e) => if e.cancelled { 1i32 } else { 0i32 },
            _ => 0i32,
        },
        None => 0i32,
    }
}

/// The switch of a switch event.
pub fn libinput_event_switch_get_switch(event: Option<&LibinputEvent>) -> (r: u32)
    ensures
        r == (match event {
            Some(ev) => match ev.payload {
                EventPayload::SwitchToggle(e) => e.switch,
                _ => 0u32,
            },
            None => 0u32,
        }),
{
    match event {
        Some(ev) => match ev.payload {
            EventPayload::SwitchToggle(e) => e.switch,
            _ => 0u32,
        },
        None => 0u32,
    }
}

/// The state of a switch event.
pub fn libinput_event_switch_get_switch_state(event: Option<&LibinputEvent>) -> (r: u32)
    ensures
        r == (match event {
            Some(ev) => match ev.payload {
                EventPayload::SwitchToggle(e) => e.state,
                _ => 0u32,
            },
            None => 0u32,
        }),
{
    match event {
        Some(ev) => match ev.payload {
            EventPayload::SwitchToggle(e) => e.state,
            _ => 0u32,
        },
        None => 0u32,
    }
}

/// The time of a switch event, in microseconds.
pub fn libinput_event_switch_get_time_usec(event: Option<&LibinputEvent>) -> (r: u64)
    ensures
        r == (match event {
            Some(ev) => match ev.payload {
                EventPayload::SwitchToggle(e) => e.time_usec,
                _ => 0u64,
            },
            None => 0u64,
        }),
{
    match event {
        Some(ev) => match ev.payload {
            EventPayload::SwitchToggle(e) => e.time_usec,
            _ => 0u64,
        },
        None => 0u64,
    }
}

/// The time of a switch event, in milliseconds.
pub fn libinput_event_switch_get_time(event: Option<&LibinputEvent>) -> (r: u32)
    ensures
        r == (match event {
            Some(ev) => match ev.payload {
                EventPayload::SwitchToggle(e) => millis(e.time_usec),
                _ => 0u32,
            },
            None => 0u32,
        }),
{
    match event {
        Some(ev) => match ev.payload {
            EventPayload::SwitchToggle(e) => millis_exec(e.time_usec),
            _ => 0u32,
        },
        None => 0u32,
    }
}

/// The motion of a relative motion event, from which its deltas are computed.
pub fn pointer_motion_payload(event: Option<&LibinputEvent>) -> (r: Option<PointerMotionEvent>)
    ensures
        r == (match event {
            Some(ev) => match ev.payload {
                EventPayload::PointerMotion(e) => Some(e),
                _ => None,
            },
            None => None,
        }),
{
    match event {
        Some(ev) => match ev.payload {
            EventPayload::PointerMotion(e) => Some(e),
            _ => None,
        },
        None => None,
    }
}

/// The position of an absolute motion event.
pub fn pointer_absolute_payload(event: Option<&LibinputEvent>) -> (r: Option<PointerMotionAbsoluteEvent>)
    ensures
        r == (match event {
            Some(ev) => match ev.payload {
                EventPayload::PointerMotionAbsolute(e) => Some(e),
                _ => None,
            },
            None => None,
        }),
{
    match event {
        Some(ev) => match ev.payload {
            EventPayload::PointerMotionAbsolute(e) => Some(e),
            _ => None,
        },
        None => None,
    }
}

/// The scroll of an axis event on the scroll axis `axis`, from which its
/// values on that axis are computed: none for another axis, which has no
/// value in the event.
pub fn pointer_axis_payload(event: Option<&LibinputEvent>, axis: u32) -> (r: Option<PointerAxisEvent>)
    ensures
        r == (match event {
            Some(ev) => match ev.payload {
                EventPayload::PointerAxis(e) => if e.axis == axis { Some(e) } else { None },
                _ => None,
            },
            None => None,
        }),
{
    match event {
        Some(ev) => match ev.payload {
            EventPayload::PointerAxis(e) => if e.axis == axis { Some(e) } else { None },
            _ => None,
        },
        None => None,
    }
}

/// The touch point of a touch down or motion event.
pub fn touch_position_payload(event: Option<&LibinputEvent>) -> (r: Option<TouchEvent>)
    ensures
        r == (match event {
            Some(ev) => match ev.payload {
                EventPayload::TouchDown(e) => Some(e),
                EventPayload::TouchMotion(e) => Some(e),
                _ => None,
            },
            None => None,
        }),
{
    match event {
        Some(ev) => match ev.payload {
            EventPayload::TouchDown(e) => Some(e),
            EventPayload::TouchMotion(e) => Some(e),
            _ => None,
        },
        None => None,
    }
}

/// What the deltas of a swipe or pinch update are computed from (`Still` for no motion).
pub fn gesture_delta_source(event: Option<&LibinputEvent>) -> (r: GestureMotion)
    ensures
        r == (match event {
            Some(ev) => match ev.payload {
                EventPayload::GestureSwipeUpdate(e) => e.motion,
                EventPayload::GesturePinchUpdate(e) => e.motion,
                _ => GestureMotion::Still,
            },
            None => GestureMotion::Still,
        }),
{
    match event {
        Some(ev) => match ev.payload {
            EventPayload::GestureSwipeUpdate(e) => e.motion,
            EventPayload::GesturePinchUpdate(e) => e.motion,
            _ => GestureMotion::Still,
        },
        None => GestureMotion::Still,
    }
}

/// What the scale of a pinch update or end is computed from (`Still` for scale 1).
pub fn gesture_scale_source(event: Option<&LibinputEvent>) -> (r: GestureMotion)
    ensures
        r == (match event {
            Some(ev) => match ev.payload {
                EventPayload::GesturePinchUpdate(e) => e.motion,
                EventPayload::GesturePinchEnd(e) => e.motion,
                _ => GestureMotion::Still,
            },
            None => GestureMotion::Still,
        }),
{
    match event {
        Some(ev) => match ev.payload {
            EventPayload::GesturePinchUpdate(e) => e.motion,
            EventPayload::GesturePinchEnd(e) => e.motion,
            _ => GestureMotion::Still,
        },
        None => GestureMotion::Still,
    }
}

/// What the rotation of a pinch update is computed from (`Still` for none).
pub fn gesture_angle_source(event: Option<&LibinputEvent>) -> (r: GestureMotion)
    ensures
        r == (match event {
            Some(ev) => match ev.payload {
                EventPayload::GesturePinchUpdate(e) => e.motion,
                _ => GestureMotion::Still,
            },
            None => GestureMotion::Still,
        }),
{
    match event {
        Some(ev) => match ev.payload {
            EventPayload::GesturePinchUpdate(e) => e.motion,
            _ => GestureMotion::Still,
        },
        None => GestureMotion::Still,
    }
}

} // verus!
