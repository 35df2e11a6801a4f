//! The events that the library hands to its callers, and the raw kernel
//! events that it reads.
//!
//! Every payload holds integers only: where the C interface reports a
//! floating-point value, the payload holds the integers that the value is
//! computed from (see the `*_units` accessors).

use vstd::prelude::*;

verus! {

/// The type of a [`LibinputEvent`]; [`LibinputEventType::code`] gives the
/// number that the C interface uses for it.
#[allow(non_camel_case_types)]
#[derive(Debug, Clone, Copy, PartialEq, Eq, Structural)]
pub enum LibinputEventType {
    LIBINPUT_EVENT_NONE,
    LIBINPUT_EVENT_DEVICE_ADDED,
    LIBINPUT_EVENT_DEVICE_REMOVED,
    LIBINPUT_EVENT_KEYBOARD_KEY,
    LIBINPUT_EVENT_POINTER_MOTION,
    LIBINPUT_EVENT_POINTER_MOTION_ABSOLUTE,
    LIBINPUT_EVENT_POINTER_BUTTON,
    LIBINPUT_EVENT_POINTER_AXIS,
    LIBINPUT_EVENT_POINTER_SCROLL_WHEEL,
    LIBINPUT_EVENT_POINTER_SCROLL_FINGER,
    LIBINPUT_EVENT_POINTER_SCROLL_CONTINUOUS,
    LIBINPUT_EVENT_TOUCH_DOWN,
    LIBINPUT_EVENT_TOUCH_UP,
    LIBINPUT_EVENT_TOUCH_MOTION,
    LIBINPUT_EVENT_TOUCH_CANCEL,
    LIBINPUT_EVENT_TOUCH_FRAME,
    LIBINPUT_EVENT_GESTURE_SWIPE_BEGIN,
    LIBINPUT_EVENT_GESTURE_SWIPE_UPDATE,
    LIBINPUT_EVENT_GESTURE_SWIPE_END,
    LIBINPUT_EVENT_GESTURE_PINCH_BEGIN,
    LIBINPUT_EVENT_GESTURE_PINCH_UPDATE,
    LIBINPUT_EVENT_GESTURE_PINCH_END,
    LIBINPUT_EVENT_SWITCH_TOGGLE,
    LIBINPUT_EVENT_TABLET_TOOL_AXIS,
    LIBINPUT_EVENT_TABLET_TOOL_PROXIMITY,
    LIBINPUT_EVENT_TABLET_TOOL_TIP,
    LIBINPUT_EVENT_TABLET_TOOL_BUTTON,
    LIBINPUT_EVENT_TABLET_PAD_BUTTON,
    LIBINPUT_EVENT_TABLET_PAD_RING,
    LIBINPUT_EVENT_TABLET_PAD_STRIP,
}

/// The C interface number of each event type.
pub open spec fn event_type_code(t: LibinputEventType) -> u32 {
    match t {
        LibinputEventType::LIBINPUT_EVENT_NONE => 0,
        LibinputEventType::LIBINPUT_EVENT_DEVICE_ADDED => 1,
        LibinputEventType::LIBINPUT_EVENT_DEVICE_REMOVED => 2,
        LibinputEventType::LIBINPUT_EVENT_KEYBOARD_KEY => 300,
        LibinputEventType::LIBINPUT_EVENT_POINTER_MOTION => 400,
        LibinputEventType::LIBINPUT_EVENT_POINTER_MOTION_ABSOLUTE => 401,
        LibinputEventType::LIBINPUT_EVENT_POINTER_BUTTON => 402,
        LibinputEventType::LIBINPUT_EVENT_POINTER_AXIS => 403,
        LibinputEventType::LIBINPUT_EVENT_POINTER_SCROLL_WHEEL => 404,
        LibinputEventType::LIBINPUT_EVENT_POINTER_SCROLL_FINGER => 405,
        LibinputEventType::LIBINPUT_EVENT_POINTER_SCROLL_CONTINUOUS => 406,
        LibinputEventType::LIBINPUT_EVENT_TOUCH_DOWN => 500,
        LibinputEventType::LIBINPUT_EVENT_TOUCH_UP => 501,
        LibinputEventType::LIBINPUT_EVENT_TOUCH_MOTION => 502,
        LibinputEventType::LIBINPUT_EVENT_TOUCH_CANCEL => 503,
        LibinputEventType::LIBINPUT_EVENT_TOUCH_FRAME => 504,
        LibinputEventType::LIBINPUT_EVENT_GESTURE_SWIPE_BEGIN => 800,
        LibinputEventType::LIBINPUT_EVENT_GESTURE_SWIPE_UPDATE => 801,
        LibinputEventType::LIBINPUT_EVENT_GESTURE_SWIPE_END => 802,
        LibinputEventType::LIBINPUT_EVENT_GESTURE_PINCH_BEGIN => 803,
        LibinputEventType::LIBINPUT_EVENT_GESTURE_PINCH_UPDATE => 804,
        LibinputEventType::LIBINPUT_EVENT_GESTURE_PINCH_END => 805,
        LibinputEventType::LIBINPUT_EVENT_SWITCH_TOGGLE => 900,
        LibinputEventType::LIBINPUT_EVENT_TABLET_TOOL_AXIS => 600,
        LibinputEventType::LIBINPUT_EVENT_TABLET_TOOL_PROXIMITY => 601,
        LibinputEventType::LIBINPUT_EVENT_TABLET_TOOL_TIP => 602,
        LibinputEventType::LIBINPUT_EVENT_TABLET_TOOL_BUTTON => 603,
        LibinputEventType::LIBINPUT_EVENT_TABLET_PAD_BUTTON => 700,
        LibinputEventType::LIBINPUT_EVENT_TABLET_PAD_RING => 701,
        LibinputEventType::LIBINPUT_EVENT_TABLET_PAD_STRIP => 702,
    }
}

impl LibinputEventType {
    /// The number that the C interface uses for this event type.
    pub fn code(self) -> (r: u32)
        ensures
            r == event_type_code(self),
    {
        match self {
            LibinputEventType::LIBINPUT_EVENT_NONE => 0,
            LibinputEventType::LIBINPUT_EVENT_DEVICE_ADDED => 1,
            LibinputEventType::LIBINPUT_EVENT_DEVICE_REMOVED => 2,
            LibinputEventType::LIBINPUT_EVENT_KEYBOARD_KEY => 300,
            LibinputEventType::LIBINPUT_EVENT_POINTER_MOTION => 400,
            LibinputEventType::LIBINPUT_EVENT_POINTER_MOTION_ABSOLUTE => 401,
            LibinputEventType::LIBINPUT_EVENT_POINTER_BUTTON => 402,
            LibinputEventType::LIBINPUT_EVENT_POINTER_AXIS => 403,
            LibinputEventType::LIBINPUT_EVENT_POINTER_SCROLL_WHEEL => 404,
            LibinputEventType::LIBINPUT_EVENT_POINTER_SCROLL_FINGER => 405,
            LibinputEventType::LIBINPUT_EVENT_POINTER_SCROLL_CONTINUOUS => 406,
            LibinputEventType::LIBINPUT_EVENT_TOUCH_DOWN => 500,
            LibinputEventType::LIBINPUT_EVENT_TOUCH_UP => 501,
            LibinputEventType::LIBINPUT_EVENT_TOUCH_MOTION => 502,
            LibinputEventType::LIBINPUT_EVENT_TOUCH_CANCEL => 503,
            LibinputEventType::LIBINPUT_EVENT_TOUCH_FRAME => 504,
            LibinputEventType::LIBINPUT_EVENT_GESTURE_SWIPE_BEGIN => 800,
            LibinputEventType::LIBINPUT_EVENT_GESTURE_SWIPE_UPDATE => 801,
            LibinputEventType::LIBINPUT_EVENT_GESTURE_SWIPE_END => 802,
            LibinputEventType::LIBINPUT_EVENT_GESTURE_PINCH_BEGIN => 803,
            LibinputEventType::LIBINPUT_EVENT_GESTURE_PINCH_UPDATE => 804,
            LibinputEventType::LIBINPUT_EVENT_GESTURE_PINCH_END => 805,
            LibinputEventType::LIBINPUT_EVENT_SWITCH_TOGGLE => 900,
            LibinputEventType::LIBINPUT_EVENT_TABLET_TOOL_AXIS => 600,
            LibinputEventType::LIBINPUT_EVENT_TABLET_TOOL_PROXIMITY => 601,
            LibinputEventType::LIBINPUT_EVENT_TABLET_TOOL_TIP => 602,
            LibinputEventType::LIBINPUT_EVENT_TABLET_TOOL_BUTTON => 603,
            LibinputEventType::LIBINPUT_EVENT_TABLET_PAD_BUTTON => 700,
            LibinputEventType::LIBINPUT_EVENT_TABLET_PAD_RING => 701,
            LibinputEventType::LIBINPUT_EVENT_TABLET_PAD_STRIP => 702,
        }
    }

    /// The pointer event types: motion, absolute motion, buttons and the
    /// axis and scroll events.
    pub open spec fn spec_is_pointer(self) -> bool {
        ||| self == LibinputEventType::LIBINPUT_EVENT_POINTER_MOTION
        ||| self == LibinputEventType::LIBINPUT_EVENT_POINTER_MOTION_ABSOLUTE
        ||| self == LibinputEventType::LIBINPUT_EVENT_POINTER_BUTTON
        ||| self == LibinputEventType::LIBINPUT_EVENT_POINTER_AXIS
        ||| self == LibinputEventType::LIBINPUT_EVENT_POINTER_SCROLL_WHEEL
        ||| self == LibinputEventType::LIBINPUT_EVENT_POINTER_SCROLL_FINGER
        ||| self == LibinputEventType::LIBINPUT_EVENT_POINTER_SCROLL_CONTINUOUS
    }

    /// The touch event types.
    pub open spec fn spec_is_touch(self) -> bool {
        ||| self == LibinputEventType::LIBINPUT_EVENT_TOUCH_DOWN
        ||| self == LibinputEventType::LIBINPUT_EVENT_TOUCH_UP
        ||| self == LibinputEventType::LIBINPUT_EVENT_TOUCH_MOTION
        ||| self == LibinputEventType::LIBINPUT_EVENT_TOUCH_CANCEL
        ||| self == LibinputEventType::LIBINPUT_EVENT_TOUCH_FRAME
    }

    /// The swipe and pinch gesture event types.
    pub open spec fn spec_is_gesture(self) -> bool {
        ||| self == LibinputEventType::LIBINPUT_EVENT_GESTURE_SWIPE_BEGIN
        ||| self == LibinputEventType::LIBINPUT_EVENT_GESTURE_SWIPE_UPDATE
        ||| self == LibinputEventType::LIBINPUT_EVENT_GESTURE_SWIPE_END
        ||| self == LibinputEventType::LIBINPUT_EVENT_GESTURE_PINCH_BEGIN
        ||| self == LibinputEventType::LIBINPUT_EVENT_GESTURE_PINCH_UPDATE
        ||| self == LibinputEventType::LIBINPUT_EVENT_GESTURE_PINCH_END
    }

    /// The device added and removed event types.
    pub open spec fn spec_is_device_notify(self) -> bool {
        ||| self == LibinputEventType::LIBINPUT_EVENT_DEVICE_ADDED
        ||| self == LibinputEventType::LIBINPUT_EVENT_DEVICE_REMOVED
    }

    /// The tablet pad event types.
    pub open spec fn spec_is_tablet_pad(self) -> bool {
        ||| self == LibinputEventType::LIBINPUT_EVENT_TABLET_PAD_BUTTON
        ||| self == LibinputEventType::LIBINPUT_EVENT_TABLET_PAD_RING
        ||| self == LibinputEventType::LIBINPUT_EVENT_TABLET_PAD_STRIP
    }

    /// The tablet tool event types.
    pub open spec fn spec_is_tablet_tool(self) -> bool {
        ||| self == LibinputEventType::LIBINPUT_EVENT_TABLET_TOOL_AXIS
        ||| self == LibinputEventType::LIBINPUT_EVENT_TABLET_TOOL_PROXIMITY
        ||| self == LibinputEventType::LIBINPUT_EVENT_TABLET_TOOL_TIP
        ||| self == LibinputEventType::LIBINPUT_EVENT_TABLET_TOOL_BUTTON
    }

    #[verifier::when_used_as_spec(spec_is_pointer)]
    pub fn is_pointer(self) -> (r: bool)
        ensures
            r == self.spec_is_pointer(),
    {
        match self {
            LibinputEventType::LIBINPUT_EVENT_POINTER_MOTION
            | LibinputEventType::LIBINPUT_EVENT_POINTER_MOTION_ABSOLUTE
            | LibinputEventType::LIBINPUT_EVENT_POINTER_BUTTON
            | LibinputEventType::LIBINPUT_EVENT_POINTER_AXIS
            | LibinputEventType::LIBINPUT_EVENT_POINTER_SCROLL_WHEEL
            | LibinputEventType::LIBINPUT_EVENT_POINTER_SCROLL_FINGER
            | LibinputEventType::LIBINPUT_EVENT_POINTER_SCROLL_CONTINUOUS => true,
            _ => false,
        }
    }

    #[verifier::when_used_as_spec(spec_is_touch)]
    pub fn is_touch(self) -> (r: bool)
        ensures
            r == self.spec_is_touch(),
    {
        match self {
            LibinputEventType::LIBINPUT_EVENT_TOUCH_DOWN
            | LibinputEventType::LIBINPUT_EVENT_TOUCH_UP
            | LibinputEventType::LIBINPUT_EVENT_TOUCH_MOTION
            | LibinputEventType::LIBINPUT_EVENT_TOUCH_CANCEL
            | LibinputEventType::LIBINPUT_EVENT_TOUCH_FRAME => true,
            _ => false,
        }
    }

    #[verifier::when_used_as_spec(spec_is_gesture)]
    pub fn is_gesture(self) -> (r: bool)
        ensures
            r == self.spec_is_gesture(),
    {
        match self {
            LibinputEventType::LIBINPUT_EVENT_GESTURE_SWIPE_BEGIN
            | LibinputEventType::LIBINPUT_EVENT_GESTURE_SWIPE_UPDATE
            | LibinputEventType::LIBINPUT_EVENT_GESTURE_SWIPE_END
            | LibinputEventType::LIBINPUT_EVENT_GESTURE_PINCH_BEGIN
            | LibinputEventType::LIBINPUT_EVENT_GESTURE_PINCH_UPDATE
            | LibinputEventType::LIBINPUT_EVENT_GESTURE_PINCH_END => true,
            _ => false,
        }
    }

    #[verifier::when_used_as_spec(spec_is_device_notify)]
    pub fn is_device_notify(self) -> (r: bool)
        ensures
            r == self.spec_is_device_notify(),
    {
        match self {
            LibinputEventType::LIBINPUT_EVENT_DEVICE_ADDED
            | LibinputEventType::LIBINPUT_EVENT_DEVICE_REMOVED => true,
            _ => false,
        }
    }

    #[verifier::when_used_as_spec(spec_is_tablet_pad)]
    pub fn is_tablet_pad(self) -> (r: bool)
        ensures
            r == self.spec_is_tablet_pad(),
    {
        match self {
            LibinputEventType::LIBINPUT_EVENT_TABLET_PAD_BUTTON
            | LibinputEventType::LIBINPUT_EVENT_TABLET_PAD_RING
            | LibinputEventType::LIBINPUT_EVENT_TABLET_PAD_STRIP => true,
            _ => false,
        }
    }

    #[verifier::when_used_as_spec(spec_is_tablet_tool)]
    pub fn is_tablet_tool(self) -> (r: bool)
        ensures
            r == self.spec_is_tablet_tool(),
    {
        match self {
            LibinputEventType::LIBINPUT_EVENT_TABLET_TOOL_AXIS
            | LibinputEventType::LIBINPUT_EVENT_TABLET_TOOL_PROXIMITY
            | LibinputEventType::LIBINPUT_EVENT_TABLET_TOOL_TIP
            | LibinputEventType::LIBINPUT_EVENT_TABLET_TOOL_BUTTON => true,
            _ => false,
        }
    }
}

/// Relative pointer motion.
///
/// `dx`/`dy` are the reported (accelerated) deltas.  The unaccelerated
/// deltas are `raw_dx`/`raw_dy` for a relative device, and the same raw
/// touchpad deltas scaled by the touchpad's hardware factor when
/// `from_touchpad` holds.
#[derive(Debug, Clone, Copy, PartialEq, Eq)]
pub struct PointerMotionEvent {
    pub time_usec: u64,
    pub dx: i32,
    pub dy: i32,
    pub raw_dx: i32,
    pub raw_dy: i32,
    pub from_touchpad: bool,
}

/// Absolute pointer motion, in device coordinates.
#[derive(Debug, Clone, Copy, PartialEq, Eq)]
pub struct PointerMotionAbsoluteEvent {
    pub time_usec: u64,
    pub abs_x: i32,
    pub abs_y: i32,
}

/// A pointer button press (`state == 1`) or release (`state == 0`).
#[derive(Debug, Clone, Copy, PartialEq, Eq)]
pub struct PointerButtonEvent {
    pub time_usec: u64,
    pub button: u32,
    pub state: u32,
}

/// A scroll or axis event: `value` is the scroll distance and
/// `value_discrete` the number of steps; `source` is 1 for a wheel and 2
/// for fingers.
#[derive(Debug, Clone, Copy, PartialEq, Eq)]
pub struct PointerAxisEvent {
    pub time_usec: u64,
    pub axis: u32,
    pub value: i64,
    pub value_discrete: i32,
    pub source: u32,
}

/// A key press (`state == 1`), release (`0`) or synthesised repeat (`2`).
#[derive(Debug, Clone, Copy, PartialEq, Eq)]
pub struct KeyboardKeyEvent {
    pub time_usec: u64,
    pub key: u32,
    pub state: u32,
}

/// A touch event, with the touch point in device coordinates.
#[derive(Debug, Clone, Copy, PartialEq, Eq)]
pub struct TouchEvent {
    pub time_usec: u64,
    pub slot: i32,
    pub seat_slot: i32,
    pub x: i32,
    pub y: i32,
}

/// The positions of the two primary fingers of a touchpad, in device
/// coordinates: `(x0, y0)` is the first active slot, `(x1, y1)` the second.
#[derive(Debug, Clone, Copy, PartialEq, Eq)]
pub struct SlotPair {
    pub x0: i32,
    pub y0: i32,
    pub x1: i32,
    pub y1: i32,
}

/// What the motion of a gesture event is computed from.
///
/// * `Still`: no motion, scale 1 and no rotation.
/// * `Swipe`: the raw touchpad deltas of a swipe; the reported deltas are
///   these scaled by the touchpad's hardware factor.
/// * `Pinch`: the finger positions when the pinch began, and the current
///   ones (none when fewer than two fingers are down); the scale is the
///   ratio of the current to the initial finger distance, the rotation the
///   difference of the angles of the two finger vectors.
#[derive(Debug, Clone, Copy, PartialEq, Eq)]
pub enum GestureMotion {
    Still,
    Swipe { raw_dx: i32, raw_dy: i32 },
    Pinch { base: SlotPair, current: Option<SlotPair> },
}

/// A swipe or pinch gesture event.
#[derive(Debug, Clone, Copy, PartialEq, Eq)]
pub struct GestureEvent {
    pub time_usec: u64,
    pub finger_count: i32,
    pub motion: GestureMotion,
    pub cancelled: bool,
}

/// A switch toggle.
#[derive(Debug, Clone, Copy, PartialEq, Eq)]
pub struct SwitchEvent {
    pub time_usec: u64,
    pub switch: u32,
    pub state: u32,
}

/// The payload of an event.
#[derive(Debug, Clone, Copy, PartialEq, Eq)]
pub enum EventPayload {
    PointerMotion(PointerMotionEvent),
    PointerMotionAbsolute(PointerMotionAbsoluteEvent),
    PointerButton(PointerButtonEvent),
    PointerAxis(PointerAxisEvent),
    KeyboardKey(KeyboardKeyEvent),
    TouchDown(TouchEvent),
    TouchUp(TouchEvent),
    TouchMotion(TouchEvent),
    TouchCancel(TouchEvent),
    TouchFrame { time_usec: u64 },
    GestureSwipeBegin(GestureEvent),
    GestureSwipeUpdate(GestureEvent),
    GestureSwipeEnd(GestureEvent),
    GesturePinchBegin(GestureEvent),
    GesturePinchUpdate(GestureEvent),
    GesturePinchEnd(GestureEvent),
    SwitchToggle(SwitchEvent),
    DeviceAdded,
    DeviceRemoved,
}

/// An event for the caller: its type, its payload, and the handle of the
/// device that it comes from.
#[derive(Debug, Clone, Copy, PartialEq, Eq)]
pub struct LibinputEvent {
    pub event_type: LibinputEventType,
    pub payload: EventPayload,
    pub device: usize,
}

impl LibinputEvent {
    /// The payload is the one that the event type announces: the queries of
    /// the C interface select by type, and read by payload.
    pub open spec fn well_typed(self) -> bool {
        let t = self.event_type;
        match self.payload {
            EventPayload::PointerMotion(_) => t == LibinputEventType::LIBINPUT_EVENT_POINTER_MOTION,
            EventPayload::PointerMotionAbsolute(_) => t
                == LibinputEventType::LIBINPUT_EVENT_POINTER_MOTION_ABSOLUTE,
            EventPayload::PointerButton(_) => t == LibinputEventType::LIBINPUT_EVENT_POINTER_BUTTON,
            EventPayload::PointerAxis(_) => {
                ||| t == LibinputEventType::LIBINPUT_EVENT_POINTER_AXIS
                ||| t == LibinputEventType::LIBINPUT_EVENT_POINTER_SCROLL_WHEEL
                ||| t == LibinputEventType::LIBINPUT_EVENT_POINTER_SCROLL_FINGER
                ||| t == LibinputEventType::LIBINPUT_EVENT_POINTER_SCROLL_CONTINUOUS
            },
            EventPayload::KeyboardKey(_) => t == LibinputEventType::LIBINPUT_EVENT_KEYBOARD_KEY,
            EventPayload::TouchDown(_) => t == LibinputEventType::LIBINPUT_EVENT_TOUCH_DOWN,
            EventPayload::TouchUp(_) => t == LibinputEventType::LIBINPUT_EVENT_TOUCH_UP,
            EventPayload::TouchMotion(_) => t == LibinputEventType::LIBINPUT_EVENT_TOUCH_MOTION,
            EventPayload::TouchCancel(_) => t == LibinputEventType::LIBINPUT_EVENT_TOUCH_CANCEL,
            EventPayload::TouchFrame { .. } => t == LibinputEventType::LIBINPUT_EVENT_TOUCH_FRAME,
            EventPayload::GestureSwipeBegin(_) => t
                == LibinputEventType::LIBINPUT_EVENT_GESTURE_SWIPE_BEGIN,
            EventPayload::GestureSwipeUpdate(_) => t
                == LibinputEventType::LIBINPUT_EVENT_GESTURE_SWIPE_UPDATE,
            EventPayload::GestureSwipeEnd(_) => t == LibinputEventType::LIBINPUT_EVENT_GESTURE_SWIPE_END,
            EventPayload::GesturePinchBegin(_) => t
                == LibinputEventType::LIBINPUT_EVENT_GESTURE_PINCH_BEGIN,
            EventPayload::GesturePinchUpdate(_) => t
                == LibinputEventType::LIBINPUT_EVENT_GESTURE_PINCH_UPDATE,
            EventPayload::GesturePinchEnd(_) => t == LibinputEventType::LIBINPUT_EVENT_GESTURE_PINCH_END,
            EventPayload::SwitchToggle(_) => t == LibinputEventType::LIBINPUT_EVENT_SWITCH_TOGGLE,
            EventPayload::DeviceAdded => t == LibinputEventType::LIBINPUT_EVENT_DEVICE_ADDED,
            EventPayload::DeviceRemoved => t == LibinputEventType::LIBINPUT_EVENT_DEVICE_REMOVED,
        }
    }
}

/// Every event of a sequence is well typed and comes from `device`.
pub open spec fn all_from(events: Seq<LibinputEvent>, device: usize) -> bool {
    forall|j: int| 0 <= j < events.len() ==> (#[trigger] events[j]).well_typed() && events[j].device == device
}

/// One kernel input event, as read from an evdev device node.
#[derive(Debug, Clone, Copy, PartialEq, Eq)]
pub struct RawEvent {
    pub event_type: u16,
    pub code: u16,
    pub value: i32,
}


/// Distinct event types have distinct C interface numbers.
pub proof fn law_event_type_codes_distinct(a: LibinputEventType, b: LibinputEventType)
    requires
        a != b,
    ensures
        event_type_code(a) != event_type_code(b),
{
}

/// Each event type filter accepts exactly the event types of one block of
/// the C interface's numbering: device notifications 1 to 99, pointer events
/// 400 to 499, touch events 500 to 599, tablet tool events 600 to 699,
/// tablet pad events 700 to 799, and gesture events (swipes and pinches:
/// begin, update and end) 800 to 899.
pub proof fn law_event_filters_follow_numbering(t: LibinputEventType)
    ensures
        t.spec_is_device_notify() <==> 1 <= event_type_code(t) < 100,
        t.spec_is_pointer() <==> 400 <= event_type_code(t) < 500,
        t.spec_is_touch() <==> 500 <= event_type_code(t) < 600,
        t.spec_is_tablet_tool() <==> 600 <= event_type_code(t) < 700,
        t.spec_is_tablet_pad() <==> 700 <= event_type_code(t) < 800,
        t.spec_is_gesture() <==> 800 <= event_type_code(t) < 900,
{
}

} // verus!
