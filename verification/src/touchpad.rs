//! Touchpad processing: multi-touch slot tracking, single-finger motion,
//! two-finger scrolling, three-finger swipes, pinch gestures, tap-to-click
//! and click-finger button remapping.
//!
//! The step function decides every event; the fractional accumulation of
//! motion and scroll deltas is left to the caller, to which the step hands
//! the raw deltas in a [`SynAction`].

use vstd::prelude::*;

use crate::codes::{
    elapsed, elapsed_usec, ABS_MT_DISTANCE, ABS_MT_POSITION_X, ABS_MT_POSITION_Y, ABS_MT_SLOT,
    ABS_MT_TRACKING_ID, ABS_X, ABS_Y, AXIS_SCROLL_HORIZONTAL, AXIS_SCROLL_VERTICAL,
    AXIS_SOURCE_FINGER, BTN_LEFT, BTN_MIDDLE, BTN_RIGHT, BTN_TOOL_DOUBLETAP, BTN_TOOL_QUADTAP,
    BTN_TOOL_TRIPLETAP, BTN_TOUCH, EV_ABS, EV_KEY, EV_SYN, MOTION_STALE_USEC, MT_SLOT_COUNT,
    SCROLL_STEP, SYN_REPORT, TAP_TIMEOUT_USEC,
};
use crate::events::{
    all_from, EventPayload, GestureEvent, GestureMotion, LibinputEvent, LibinputEventType, PointerAxisEvent,
    PointerButtonEvent, PointerMotionEvent, RawEvent, SlotPair,
};

verus! {

/// One multi-touch slot: whether a finger is in it, its tracking id, and
/// its position and hover distance in device coordinates.
#[derive(Debug, Clone, Copy, PartialEq, Eq)]
pub struct MtSlot {
    pub active: bool,
    pub tracking_id: i32,
    pub x: i32,
    pub y: i32,
    pub distance: i32,
}

/// What the caller does with the fractional part of the pointer pipeline
/// after an event.
#[derive(Debug, Clone, Copy, PartialEq, Eq)]
pub enum SynAction {
    /// Nothing.
    Nothing,
    /// One-finger motion: accelerate these raw deltas, add the remainders
    /// and report the integral part with [`touchpad_motion_event`].
    Motion { raw_dx: i32, raw_dy: i32 },
    /// Two-finger scroll: scale these raw deltas, add the remainders and
    /// report the integral part with [`push_scroll_finger_events`].
    Scroll { raw_dx: i32, raw_dy: i32 },
    /// Typing is in progress: clear the remainders.
    ResetRemainders,
}

/// The touch state of one touchpad.
///
/// `pinch_base` holds the finger positions when the current pinch began.
pub struct TouchpadState {
    pub touch_active: bool,
    pub touch_fingers: u32,
    pub last_x: Option<i32>,
    pub last_y: Option<i32>,
    pub current_dx: i32,
    pub current_dy: i32,
    pub tap_emitted: bool,
    pub touch_start_time: Option<u64>,
    pub last_movement_time: Option<u64>,
    pub active_click_button: Option<u16>,
    pub mt_slots: Vec<MtSlot>,
    pub current_slot: usize,
    pub pinch_active: bool,
    pub pinch_base: SlotPair,
    pub pinch_fingers: i32,
}

/// The abstract value of a [`TouchpadState`].
pub struct TouchpadView {
    pub touch_active: bool,
    pub touch_fingers: u32,
    pub last_x: Option<i32>,
    pub last_y: Option<i32>,
    pub current_dx: i32,
    pub current_dy: i32,
    pub tap_emitted: bool,
    pub touch_start_time: Option<u64>,
    pub last_movement_time: Option<u64>,
    pub active_click_button: Option<u16>,
    pub mt_slots: Seq<MtSlot>,
    pub current_slot: usize,
    pub pinch_active: bool,
    pub pinch_base: SlotPair,
    pub pinch_fingers: i32,
}

impl View for TouchpadState {
    type V = TouchpadView;

    open spec fn view(&self) -> TouchpadView {
        TouchpadView {
            touch_active: self.touch_active,
            touch_fingers: self.touch_fingers,
            last_x: self.last_x,
            last_y: self.last_y,
            current_dx: self.current_dx,
            current_dy: self.current_dy,
            tap_emitted: self.tap_emitted,
            touch_start_time: self.touch_start_time,
            last_movement_time: self.last_movement_time,
            active_click_button: self.active_click_button,
            mt_slots: self.mt_slots@,
            current_slot: self.current_slot,
            pinch_active: self.pinch_active,
            pinch_base: self.pinch_base,
            pinch_fingers: self.pinch_fingers,
        }
    }
}

/// The outcome of one step: the new state, the events it reports, and what
/// the caller does with the fractional pipeline.
pub struct TouchpadStep {
    pub view: TouchpadView,
    pub events: Seq<LibinputEvent>,
    pub action: SynAction,
}

impl TouchpadView {
    /// Ten slots, a current slot among them, and at most ten fingers.
    pub open spec fn wf(self) -> bool {
        &&& self.mt_slots.len() == MT_SLOT_COUNT
        &&& self.current_slot < MT_SLOT_COUNT
        &&& self.touch_fingers <= MT_SLOT_COUNT
    }
}

/// The slots that hold a finger, in slot order.
pub open spec fn active_slots(slots: Seq<MtSlot>) -> Seq<MtSlot> {
    slots.filter(|m: MtSlot| m.active)
}

/// The number of slots that hold a finger.
pub open spec fn active_count(slots: Seq<MtSlot>) -> nat {
    active_slots(slots).len()
}

/// The positions of the first two fingers, when at least two are down.
pub open spec fn primary_pair(slots: Seq<MtSlot>) -> Option<SlotPair> {
    let a = active_slots(slots);
    if a.len() >= 2 {
        Some(SlotPair { x0: a[0].x, y0: a[0].y, x1: a[1].x, y1: a[1].y })
    } else {
        None
    }
}

/// A pointer button event.
pub open spec fn button_event(ts_usec: u64, button: u16, state: u32, device: usize) -> LibinputEvent {
    LibinputEvent {
        event_type: LibinputEventType::LIBINPUT_EVENT_POINTER_BUTTON,
        payload: EventPayload::PointerButton(
            PointerButtonEvent { time_usec: ts_usec, button: button as u32, state: state },
        ),
        device: device,
    }
}

/// A gesture event of the given type.
pub open spec fn gesture_event(
    event_type: LibinputEventType,
    ts_usec: u64,
    fingers: i32,
    motion: GestureMotion,
    device: usize,
) -> LibinputEvent {
    let g = GestureEvent {
        time_usec: ts_usec,
        finger_count: fingers,
        motion: motion,
        cancelled: false,
    };
    LibinputEvent {
        event_type: event_type,
        payload: match event_type {
            LibinputEventType::LIBINPUT_EVENT_GESTURE_PINCH_BEGIN => EventPayload::GesturePinchBegin(g),
            LibinputEventType::LIBINPUT_EVENT_GESTURE_PINCH_UPDATE => EventPayload::GesturePinchUpdate(g),
            LibinputEventType::LIBINPUT_EVENT_GESTURE_PINCH_END => EventPayload::GesturePinchEnd(g),
            _ => EventPayload::GestureSwipeUpdate(g),
        },
        device: device,
    }
}

/// A finger lands (`BTN_TOUCH` down): the touch starts, the finger count is
/// the number of active slots (at least one), and when two or more fingers
/// land outside a pinch a pinch begins at their current positions.
pub open spec fn touch_down(v: TouchpadView, ts_usec: u64, device: usize, now: u64) -> TouchpadStep {
    let fingers: u32 = if active_count(v.mt_slots) >= 1 {
        active_count(v.mt_slots) as u32
    } else {
        1
    };
    let v1 = TouchpadView {
        touch_active: true,
        touch_start_time: Some(now),
        tap_emitted: false,
        touch_fingers: fingers,
        last_x: None,
        last_y: None,
        ..v
    };
    if fingers >= 2 && !v.pinch_active && primary_pair(v.mt_slots) is Some {
        TouchpadStep {
            view: TouchpadView {
                pinch_active: true,
                pinch_base: primary_pair(v.mt_slots)->0,
                pinch_fingers: fingers as i32,
                ..v1
            },
            events: seq![
                gesture_event(
                    LibinputEventType::LIBINPUT_EVENT_GESTURE_PINCH_BEGIN,
                    ts_usec,
                    fingers as i32,
                    GestureMotion::Still,
                    device,
                ),
            ],
            action: SynAction::Nothing,
        }
    } else {
        TouchpadStep { view: v1, events: Seq::empty(), action: SynAction::Nothing }
    }
}

/// Whether a lift of the fingers is a tap: tapping is enabled, the touch
/// neither moved nor fell in a typing window, it lasted less than 250 ms,
/// and it was made with at most one finger.
pub open spec fn is_tap(v: TouchpadView, cfg_tap: bool, dwt_active: bool, now: u64) -> bool {
    &&& cfg_tap
    &&& !v.tap_emitted
    &&& !dwt_active
    &&& v.touch_start_time is Some
    &&& elapsed(now, v.touch_start_time->0) < TAP_TIMEOUT_USEC
    &&& v.touch_fingers <= 1
}

/// The fingers lift (`BTN_TOUCH` up): a running pinch ends, a tap clicks
/// the left button (press and release), and the touch state is cleared.
pub open spec fn touch_up(
    v: TouchpadView,
    ts_usec: u64,
    device: usize,
    cfg_tap: bool,
    dwt_active: bool,
    now: u64,
) -> TouchpadStep {
    let end_events: Seq<LibinputEvent> = if v.pinch_active {
        seq![
            gesture_event(
                LibinputEventType::LIBINPUT_EVENT_GESTURE_PINCH_END,
                ts_usec,
                v.pinch_fingers,
                GestureMotion::Pinch { base: v.pinch_base, current: primary_pair(v.mt_slots) },
                device,
            ),
        ]
    } else {
        Seq::empty()
    };
    let tap_events: Seq<LibinputEvent> = if is_tap(v, cfg_tap, dwt_active, now) {
        seq![button_event(ts_usec, BTN_LEFT, 1, device), button_event(ts_usec, BTN_LEFT, 0, device)]
    } else {
        Seq::empty()
    };
    TouchpadStep {
        view: TouchpadView {
            touch_active: false,
            pinch_active: false,
            last_x: None,
            last_y: None,
            current_dx: 0,
            current_dy: 0,
            touch_start_time: None,
            touch_fingers: 0,
            ..v
        },
        events: end_events + tap_events,
        action: SynAction::Nothing,
    }
}

/// The button that a physical click reports, and the remembered click
/// button afterwards: a left click with two fingers down is a right click,
/// with three or more a middle click, and its release releases the same
/// button.
pub open spec fn click_mapping(v: TouchpadView, code: u16, value: i32) -> (u16, Option<u16>) {
    if code == BTN_LEFT {
        if value != 0 {
            let mapped = if v.touch_fingers == 2 {
                BTN_RIGHT
            } else if v.touch_fingers >= 3 {
                BTN_MIDDLE
            } else {
                code
            };
            (mapped, Some(mapped))
        } else {
            match v.active_click_button {
                Some(a) => (a, None),
                None => (code, None),
            }
        }
    } else {
        (code, v.active_click_button)
    }
}

/// A physical button: reported, after remapping, when it is the left, right
/// or middle button.
pub open spec fn click(v: TouchpadView, code: u16, value: i32, ts_usec: u64, device: usize) -> TouchpadStep {
    let (mapped, acb) = click_mapping(v, code, value);
    TouchpadStep {
        view: TouchpadView { active_click_button: acb, ..v },
        events: if mapped == BTN_LEFT || mapped == BTN_RIGHT || mapped == BTN_MIDDLE {
            seq![button_event(ts_usec, mapped, value as u32, device)]
        } else {
            Seq::empty()
        },
        action: SynAction::Nothing,
    }
}

/// A key event of a touchpad.
pub open spec fn key_step(
    v: TouchpadView,
    code: u16,
    value: i32,
    ts_usec: u64,
    device: usize,
    cfg_tap: bool,
    dwt_active: bool,
    now: u64,
) -> TouchpadStep {
    if code == BTN_TOUCH {
        if value != 0 {
            touch_down(v, ts_usec, device, now)
        } else {
            touch_up(v, ts_usec, device, cfg_tap, dwt_active, now)
        }
    } else if code == BTN_TOOL_DOUBLETAP {
        TouchpadStep {
            view: TouchpadView { touch_fingers: if value != 0 { 2 } else { 1 }, ..v },
            events: Seq::empty(),
            action: SynAction::Nothing,
        }
    } else if code == BTN_TOOL_TRIPLETAP {
        TouchpadStep {
            view: TouchpadView { touch_fingers: if value != 0 { 3 } else { 2 }, ..v },
            events: Seq::empty(),
            action: SynAction::Nothing,
        }
    } else if code == BTN_TOOL_QUADTAP {
        TouchpadStep {
            view: TouchpadView { touch_fingers: if value != 0 { 4 } else { 3 }, ..v },
            events: Seq::empty(),
            action: SynAction::Nothing,
        }
    } else {
        click(v, code, value, ts_usec, device)
    }
}

/// The last single-touch position on one axis, forgotten when the last
/// movement is more than 50 ms old.
pub open spec fn fresh_position(v: TouchpadView, last: Option<i32>, now: u64) -> Option<i32> {
    if v.last_movement_time is Some && elapsed(now, v.last_movement_time->0) > MOTION_STALE_USEC {
        None
    } else {
        last
    }
}

/// The accumulated delta after a new position on one axis: the distance
/// from the last position is added (with wrapping), unless there is none.
pub open spec fn accumulate(delta: i32, last: Option<i32>, val: i32) -> i32 {
    match last {
        Some(p) => delta.wrapping_add(val.wrapping_sub(p)),
        None => delta,
    }
}

/// An absolute-axis event of a touchpad: multi-touch slot selection, slot
/// contents, and single-touch positions.
pub open spec fn abs_step(v: TouchpadView, code: u16, val: i32, now: u64) -> TouchpadView {
    let cur = v.current_slot as int;
    if code == ABS_MT_SLOT {
        if 0 <= val < v.mt_slots.len() {
            TouchpadView { current_slot: val as usize, ..v }
        } else {
            v
        }
    } else if code == ABS_MT_TRACKING_ID {
        TouchpadView {
            mt_slots: v.mt_slots.update(
                cur,
                MtSlot { active: val >= 0, tracking_id: val, ..v.mt_slots[cur] },
            ),
            ..v
        }
    } else if code == ABS_MT_POSITION_X {
        TouchpadView { mt_slots: v.mt_slots.update(cur, MtSlot { x: val, ..v.mt_slots[cur] }), ..v }
    } else if code == ABS_MT_POSITION_Y {
        TouchpadView { mt_slots: v.mt_slots.update(cur, MtSlot { y: val, ..v.mt_slots[cur] }), ..v }
    } else if code == ABS_MT_DISTANCE {
        TouchpadView {
            mt_slots: v.mt_slots.update(cur, MtSlot { distance: val, ..v.mt_slots[cur] }),
            ..v
        }
    } else if code == ABS_X {
        TouchpadView {
            current_dx: accumulate(v.current_dx, fresh_position(v, v.last_x, now), val),
            last_x: Some(val),
            last_movement_time: Some(now),
            ..v
        }
    } else if code == ABS_Y {
        TouchpadView {
            current_dy: accumulate(v.current_dy, fresh_position(v, v.last_y, now), val),
            last_y: Some(val),
            last_movement_time: Some(now),
            ..v
        }
    } else {
        v
    }
}

/// The number of fingers that a frame's motion is attributed to.
pub open spec fn frame_fingers(v: TouchpadView) -> nat {
    if active_count(v.mt_slots) >= v.touch_fingers {
        active_count(v.mt_slots)
    } else {
        v.touch_fingers as nat
    }
}

/// The end of a hardware frame (`SYN_REPORT`): a running pinch reports an
/// update; typing suppresses the frame's motion; otherwise accumulated
/// motion becomes pointer motion (one finger), scrolling (two fingers) or a
/// swipe (three or more).  A frame never begins a pinch: pinches begin when
/// the touch begins with two or more fingers ([`touch_down`]).
pub open spec fn syn_step(
    v: TouchpadView,
    code: u16,
    ts_usec: u64,
    device: usize,
    dwt_active: bool,
) -> TouchpadStep {
    if code != SYN_REPORT {
        TouchpadStep { view: v, events: Seq::empty(), action: SynAction::Nothing }
    } else if v.pinch_active && !dwt_active {
        TouchpadStep {
            view: TouchpadView { current_dx: 0, current_dy: 0, ..v },
            events: match primary_pair(v.mt_slots) {
                Some(p) => seq![
                    gesture_event(
                        LibinputEventType::LIBINPUT_EVENT_GESTURE_PINCH_UPDATE,
                        ts_usec,
                        v.pinch_fingers,
                        GestureMotion::Pinch { base: v.pinch_base, current: Some(p) },
                        device,
                    ),
                ],
                None => Seq::empty(),
            },
            action: SynAction::Nothing,
        }
    } else if dwt_active {
        TouchpadStep {
            view: TouchpadView { current_dx: 0, current_dy: 0, tap_emitted: true, ..v },
            events: Seq::empty(),
            action: SynAction::ResetRemainders,
        }
    } else if v.current_dx == 0 && v.current_dy == 0 {
        TouchpadStep { view: v, events: Seq::empty(), action: SynAction::Nothing }
    } else {
        let n = frame_fingers(v);
        let v1 = TouchpadView { tap_emitted: true, current_dx: 0, current_dy: 0, ..v };
        if n <= 1 {
            TouchpadStep {
                view: v1,
                events: Seq::empty(),
                action: SynAction::Motion { raw_dx: v.current_dx, raw_dy: v.current_dy },
            }
        } else if n == 2 {
            TouchpadStep {
                view: v1,
                events: Seq::empty(),
                action: SynAction::Scroll { raw_dx: v.current_dx, raw_dy: v.current_dy },
            }
        } else {
            TouchpadStep {
                view: v1,
                events: seq![
                    gesture_event(
                        LibinputEventType::LIBINPUT_EVENT_GESTURE_SWIPE_UPDATE,
                        ts_usec,
                        n as i32,
                        GestureMotion::Swipe { raw_dx: v.current_dx, raw_dy: v.current_dy },
                        device,
                    ),
                ],
                action: SynAction::Nothing,
            }
        }
    }
}

/// One kernel event of a touchpad.  While typing is in progress
/// (`dwt_active`) no tap can complete.
pub open spec fn touchpad_step(
    v: TouchpadView,
    ev: RawEvent,
    ts_usec: u64,
    device: usize,
    cfg_tap: bool,
    dwt_active: bool,
    now: u64,
) -> TouchpadStep {
    let v0 = if dwt_active { TouchpadView { tap_emitted: true, ..v } } else { v };
    if ev.event_type == EV_KEY {
        key_step(v0, ev.code, ev.value, ts_usec, device, cfg_tap, dwt_active, now)
    } else if ev.event_type == EV_ABS {
        TouchpadStep {
            view: abs_step(v0, ev.code, ev.value, now),
            events: Seq::empty(),
            action: SynAction::Nothing,
        }
    } else if ev.event_type == EV_SYN {
        syn_step(v0, ev.code, ts_usec, device, dwt_active)
    } else {
        TouchpadStep { view: v0, events: Seq::empty(), action: SynAction::Nothing }
    }
}


/// The state of a touchpad that no finger touched yet: ten empty slots,
/// slot 0 selected, no touch, no pinch.
pub open spec fn initial_touchpad() -> TouchpadView {
    TouchpadView {
        touch_active: false,
        touch_fingers: 0,
        last_x: None,
        last_y: None,
        current_dx: 0,
        current_dy: 0,
        tap_emitted: false,
        touch_start_time: None,
        last_movement_time: None,
        active_click_button: None,
        mt_slots: Seq::new(
            MT_SLOT_COUNT as nat,
            |i: int| MtSlot { active: false, tracking_id: 0, x: 0, y: 0, distance: 0 },
        ),
        current_slot: 0,
        pinch_active: false,
        pinch_base: SlotPair { x0: 0, y0: 0, x1: 0, y1: 0 },
        pinch_fingers: 0,
    }
}

/// The filter of a one-longer prefix.
proof fn lemma_active_take_succ(slots: Seq<MtSlot>, i: int)
    requires
        0 <= i < slots.len(),
    ensures
        active_slots(slots.take(i + 1)) == (if slots[i].active {
            active_slots(slots.take(i)).push(slots[i])
        } else {
            active_slots(slots.take(i))
        }),
{
    assert(slots.take(i + 1).drop_last() =~= slots.take(i));
    assert(slots.take(i + 1).last() == slots[i]);
    reveal(Seq::filter);
}

/// At most as many fingers as slots.
proof fn lemma_active_count_bound(slots: Seq<MtSlot>)
    ensures
        active_count(slots) <= slots.len(),
{
    slots.lemma_filter_len(|m: MtSlot| m.active);
}

impl TouchpadState {
    /// A touchpad with no finger down: ten empty slots, slot 0 selected.
    pub fn new() -> (r: TouchpadState)
        ensures
            r@ == initial_touchpad(),
            r@.wf(),
    {
        let mut slots: Vec<MtSlot> = Vec::new();
        let mut i: usize = 0;
        while i < MT_SLOT_COUNT
            invariant
                i <= MT_SLOT_COUNT,
                slots@ == Seq::new(
                    i as nat,
                    |j: int| MtSlot { active: false, tracking_id: 0, x: 0, y: 0, distance: 0 },
                ),
            decreases MT_SLOT_COUNT - i,
        {
            slots.push(MtSlot { active: false, tracking_id: 0, x: 0, y: 0, distance: 0 });
            i = i + 1;
            proof {
                assert(slots@ =~= Seq::new(
                    i as nat,
                    |j: int| MtSlot { active: false, tracking_id: 0, x: 0, y: 0, distance: 0 },
                ));
            }
        }
        TouchpadState {
            touch_active: false,
            touch_fingers: 0,
            last_x: None,
            last_y: None,
            current_dx: 0,
            current_dy: 0,
            tap_emitted: false,
            touch_start_time: None,
            last_movement_time: None,
            active_click_button: None,
            mt_slots: slots,
            current_slot: 0,
            pinch_active: false,
            pinch_base: SlotPair { x0: 0, y0: 0, x1: 0, y1: 0 },
            pinch_fingers: 0,
        }
    }

    /// The number of slots that hold a finger.
    pub fn active_slot_count(&self) -> (r: usize)
        ensures
            r == active_count(self.mt_slots@),
    {
        let ghost slots = self.mt_slots@;
        let n = self.mt_slots.len();
        let mut count: usize = 0;
        let mut i: usize = 0;
        while i < n
            invariant
                n == slots.len(),
                slots == self.mt_slots@,
                0 <= i <= n,
                count == active_count(slots.take(i as int)),
                count <= i,
            decreases n - i,
        {
            proof {
                lemma_active_take_succ(slots, i as int);
            }
            if self.mt_slots[i].active {
                count = count + 1;
            }
            i = i + 1;
        }
        proof {
            assert(slots.take(n as int) =~= slots);
        }
        count
    }

    /// The positions of the first two fingers, when at least two are down.
    pub fn primary_slot_pair(&self) -> (r: Option<SlotPair>)
        ensures
            r == primary_pair(self.mt_slots@),
    {
        let ghost slots = self.mt_slots@;
        let n = self.mt_slots.len();
        let mut first: Option<MtSlot> = None;
        let mut second: Option<MtSlot> = None;
        let mut i: usize = 0;
        while i < n
            invariant
                n == slots.len(),
                slots == self.mt_slots@,
                0 <= i <= n,
                first == (if active_slots(slots.take(i as int)).len() >= 1 {
                    Some(active_slots(slots.take(i as int))[0])
                } else {
                    None::<MtSlot>
                }),
                second == (if active_slots(slots.take(i as int)).len() >= 2 {
                    Some(active_slots(slots.take(i as int))[1])
                } else {
                    None::<MtSlot>
                }),
            decreases n - i,
        {
            proof {
                lemma_active_take_succ(slots, i as int);
            }
            let s = self.mt_slots[i];
            if s.active {
                if first.is_none() {
                    first = Some(s);
                } else if second.is_none() {
                    second = Some(s);
                }
            }
            i = i + 1;
        }
        proof {
            assert(slots.take(n as int) =~= slots);
        }
        match (first, second) {
            (Some(a), Some(b)) => Some(SlotPair { x0: a.x, y0: a.y, x1: b.x, y1: b.y }),
            _ => None,
        }
    }

    fn button(ts_usec: u64, button: u16, state: u32, device: usize) -> (r: LibinputEvent)
        ensures
            r == button_event(ts_usec, button, state, device),
    {
        LibinputEvent {
            event_type: LibinputEventType::LIBINPUT_EVENT_POINTER_BUTTON,
            payload: EventPayload::PointerButton(
                PointerButtonEvent { time_usec: ts_usec, button: button as u32, state: state },
            ),
            device: device,
        }
    }

    fn gesture(
        event_type: LibinputEventType,
        ts_usec: u64,
        fingers: i32,
        motion: GestureMotion,
        device: usize,
    ) -> (r: LibinputEvent)
        ensures
            r == gesture_event(event_type, ts_usec, fingers, motion, device),
    {
        let g = GestureEvent {
            time_usec: ts_usec,
            finger_count: fingers,
            motion: motion,
            cancelled: false,
        };
        LibinputEvent {
            event_type: event_type,
            payload: match event_type {
                LibinputEventType::LIBINPUT_EVENT_GESTURE_PINCH_BEGIN => EventPayload::GesturePinchBegin(g),
                LibinputEventType::LIBINPUT_EVENT_GESTURE_PINCH_UPDATE => EventPayload::GesturePinchUpdate(g),
                LibinputEventType::LIBINPUT_EVENT_GESTURE_PINCH_END => EventPayload::GesturePinchEnd(g),
                _ => EventPayload::GestureSwipeUpdate(g),
            },
            device: device,
        }
    }

    fn do_touch_down(&mut self, ts_usec: u64, device: usize, out: &mut Vec<LibinputEvent>, now: u64)
        requires
            old(self)@.wf(),
        ensures
            final(self)@ == touch_down(old(self)@, ts_usec, device, now).view,
            final(out)@ == old(out)@ + touch_down(old(self)@, ts_usec, device, now).events,
            final(self)@.wf(),
    {
        proof {
            lemma_active_count_bound(self.mt_slots@);
        }
        let count = self.active_slot_count();
        self.touch_active = true;
        self.touch_start_time = Some(now);
        self.tap_emitted = false;
        self.touch_fingers = if count >= 1 { count as u32 } else { 1 };
        self.last_x = None;
        self.last_y = None;
        if self.touch_fingers >= 2 && !self.pinch_active {
            if let Some(pair) = self.primary_slot_pair() {
                self.pinch_active = true;
                self.pinch_base = pair;
                self.pinch_fingers = self.touch_fingers as i32;
                out.push(
                    Self::gesture(
                        LibinputEventType::LIBINPUT_EVENT_GESTURE_PINCH_BEGIN,
                        ts_usec,
                        self.pinch_fingers,
                        GestureMotion::Still,
                        device,
                    ),
                );
            }
        }
        proof {
            assert(out@ =~= old(out)@ + touch_down(old(self)@, ts_usec, device, now).events);
        }
    }

    fn do_touch_up(
        &mut self,
        ts_usec: u64,
        device: usize,
        out: &mut Vec<LibinputEvent>,
        cfg_tap: bool,
        dwt_active: bool,
        now: u64,
    )
        requires
            old(self)@.wf(),
        ensures
            final(self)@ == touch_up(old(self)@, ts_usec, device, cfg_tap, dwt_active, now).view,
            final(out)@ == old(out)@ + touch_up(
                old(self)@,
                ts_usec,
                device,
                cfg_tap,
                dwt_active,
                now,
            ).events,
            final(self)@.wf(),
    {
        self.touch_active = false;
        if self.pinch_active {
            self.pinch_active = false;
            let current = self.primary_slot_pair();
            out.push(
                Self::gesture(
                    LibinputEventType::LIBINPUT_EVENT_GESTURE_PINCH_END,
                    ts_usec,
                    self.pinch_fingers,
                    GestureMotion::Pinch { base: self.pinch_base, current: current },
                    device,
                ),
            );
        }
        if cfg_tap && !self.tap_emitted && !dwt_active {
            if let Some(start) = self.touch_start_time {
                if elapsed_usec(now, start) < TAP_TIMEOUT_USEC && self.touch_fingers <= 1 {
                    out.push(Self::button(ts_usec, BTN_LEFT, 1, device));
                    out.push(Self::button(ts_usec, BTN_LEFT, 0, device));
                }
            }
        }
        self.last_x = None;
        self.last_y = None;
        self.current_dx = 0;
        self.current_dy = 0;
        self.touch_start_time = None;
        self.touch_fingers = 0;
        proof {
            assert(out@ =~= old(out)@ + touch_up(
                old(self)@,
                ts_usec,
                device,
                cfg_tap,
                dwt_active,
                now,
            ).events);
        }
    }

    fn do_click(&mut self, code: u16, value: i32, ts_usec: u64, device: usize, out: &mut Vec<LibinputEvent>)
        requires
            old(self)@.wf(),
        ensures
            final(self)@ == click(old(self)@, code, value, ts_usec, device).view,
            final(out)@ == old(out)@ + click(old(self)@, code, value, ts_usec, device).events,
            final(self)@.wf(),
    {
        let mut mapped = code;
        if code == BTN_LEFT {
            if value != 0 {
                if self.touch_fingers == 2 {
                    mapped = BTN_RIGHT;
                } else if self.touch_fingers >= 3 {
                    mapped = BTN_MIDDLE;
                }
                self.active_click_button = Some(mapped);
            } else if let Some(active) = self.active_click_button {
                mapped = active;
                self.active_click_button = None;
            }
        }
        if mapped == BTN_LEFT || mapped == BTN_RIGHT || mapped == BTN_MIDDLE {
            out.push(Self::button(ts_usec, mapped, value as u32, device));
        }
        proof {
            assert(out@ =~= old(out)@ + click(old(self)@, code, value, ts_usec, device).events);
        }
    }

    fn do_abs(&mut self, code: u16, val: i32, now: u64)
        requires
            old(self)@.wf(),
        ensures
            final(self)@ == abs_step(old(self)@, code, val, now),
            final(self)@.wf(),
    {
        let cur = self.current_slot;
        if code == ABS_MT_SLOT {
            if val >= 0 && (val as usize) < self.mt_slots.len() {
                self.current_slot = val as usize;
            }
        } else if code == ABS_MT_TRACKING_ID {
            let mut s = self.mt_slots[cur];
            s.active = val >= 0;
            s.tracking_id = val;
            self.mt_slots.set(cur, s);
        } else if code == ABS_MT_POSITION_X {
            let mut s = self.mt_slots[cur];
            s.x = val;
            self.mt_slots.set(cur, s);
        } else if code == ABS_MT_POSITION_Y {
            let mut s = self.mt_slots[cur];
            s.y = val;
            self.mt_slots.set(cur, s);
        } else if code == ABS_MT_DISTANCE {
            let mut s = self.mt_slots[cur];
            s.distance = val;
            self.mt_slots.set(cur, s);
        } else if code == ABS_X {
            if let Some(last) = self.last_movement_time {
                if elapsed_usec(now, last) > MOTION_STALE_USEC {
                    self.last_x = None;
                }
            }
            self.last_movement_time = Some(now);
            if let Some(px) = self.last_x {
                self.current_dx = self.current_dx.wrapping_add(val.wrapping_sub(px));
            }
            self.last_x = Some(val);
        } else if code == ABS_Y {
            if let Some(last) = self.last_movement_time {
                if elapsed_usec(now, last) > MOTION_STALE_USEC {
                    self.last_y = None;
                }
            }
            self.last_movement_time = Some(now);
            if let Some(py) = self.last_y {
                self.current_dy = self.current_dy.wrapping_add(val.wrapping_sub(py));
            }
            self.last_y = Some(val);
        }
        proof {
            assert(self.mt_slots@ =~= abs_step(old(self)@, code, val, now).mt_slots);
        }
    }

    fn do_syn(
        &mut self,
        code: u16,
        ts_usec: u64,
        device: usize,
        out: &mut Vec<LibinputEvent>,
        dwt_active: bool,
    ) -> (r: SynAction)
        requires
            old(self)@.wf(),
        ensures
            final(self)@ == syn_step(old(self)@, code, ts_usec, device, dwt_active).view,
            final(out)@ == old(out)@ + syn_step(old(self)@, code, ts_usec, device, dwt_active).events,
            r == syn_step(old(self)@, code, ts_usec, device, dwt_active).action,
            final(self)@.wf(),
    {
        if code != SYN_REPORT {
            proof {
                assert(out@ =~= old(out)@ + syn_step(old(self)@, code, ts_usec, device, dwt_active).events);
            }
            return SynAction::Nothing;
        }
        if self.pinch_active && !dwt_active {
            if let Some(pair) = self.primary_slot_pair() {
                out.push(
                    Self::gesture(
                        LibinputEventType::LIBINPUT_EVENT_GESTURE_PINCH_UPDATE,
                        ts_usec,
                        self.pinch_fingers,
                        GestureMotion::Pinch { base: self.pinch_base, current: Some(pair) },
                        device,
                    ),
                );
            }
            self.current_dx = 0;
            self.current_dy = 0;
            proof {
                assert(out@ =~= old(out)@ + syn_step(old(self)@, code, ts_usec, device, dwt_active).events);
            }
            return SynAction::Nothing;
        }
        let has_movement = self.current_dx != 0 || self.current_dy != 0;
        if dwt_active {
            self.current_dx = 0;
            self.current_dy = 0;
            self.tap_emitted = true;
            proof {
                assert(out@ =~= old(out)@ + syn_step(old(self)@, code, ts_usec, device, dwt_active).events);
            }
            return SynAction::ResetRemainders;
        }
        if !has_movement {
            proof {
                assert(out@ =~= old(out)@ + syn_step(old(self)@, code, ts_usec, device, dwt_active).events);
            }
            return SynAction::Nothing;
        }
        self.tap_emitted = true;
        proof {
            lemma_active_count_bound(self.mt_slots@);
        }
        let count = self.active_slot_count();
        let fingers = self.touch_fingers as usize;
        let n = if count >= fingers { count } else { fingers };
        let raw_dx = self.current_dx;
        let raw_dy = self.current_dy;
        let action = if n <= 1 {
            SynAction::Motion { raw_dx: raw_dx, raw_dy: raw_dy }
        } else if n == 2 {
            SynAction::Scroll { raw_dx: raw_dx, raw_dy: raw_dy }
        } else {
            out.push(
                Self::gesture(
                    LibinputEventType::LIBINPUT_EVENT_GESTURE_SWIPE_UPDATE,
                    ts_usec,
                    n as i32,
                    GestureMotion::Swipe { raw_dx: raw_dx, raw_dy: raw_dy },
                    device,
                ),
            );
            SynAction::Nothing
        };
        self.current_dx = 0;
        self.current_dy = 0;
        proof {
            assert(out@ =~= old(out)@ + syn_step(old(self)@, code, ts_usec, device, dwt_active).events);
        }
        action
    }

    /// Processes one kernel event of a touchpad: updates the touch state,
    /// appends the events it reports to `out`, and says what the caller does
    /// with the fractional motion pipeline.
    pub fn process_absolute_event(
        &mut self,
        ev: &RawEvent,
        ts_usec: u64,
        device: usize,
        out: &mut Vec<LibinputEvent>,
        cfg_tap: bool,
        dwt_active: bool,
        now: u64,
    ) -> (r: SynAction)
        requires
            old(self)@.wf(),
        ensures
            final(self)@ == touchpad_step(
                old(self)@,
                *ev,
                ts_usec,
                device,
                cfg_tap,
                dwt_active,
                now,
            ).view,
            final(out)@ == old(out)@ + touchpad_step(
                old(self)@,
                *ev,
                ts_usec,
                device,
                cfg_tap,
                dwt_active,
                now,
            ).events,
            r == touchpad_step(old(self)@, *ev, ts_usec, device, cfg_tap, dwt_active, now).action,
            final(self)@.wf(),
    {
        if dwt_active {
            self.tap_emitted = true;
        }
        if ev.event_type == EV_KEY {
            let code = ev.code;
            let value = ev.value;
            if code == BTN_TOUCH {
                if value != 0 {
                    self.do_touch_down(ts_usec, device, out, now);
                } else {
                    self.do_touch_up(ts_usec, device, out, cfg_tap, dwt_active, now);
                }
            } else if code == BTN_TOOL_DOUBLETAP {
                self.touch_fingers = if value != 0 { 2 } else { 1 };
            } else if code == BTN_TOOL_TRIPLETAP {
                self.touch_fingers = if value != 0 { 3 } else { 2 };
            } else if code == BTN_TOOL_QUADTAP {
                self.touch_fingers = if value != 0 { 4 } else { 3 };
            } else {
                self.do_click(code, value, ts_usec, device, out);
            }
            proof {
                assert(out@ =~= old(out)@ + touchpad_step(
                    old(self)@,
                    *ev,
                    ts_usec,
                    device,
                    cfg_tap,
                    dwt_active,
                    now,
                ).events);
            }
            SynAction::Nothing
        } else if ev.event_type == EV_ABS {
            self.do_abs(ev.code, ev.value, now);
            proof {
                assert(out@ =~= old(out)@ + touchpad_step(
                    old(self)@,
                    *ev,
                    ts_usec,
                    device,
                    cfg_tap,
                    dwt_active,
                    now,
                ).events);
            }
            SynAction::Nothing
        } else if ev.event_type == EV_SYN {
            self.do_syn(ev.code, ts_usec, device, out, dwt_active)
        } else {
            proof {
                assert(out@ =~= old(out)@ + touchpad_step(
                    old(self)@,
                    *ev,
                    ts_usec,
                    device,
                    cfg_tap,
                    dwt_active,
                    now,
                ).events);
            }
            SynAction::Nothing
        }
    }
}


/// The pointer motion of a touchpad frame: `dx`/`dy` are the deltas left
/// after acceleration and rounding, `raw_dx`/`raw_dy` the frame's raw deltas.
pub open spec fn touchpad_motion(
    ts_usec: u64,
    dx: i32,
    dy: i32,
    raw_dx: i32,
    raw_dy: i32,
    device: usize,
) -> LibinputEvent {
    LibinputEvent {
        event_type: LibinputEventType::LIBINPUT_EVENT_POINTER_MOTION,
        payload: EventPayload::PointerMotion(
            PointerMotionEvent {
                time_usec: ts_usec,
                dx: dx,
                dy: dy,
                raw_dx: raw_dx,
                raw_dy: raw_dy,
                from_touchpad: true,
            },
        ),
        device: device,
    }
}

/// The finger scroll event on one axis for `steps` whole steps; natural
/// scrolling reverses the direction.
pub open spec fn finger_scroll(
    ts_usec: u64,
    axis: u32,
    steps: i32,
    natural: bool,
    device: usize,
) -> LibinputEvent {
    let v: i32 = if natural { 0i32.wrapping_sub(steps) } else { steps };
    LibinputEvent {
        event_type: LibinputEventType::LIBINPUT_EVENT_POINTER_SCROLL_FINGER,
        payload: EventPayload::PointerAxis(
            PointerAxisEvent {
                time_usec: ts_usec,
                axis: axis,
                value: (v as i64 * SCROLL_STEP) as i64,
                value_discrete: v,
                source: AXIS_SOURCE_FINGER,
            },
        ),
        device: device,
    }
}

/// The motion event of a one-finger frame, once the caller has accelerated
/// and rounded the raw deltas to `dx`/`dy`: none when both round to zero.
pub fn touchpad_motion_event(
    ts_usec: u64,
    dx: i32,
    dy: i32,
    raw_dx: i32,
    raw_dy: i32,
    device: usize,
) -> (r: Option<LibinputEvent>)
    ensures
        r == (if dx != 0 || dy != 0 {
            Some(touchpad_motion(ts_usec, dx, dy, raw_dx, raw_dy, device))
        } else {
            None
        }),
{
    if dx != 0 || dy != 0 {
        Some(
            LibinputEvent {
                event_type: LibinputEventType::LIBINPUT_EVENT_POINTER_MOTION,
                payload: EventPayload::PointerMotion(
                    PointerMotionEvent {
                        time_usec: ts_usec,
                        dx: dx,
                        dy: dy,
                        raw_dx: raw_dx,
                        raw_dy: raw_dy,
                        from_touchpad: true,
                    },
                ),
                device: device,
            },
        )
    } else {
        None
    }
}

fn finger_scroll_event(ts_usec: u64, axis: u32, steps: i32, natural: bool, device: usize) -> (r:
    LibinputEvent)
    ensures
        r == finger_scroll(ts_usec, axis, steps, natural, device),
{
    let v: i32 = if natural { 0i32.wrapping_sub(steps) } else { steps };
    LibinputEvent {
        event_type: LibinputEventType::LIBINPUT_EVENT_POINTER_SCROLL_FINGER,
        payload: EventPayload::PointerAxis(
            PointerAxisEvent {
                time_usec: ts_usec,
                axis: axis,
                value: v as i64 * SCROLL_STEP,
                value_discrete: v,
                source: AXIS_SOURCE_FINGER,
            },
        ),
        device: device,
    }
}

/// The scroll events of a two-finger frame for whole steps: a vertical
/// event when `steps_y != 0`, then a horizontal one when `steps_x != 0`.
pub open spec fn scroll_finger_events(
    ts_usec: u64,
    steps_x: i32,
    steps_y: i32,
    natural: bool,
    device: usize,
) -> Seq<LibinputEvent> {
    (if steps_y != 0 {
        seq![finger_scroll(ts_usec, AXIS_SCROLL_VERTICAL, steps_y, natural, device)]
    } else {
        Seq::<LibinputEvent>::empty()
    }) + (if steps_x != 0 {
        seq![finger_scroll(ts_usec, AXIS_SCROLL_HORIZONTAL, steps_x, natural, device)]
    } else {
        Seq::<LibinputEvent>::empty()
    })
}

/// The scroll events of a two-finger frame, once the caller has scaled and
/// rounded the raw deltas to whole steps: a vertical event when
/// `steps_y != 0`, then a horizontal one when `steps_x != 0`.
pub fn push_scroll_finger_events(
    ts_usec: u64,
    steps_x: i32,
    steps_y: i32,
    natural: bool,
    device: usize,
    out: &mut Vec<LibinputEvent>,
)
    ensures
        final(out)@ == old(out)@ + scroll_finger_events(ts_usec, steps_x, steps_y, natural, device),
{
    if steps_y != 0 {
        out.push(finger_scroll_event(ts_usec, AXIS_SCROLL_VERTICAL, steps_y, natural, device));
    }
    if steps_x != 0 {
        out.push(finger_scroll_event(ts_usec, AXIS_SCROLL_HORIZONTAL, steps_x, natural, device));
    }
    proof {
        assert(out@ =~= old(out)@ + scroll_finger_events(ts_usec, steps_x, steps_y, natural, device));
    }
}


/// The event types that carry pointer motion, scrolling or swipes.
pub open spec fn is_motion_type(t: LibinputEventType) -> bool {
    ||| t == LibinputEventType::LIBINPUT_EVENT_POINTER_MOTION
    ||| t == LibinputEventType::LIBINPUT_EVENT_POINTER_SCROLL_FINGER
    ||| t == LibinputEventType::LIBINPUT_EVENT_GESTURE_SWIPE_UPDATE
}

/// The button event that a touchpad reports, spelled out.
pub open spec fn button_report(ts_usec: u64, button: u16, state: u32, device: usize) -> LibinputEvent {
    LibinputEvent {
        event_type: LibinputEventType::LIBINPUT_EVENT_POINTER_BUTTON,
        payload: EventPayload::PointerButton(
            PointerButtonEvent { time_usec: ts_usec, button: button as u32, state: state },
        ),
        device: device,
    }
}

/// The button that a left click with `fingers` fingers down reports:
/// right (0x111) with two, middle (0x112) with three or more, else left
/// (0x110).
pub open spec fn clickfinger_button(fingers: u32) -> u16 {
    if fingers == 2 {
        0x111
    } else if fingers >= 3 {
        0x112
    } else {
        0x110
    }
}

/// Physical clicks on a touchpad, over all states: a left click reports
/// exactly one button event, with the button that the number of fingers
/// selects (right with two, middle with three or more, else left) and the
/// click's value as its state, and its release reports that same button
/// with state 0, whatever happened to the finger count in between; the
/// right and middle buttons report themselves.  Clicks hand nothing to the
/// pointer pipeline.
pub proof fn law_click_reports_one_button(
    v: TouchpadView,
    code: u16,
    value: i32,
    ts_usec: u64,
    up_ts: u64,
    device: usize,
    cfg_tap: bool,
    dwt_active: bool,
    now: u64,
    later_fingers: u32,
)
    requires
        v.wf(),
        code == 0x110 || code == 0x111 || code == 0x112,
        value != 0,
    ensures
        ({
            let press = touchpad_step(
                v,
                RawEvent { event_type: 1, code: code, value: value },
                ts_usec,
                device,
                cfg_tap,
                dwt_active,
                now,
            );
            let b: u16 = if code == 0x110 { clickfinger_button(v.touch_fingers) } else { code };
            let v1 = TouchpadView { touch_fingers: later_fingers, ..press.view };
            let release = touchpad_step(
                v1,
                RawEvent { event_type: 1, code: code, value: 0 },
                up_ts,
                device,
                cfg_tap,
                dwt_active,
                now,
            );
            &&& press.events == seq![button_report(ts_usec, b, value as u32, device)]
            &&& press.action == SynAction::Nothing
            &&& code == 0x110 ==> release.events == seq![button_report(up_ts, b, 0, device)]
            &&& code != 0x110 ==> press.view.active_click_button == v.active_click_button
        }),
{
}

/// The fingers of a pinch are the first two active slots: when slot `i` is
/// the first slot with a finger and slot `j` the next one, the pinch pair
/// is the position of slot `i` followed by that of slot `j`.
pub proof fn law_pinch_pair_is_first_two_fingers(s: Seq<MtSlot>, i: int, j: int)
    requires
        0 <= i < j < s.len(),
        s[i].active,
        s[j].active,
        forall|k: int| 0 <= k < j && k != i ==> !(#[trigger] s[k]).active,
    ensures
        primary_pair(s) == Some(SlotPair { x0: s[i].x, y0: s[i].y, x1: s[j].x, y1: s[j].y }),
{
    lemma_first_two_active(s, i, j, s.len() as int);
    assert(s.take(s.len() as int) =~= s);
}

proof fn lemma_first_two_active(s: Seq<MtSlot>, i: int, j: int, k: int)
    requires
        0 <= i < j < s.len(),
        s[i].active,
        s[j].active,
        forall|m: int| 0 <= m < j && m != i ==> !(#[trigger] s[m]).active,
        0 <= k <= s.len(),
    ensures
        k <= i ==> active_slots(s.take(k)).len() == 0,
        i < k <= j ==> active_slots(s.take(k)) == seq![s[i]],
        j < k ==> active_slots(s.take(k)).len() >= 2 && active_slots(s.take(k))[0] == s[i]
            && active_slots(s.take(k))[1] == s[j],
    decreases k,
{
    if k == 0 {
        assert(s.take(0) =~= Seq::<MtSlot>::empty());
        reveal(Seq::filter);
        assert(active_slots(s.take(0)) =~= Seq::<MtSlot>::empty());
    } else {
        lemma_first_two_active(s, i, j, k - 1);
        lemma_active_take_succ(s, k - 1);
        if k - 1 == i {
            assert(active_slots(s.take(k)) =~= seq![s[i]]);
        } else if i < k - 1 && k - 1 < j {
            assert(!s[k - 1].active);
        } else if k - 1 == j {
            assert(active_slots(s.take(k)) =~= seq![s[i], s[j]]);
        } else if k - 1 < i {
            assert(!s[k - 1].active);
        }
    }
}

/// Disable-while-typing: while typing is in progress a touchpad reports no
/// motion, scrolling or swipe, hands no motion to the caller, and a lift of
/// the fingers never taps.
pub proof fn law_typing_suppresses_touchpad(
    v: TouchpadView,
    ev: RawEvent,
    ts_usec: u64,
    device: usize,
    cfg_tap: bool,
    now: u64,
)
    requires
        v.wf(),
    ensures
        ({
            let st = touchpad_step(v, ev, ts_usec, device, cfg_tap, true, now);
            &&& !(st.action is Motion)
            &&& !(st.action is Scroll)
            &&& forall|j: int|
                0 <= j < st.events.len() ==> !is_motion_type(#[trigger] st.events[j].event_type)
            &&& (ev.event_type == EV_KEY && ev.code == BTN_TOUCH && ev.value == 0) ==> forall|
                j: int,
            |
                0 <= j < st.events.len() ==> (#[trigger] st.events[j]).event_type
                    != LibinputEventType::LIBINPUT_EVENT_POINTER_BUTTON
        }),
{
}

/// A touch that moved the pointer is no tap: once a frame turned the
/// touch's movement into motion, lifting the finger clicks nothing.
pub proof fn law_motion_cancels_tap(
    v: TouchpadView,
    ts_usec: u64,
    device: usize,
    cfg_tap: bool,
    now: u64,
)
    requires
        v.wf(),
        !v.pinch_active,
        v.current_dx != 0 || v.current_dy != 0,
    ensures
        ({
            let v1 = syn_step(v, SYN_REPORT, ts_usec, device, false).view;
            let up = touch_up(v1, ts_usec, device, cfg_tap, false, now);
            forall|j: int|
                0 <= j < up.events.len() ==> (#[trigger] up.events[j]).event_type
                    != LibinputEventType::LIBINPUT_EVENT_POINTER_BUTTON
        }),
{
}

/// A pinch begins when a touch begins with two or more fingers on the
/// surface outside a pinch: it records the fingers' positions and reports
/// a pinch start with no motion.
pub proof fn law_pinch_begins_with_two_fingers(v: TouchpadView, ts_usec: u64, device: usize, now: u64)
    requires
        v.wf(),
        !v.pinch_active,
        active_count(v.mt_slots) >= 2,
    ensures
        ({
            let st = touch_down(v, ts_usec, device, now);
            &&& st.view.pinch_active
            &&& primary_pair(v.mt_slots) == Some(st.view.pinch_base)
            &&& st.view.pinch_fingers == active_count(v.mt_slots)
            &&& st.events == seq![
                LibinputEvent {
                    event_type: LibinputEventType::LIBINPUT_EVENT_GESTURE_PINCH_BEGIN,
                    payload: EventPayload::GesturePinchBegin(
                        GestureEvent {
                            time_usec: ts_usec,
                            finger_count: active_count(v.mt_slots) as i32,
                            motion: GestureMotion::Still,
                            cancelled: false,
                        },
                    ),
                    device: device,
                },
            ]
        }),
{
    lemma_active_count_bound(v.mt_slots);
}

/// A single finger starts no pinch, neither when it lands nor at the end
/// of a frame.
pub proof fn law_one_finger_no_pinch(v: TouchpadView, ts_usec: u64, device: usize, now: u64, dwt_active: bool)
    requires
        v.wf(),
        !v.pinch_active,
        active_count(v.mt_slots) <= 1,
    ensures
        !touch_down(v, ts_usec, device, now).view.pinch_active,
        touch_down(v, ts_usec, device, now).events.len() == 0,
        !syn_step(v, SYN_REPORT, ts_usec, device, dwt_active).view.pinch_active,
{
}

/// Every frame of a running pinch reports an update measured against the
/// positions at which the pinch began, as long as two fingers are down.
pub proof fn law_pinch_update_keeps_base(v: TouchpadView, ts_usec: u64, device: usize)
    requires
        v.wf(),
        v.pinch_active,
        primary_pair(v.mt_slots) is Some,
    ensures
        ({
            let st = syn_step(v, SYN_REPORT, ts_usec, device, false);
            &&& st.view.pinch_active
            &&& st.view.pinch_base == v.pinch_base
            &&& st.events == seq![
                LibinputEvent {
                    event_type: LibinputEventType::LIBINPUT_EVENT_GESTURE_PINCH_UPDATE,
                    payload: EventPayload::GesturePinchUpdate(
                        GestureEvent {
                            time_usec: ts_usec,
                            finger_count: v.pinch_fingers,
                            motion: GestureMotion::Pinch {
                                base: v.pinch_base,
                                current: primary_pair(v.mt_slots),
                            },
                            cancelled: false,
                        },
                    ),
                    device: device,
                },
            ]
        }),
{
}

/// Lifting the fingers ends a running pinch, uncancelled, measured against
/// the positions at which it began.
pub proof fn law_pinch_ends_on_lift(
    v: TouchpadView,
    ts_usec: u64,
    device: usize,
    cfg_tap: bool,
    dwt_active: bool,
    now: u64,
)
    requires
        v.wf(),
        v.pinch_active,
    ensures
        ({
            let st = touch_up(v, ts_usec, device, cfg_tap, dwt_active, now);
            &&& !st.view.pinch_active
            &&& st.events.len() >= 1
            &&& st.events[0] == (LibinputEvent {
                event_type: LibinputEventType::LIBINPUT_EVENT_GESTURE_PINCH_END,
                payload: EventPayload::GesturePinchEnd(
                    GestureEvent {
                        time_usec: ts_usec,
                        finger_count: v.pinch_fingers,
                        motion: GestureMotion::Pinch {
                            base: v.pinch_base,
                            current: primary_pair(v.mt_slots),
                        },
                        cancelled: false,
                    },
                ),
                device: device,
            })
            &&& st.events[0].payload matches EventPayload::GesturePinchEnd(g) && !g.cancelled
        }),
{
}

/// A physical left click releases the button it pressed: with two fingers
/// down it presses and releases the right button, with three or more the
/// middle one, whatever the finger count is at the release.
pub proof fn law_click_release_matches_press(v: TouchpadView, value: i32, later_fingers: u32)
    requires
        value != 0,
    ensures
        ({
            let (pressed, acb) = click_mapping(v, BTN_LEFT, value);
            let v1 = TouchpadView { active_click_button: acb, touch_fingers: later_fingers, ..v };
            let (released, acb2) = click_mapping(v1, BTN_LEFT, 0);
            &&& released == pressed
            &&& acb2 is None
            &&& pressed == (if v.touch_fingers == 2 {
                BTN_RIGHT
            } else if v.touch_fingers >= 3 {
                BTN_MIDDLE
            } else {
                BTN_LEFT
            })
        }),
{
}

/// Natural scrolling reverses the direction of finger scrolling.
pub proof fn law_natural_scroll_reverses(ts_usec: u64, axis: u32, steps: i32, device: usize)
    requires
        steps != i32::MIN,
    ensures
        ({
            let n = finger_scroll(ts_usec, axis, steps, true, device);
            let t = finger_scroll(ts_usec, axis, steps, false, device);
            &&& n.payload matches EventPayload::PointerAxis(a)
            &&& t.payload matches EventPayload::PointerAxis(b)
            &&& a.value_discrete == -b.value_discrete
            &&& a.value == -b.value
        }),
{
    assert(0i32.wrapping_sub(steps) == -steps) by (bit_vector)
        requires
            steps != i32::MIN,
    ;
}


/// Natural scrolling reverses two-finger scrolling frame by frame: a frame
/// with two fingers on the surface outside a pinch hands its raw deltas on
/// for scrolling whatever the setting, and the scroll events built from the
/// same whole steps are, with natural scrolling, the same events on the
/// same axes with the opposite direction, 15 units per step either way.
pub proof fn law_natural_scroll_reverses_frame(
    v: TouchpadView,
    ts_usec: u64,
    device: usize,
    steps_x: i32,
    steps_y: i32,
)
    requires
        v.wf(),
        !v.pinch_active,
        v.current_dx != 0 || v.current_dy != 0,
        frame_fingers(v) == 2,
        steps_x != i32::MIN,
        steps_y != i32::MIN,
    ensures
        syn_step(v, SYN_REPORT, ts_usec, device, false).action == (SynAction::Scroll {
            raw_dx: v.current_dx,
            raw_dy: v.current_dy,
        }),
        ({
            let a = scroll_finger_events(ts_usec, steps_x, steps_y, false, device);
            let b = scroll_finger_events(ts_usec, steps_x, steps_y, true, device);
            &&& a.len() == b.len()
            &&& forall|i: int|
                0 <= i < a.len() ==> {
                    &&& (#[trigger] a[i]).event_type
                        == LibinputEventType::LIBINPUT_EVENT_POINTER_SCROLL_FINGER
                    &&& b[i].event_type == LibinputEventType::LIBINPUT_EVENT_POINTER_SCROLL_FINGER
                    &&& a[i].payload matches EventPayload::PointerAxis(pa)
                    &&& b[i].payload matches EventPayload::PointerAxis(pb)
                    &&& pa.axis == pb.axis
                    &&& pa.source == AXIS_SOURCE_FINGER && pb.source == AXIS_SOURCE_FINGER
                    &&& pb.value_discrete == -pa.value_discrete
                    &&& pa.value == pa.value_discrete * SCROLL_STEP
                    &&& pb.value == pb.value_discrete * SCROLL_STEP
                }
        }),
{
    assert(0i32.wrapping_sub(steps_x) == -steps_x) by (bit_vector)
        requires
            steps_x != i32::MIN,
    ;
    assert(0i32.wrapping_sub(steps_y) == -steps_y) by (bit_vector)
        requires
            steps_y != i32::MIN,
    ;
}

/// Tap-to-click: one finger that lands and lifts within 250 ms, without
/// motion in between, clicks the left button: a press and a release, both
/// with the lift's timestamp.
pub proof fn law_tap_clicks(
    v: TouchpadView,
    down_ts: u64,
    up_ts: u64,
    device: usize,
    t0: u64,
    t1: u64,
)
    requires
        v.wf(),
        !v.pinch_active,
        active_count(v.mt_slots) <= 1,
        elapsed(t1, t0) < TAP_TIMEOUT_USEC,
    ensures
        touch_up(touch_down(v, down_ts, device, t0).view, up_ts, device, true, false, t1).events
            == seq![button_report(up_ts, 0x110, 1, device), button_report(up_ts, 0x110, 0, device)],
{
    let st = touch_up(touch_down(v, down_ts, device, t0).view, up_ts, device, true, false, t1);
    assert(st.events =~= seq![
        button_report(up_ts, 0x110, 1, device),
        button_report(up_ts, 0x110, 0, device),
    ]);
}

/// The motion of a frame outside a pinch goes by the number of fingers on
/// the surface (active slots or the finger-count tools, whichever is
/// more), also when fingers joined the touch after it began: with one
/// finger it moves the pointer, with two it scrolls, with three or more it
/// swipes; the accumulated deltas are handed on whole and then cleared,
/// and the frame begins no pinch.
pub proof fn law_frame_finger_routing(v: TouchpadView, ts_usec: u64, device: usize)
    requires
        v.wf(),
        !v.pinch_active,
        v.current_dx != 0 || v.current_dy != 0,
    ensures
        ({
            let st = syn_step(v, SYN_REPORT, ts_usec, device, false);
            &&& st.view.current_dx == 0 && st.view.current_dy == 0
            &&& !st.view.pinch_active
            &&& frame_fingers(v) <= 1 ==> st.action == SynAction::Motion {
                raw_dx: v.current_dx,
                raw_dy: v.current_dy,
            } && st.events.len() == 0
            &&& frame_fingers(v) == 2 ==> st.action == SynAction::Scroll {
                raw_dx: v.current_dx,
                raw_dy: v.current_dy,
            } && st.events.len() == 0
            &&& frame_fingers(v) >= 3 ==> st.action == SynAction::Nothing && st.events == seq![
                LibinputEvent {
                    event_type: LibinputEventType::LIBINPUT_EVENT_GESTURE_SWIPE_UPDATE,
                    payload: EventPayload::GestureSwipeUpdate(
                        GestureEvent {
                            time_usec: ts_usec,
                            finger_count: frame_fingers(v) as i32,
                            motion: GestureMotion::Swipe { raw_dx: v.current_dx, raw_dy: v.current_dy },
                            cancelled: false,
                        },
                    ),
                    device: device,
                },
            ]
        }),
{
}


/// The events of a touchpad are well typed and carry the device's handle,
/// and so are the motion and scroll events built for it.
pub proof fn law_touchpad_events_well_typed(
    v: TouchpadView,
    ev: RawEvent,
    ts_usec: u64,
    device: usize,
    cfg_tap: bool,
    dwt_active: bool,
    now: u64,
    dx: i32,
    dy: i32,
    steps: i32,
    axis: u32,
    natural: bool,
)
    requires
        v.wf(),
    ensures
        all_from(touchpad_step(v, ev, ts_usec, device, cfg_tap, dwt_active, now).events, device),
        all_from(seq![touchpad_motion(ts_usec, dx, dy, dx, dy, device)], device),
        all_from(seq![finger_scroll(ts_usec, axis, steps, natural, device)], device),
{
    let st = touchpad_step(v, ev, ts_usec, device, cfg_tap, dwt_active, now);
    assert forall|j: int| 0 <= j < st.events.len() implies (#[trigger] st.events[j]).well_typed()
        && st.events[j].device == device by {
        let v0 = if dwt_active { TouchpadView { tap_emitted: true, ..v } } else { v };
        if ev.event_type == EV_KEY && ev.code == BTN_TOUCH && ev.value == 0 {
            let up = touch_up(v0, ts_usec, device, cfg_tap, dwt_active, now);
            assert(st.events == up.events);
        }
    }
}

} // verus!
