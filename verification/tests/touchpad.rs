use libinput_rs::codes::{
    ABS_MT_POSITION_X, ABS_MT_POSITION_Y, ABS_MT_SLOT, ABS_MT_TRACKING_ID, ABS_X, ABS_Y,
    BTN_LEFT, BTN_RIGHT, BTN_TOOL_DOUBLETAP, BTN_TOOL_TRIPLETAP, BTN_TOUCH, EV_ABS, EV_KEY, EV_SYN,
};
use libinput_rs::events::{
    EventPayload, GestureMotion, LibinputEvent, LibinputEventType, PointerAxisEvent,
    PointerButtonEvent, RawEvent, SlotPair,
};
use libinput_rs::touchpad::{
    push_scroll_finger_events, touchpad_motion_event, SynAction, TouchpadState,
};

fn key(code: u16, value: i32) -> RawEvent {
    RawEvent { event_type: EV_KEY, code, value }
}
fn abs(code: u16, value: i32) -> RawEvent {
    RawEvent { event_type: EV_ABS, code, value }
}
fn syn() -> RawEvent {
    RawEvent { event_type: EV_SYN, code: 0, value: 0 }
}

struct Pad {
    tp: TouchpadState,
    out: Vec<LibinputEvent>,
    tap: bool,
}

impl Pad {
    fn new() -> Pad {
        Pad { tp: TouchpadState::new(), out: Vec::new(), tap: true }
    }
    fn feed(&mut self, ev: RawEvent, now: u64) -> SynAction {
        self.tp.process_absolute_event(&ev, now, 9, &mut self.out, self.tap, false, now)
    }
    fn feed_typing(&mut self, ev: RawEvent, now: u64) -> SynAction {
        self.tp.process_absolute_event(&ev, now, 9, &mut self.out, self.tap, true, now)
    }
}

fn button(ts: u64, button: u16, state: u32) -> LibinputEvent {
    LibinputEvent {
        event_type: LibinputEventType::LIBINPUT_EVENT_POINTER_BUTTON,
        payload: EventPayload::PointerButton(PointerButtonEvent {
            time_usec: ts,
            button: button as u32,
            state,
        }),
        device: 9,
    }
}

#[test]
fn short_touch_taps_left_button() {
    let mut p = Pad::new();
    p.feed(key(BTN_TOUCH, 1), 1_000);
    assert_eq!(p.tp.touch_fingers, 1);
    p.feed(key(BTN_TOUCH, 0), 101_000);
    assert_eq!(p.out, vec![button(101_000, BTN_LEFT, 1), button(101_000, BTN_LEFT, 0)]);
    assert_eq!(p.tp.touch_fingers, 0);
    assert!(!p.tp.touch_active);
}

#[test]
fn long_touch_does_not_tap() {
    let mut p = Pad::new();
    p.feed(key(BTN_TOUCH, 1), 0);
    p.feed(key(BTN_TOUCH, 0), 250_000);
    assert!(p.out.is_empty());
}

#[test]
fn tapping_can_be_disabled() {
    let mut p = Pad::new();
    p.tap = false;
    p.feed(key(BTN_TOUCH, 1), 0);
    p.feed(key(BTN_TOUCH, 0), 10_000);
    assert!(p.out.is_empty());
}

#[test]
fn movement_becomes_motion_and_cancels_tap() {
    let mut p = Pad::new();
    p.feed(key(BTN_TOUCH, 1), 0);
    p.feed(abs(ABS_X, 100), 1_000);
    p.feed(abs(ABS_Y, 50), 1_000);
    p.feed(abs(ABS_X, 110), 2_000);
    p.feed(abs(ABS_Y, 45), 2_000);
    assert_eq!(p.tp.current_dx, 10);
    assert_eq!(p.tp.current_dy, -5);
    let a = p.feed(syn(), 2_000);
    assert_eq!(a, SynAction::Motion { raw_dx: 10, raw_dy: -5 });
    assert_eq!(p.tp.current_dx, 0);
    assert!(p.tp.tap_emitted);
    p.feed(key(BTN_TOUCH, 0), 20_000);
    assert!(p.out.is_empty());
}

#[test]
fn stale_position_is_forgotten() {
    let mut p = Pad::new();
    p.feed(abs(ABS_X, 100), 0);
    p.feed(abs(ABS_X, 200), 60_000);
    assert_eq!(p.tp.current_dx, 0);
    p.feed(abs(ABS_X, 205), 70_000);
    assert_eq!(p.tp.current_dx, 5);
}

#[test]
fn frame_without_movement_does_nothing() {
    let mut p = Pad::new();
    assert_eq!(p.feed(syn(), 0), SynAction::Nothing);
    assert!(p.out.is_empty());
}

#[test]
fn two_fingers_scroll() {
    let mut p = Pad::new();
    p.feed(key(BTN_TOUCH, 1), 0);
    p.feed(key(BTN_TOOL_DOUBLETAP, 1), 0);
    p.feed(abs(ABS_Y, 100), 1_000);
    p.feed(abs(ABS_Y, 160), 2_000);
    assert_eq!(p.feed(syn(), 2_000), SynAction::Scroll { raw_dx: 0, raw_dy: 60 });
    assert!(p.out.is_empty());
}

#[test]
fn three_fingers_swipe() {
    let mut p = Pad::new();
    p.feed(key(BTN_TOUCH, 1), 0);
    p.feed(key(BTN_TOOL_TRIPLETAP, 1), 0);
    p.feed(abs(ABS_X, 0), 1_000);
    p.feed(abs(ABS_X, 30), 2_000);
    assert_eq!(p.feed(syn(), 2_000), SynAction::Nothing);
    assert_eq!(p.out.len(), 1);
    assert_eq!(p.out[0].event_type, LibinputEventType::LIBINPUT_EVENT_GESTURE_SWIPE_UPDATE);
    match p.out[0].payload {
        EventPayload::GestureSwipeUpdate(g) => {
            assert_eq!(g.finger_count, 3);
            assert_eq!(g.motion, GestureMotion::Swipe { raw_dx: 30, raw_dy: 0 });
            assert!(!g.cancelled);
        }
        _ => panic!("not a swipe"),
    }
}

fn put_finger(p: &mut Pad, slot: i32, id: i32, x: i32, y: i32, now: u64) {
    p.feed(abs(ABS_MT_SLOT, slot), now);
    p.feed(abs(ABS_MT_TRACKING_ID, id), now);
    p.feed(abs(ABS_MT_POSITION_X, x), now);
    p.feed(abs(ABS_MT_POSITION_Y, y), now);
}

#[test]
fn pinch_begins_updates_and_ends() {
    let mut p = Pad::new();
    put_finger(&mut p, 0, 1, 100, 100, 0);
    put_finger(&mut p, 1, 2, 200, 100, 0);
    assert_eq!(p.tp.active_slot_count(), 2);
    p.feed(key(BTN_TOUCH, 1), 10);
    let base = SlotPair { x0: 100, y0: 100, x1: 200, y1: 100 };
    assert!(p.tp.pinch_active);
    assert_eq!(p.tp.pinch_base, base);
    assert_eq!(p.out.len(), 1);
    assert_eq!(p.out[0].event_type, LibinputEventType::LIBINPUT_EVENT_GESTURE_PINCH_BEGIN);
    match p.out[0].payload {
        EventPayload::GesturePinchBegin(g) => {
            assert_eq!(g.finger_count, 2);
            assert_eq!(g.motion, GestureMotion::Still);
        }
        _ => panic!("not a pinch begin"),
    }
    p.feed(abs(ABS_MT_SLOT, 1), 20);
    p.feed(abs(ABS_MT_POSITION_X, 300), 20);
    p.feed(syn(), 20);
    let cur = SlotPair { x0: 100, y0: 100, x1: 300, y1: 100 };
    assert_eq!(p.out.len(), 2);
    match p.out[1].payload {
        EventPayload::GesturePinchUpdate(g) => {
            assert_eq!(g.motion, GestureMotion::Pinch { base, current: Some(cur) });
        }
        _ => panic!("not a pinch update"),
    }
    p.feed(key(BTN_TOUCH, 0), 30);
    assert!(!p.tp.pinch_active);
    assert_eq!(p.out.len(), 3);
    assert_eq!(p.out[2].event_type, LibinputEventType::LIBINPUT_EVENT_GESTURE_PINCH_END);
    match p.out[2].payload {
        EventPayload::GesturePinchEnd(g) => {
            assert_eq!(g.motion, GestureMotion::Pinch { base, current: Some(cur) });
            assert!(!g.cancelled);
        }
        _ => panic!("not a pinch end"),
    }
}

#[test]
fn two_finger_click_is_right_click() {
    let mut p = Pad::new();
    p.feed(key(BTN_TOOL_DOUBLETAP, 1), 0);
    p.feed(key(BTN_LEFT, 1), 1);
    p.feed(key(BTN_TOOL_DOUBLETAP, 0), 2);
    p.feed(key(BTN_LEFT, 0), 3);
    assert_eq!(p.out, vec![button(1, BTN_RIGHT, 1), button(3, BTN_RIGHT, 0)]);
    assert_eq!(p.tp.active_click_button, None);
}

#[test]
fn typing_suppresses_taps_and_motion() {
    let mut p = Pad::new();
    p.feed_typing(key(BTN_TOUCH, 1), 0);
    p.feed_typing(key(BTN_TOUCH, 0), 10_000);
    assert!(p.out.is_empty());
    p.feed(abs(ABS_X, 10), 20_000);
    p.feed(abs(ABS_X, 20), 21_000);
    assert_eq!(p.feed_typing(syn(), 21_000), SynAction::ResetRemainders);
    assert_eq!(p.tp.current_dx, 0);
    assert!(p.out.is_empty());
}

#[test]
fn out_of_range_slot_is_ignored() {
    let mut p = Pad::new();
    p.feed(abs(ABS_MT_SLOT, 4), 0);
    p.feed(abs(ABS_MT_SLOT, 10), 0);
    p.feed(abs(ABS_MT_SLOT, -1), 0);
    assert_eq!(p.tp.current_slot, 4);
}

#[test]
fn motion_event_only_when_it_moves() {
    assert_eq!(touchpad_motion_event(5, 0, 0, 3, 1, 2), None);
    let e = touchpad_motion_event(5, 1, 0, 3, 1, 2).unwrap();
    assert_eq!(e.event_type, LibinputEventType::LIBINPUT_EVENT_POINTER_MOTION);
    match e.payload {
        EventPayload::PointerMotion(m) => {
            assert_eq!((m.dx, m.dy, m.raw_dx, m.raw_dy, m.from_touchpad), (1, 0, 3, 1, true));
        }
        _ => panic!("not motion"),
    }
}

#[test]
fn finger_scroll_vertical_first_and_natural_reverses() {
    let mut out = Vec::new();
    push_scroll_finger_events(4, 2, -1, true, 6, &mut out);
    assert_eq!(out.len(), 2);
    assert_eq!(out[0].event_type, LibinputEventType::LIBINPUT_EVENT_POINTER_SCROLL_FINGER);
    assert_eq!(
        out[0].payload,
        EventPayload::PointerAxis(PointerAxisEvent { time_usec: 4, axis: 0, value: 15, value_discrete: 1, source: 2 })
    );
    assert_eq!(
        out[1].payload,
        EventPayload::PointerAxis(PointerAxisEvent { time_usec: 4, axis: 1, value: -30, value_discrete: -2, source: 2 })
    );
    let mut out2 = Vec::new();
    push_scroll_finger_events(4, 0, 3, false, 6, &mut out2);
    assert_eq!(out2.len(), 1);
    assert_eq!(
        out2[0].payload,
        EventPayload::PointerAxis(PointerAxisEvent { time_usec: 4, axis: 0, value: 45, value_discrete: 3, source: 2 })
    );
}

#[test]
fn joining_finger_scrolls_with_two_fingers() {
    let mut p = Pad::new();
    put_finger(&mut p, 0, 1, 100, 100, 0);
    p.feed(key(BTN_TOUCH, 1), 0);
    p.feed(abs(ABS_X, 100), 0);
    p.feed(abs(ABS_Y, 100), 0);
    p.feed(syn(), 0);
    put_finger(&mut p, 1, 5, 400, 300, 10_000);
    p.feed(abs(ABS_Y, 160), 10_000);
    assert_eq!(p.feed(syn(), 10_000), SynAction::Scroll { raw_dx: 0, raw_dy: 60 });
    assert!(!p.tp.pinch_active);
    assert!(p.out.is_empty());
}

#[test]
fn joining_fingers_swipe_with_three_fingers() {
    let mut p = Pad::new();
    put_finger(&mut p, 0, 1, 100, 100, 0);
    p.feed(key(BTN_TOUCH, 1), 0);
    p.feed(abs(ABS_X, 100), 0);
    p.feed(syn(), 0);
    put_finger(&mut p, 1, 5, 400, 300, 10_000);
    put_finger(&mut p, 2, 6, 500, 300, 10_000);
    p.feed(abs(ABS_X, 130), 10_000);
    assert_eq!(p.feed(syn(), 10_000), SynAction::Nothing);
    assert!(!p.tp.pinch_active);
    assert_eq!(p.out.len(), 1);
    match p.out[0].payload {
        EventPayload::GestureSwipeUpdate(g) => {
            assert_eq!(g.finger_count, 3);
            assert_eq!(g.motion, GestureMotion::Swipe { raw_dx: 30, raw_dy: 0 });
        }
        _ => panic!("not a swipe"),
    }
}
