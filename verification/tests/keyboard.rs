use libinput_rs::codes::{EV_KEY, EV_REL, KEY_A};
use libinput_rs::events::{EventPayload, KeyboardKeyEvent, LibinputEvent, LibinputEventType, RawEvent};
use libinput_rs::keyboard::{HeldKey, KeyboardState};

fn key(code: u16, value: i32) -> RawEvent {
    RawEvent { event_type: EV_KEY, code, value }
}

fn key_event(ts: u64, key: u32, state: u32, device: usize) -> LibinputEvent {
    LibinputEvent {
        event_type: LibinputEventType::LIBINPUT_EVENT_KEYBOARD_KEY,
        payload: EventPayload::KeyboardKey(KeyboardKeyEvent { time_usec: ts, key, state }),
        device,
    }
}

#[test]
fn press_reports_pressed_and_marks_typing() {
    let mut kb = KeyboardState::new();
    let mut out = Vec::new();
    let mut global = None;
    kb.process_keyboard_event(&key(KEY_A, 1), 111, 7, &mut out, &mut global, 5_000);
    assert_eq!(out, vec![key_event(111, KEY_A as u32, 1, 7)]);
    assert_eq!(global, Some(5_000));
    assert_eq!(kb.last_typing_time, Some(5_000));
    assert_eq!(
        kb.held_keys,
        vec![HeldKey { code: KEY_A, ts_usec: 111, last_fire: 5_000, initial_fired: false }]
    );
}

#[test]
fn release_reports_released_and_stops_tracking() {
    let mut kb = KeyboardState::new();
    let mut out = Vec::new();
    let mut global = None;
    kb.process_keyboard_event(&key(KEY_A, 1), 1, 0, &mut out, &mut global, 10);
    kb.process_keyboard_event(&key(31, 1), 2, 0, &mut out, &mut global, 20);
    kb.process_keyboard_event(&key(KEY_A, 0), 3, 0, &mut out, &mut global, 30);
    assert_eq!(out.last(), Some(&key_event(3, KEY_A as u32, 0, 0)));
    assert_eq!(kb.held_keys.len(), 1);
    assert_eq!(kb.held_keys[0].code, 31);
    // a release does not move the time of typing
    assert_eq!(global, Some(20));
}

#[test]
fn kernel_repeat_and_other_events_are_dropped() {
    let mut kb = KeyboardState::new();
    let mut out = Vec::new();
    let mut global = None;
    kb.process_keyboard_event(&key(KEY_A, 2), 1, 0, &mut out, &mut global, 10);
    kb.process_keyboard_event(
        &RawEvent { event_type: EV_REL, code: 0, value: 1 },
        1,
        0,
        &mut out,
        &mut global,
        10,
    );
    assert!(out.is_empty());
    assert!(kb.held_keys.is_empty());
    assert_eq!(global, None);
}

#[test]
fn first_repeat_after_200ms_then_every_25ms() {
    let mut kb = KeyboardState::new();
    let mut out = Vec::new();
    let mut global = None;
    kb.process_keyboard_event(&key(KEY_A, 1), 42, 3, &mut out, &mut global, 1_000_000);
    out.clear();
    kb.emit_key_repeats(1_199_999, 3, &mut out);
    assert!(out.is_empty());
    kb.emit_key_repeats(1_200_000, 3, &mut out);
    assert_eq!(out, vec![key_event(42, KEY_A as u32, 2, 3)]);
    assert!(kb.held_keys[0].initial_fired);
    assert_eq!(kb.held_keys[0].last_fire, 1_200_000);
    out.clear();
    kb.emit_key_repeats(1_224_999, 3, &mut out);
    assert!(out.is_empty());
    kb.emit_key_repeats(1_225_000, 3, &mut out);
    assert_eq!(out.len(), 1);
}

#[test]
fn released_key_does_not_repeat() {
    let mut kb = KeyboardState::new();
    let mut out = Vec::new();
    let mut global = None;
    kb.process_keyboard_event(&key(KEY_A, 1), 1, 0, &mut out, &mut global, 0);
    kb.process_keyboard_event(&key(KEY_A, 0), 2, 0, &mut out, &mut global, 50_000);
    assert!(kb.held_keys.is_empty());
    out.clear();
    kb.emit_key_repeats(10_000_000, 0, &mut out);
    assert!(out.is_empty());
}

#[test]
fn held_key_repeats_after_delay_then_every_interval() {
    let mut kb = KeyboardState::new();
    let mut out = Vec::new();
    let mut global = None;
    let p = 1_000_000u64;
    kb.process_keyboard_event(&key(KEY_A, 1), 42, 3, &mut out, &mut global, p);
    out.clear();
    let mut fired = Vec::new();
    let mut t = p;
    while t <= p + 300_000 {
        let before = out.len();
        kb.emit_key_repeats(t, 3, &mut out);
        if out.len() > before {
            fired.push(t);
        }
        t += 5_000;
    }
    assert_eq!(fired, vec![p + 200_000, p + 225_000, p + 250_000, p + 275_000, p + 300_000]);
    assert!(out.iter().all(|e| *e == key_event(42, KEY_A as u32, 2, 3)));
    kb.process_keyboard_event(&key(KEY_A, 0), 43, 3, &mut out, &mut global, p + 301_000);
    let n = out.len();
    kb.emit_key_repeats(p + 400_000, 3, &mut out);
    assert_eq!(out.len(), n);
}
