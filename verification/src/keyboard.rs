//! Keyboard processing: key press and release events, and the library's own
//! key repeat (first repeat after 200 ms, then every 25 ms).

use vstd::prelude::*;

use crate::codes::{
    elapsed, elapsed_usec, EV_KEY, KEY_STATE_PRESSED, KEY_STATE_RELEASED, KEY_STATE_REPEAT,
    REPEAT_DELAY_USEC, REPEAT_INTERVAL_USEC,
};
use crate::events::{
    all_from, EventPayload, KeyboardKeyEvent, LibinputEvent, LibinputEventType, RawEvent,
};

verus! {

/// A key that is held down and may repeat.
///
/// `ts_usec` is the kernel timestamp of the press (repeats carry it);
/// `last_fire` is the monotonic time of the press or of the last repeat.
#[derive(Debug, Clone, Copy, PartialEq, Eq)]
pub struct HeldKey {
    pub code: u16,
    pub ts_usec: u64,
    pub last_fire: u64,
    pub initial_fired: bool,
}

/// The keyboard state of one device: the keys held down, and the monotonic
/// time of its last key press.
pub struct KeyboardState {
    pub held_keys: Vec<HeldKey>,
    pub last_typing_time: Option<u64>,
}

/// A key event of the given state.
pub open spec fn key_event(ts_usec: u64, code: u16, state: u32, device: usize) -> LibinputEvent {
    LibinputEvent {
        event_type: LibinputEventType::LIBINPUT_EVENT_KEYBOARD_KEY,
        payload: EventPayload::KeyboardKey(
            KeyboardKeyEvent { time_usec: ts_usec, key: code as u32, state: state },
        ),
        device: device,
    }
}

/// The time a held key must wait after its last firing before it repeats:
/// 200 ms before the first repeat, 25 ms between later ones.
pub open spec fn repeat_delay(k: HeldKey) -> u64 {
    if k.initial_fired {
        REPEAT_INTERVAL_USEC
    } else {
        REPEAT_DELAY_USEC
    }
}

/// Whether a held key repeats at time `now`.
pub open spec fn repeat_due(k: HeldKey, now: u64) -> bool {
    elapsed(now, k.last_fire) >= repeat_delay(k)
}

/// The held key after a repeat pass at time `now`.
pub open spec fn after_repeat(k: HeldKey, now: u64) -> HeldKey {
    if repeat_due(k, now) {
        HeldKey { last_fire: now, initial_fired: true, ..k }
    } else {
        k
    }
}

/// The repeat event of a held key: it carries the key's press timestamp.
pub open spec fn repeat_event(k: HeldKey, device: usize) -> LibinputEvent {
    key_event(k.ts_usec, k.code, KEY_STATE_REPEAT, device)
}

/// The repeat events of a repeat pass at time `now`, in the order of the keys.
pub open spec fn repeat_events(keys: Seq<HeldKey>, now: u64, device: usize) -> Seq<LibinputEvent>
    decreases keys.len(),
{
    if keys.len() == 0 {
        Seq::empty()
    } else {
        let prev = repeat_events(keys.drop_last(), now, device);
        if repeat_due(keys.last(), now) {
            prev.push(repeat_event(keys.last(), device))
        } else {
            prev
        }
    }
}

/// The held keys once the key `code` is released: every entry for it goes.
pub open spec fn release_key(keys: Seq<HeldKey>, code: u16) -> Seq<HeldKey> {
    keys.filter(|k: HeldKey| k.code != code)
}

/// A key that was just pressed at monotonic time `now`.
pub open spec fn pressed_key(code: u16, ts_usec: u64, now: u64) -> HeldKey {
    HeldKey { code: code, ts_usec: ts_usec, last_fire: now, initial_fired: false }
}

/// The outcome of one keyboard event: the held keys, the device's and the
/// global time of typing, and the events reported.
pub struct KeyboardStep {
    pub held_keys: Seq<HeldKey>,
    pub last_typing_time: Option<u64>,
    pub global_typing_time: Option<u64>,
    pub events: Seq<LibinputEvent>,
}

/// One kernel event of a keyboard: presses start repeat tracking and mark
/// the time of typing, releases stop repeat tracking, and all else is
/// dropped (kernel repeats included).
pub open spec fn keyboard_step(
    held_keys: Seq<HeldKey>,
    last_typing_time: Option<u64>,
    global_typing_time: Option<u64>,
    ev: RawEvent,
    ts_usec: u64,
    device: usize,
    now: u64,
) -> KeyboardStep {
    if ev.event_type == EV_KEY && ev.value == 1 {
        KeyboardStep {
            held_keys: held_keys.push(pressed_key(ev.code, ts_usec, now)),
            last_typing_time: Some(now),
            global_typing_time: Some(now),
            events: seq![key_event(ts_usec, ev.code, KEY_STATE_PRESSED, device)],
        }
    } else if ev.event_type == EV_KEY && ev.value == 0 {
        KeyboardStep {
            held_keys: release_key(held_keys, ev.code),
            last_typing_time: last_typing_time,
            global_typing_time: global_typing_time,
            events: seq![key_event(ts_usec, ev.code, KEY_STATE_RELEASED, device)],
        }
    } else {
        KeyboardStep {
            held_keys: held_keys,
            last_typing_time: last_typing_time,
            global_typing_time: global_typing_time,
            events: Seq::empty(),
        }
    }
}

impl KeyboardState {
    /// A keyboard with no key held and no key pressed yet.
    pub fn new() -> (r: KeyboardState)
        ensures
            r.held_keys@ == Seq::<HeldKey>::empty(),
            r.last_typing_time is None,
    {
        KeyboardState { held_keys: Vec::new(), last_typing_time: None }
    }

    /// Processes one kernel event of a keyboard.
    ///
    /// A press (`value == 1`) records the time of typing (for this device and
    /// in `global_typing_time`), starts repeat tracking and reports a pressed
    /// key; a release (`value == 0`) stops repeat tracking of the key and
    /// reports a released key.  Kernel repeats (`value == 2`), other values
    /// and events that are not key events are dropped.
    pub fn process_keyboard_event(
        &mut self,
        ev: &RawEvent,
        ts_usec: u64,
        device: usize,
        out: &mut Vec<LibinputEvent>,
        global_typing_time: &mut Option<u64>,
        now: u64,
    )
        ensures
            ev.event_type == EV_KEY && ev.value == 1 ==> {
                &&& *final(global_typing_time) == Some(now)
                &&& final(self).last_typing_time == Some(now)
                &&& final(self).held_keys@ == old(self).held_keys@.push(
                    pressed_key(ev.code, ts_usec, now),
                )
                &&& final(out)@ == old(out)@.push(
                    key_event(ts_usec, ev.code, KEY_STATE_PRESSED, device),
                )
            },
            ev.event_type == EV_KEY && ev.value == 0 ==> {
                &&& *final(global_typing_time) == *old(global_typing_time)
                &&& final(self).last_typing_time == old(self).last_typing_time
                &&& final(self).held_keys@ == release_key(old(self).held_keys@, ev.code)
                &&& final(out)@ == old(out)@.push(
                    key_event(ts_usec, ev.code, KEY_STATE_RELEASED, device),
                )
            },
            !(ev.event_type == EV_KEY && (ev.value == 0 || ev.value == 1)) ==> {
                &&& *final(global_typing_time) == *old(global_typing_time)
                &&& final(self).last_typing_time == old(self).last_typing_time
                &&& final(self).held_keys@ == old(self).held_keys@
                &&& final(out)@ == old(out)@
            },
            ({
                let s = keyboard_step(
                    old(self).held_keys@,
                    old(self).last_typing_time,
                    *old(global_typing_time),
                    *ev,
                    ts_usec,
                    device,
                    now,
                );
                &&& final(self).held_keys@ == s.held_keys
                &&& final(self).last_typing_time == s.last_typing_time
                &&& *final(global_typing_time) == s.global_typing_time
                &&& final(out)@ == old(out)@ + s.events
            }),
    {
        if ev.event_type != EV_KEY {
            return ;
        }
        let code = ev.code;
        let value = ev.value;
        if value == 1 {
            *global_typing_time = Some(now);
            self.last_typing_time = Some(now);
            self.held_keys.push(
                HeldKey { code: code, ts_usec: ts_usec, last_fire: now, initial_fired: false },
            );
            out.push(
                LibinputEvent {
                    event_type: LibinputEventType::LIBINPUT_EVENT_KEYBOARD_KEY,
                    payload: EventPayload::KeyboardKey(
                        KeyboardKeyEvent {
                            time_usec: ts_usec,
                            key: code as u32,
                            state: KEY_STATE_PRESSED,
                        },
                    ),
                    device: device,
                },
            );
        } else if value == 0 {
            self.release(code);
            out.push(
                LibinputEvent {
                    event_type: LibinputEventType::LIBINPUT_EVENT_KEYBOARD_KEY,
                    payload: EventPayload::KeyboardKey(
                        KeyboardKeyEvent {
                            time_usec: ts_usec,
                            key: code as u32,
                            state: KEY_STATE_RELEASED,
                        },
                    ),
                    device: device,
                },
            );
        }
    }

    /// Stops repeat tracking of every held entry of `code`.
    fn release(&mut self, code: u16)
        ensures
            final(self).held_keys@ == release_key(old(self).held_keys@, code),
            final(self).last_typing_time == old(self).last_typing_time,
    {
        let ghost keys = self.held_keys@;
        let ghost pred = |k: HeldKey| k.code != code;
        let mut kept: Vec<HeldKey> = Vec::new();
        let n = self.held_keys.len();
        let mut i: usize = 0;
        while i < n
            invariant
                n == self.held_keys@.len(),
                self.held_keys@ == keys,
                0 <= i <= n,
                kept@ == keys.take(i as int).filter(pred),
                pred == (|k: HeldKey| k.code != code),
            decreases n - i,
        {
            let k = self.held_keys[i];
            proof {
                assert(keys.take(i + 1).drop_last() =~= keys.take(i as int));
                assert(keys.take(i + 1).last() == k);
                assert(keys.take(i + 1).filter(pred) == (if pred(k) {
                    keys.take(i as int).filter(pred).push(k)
                } else {
                    keys.take(i as int).filter(pred)
                })) by {
                    reveal(Seq::filter);
                }
            }
            if k.code != code {
                kept.push(k);
            }
            i = i + 1;
        }
        proof {
            assert(keys.take(n as int) =~= keys);
        }
        self.held_keys = kept;
    }

    /// The repeat pass of this keyboard at monotonic time `now`: every held
    /// key whose delay has passed reports a repeat and restarts its delay.
    pub fn emit_key_repeats(&mut self, now: u64, device: usize, out: &mut Vec<LibinputEvent>)
        ensures
            final(self).held_keys@ == old(self).held_keys@.map_values(
                |k: HeldKey| after_repeat(k, now),
            ),
            final(self).last_typing_time == old(self).last_typing_time,
            final(out)@ == old(out)@ + repeat_events(old(self).held_keys@, now, device),
    {
        let ghost keys = self.held_keys@;
        let ghost out0 = out@;
        let n = self.held_keys.len();
        let mut i: usize = 0;
        while i < n
            invariant
                n == keys.len(),
                self.held_keys@.len() == n,
                0 <= i <= n,
                forall|j: int|
                    0 <= j < i ==> self.held_keys@[j] == after_repeat(#[trigger] keys[j], now),
                forall|j: int| i <= j < n ==> self.held_keys@[j] == keys[j],
                out@ == out0 + repeat_events(keys.take(i as int), now, device),
                self.last_typing_time == old(self).last_typing_time,
            decreases n - i,
        {
            let hk = self.held_keys[i];
            let delay = if hk.initial_fired {
                REPEAT_INTERVAL_USEC
            } else {
                REPEAT_DELAY_USEC
            };
            proof {
                assert(keys.take(i + 1).drop_last() =~= keys.take(i as int));
                assert(keys.take(i + 1).last() == keys[i as int]);
            }
            if elapsed_usec(now, hk.last_fire) >= delay {
                out.push(
                    LibinputEvent {
                        event_type: LibinputEventType::LIBINPUT_EVENT_KEYBOARD_KEY,
                        payload: EventPayload::KeyboardKey(
                            KeyboardKeyEvent {
                                time_usec: hk.ts_usec,
                                key: hk.code as u32,
                                state: KEY_STATE_REPEAT,
                            },
                        ),
                        device: device,
                    },
                );
                self.held_keys.set(
                    i,
                    HeldKey {
                        code: hk.code,
                        ts_usec: hk.ts_usec,
                        last_fire: now,
                        initial_fired: true,
                    },
                );
            }
            proof {
                assert(out@ =~= out0 + repeat_events(keys.take(i + 1), now, device));
            }
            i = i + 1;
        }
        proof {
            assert(keys.take(n as int) =~= keys);
            assert(self.held_keys@ =~= keys.map_values(|k: HeldKey| after_repeat(k, now)));
        }
    }
}


/// Every repeat event of a pass comes from one of the held keys.
proof fn lemma_repeat_events_from_keys(keys: Seq<HeldKey>, now: u64, device: usize, j: int)
    requires
        0 <= j < repeat_events(keys, now, device).len(),
    ensures
        exists|i: int|
            0 <= i < keys.len() && repeat_events(keys, now, device)[j] == repeat_event(
                #[trigger] keys[i],
                device,
            ),
    decreases keys.len(),
{
    let prev = repeat_events(keys.drop_last(), now, device);
    if j < prev.len() {
        lemma_repeat_events_from_keys(keys.drop_last(), now, device, j);
        let i = choose|i: int|
            0 <= i < keys.drop_last().len() && prev[j] == repeat_event(
                #[trigger] keys.drop_last()[i],
                device,
            );
        assert(keys.drop_last()[i] == keys[i]);
    } else {
        assert(keys[keys.len() - 1] == keys.last());
    }
}

/// Key repeat timing: a key just pressed at `t0` first repeats once 200 ms
/// have passed, and a key that repeated at `t1` repeats again once 25 ms
/// have passed; a repeat reports the key, the repeat state and the time of
/// the press.
pub proof fn law_repeat_timing(code: u16, ts_usec: u64, t0: u64, t1: u64, now: u64, device: usize)
    ensures
        repeat_due(pressed_key(code, ts_usec, t0), now) <==> elapsed(now, t0) >= REPEAT_DELAY_USEC,
        repeat_due(pressed_key(code, ts_usec, t0), t1) ==> (repeat_due(
            after_repeat(pressed_key(code, ts_usec, t0), t1),
            now,
        ) <==> elapsed(now, t1) >= REPEAT_INTERVAL_USEC),
        repeat_event(pressed_key(code, ts_usec, t0), device) == (LibinputEvent {
                event_type: LibinputEventType::LIBINPUT_EVENT_KEYBOARD_KEY,
                payload: EventPayload::KeyboardKey(
                    KeyboardKeyEvent { time_usec: ts_usec, key: code as u32, state: 2 },
                ),
                device: device,
            }),
{
}

/// What a keyboard reports for one kernel event, over all events: a key
/// press (value 1) reports the key pressed (state 1) with the event's
/// timestamp, starts holding the key as not yet repeated from `now`, and
/// marks `now` as the time of typing; a release (value 0) reports the key
/// released (state 0) and stops holding it; kernel repeats (value 2), other
/// values and events that are not key events report and change nothing.
pub proof fn law_keyboard_reports_presses_and_releases(
    held_keys: Seq<HeldKey>,
    last_typing_time: Option<u64>,
    global_typing_time: Option<u64>,
    ev: RawEvent,
    ts_usec: u64,
    device: usize,
    now: u64,
)
    ensures
        ({
            let s = keyboard_step(
                held_keys,
                last_typing_time,
                global_typing_time,
                ev,
                ts_usec,
                device,
                now,
            );
            let reported = |state: u32|
                seq![
                    LibinputEvent {
                        event_type: LibinputEventType::LIBINPUT_EVENT_KEYBOARD_KEY,
                        payload: EventPayload::KeyboardKey(
                            KeyboardKeyEvent { time_usec: ts_usec, key: ev.code as u32, state: state },
                        ),
                        device: device,
                    },
                ];
            &&& ev.event_type == 1 && ev.value == 1 ==> {
                &&& s.events == reported(1)
                &&& s.held_keys.len() == held_keys.len() + 1
                &&& s.held_keys.drop_last() == held_keys
                &&& s.held_keys.last() == (HeldKey {
                    code: ev.code,
                    ts_usec: ts_usec,
                    last_fire: now,
                    initial_fired: false,
                })
                &&& s.last_typing_time == Some(now)
                &&& s.global_typing_time == Some(now)
            }
            &&& ev.event_type == 1 && ev.value == 0 ==> {
                &&& s.events == reported(0)
                &&& forall|i: int| 0 <= i < s.held_keys.len() ==> (#[trigger] s.held_keys[i]).code != ev.code
                &&& forall|i: int|
                    0 <= i < held_keys.len() && (#[trigger] held_keys[i]).code != ev.code
                        ==> s.held_keys.contains(held_keys[i])
                &&& s.last_typing_time == last_typing_time
                &&& s.global_typing_time == global_typing_time
            }
            &&& !(ev.event_type == 1 && (ev.value == 0 || ev.value == 1)) ==> {
                &&& s.events.len() == 0
                &&& s.held_keys == held_keys
                &&& s.last_typing_time == last_typing_time
                &&& s.global_typing_time == global_typing_time
            }
        }),
{
    let pred = |k: HeldKey| k.code != ev.code;
    assert forall|i: int| 0 <= i < release_key(held_keys, ev.code).len() implies (
    #[trigger] release_key(held_keys, ev.code)[i]).code != ev.code by {
        held_keys.filter_lemma(pred);
    }
    assert forall|i: int|
        0 <= i < held_keys.len() && (#[trigger] held_keys[i]).code != ev.code implies release_key(
        held_keys,
        ev.code,
    ).contains(held_keys[i]) by {
        held_keys.filter_lemma(pred);
        assert(held_keys.contains(held_keys[i]));
    }
    assert(held_keys.push(pressed_key(ev.code, ts_usec, now)).drop_last() =~= held_keys);
}

/// Whether a held key is due to repeat at `now`, spelled out: 200 ms after
/// its press, or 25 ms after its last repeat.
pub open spec fn due_by_clock(k: HeldKey, now: u64) -> bool {
    (if now >= k.last_fire { now - k.last_fire } else { 0 }) >= (if k.initial_fired {
        25_000int
    } else {
        200_000int
    })
}

/// A repeat pass reports every held key that is due, exactly once and in
/// the order the keys were pressed, and nothing else: its events are the
/// repeat events (the key's code, state 2, the press timestamp) of the due
/// keys.  A second key held together with a first repeats too.
pub proof fn law_repeat_pass_reports_all_due_keys(keys: Seq<HeldKey>, now: u64, device: usize)
    ensures
        repeat_events(keys, now, device) == keys.filter(|k: HeldKey| due_by_clock(k, now)).map_values(
            |k: HeldKey|
                LibinputEvent {
                    event_type: LibinputEventType::LIBINPUT_EVENT_KEYBOARD_KEY,
                    payload: EventPayload::KeyboardKey(
                        KeyboardKeyEvent { time_usec: k.ts_usec, key: k.code as u32, state: 2 },
                    ),
                    device: device,
                },
        ),
        repeat_events(keys, now, device).len() == keys.filter(|k: HeldKey| due_by_clock(k, now)).len(),
    decreases keys.len(),
{
    let f = |k: HeldKey|
        LibinputEvent {
            event_type: LibinputEventType::LIBINPUT_EVENT_KEYBOARD_KEY,
            payload: EventPayload::KeyboardKey(
                KeyboardKeyEvent { time_usec: k.ts_usec, key: k.code as u32, state: 2 },
            ),
            device: device,
        };
    let pred = |k: HeldKey| due_by_clock(k, now);
    reveal(Seq::filter);
    if keys.len() == 0 {
        assert(keys.filter(pred) =~= Seq::<HeldKey>::empty());
        assert(keys.filter(pred).map_values(f) =~= Seq::<LibinputEvent>::empty());
    } else {
        law_repeat_pass_reports_all_due_keys(keys.drop_last(), now, device);
        let prev = keys.drop_last().filter(pred);
        assert(repeat_due(keys.last(), now) == pred(keys.last()));
        if pred(keys.last()) {
            assert(keys.filter(pred) == prev.push(keys.last()));
            assert(prev.push(keys.last()).map_values(f) =~= prev.map_values(f).push(f(keys.last())));
        } else {
            assert(keys.filter(pred) == prev);
        }
    }
}

/// A held key after repeat passes at the monotonic times `times`, in order.
pub open spec fn after_passes(k: HeldKey, times: Seq<u64>) -> HeldKey
    decreases times.len(),
{
    if times.len() == 0 {
        k
    } else {
        after_repeat(after_passes(k, times.drop_last()), times.last())
    }
}

/// Whether the `i`-th of a run of repeat passes at the times `times`
/// reports the held key `k` (see [`after_passes`]).
pub open spec fn fires_at(k: HeldKey, times: Seq<u64>, i: int) -> bool {
    repeat_due(after_passes(k, times.take(i)), times[i])
}

/// What holds of a key pressed at `p` after the first `n` of a run of
/// repeat passes at nondecreasing times from `p` on.
spec fn repeat_run_inv(code: u16, ts_usec: u64, p: u64, times: Seq<u64>, n: int) -> bool {
    let k = after_passes(pressed_key(code, ts_usec, p), times.take(n));
    &&& k.code == code
    &&& k.ts_usec == ts_usec
    &&& !k.initial_fired ==> k.last_fire == p && forall|i: int|
        0 <= i < n ==> !fires_at(pressed_key(code, ts_usec, p), times, i)
    &&& k.initial_fired ==> k.last_fire >= p + REPEAT_DELAY_USEC && forall|i: int|
        0 <= i < n && fires_at(pressed_key(code, ts_usec, p), times, i) ==> times[i] <= k.last_fire
    &&& forall|j: int| n <= j < times.len() ==> k.last_fire <= times[j]
}

proof fn lemma_repeat_run(code: u16, ts_usec: u64, p: u64, times: Seq<u64>, n: int)
    requires
        0 <= n <= times.len(),
        forall|i: int, j: int| 0 <= i <= j < times.len() ==> times[i] <= times[j],
        forall|i: int| 0 <= i < times.len() ==> p <= #[trigger] times[i],
    ensures
        repeat_run_inv(code, ts_usec, p, times, n),
    decreases n,
{
    let k0 = pressed_key(code, ts_usec, p);
    if n == 0 {
        assert(times.take(0) =~= Seq::<u64>::empty());
    } else {
        lemma_repeat_run(code, ts_usec, p, times, n - 1);
        assert(times.take(n).drop_last() =~= times.take(n - 1));
        assert(times.take(n).last() == times[n - 1]);
        let kp = after_passes(k0, times.take(n - 1));
        let k = after_passes(k0, times.take(n));
        assert(k == after_repeat(kp, times[n - 1]));
    }
}

/// Key repeat over a run of passes: for a key pressed at `p` and held
/// through repeat passes at nondecreasing times from `p` on, no pass
/// reports it before 200 ms have passed since the press, two passes that
/// report it lie at least 25 ms apart, and every pass reports the key's
/// code with the timestamp of its press.  (A released key is reported by
/// no pass: [`law_released_key_never_repeats`].)
pub proof fn law_repeat_run(code: u16, ts_usec: u64, p: u64, times: Seq<u64>, device: usize)
    requires
        forall|i: int, j: int| 0 <= i <= j < times.len() ==> times[i] <= times[j],
        forall|i: int| 0 <= i < times.len() ==> p <= #[trigger] times[i],
    ensures
        forall|i: int|
            0 <= i < times.len() && #[trigger] fires_at(pressed_key(code, ts_usec, p), times, i)
                ==> times[i] - p >= REPEAT_DELAY_USEC,
        forall|i: int, j: int|
            0 <= i < j < times.len() && #[trigger] fires_at(pressed_key(code, ts_usec, p), times, i)
                && #[trigger] fires_at(pressed_key(code, ts_usec, p), times, j) ==> times[j]
                - times[i] >= REPEAT_INTERVAL_USEC,
        forall|i: int|
            0 <= i <= times.len() ==> repeat_event(
                #[trigger] after_passes(pressed_key(code, ts_usec, p), times.take(i)),
                device,
            ) == (LibinputEvent {
                event_type: LibinputEventType::LIBINPUT_EVENT_KEYBOARD_KEY,
                payload: EventPayload::KeyboardKey(
                    KeyboardKeyEvent { time_usec: ts_usec, key: code as u32, state: 2 },
                ),
                device: device,
            }),
{
    let k0 = pressed_key(code, ts_usec, p);
    assert forall|i: int|
        0 <= i < times.len() && #[trigger] fires_at(k0, times, i) implies times[i] - p
        >= REPEAT_DELAY_USEC by {
        lemma_repeat_run(code, ts_usec, p, times, i);
    }
    assert forall|i: int, j: int|
        0 <= i < j < times.len() && #[trigger] fires_at(k0, times, i) && #[trigger] fires_at(
            k0,
            times,
            j,
        ) implies times[j] - times[i] >= REPEAT_INTERVAL_USEC by {
        lemma_repeat_run(code, ts_usec, p, times, j);
    }
    assert forall|i: int| 0 <= i <= times.len() implies repeat_event(
        #[trigger] after_passes(k0, times.take(i)),
        device,
    ) == (LibinputEvent {
                event_type: LibinputEventType::LIBINPUT_EVENT_KEYBOARD_KEY,
                payload: EventPayload::KeyboardKey(
                    KeyboardKeyEvent { time_usec: ts_usec, key: code as u32, state: 2 },
                ),
                device: device,
            }) by {
        lemma_repeat_run(code, ts_usec, p, times, i);
    }
}

/// A released key never repeats: after the release of `code`, no repeat
/// pass reports `code`.
pub proof fn law_released_key_never_repeats(
    held_keys: Seq<HeldKey>,
    code: u16,
    now: u64,
    device: usize,
)
    ensures
        forall|j: int|
            0 <= j < repeat_events(release_key(held_keys, code), now, device).len() ==> {
                let e = #[trigger] repeat_events(release_key(held_keys, code), now, device)[j];
                e.payload matches EventPayload::KeyboardKey(k) && k.key != code as u32
            },
{
    let kept = release_key(held_keys, code);
    assert forall|j: int| 0 <= j < repeat_events(kept, now, device).len() implies {
        let e = #[trigger] repeat_events(kept, now, device)[j];
        e.payload matches EventPayload::KeyboardKey(k) && k.key != code as u32
    } by {
        lemma_repeat_events_from_keys(kept, now, device, j);
        let i = choose|i: int|
            0 <= i < kept.len() && repeat_events(kept, now, device)[j] == repeat_event(
                #[trigger] kept[i],
                device,
            );
        held_keys.lemma_filter_pred(|k: HeldKey| k.code != code, i);
        assert(kept[i].code != code);
    }
}

/// Releasing a key that was pressed while not held leaves the held keys as
/// they were before the press.
pub proof fn law_press_release_restores(held_keys: Seq<HeldKey>, code: u16, ts_usec: u64, now: u64)
    requires
        forall|i: int| 0 <= i < held_keys.len() ==> (#[trigger] held_keys[i]).code != code,
    ensures
        release_key(held_keys.push(pressed_key(code, ts_usec, now)), code) == held_keys,
{
    reveal(Seq::filter);
    assert(held_keys.push(pressed_key(code, ts_usec, now)).drop_last() =~= held_keys);
    lemma_filter_keeps_all(held_keys, code);
}

/// Filtering out a code that no key has keeps every key.
proof fn lemma_filter_keeps_all(keys: Seq<HeldKey>, code: u16)
    requires
        forall|i: int| 0 <= i < keys.len() ==> (#[trigger] keys[i]).code != code,
    ensures
        release_key(keys, code) == keys,
    decreases keys.len(),
{
    reveal(Seq::filter);
    if keys.len() > 0 {
        assert forall|i: int| 0 <= i < keys.drop_last().len() implies (
        #[trigger] keys.drop_last()[i]).code != code by {
            assert(keys.drop_last()[i] == keys[i]);
        }
        lemma_filter_keeps_all(keys.drop_last(), code);
        assert(keys.drop_last().push(keys.last()) =~= keys);
    }
}


/// The events of a keyboard are key events of the keyboard: their type
/// matches their payload and they carry the device's handle, whether they
/// report presses, releases or repeats.
pub proof fn law_keyboard_events_well_typed(
    held_keys: Seq<HeldKey>,
    last_typing_time: Option<u64>,
    global_typing_time: Option<u64>,
    ev: RawEvent,
    ts_usec: u64,
    device: usize,
    now: u64,
)
    ensures
        all_from(
            keyboard_step(
                held_keys,
                last_typing_time,
                global_typing_time,
                ev,
                ts_usec,
                device,
                now,
            ).events,
            device,
        ),
        all_from(repeat_events(held_keys, now, device), device),
{
    assert forall|j: int| 0 <= j < repeat_events(held_keys, now, device).len() implies {
        let e = #[trigger] repeat_events(held_keys, now, device)[j];
        e.well_typed() && e.device == device
    } by {
        lemma_repeat_events_from_keys(held_keys, now, device, j);
    }
}

} // verus!
