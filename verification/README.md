# libinput_rs

A libinput-compatible input stack whose core is verified with Verus.

* `src/` — the verified core:
  * `events` — event types, payloads and raw kernel events;
  * `keyboard` — key presses, releases and the library's own key repeat
    (200 ms delay, 25 ms interval);
  * `relative` — mice and trackpoints;
  * `touchpad` — multi-touch slots, tap-to-click, click-finger remapping,
    two-finger scrolling, swipes and pinches;
  * `backend` — the device table, device classification and per-event
    dispatch, disable-while-typing;
  * `device`, `seat`, `context` — device configuration, seats, the event
    queue and reference counts;
  * `accessors`, `stubs` — the integer-valued queries of the C interface;
  * `text`, `codes` — byte-string helpers and input-event codes.
* `app/` — the `libinput.so` C interface: C objects, evdev and inotify
  I/O, and the floating-point parts of the pointer pipeline (acceleration
  remainders, gesture scale and rotation).
* `tests/` — tests of the core.
