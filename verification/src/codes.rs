//! Linux input-event codes and the timing constants of the input pipeline.
//!
//! The numeric values are those of `linux/input-event-codes.h`, the same
//! values that the `evdev` crate exposes as `EventType`, `KeyCode`,
//! `RelativeAxisCode` and `AbsoluteAxisCode`.

use vstd::prelude::*;

verus! {

/// `EV_SYN`: synchronisation events.
pub const EV_SYN: u16 = 0x00;
/// `EV_KEY`: keys and buttons.
pub const EV_KEY: u16 = 0x01;
/// `EV_REL`: relative axes.
pub const EV_REL: u16 = 0x02;
/// `EV_ABS`: absolute axes.
pub const EV_ABS: u16 = 0x03;

/// `SYN_REPORT`: end of one hardware frame.
pub const SYN_REPORT: u16 = 0;

/// `KEY_A`: a device that has this key is classified as a keyboard.
pub const KEY_A: u16 = 30;

pub const BTN_LEFT: u16 = 0x110;
pub const BTN_RIGHT: u16 = 0x111;
pub const BTN_MIDDLE: u16 = 0x112;
pub const BTN_SIDE: u16 = 0x113;
pub const BTN_EXTRA: u16 = 0x114;
pub const BTN_TOUCH: u16 = 0x14a;
pub const BTN_TOOL_DOUBLETAP: u16 = 0x14d;
pub const BTN_TOOL_TRIPLETAP: u16 = 0x14e;
pub const BTN_TOOL_QUADTAP: u16 = 0x14f;

pub const REL_X: u16 = 0x00;
pub const REL_Y: u16 = 0x01;
pub const REL_HWHEEL: u16 = 0x06;
pub const REL_WHEEL: u16 = 0x08;

pub const ABS_X: u16 = 0x00;
pub const ABS_Y: u16 = 0x01;
pub const ABS_MT_SLOT: u16 = 0x2f;
pub const ABS_MT_POSITION_X: u16 = 0x35;
pub const ABS_MT_POSITION_Y: u16 = 0x36;
pub const ABS_MT_TRACKING_ID: u16 = 0x39;
pub const ABS_MT_DISTANCE: u16 = 0x3b;

/// `ENODEV`: the errno that a read of an unplugged device reports.
pub const ENODEV: i32 = 19;

/// Key state reported for a key that was released.
pub const KEY_STATE_RELEASED: u32 = 0;
/// Key state reported for a key that was pressed.
pub const KEY_STATE_PRESSED: u32 = 1;
/// Key state reported for a synthesised repeat.
pub const KEY_STATE_REPEAT: u32 = 2;

/// Delay before the first synthesised repeat of a held key, in microseconds (200 ms).
pub const REPEAT_DELAY_USEC: u64 = 200_000;
/// Interval between later synthesised repeats, in microseconds (25 ms).
pub const REPEAT_INTERVAL_USEC: u64 = 25_000;
/// Disable-while-typing window after the last key press, in microseconds (500 ms).
pub const DWT_TIMEOUT_USEC: u64 = 500_000;
/// A touch shorter than this is a tap, in microseconds (250 ms).
pub const TAP_TIMEOUT_USEC: u64 = 250_000;
/// A single-touch position older than this is stale, in microseconds (50 ms).
pub const MOTION_STALE_USEC: u64 = 50_000;

/// Number of multi-touch slots tracked per touchpad.
pub const MT_SLOT_COUNT: usize = 10;

/// Scroll distance reported per wheel detent or scroll step.
pub const SCROLL_STEP: i64 = 15;

/// Pointer axis: vertical scroll.
pub const AXIS_SCROLL_VERTICAL: u32 = 0;
/// Pointer axis: horizontal scroll.
pub const AXIS_SCROLL_HORIZONTAL: u32 = 1;

/// Axis source: a mouse wheel.
pub const AXIS_SOURCE_WHEEL: u32 = 1;
/// Axis source: fingers on a touchpad.
pub const AXIS_SOURCE_FINGER: u32 = 2;

/// Configuration status: the change was applied.
pub const CONFIG_STATUS_SUCCESS: u32 = 0;
/// Configuration status: the device does not support the change.
pub const CONFIG_STATUS_UNSUPPORTED: u32 = 1;
/// Configuration status: the value is invalid.
pub const CONFIG_STATUS_INVALID: u32 = 2;

/// The amount of time that elapsed from `since` to `now`, zero when `since`
/// lies after `now` (a monotonic clock never goes back, and `Instant` saturates).
pub open spec fn elapsed(now: u64, since: u64) -> int {
    if now >= since { now - since } else { 0 }
}

/// Executable form of [`elapsed`].
pub fn elapsed_usec(now: u64, since: u64) -> (r: u64)
    ensures
        r == elapsed(now, since),
{
    if now >= since { now - since } else { 0 }
}

} // verus!
