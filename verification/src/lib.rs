//! A verified core for a libinput-compatible input stack: the event model,
//! the per-device input processing (keyboard repeat, mouse, touchpad taps,
//! scrolling and gestures), device configuration and the event queue.

pub mod accessors;
pub mod backend;
pub mod codes;
pub mod context;
pub mod device;
pub mod events;
pub mod keyboard;
pub mod relative;
pub mod seat;
pub mod stubs;
pub mod text;
pub mod touchpad;
