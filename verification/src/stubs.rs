//! The parts of the C interface that this library answers with fixed
//! values: status names, log priority, plugins, and the tablet interfaces,
//! which no supported device provides.

use vstd::prelude::*;

use crate::events::LibinputEvent;

verus! {

/// The name of a configuration status, as a C string (with its NUL).
pub fn libinput_config_status_to_str(status: u32) -> (r: Option<&'static str>)
    ensures
        status == 0 ==> (r matches Some(s) && s@ == "success\0"@),
        status == 1 ==> (r matches Some(s) && s@ == "unsupported\0"@),
        status == 2 ==> (r matches Some(s) && s@ == "invalid\0"@),
        status > 2 ==> r is None,
{
    if status == 0 {
        Some("success\0")
    } else if status == 1 {
        Some("unsupported\0")
    } else if status == 2 {
        Some("invalid\0")
    } else {
        None
    }
}

/// Tablet events are never produced; their fields read as zero.
pub fn libinput_event_tablet_pad_get_button_number(_event: Option<&LibinputEvent>) -> (r: u32)
    ensures
        r == 0,
{
    0
}

/// Tablet events are never produced; their fields read as zero.
pub fn libinput_event_tablet_pad_get_button_state(_event: Option<&LibinputEvent>) -> (r: u32)
    ensures
        r == 0,
{
    0
}

/// Tablet events are never produced; their fields read as zero.
pub fn libinput_event_tablet_pad_get_key(_event: Option<&LibinputEvent>) -> (r: u32)
    ensures
        r == 0,
{
    0
}

/// Tablet events are never produced; their fields read as zero.
pub fn libinput_event_tablet_pad_get_key_state(_event: Option<&LibinputEvent>) -> (r: u32)
    ensures
        r == 0,
{
    0
}

/// Tablet events are never produced; their fields read as zero.
pub fn libinput_event_tablet_pad_get_dial_number(_event: Option<&LibinputEvent>) -> (r: u32)
    ensures
        r == 0,
{
    0
}

/// Tablet events are never produced; their fields read as zero.
pub fn libinput_event_tablet_pad_get_mode(_event: Option<&LibinputEvent>) -> (r: u32)
    ensures
        r == 0,
{
    0
}

/// Tablet events are never produced; their fields read as zero.
pub fn libinput_event_tablet_pad_get_ring_number(_event: Option<&LibinputEvent>) -> (r: u32)
    ensures
        r == 0,
{
    0
}

/// Tablet events are never produced; their fields read as zero.
pub fn libinput_event_tablet_pad_get_ring_source(_event: Option<&LibinputEvent>) -> (r: u32)
    ensures
        r == 0,
{
    0
}

/// Tablet events are never produced; their fields read as zero.
pub fn libinput_event_tablet_pad_get_strip_number(_event: Option<&LibinputEvent>) -> (r: u32)
    ensures
        r == 0,
{
    0
}

/// Tablet events are never produced; their fields read as zero.
pub fn libinput_event_tablet_pad_get_strip_source(_event: Option<&LibinputEvent>) -> (r: u32)
    ensures
        r == 0,
{
    0
}

/// Tablet events are never produced; their fields read as zero.
pub fn libinput_event_tablet_pad_get_time_usec(_event: Option<&LibinputEvent>) -> (r: u64)
    ensures
        r == 0,
{
    0
}

/// Tablet events are never produced; their fields read as zero.
pub fn libinput_event_tablet_pad_get_time(_event: Option<&LibinputEvent>) -> (r: u32)
    ensures
        r == 0,
{
    0
}

/// Tablet events are never produced; their fields read as zero.
pub fn libinput_event_tablet_tool_get_button(_event: Option<&LibinputEvent>) -> (r: u32)
    ensures
        r == 0,
{
    0
}

/// Tablet events are never produced; their fields read as zero.
pub fn libinput_event_tablet_tool_get_button_state(_event: Option<&LibinputEvent>) -> (r: u32)
    ensures
        r == 0,
{
    0
}

/// Tablet events are never produced; their fields read as zero.
pub fn libinput_event_tablet_tool_get_seat_button_count(_event: Option<&LibinputEvent>) -> (r: u32)
    ensures
        r == 0,
{
    0
}

/// Tablet events are never produced; their fields read as zero.
pub fn libinput_event_tablet_tool_get_proximity_state(_event: Option<&LibinputEvent>) -> (r: u32)
    ensures
        r == 0,
{
    0
}

/// Tablet events are never produced; their fields read as zero.
pub fn libinput_event_tablet_tool_get_wheel_delta_discrete(_event: Option<&LibinputEvent>) -> (r: i32)
    ensures
        r == 0,
{
    0
}

/// Tablet events are never produced; their fields read as zero.
pub fn libinput_event_tablet_tool_get_time_usec(_event: Option<&LibinputEvent>) -> (r: u64)
    ensures
        r == 0,
{
    0
}

/// Tablet events are never produced; their fields read as zero.
pub fn libinput_event_tablet_tool_get_time(_event: Option<&LibinputEvent>) -> (r: u32)
    ensures
        r == 0,
{
    0
}

/// Tablet events are never produced; their fields read as zero.
pub fn libinput_event_tablet_tool_get_tip_state(_event: Option<&LibinputEvent>) -> (r: u32)
    ensures
        r == 0,
{
    0
}

/// Tablet events are never produced; their fields read as zero.
pub fn libinput_event_tablet_tool_x_has_changed(_event: Option<&LibinputEvent>) -> (r: i32)
    ensures
        r == 0,
{
    0
}

/// Tablet events are never produced; their fields read as zero.
pub fn libinput_event_tablet_tool_y_has_changed(_event: Option<&LibinputEvent>) -> (r: i32)
    ensures
        r == 0,
{
    0
}

/// Tablet events are never produced; their fields read as zero.
pub fn libinput_event_tablet_tool_pressure_has_changed(_event: Option<&LibinputEvent>) -> (r: i32)
    ensures
        r == 0,
{
    0
}

/// Tablet events are never produced; their fields read as zero.
pub fn libinput_event_tablet_tool_distance_has_changed(_event: Option<&LibinputEvent>) -> (r: i32)
    ensures
        r == 0,
{
    0
}

/// Tablet events are never produced; their fields read as zero.
pub fn libinput_event_tablet_tool_tilt_x_has_changed(_event: Option<&LibinputEvent>) -> (r: i32)
    ensures
        r == 0,
{
    0
}

/// Tablet events are never produced; their fields read as zero.
pub fn libinput_event_tablet_tool_tilt_y_has_changed(_event: Option<&LibinputEvent>) -> (r: i32)
    ensures
        r == 0,
{
    0
}

/// Tablet events are never produced; their fields read as zero.
pub fn libinput_event_tablet_tool_rotation_has_changed(_event: Option<&LibinputEvent>) -> (r: i32)
    ensures
        r == 0,
{
    0
}

/// Tablet events are never produced; their fields read as zero.
pub fn libinput_event_tablet_tool_slider_has_changed(_event: Option<&LibinputEvent>) -> (r: i32)
    ensures
        r == 0,
{
    0
}

/// Tablet events are never produced; their fields read as zero.
pub fn libinput_event_tablet_tool_wheel_has_changed(_event: Option<&LibinputEvent>) -> (r: i32)
    ensures
        r == 0,
{
    0
}

/// Tablet events are never produced; their fields read as zero.
pub fn libinput_event_tablet_tool_size_major_has_changed(_event: Option<&LibinputEvent>) -> (r: i32)
    ensures
        r == 0,
{
    0
}

/// Tablet events are never produced; their fields read as zero.
pub fn libinput_event_tablet_tool_size_minor_has_changed(_event: Option<&LibinputEvent>) -> (r: i32)
    ensures
        r == 0,
{
    0
}

/// The log priority: errors only.
pub fn libinput_log_get_priority() -> (r: u32)
    ensures
        r == 3,
{
    3
}

/// Plugins: none to load, which succeeds.
pub fn libinput_plugin_system_load_plugins() -> (r: i32)
    ensures
        r == 0,
{
    0
}

/// Resuming always succeeds.
pub fn libinput_resume() -> (r: i32)
    ensures
        r == 0,
{
    0
}

/// No tablet is supported; the answer is fixed.
pub fn libinput_tablet_pad_mode_group_button_is_toggle(_button: u32) -> (r: i32)
    ensures
        r == 0,
{
    0
}

/// No tablet is supported; the answer is fixed.
pub fn libinput_tablet_pad_mode_group_get_index() -> (r: u32)
    ensures
        r == 0,
{
    0
}

/// No tablet is supported; the answer is fixed.
pub fn libinput_tablet_pad_mode_group_get_mode() -> (r: u32)
    ensures
        r == 0,
{
    0
}

/// A mode group has a single mode.
pub fn libinput_tablet_pad_mode_group_get_num_modes() -> (r: u32)
    ensures
        r == 1,
{
    1
}

/// No tablet is supported; the answer is fixed.
pub fn libinput_tablet_pad_mode_group_has_button(_button: u32) -> (r: i32)
    ensures
        r == 0,
{
    0
}

/// No tablet is supported; the answer is fixed.
pub fn libinput_tablet_pad_mode_group_has_dial(_dial: u32) -> (r: i32)
    ensures
        r == 0,
{
    0
}

/// No tablet is supported; the answer is fixed.
pub fn libinput_tablet_pad_mode_group_has_ring(_ring: u32) -> (r: i32)
    ensures
        r == 0,
{
    0
}

/// No tablet is supported; the answer is fixed.
pub fn libinput_tablet_pad_mode_group_has_strip(_strip: u32) -> (r: i32)
    ensures
        r == 0,
{
    0
}

/// No tablet is supported; the answer is fixed.
pub fn libinput_tablet_tool_config_pressure_range_is_available() -> (r: i32)
    ensures
        r == 0,
{
    0
}

/// Pressure ranges are not supported.
pub fn libinput_tablet_tool_config_pressure_range_set() -> (r: u32)
    ensures
        r == 1,
{
    1
}

/// No tablet is supported; the answer is fixed.
pub fn libinput_tablet_tool_config_eraser_button_get_modes() -> (r: u32)
    ensures
        r == 0,
{
    0
}

/// Eraser button modes are not supported.
pub fn libinput_tablet_tool_config_eraser_button_set_mode(_mode: u32) -> (r: u32)
    ensures
        r == 1,
{
    1
}

/// No tablet is supported; the answer is fixed.
pub fn libinput_tablet_tool_config_eraser_button_get_mode() -> (r: u32)
    ensures
        r == 0,
{
    0
}

/// No tablet is supported; the answer is fixed.
pub fn libinput_tablet_tool_config_eraser_button_get_default_mode() -> (r: u32)
    ensures
        r == 0,
{
    0
}

/// Eraser buttons are not supported.
pub fn libinput_tablet_tool_config_eraser_button_set_button(_button: u32) -> (r: u32)
    ensures
        r == 1,
{
    1
}

/// No tablet is supported; the answer is fixed.
pub fn libinput_tablet_tool_config_eraser_button_get_button() -> (r: u32)
    ensures
        r == 0,
{
    0
}

/// No tablet is supported; the answer is fixed.
pub fn libinput_tablet_tool_config_eraser_button_get_default_button() -> (r: u32)
    ensures
        r == 0,
{
    0
}

/// No tablet is supported; the answer is fixed.
pub fn libinput_tablet_tool_get_serial() -> (r: u64)
    ensures
        r == 0,
{
    0
}

/// No tablet is supported; the answer is fixed.
pub fn libinput_tablet_tool_get_tool_id() -> (r: u64)
    ensures
        r == 0,
{
    0
}

/// No tablet is supported; the answer is fixed.
pub fn libinput_tablet_tool_get_type() -> (r: u32)
    ensures
        r == 0,
{
    0
}

/// No tablet is supported; the answer is fixed.
pub fn libinput_tablet_tool_has_distance() -> (r: i32)
    ensures
        r == 0,
{
    0
}

/// No tablet is supported; the answer is fixed.
pub fn libinput_tablet_tool_has_button(_button: u32) -> (r: i32)
    ensures
        r == 0,
{
    0
}

/// No tablet is supported; the answer is fixed.
pub fn libinput_tablet_tool_has_size() -> (r: i32)
    ensures
        r == 0,
{
    0
}

/// No tablet is supported; the answer is fixed.
pub fn libinput_tablet_tool_is_unique() -> (r: i32)
    ensures
        r == 0,
{
    0
}

/// No tablet is supported; the answer is fixed.
pub fn libinput_tablet_tool_has_pressure() -> (r: i32)
    ensures
        r == 0,
{
    0
}

/// No tablet is supported; the answer is fixed.
pub fn libinput_tablet_tool_has_rotation() -> (r: i32)
    ensures
        r == 0,
{
    0
}

/// No tablet is supported; the answer is fixed.
pub fn libinput_tablet_tool_has_slider() -> (r: i32)
    ensures
        r == 0,
{
    0
}

/// No tablet is supported; the answer is fixed.
pub fn libinput_tablet_tool_has_tilt() -> (r: i32)
    ensures
        r == 0,
{
    0
}

/// No tablet is supported; the answer is fixed.
pub fn libinput_tablet_tool_has_wheel() -> (r: i32)
    ensures
        r == 0,
{
    0
}

} // verus!
