use libinput_rs::backend::DeviceCaps;
use libinput_rs::device::{
    libinput_device_config_accel_apply, libinput_device_config_accel_get_profile,
    libinput_device_config_accel_get_profiles, libinput_device_config_click_get_methods,
    libinput_device_config_dwt_get_enabled, libinput_device_config_dwt_get_timeout,
    libinput_device_config_dwt_set_enabled, libinput_device_config_dwt_set_timeout,
    libinput_device_config_left_handed_get, libinput_device_config_left_handed_set,
    libinput_device_config_scroll_get_methods, libinput_device_config_scroll_get_natural_scroll_enabled,
    libinput_device_config_scroll_set_natural_scroll_enabled, libinput_device_config_tap_get_button_map,
    libinput_device_config_tap_get_enabled, libinput_device_config_tap_get_finger_count,
    libinput_device_config_tap_set_button_map, libinput_device_config_tap_set_enabled,
    libinput_device_get_devnode, libinput_device_get_name, libinput_device_get_sysname,
    libinput_device_has_capability, libinput_device_ref, libinput_device_touch_get_touch_count,
    libinput_device_unref, LibinputDevice, CAP_GESTURE, CAP_KEYBOARD, CAP_POINTER, CAP_TOUCH,
};
use libinput_rs::device::{
    libinput_device_config_area_set_rectangle, libinput_device_config_rotation_set_angle,
    libinput_device_config_scroll_set_button, libinput_device_config_send_events_set_mode,
    libinput_device_config_tap_set_drag_enabled, libinput_device_config_tap_set_drag_lock_enabled,
    libinput_device_led_update,
};
use libinput_rs::device::libinput_device_config_scroll_get_default_natural_scroll_enabled;
use libinput_rs::stubs::libinput_config_status_to_str;

#[test]
fn new_device_defaults() {
    let d = LibinputDevice::new("Touchpad", "/dev/input/event5");
    assert_eq!(libinput_device_get_name(Some(&d)), Some(&b"Touchpad\0"[..]));
    assert_eq!(libinput_device_get_devnode(Some(&d)), Some(&b"/dev/input/event5\0"[..]));
    assert_eq!(libinput_device_get_sysname(Some(&d)), Some(&b"\0"[..]));
    assert_eq!(libinput_device_get_name(None), None);
    assert_eq!(libinput_device_config_tap_get_enabled(Some(&d)), 1);
    assert_eq!(libinput_device_config_scroll_get_natural_scroll_enabled(Some(&d)), 1);
    assert_eq!(libinput_device_config_dwt_get_enabled(Some(&d)), 1);
    assert_eq!(libinput_device_config_accel_get_profile(Some(&d)), 1);
    assert_eq!(d.scroll_method, 2);
    assert_eq!(d.click_method, 1);
    assert_eq!(libinput_device_has_capability(Some(&d), CAP_POINTER), 1);
    assert_eq!(libinput_device_has_capability(Some(&d), CAP_KEYBOARD), 0);
    assert_eq!(libinput_device_has_capability(Some(&d), 99), 0);
    assert_eq!(libinput_device_has_capability(None, CAP_POINTER), 0);
}

#[test]
fn capabilities_of_an_absolute_pointer() {
    let mut d = LibinputDevice::new("Touchpad", "/dev/input/event5");
    d.apply_capabilities(&DeviceCaps { is_pointer: true, is_keyboard: false, is_absolute: true });
    assert_eq!(libinput_device_has_capability(Some(&d), CAP_TOUCH), 1);
    assert_eq!(libinput_device_has_capability(Some(&d), CAP_GESTURE), 1);
    assert_eq!(libinput_device_touch_get_touch_count(Some(&d)), 10);
    assert_eq!(libinput_device_config_tap_get_finger_count(Some(&d)), 3);
    assert_eq!(libinput_device_config_scroll_get_methods(Some(&d)), 0b111);
    let mut k = LibinputDevice::new("Keyboard", "/dev/input/event1");
    k.apply_capabilities(&DeviceCaps { is_pointer: false, is_keyboard: true, is_absolute: false });
    assert_eq!(libinput_device_has_capability(Some(&k), CAP_KEYBOARD), 1);
    assert_eq!(libinput_device_touch_get_touch_count(Some(&k)), 0);
    assert_eq!(libinput_device_config_tap_get_finger_count(Some(&k)), 0);
    assert_eq!(libinput_device_config_accel_get_profiles(Some(&k)), 0);
    assert_eq!(libinput_device_config_click_get_methods(Some(&k)), 0);
}

#[test]
fn settings_read_back() {
    let mut d = LibinputDevice::new("Mouse", "/dev/input/event2");
    assert_eq!(libinput_device_config_tap_set_enabled(&mut d, 0), 0);
    assert_eq!(libinput_device_config_tap_get_enabled(Some(&d)), 0);
    assert_eq!(libinput_device_config_tap_set_enabled(&mut d, 7), 0);
    assert_eq!(libinput_device_config_tap_get_enabled(Some(&d)), 1);
    libinput_device_config_tap_set_button_map(&mut d, 1);
    assert_eq!(libinput_device_config_tap_get_button_map(Some(&d)), 1);
    libinput_device_config_scroll_set_natural_scroll_enabled(&mut d, 0);
    assert_eq!(libinput_device_config_scroll_get_natural_scroll_enabled(Some(&d)), 0);
    libinput_device_config_left_handed_set(&mut d, -1);
    assert_eq!(libinput_device_config_left_handed_get(Some(&d)), 1);
    libinput_device_config_dwt_set_enabled(&mut d, 0);
    assert_eq!(libinput_device_config_dwt_get_enabled(Some(&d)), 0);
    assert_eq!(libinput_device_config_accel_apply(&mut d, 0), 0);
    assert_eq!(libinput_device_config_accel_get_profile(Some(&d)), 0);
    assert_eq!(libinput_device_config_dwt_set_timeout(&d, 100), 1);
    assert_eq!(libinput_device_config_dwt_get_timeout(Some(&d)), 500);
}

#[test]
fn device_reference_counting() {
    let mut d = LibinputDevice::new("Mouse", "/dev/input/event2");
    libinput_device_ref(&mut d);
    assert_eq!(d.refcount, 2);
    assert!(libinput_device_unref(&mut d));
    assert!(!libinput_device_unref(&mut d));
    assert_eq!(d.refcount, 0);
}

#[test]
fn status_names() {
    assert_eq!(libinput_config_status_to_str(0), Some("success\0"));
    assert_eq!(libinput_config_status_to_str(1), Some("unsupported\0"));
    assert_eq!(libinput_config_status_to_str(2), Some("invalid\0"));
    assert_eq!(libinput_config_status_to_str(3), None);
}

#[test]
fn ignored_requests_need_a_device() {
    let d = LibinputDevice::new("Touchpad", "/dev/input/event3");
    assert_eq!(libinput_device_config_tap_set_drag_enabled(Some(&d), 1), 0);
    assert_eq!(libinput_device_config_tap_set_drag_enabled(None, 1), 1);
    assert_eq!(libinput_device_config_tap_set_drag_lock_enabled(Some(&d), 1), 0);
    assert_eq!(libinput_device_config_tap_set_drag_lock_enabled(None, 1), 1);
    assert_eq!(libinput_device_config_scroll_set_button(Some(&d), 274), 0);
    assert_eq!(libinput_device_config_scroll_set_button(None, 274), 1);
    assert_eq!(libinput_device_config_area_set_rectangle(Some(&d)), 0);
    assert_eq!(libinput_device_config_area_set_rectangle(None), 1);
    assert_eq!(libinput_device_config_rotation_set_angle(Some(&d), 90), 0);
    assert_eq!(libinput_device_config_rotation_set_angle(None, 90), 1);
    assert_eq!(libinput_device_config_send_events_set_mode(Some(&d), 1), 0);
    assert_eq!(libinput_device_config_send_events_set_mode(None, 1), 1);
    assert_eq!(libinput_device_led_update(Some(&d), 1), 0);
    assert_eq!(libinput_device_led_update(None, 1), 1);
}

#[test]
fn capabilities_use_the_c_interface_numbers() {
    let mouse = LibinputDevice::new("Mouse", "/dev/input/event2");
    assert_eq!(libinput_device_has_capability(Some(&mouse), 1), 1);
    assert_eq!(libinput_device_has_capability(Some(&mouse), 0), 0);
    assert_eq!(libinput_device_has_capability(Some(&mouse), 2), 0);
    assert_eq!(libinput_device_has_capability(Some(&mouse), 4), 0);
    assert_eq!(libinput_device_has_capability(Some(&mouse), 7), 0);
}

#[test]
fn natural_scrolling_is_on_by_default() {
    let d = LibinputDevice::new("Touchpad", "/dev/input/event4");
    assert_eq!(libinput_device_config_scroll_get_default_natural_scroll_enabled(Some(&d)), 1);
    assert_eq!(libinput_device_config_scroll_get_natural_scroll_enabled(Some(&d)), 1);
}
