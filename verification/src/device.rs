//! Input devices: identity, capabilities, configuration and reference
//! counting.
//!
//! Every query takes the device as an option (the absent device of the C
//! interface) and answers a fixed default for it.  A change that stores a
//! setting takes the device itself, and the status a caller reports for an
//! absent device is `CONFIG_STATUS_UNSUPPORTED`; a change that stores
//! nothing takes the device as an option and answers that status itself.

use vstd::prelude::*;
use vstd::string::StringSliceAdditionalSpecFns;

use crate::backend::DeviceCaps;
use crate::codes::{CONFIG_STATUS_SUCCESS, CONFIG_STATUS_UNSUPPORTED};
use crate::text::{c_string, c_string_bytes};

verus! {

/// The capabilities that [`libinput_device_has_capability`] answers for,
/// numbered as `enum libinput_device_capability` of `<libinput.h>`.
pub const CAP_KEYBOARD: u32 = 0;
pub const CAP_POINTER: u32 = 1;
pub const CAP_TOUCH: u32 = 2;
pub const CAP_TABLET_TOOL: u32 = 3;
pub const CAP_TABLET_PAD: u32 = 4;
pub const CAP_GESTURE: u32 = 5;
pub const CAP_SWITCH: u32 = 6;

/// The number of touch points a touch device reports.
pub const TOUCH_COUNT: i32 = 10;
/// The number of fingers that tapping supports.
pub const TAP_FINGER_COUNT: i32 = 3;
/// The acceleration profiles offered: flat and adaptive.
pub const ACCEL_PROFILES_ALL: u32 = 0b11;
/// The default acceleration profile: adaptive.
pub const ACCEL_PROFILE_ADAPTIVE: u32 = 1;
/// The scroll methods offered: two-finger, edge and on-button-down.
pub const SCROLL_METHODS_ALL: u32 = 0b111;
/// The default scroll method: two-finger.
pub const SCROLL_METHOD_TWO_FINGER: u32 = 2;
/// The click methods offered: button areas and click-finger.
pub const CLICK_METHODS_ALL: u32 = 0b11;
/// The default click method: button areas.
pub const CLICK_METHOD_BUTTON_AREAS: u32 = 1;
/// The disable-while-typing timeout, in milliseconds.
pub const DWT_TIMEOUT_MS: u32 = 500;
/// The send-events modes offered: disabled and disabled on external mouse.
pub const SEND_EVENTS_MODES_ALL: u32 = 0b11;

/// A device object.  Its names are held as C strings.
pub struct LibinputDevice {
    pub name: Vec<u8>,
    pub sysname: Vec<u8>,
    pub devnode: Vec<u8>,
    pub vendor_id: u32,
    pub product_id: u32,
    pub has_keyboard: bool,
    pub has_pointer: bool,
    pub has_touch: bool,
    pub has_gesture: bool,
    pub has_switch: bool,
    pub has_tablet: bool,
    pub tap_enabled: bool,
    pub natural_scroll: bool,
    pub accel_profile: u32,
    pub left_handed: bool,
    pub scroll_method: u32,
    pub click_method: u32,
    pub middle_emulation: bool,
    pub dwt_enabled: bool,
    pub tap_button_map: u32,
    pub refcount: i32,
}

/// `1` for true and `0` for false, as the C interface answers booleans.
pub open spec fn flag(b: bool) -> i32 {
    if b { 1 } else { 0 }
}

fn flag_exec(b: bool) -> (r: i32)
    ensures
        r == flag(b),
{
    if b { 1 } else { 0 }
}

/// `1` for true and `0` for false, as an unsigned value.
pub open spec fn uflag(b: bool) -> u32 {
    if b { 1 } else { 0 }
}

fn uflag_exec(b: bool) -> (r: u32)
    ensures
        r == uflag(b),
{
    if b { 1 } else { 0 }
}

impl LibinputDevice {
    /// A new device named `name` at `devnode`: a pointer and nothing else,
    /// no ids and no sysname; tapping, natural scrolling and
    /// disable-while-typing on; adaptive acceleration, two-finger scrolling,
    /// button-area clicking, the left-right-middle tap map; not left-handed,
    /// no middle-button emulation; one reference.
    pub fn new(name: &str, devnode: &str) -> (r: LibinputDevice)
        ensures
            r.name@ == c_string(name.spec_bytes()),
            r.sysname@ == c_string(Seq::<u8>::empty()),
            r.devnode@ == c_string(devnode.spec_bytes()),
            r.vendor_id == 0,
            r.product_id == 0,
            !r.has_keyboard,
            r.has_pointer,
            !r.has_touch,
            !r.has_gesture,
            !r.has_switch,
            !r.has_tablet,
            r.tap_enabled,
            r.natural_scroll,
            r.accel_profile == ACCEL_PROFILE_ADAPTIVE,
            !r.left_handed,
            r.scroll_method == SCROLL_METHOD_TWO_FINGER,
            r.click_method == CLICK_METHOD_BUTTON_AREAS,
            !r.middle_emulation,
            r.dwt_enabled,
            r.tap_button_map == 0,
            r.refcount == 1,
    {
        let mut sysname: Vec<u8> = Vec::new();
        sysname.push(0u8);
        proof {
            assert(sysname@ =~= c_string(Seq::<u8>::empty()));
        }
        LibinputDevice {
            name: c_string_bytes(name),
            sysname: sysname,
            devnode: c_string_bytes(devnode),
            vendor_id: 0,
            product_id: 0,
            has_keyboard: false,
            has_pointer: true,
            has_touch: false,
            has_gesture: false,
            has_switch: false,
            has_tablet: false,
            tap_enabled: true,
            natural_scroll: true,
            accel_profile: ACCEL_PROFILE_ADAPTIVE,
            left_handed: false,
            scroll_method: SCROLL_METHOD_TWO_FINGER,
            click_method: CLICK_METHOD_BUTTON_AREAS,
            middle_emulation: false,
            dwt_enabled: true,
            tap_button_map: 0,
            refcount: 1,
        }
    }

    /// Gives a freshly opened device the capabilities of its classification:
    /// pointer and keyboard as classified, touch and gesture for an
    /// absolute pointer.
    pub fn apply_capabilities(&mut self, caps: &DeviceCaps)
        ensures
            final(self).has_pointer == caps.is_pointer,
            final(self).has_keyboard == caps.is_keyboard,
            final(self).has_touch == (caps.is_absolute && caps.is_pointer),
            final(self).has_gesture == (caps.is_absolute && caps.is_pointer),
            final(self).has_switch == old(self).has_switch,
            final(self).has_tablet == old(self).has_tablet,
            final(self).name@ == old(self).name@,
            final(self).sysname@ == old(self).sysname@,
            final(self).devnode@ == old(self).devnode@,
            final(self).vendor_id == old(self).vendor_id,
            final(self).product_id == old(self).product_id,
            final(self).tap_enabled == old(self).tap_enabled,
            final(self).natural_scroll == old(self).natural_scroll,
            final(self).accel_profile == old(self).accel_profile,
            final(self).left_handed == old(self).left_handed,
            final(self).scroll_method == old(self).scroll_method,
            final(self).click_method == old(self).click_method,
            final(self).middle_emulation == old(self).middle_emulation,
            final(self).dwt_enabled == old(self).dwt_enabled,
            final(self).tap_button_map == old(self).tap_button_map,
            final(self).refcount == old(self).refcount,
    {
        self.has_pointer = caps.is_pointer;
        self.has_keyboard = caps.is_keyboard;
        self.has_touch = caps.is_absolute && caps.is_pointer;
        self.has_gesture = caps.is_absolute && caps.is_pointer;
    }

    /// Everything but the configuration field that a setter changes: the
    /// device's identity, capabilities and reference count.
    pub open spec fn same_identity(self, other: LibinputDevice) -> bool {
        &&& self.name@ == other.name@
        &&& self.same_node(other)
        &&& self.refcount == other.refcount
    }

    /// The same node: sysname, device node, ids and capabilities.
    pub open spec fn same_node(self, other: LibinputDevice) -> bool {
        &&& self.sysname@ == other.sysname@
        &&& self.devnode@ == other.devnode@
        &&& self.vendor_id == other.vendor_id
        &&& self.product_id == other.product_id
        &&& self.has_keyboard == other.has_keyboard
        &&& self.has_pointer == other.has_pointer
        &&& self.has_touch == other.has_touch
        &&& self.has_gesture == other.has_gesture
        &&& self.has_switch == other.has_switch
        &&& self.has_tablet == other.has_tablet
    }

    /// The configuration of a device.
    pub open spec fn config(self) -> (bool, bool, u32, bool, u32, u32, bool, bool, u32) {
        (
            self.tap_enabled,
            self.natural_scroll,
            self.accel_profile,
            self.left_handed,
            self.scroll_method,
            self.click_method,
            self.middle_emulation,
            self.dwt_enabled,
            self.tap_button_map,
        )
    }
}

/// Takes a reference to a device (the count wraps as an atomic counter does).
pub fn libinput_device_ref(dev: &mut LibinputDevice)
    ensures
        final(dev).refcount == old(dev).refcount.wrapping_add(1),
        final(dev).config() == old(dev).config(),
        final(dev).name@ == old(dev).name@,
        final(dev).same_node(*old(dev)),
{
    dev.refcount = dev.refcount.wrapping_add(1);
}

/// Drops a reference to a device; the result tells whether the device lives
/// on (it is destroyed once no reference is left).
pub fn libinput_device_unref(dev: &mut LibinputDevice) -> (alive: bool)
    ensures
        final(dev).refcount == old(dev).refcount.wrapping_sub(1),
        alive == (final(dev).refcount > 0),
        final(dev).config() == old(dev).config(),
        final(dev).name@ == old(dev).name@,
        final(dev).same_node(*old(dev)),
{
    dev.refcount = dev.refcount.wrapping_sub(1);
    dev.refcount > 0
}

/// A device removed from a path context keeps its object but loses its
/// name, which becomes empty.
pub fn libinput_path_remove_device(dev: &mut LibinputDevice)
    ensures
        final(dev).name@ == c_string(Seq::<u8>::empty()),
        final(dev).same_node(*old(dev)),
        final(dev).config() == old(dev).config(),
        final(dev).refcount == old(dev).refcount,
{
    dev.name = c_string_bytes("");
    proof {
        reveal_strlit("");
    }
}

/// The name of a device, as a C string.
pub fn libinput_device_get_name<'a>(dev: Option<&'a LibinputDevice>) -> (r: Option<&'a [u8]>)
    ensures
        dev matches Some(d) ==> r matches Some(b) && b@ == d.name@,
        dev is None ==> r is None,
{
    match dev {
        Some(d) => Some(d.name.as_slice()),
        None => None,
    }
}

/// The system name of a device, as a C string.
pub fn libinput_device_get_sysname<'a>(dev: Option<&'a LibinputDevice>) -> (r: Option<&'a [u8]>)
    ensures
        dev matches Some(d) ==> r matches Some(b) && b@ == d.sysname@,
        dev is None ==> r is None,
{
    match dev {
        Some(d) => Some(d.sysname.as_slice()),
        None => None,
    }
}

/// The device node of a device, as a C string.
pub fn libinput_device_get_devnode<'a>(dev: Option<&'a LibinputDevice>) -> (r: Option<&'a [u8]>)
    ensures
        dev matches Some(d) ==> r matches Some(b) && b@ == d.devnode@,
        dev is None ==> r is None,
{
    match dev {
        Some(d) => Some(d.devnode.as_slice()),
        None => None,
    }
}

/// Devices are bound to no output.
pub fn libinput_device_get_output_name<'a>(_dev: Option<&'a LibinputDevice>) -> (r: Option<&'a [u8]>)
    ensures
        r is None,
{
    None
}

/// Whether a device has a capability (1) or not (0); no device is a
/// tablet pad, and unknown capabilities are absent.
pub open spec fn spec_has_capability(d: LibinputDevice, capability: u32) -> bool {
    if capability == CAP_KEYBOARD {
        d.has_keyboard
    } else if capability == CAP_POINTER {
        d.has_pointer
    } else if capability == CAP_TOUCH {
        d.has_touch
    } else if capability == CAP_GESTURE {
        d.has_gesture
    } else if capability == CAP_SWITCH {
        d.has_switch
    } else if capability == CAP_TABLET_TOOL {
        d.has_tablet
    } else {
        false
    }
}

pub fn libinput_device_has_capability(dev: Option<&LibinputDevice>, capability: u32) -> (r: i32)
    ensures
        r == (match dev {
            Some(d) => flag(spec_has_capability(*d, capability)),
            None => 0,
        }),
{
    match dev {
        Some(d) => {
            let has = if capability == CAP_KEYBOARD {
                d.has_keyboard
            } else if capability == CAP_POINTER {
                d.has_pointer
            } else if capability == CAP_TOUCH {
                d.has_touch
            } else if capability == CAP_GESTURE {
                d.has_gesture
            } else if capability == CAP_SWITCH {
                d.has_switch
            } else if capability == CAP_TABLET_TOOL {
                d.has_tablet
            } else {
                false
            };
            flag_exec(has)
        },
        None => 0,
    }
}

/// The vendor id of a device.
pub fn libinput_device_get_id_vendor(dev: Option<&LibinputDevice>) -> (r: u32)
    ensures
        r == (match dev {
            Some(d) => d.vendor_id,
            None => 0,
        }),
{
    match dev {
        Some(d) => d.vendor_id,
        None => 0,
    }
}

/// The product id of a device.
pub fn libinput_device_get_id_product(dev: Option<&LibinputDevice>) -> (r: u32)
    ensures
        r == (match dev {
            Some(d) => d.product_id,
            None => 0,
        }),
{
    match dev {
        Some(d) => d.product_id,
        None => 0,
    }
}

/// The number of touch points: ten on a touch device, none otherwise.
pub fn libinput_device_touch_get_touch_count(dev: Option<&LibinputDevice>) -> (r: i32)
    ensures
        r == (match dev {
            Some(d) => if d.has_touch { TOUCH_COUNT } else { 0 },
            None => 0,
        }),
{
    match dev {
        Some(d) => if d.has_touch { TOUCH_COUNT } else { 0 },
        None => 0,
    }
}

/// Tapping works with up to three fingers on touch and pointer devices.
pub fn libinput_device_config_tap_get_finger_count(dev: Option<&LibinputDevice>) -> (r: i32)
    ensures
        r == (match dev {
            Some(d) => if d.has_touch || d.has_pointer { TAP_FINGER_COUNT } else { 0 },
            None => 0,
        }),
{
    match dev {
        Some(d) => if d.has_touch || d.has_pointer { TAP_FINGER_COUNT } else { 0 },
        None => 0,
    }
}

/// Whether tap-to-click is on.
pub fn libinput_device_config_tap_get_enabled(dev: Option<&LibinputDevice>) -> (r: u32)
    ensures
        r == (match dev {
            Some(d) => uflag(d.tap_enabled),
            None => 0,
        }),
{
    match dev {
        Some(d) => uflag_exec(d.tap_enabled),
        None => 0,
    }
}

/// The tap button map: 0 for left-right-middle, 1 for left-middle-right.
pub fn libinput_device_config_tap_get_button_map(dev: Option<&LibinputDevice>) -> (r: u32)
    ensures
        r == (match dev {
            Some(d) => d.tap_button_map,
            None => 0,
        }),
{
    match dev {
        Some(d) => d.tap_button_map,
        None => 0,
    }
}

/// Pointers can be accelerated.
pub fn libinput_device_config_accel_is_available(dev: Option<&LibinputDevice>) -> (r: i32)
    ensures
        r == (match dev {
            Some(d) => flag(d.has_pointer),
            None => 0,
        }),
{
    match dev {
        Some(d) => flag_exec(d.has_pointer),
        None => 0,
    }
}

/// Pointers offer the flat and the adaptive profile.
pub fn libinput_device_config_accel_get_profiles(dev: Option<&LibinputDevice>) -> (r: u32)
    ensures
        r == (match dev {
            Some(d) => if d.has_pointer { ACCEL_PROFILES_ALL } else { 0 },
            None => 0,
        }),
{
    match dev {
        Some(d) => if d.has_pointer { ACCEL_PROFILES_ALL } else { 0 },
        None => 0,
    }
}

/// The acceleration profile.
pub fn libinput_device_config_accel_get_profile(dev: Option<&LibinputDevice>) -> (r: u32)
    ensures
        r == (match dev {
            Some(d) => d.accel_profile,
            None => 0,
        }),
{
    match dev {
        Some(d) => d.accel_profile,
        None => 0,
    }
}

/// Pointers can scroll naturally.
pub fn libinput_device_config_scroll_has_natural_scroll(dev: Option<&LibinputDevice>) -> (r: i32)
    ensures
        r == (match dev {
            Some(d) => flag(d.has_pointer),
            None => 0,
        }),
{
    match dev {
        Some(d) => flag_exec(d.has_pointer),
        None => 0,
    }
}

/// Whether natural scrolling is on.
pub fn libinput_device_config_scroll_get_natural_scroll_enabled(dev: Option<&LibinputDevice>) -> (r: i32)
    ensures
        r == (match dev {
            Some(d) => flag(d.natural_scroll),
            None => 0,
        }),
{
    match dev {
        Some(d) => flag_exec(d.natural_scroll),
        None => 0,
    }
}

/// Pointers can be left-handed.
pub fn libinput_device_config_left_handed_is_available(dev: Option<&LibinputDevice>) -> (r: i32)
    ensures
        r == (match dev {
            Some(d) => flag(d.has_pointer),
            None => 0,
        }),
{
    match dev {
        Some(d) => flag_exec(d.has_pointer),
        None => 0,
    }
}

/// Whether the device is left-handed.
pub fn libinput_device_config_left_handed_get(dev: Option<&LibinputDevice>) -> (r: i32)
    ensures
        r == (match dev {
            Some(d) => flag(d.left_handed),
            None => 0,
        }),
{
    match dev {
        Some(d) => flag_exec(d.left_handed),
        None => 0,
    }
}

/// Touch and pointer devices offer every scroll method.
pub fn libinput_device_config_scroll_get_methods(dev: Option<&LibinputDevice>) -> (r: u32)
    ensures
        r == (match dev {
            Some(d) => if d.has_touch || d.has_pointer { SCROLL_METHODS_ALL } else { 0 },
            None => 0,
        }),
{
    match dev {
        Some(d) => if d.has_touch || d.has_pointer { SCROLL_METHODS_ALL } else { 0 },
        None => 0,
    }
}

/// The scroll method.
pub fn libinput_device_config_scroll_get_method(dev: Option<&LibinputDevice>) -> (r: u32)
    ensures
        r == (match dev {
            Some(d) => d.scroll_method,
            None => 0,
        }),
{
    match dev {
        Some(d) => d.scroll_method,
        None => 0,
    }
}

/// Pointers offer both click methods.
pub fn libinput_device_config_click_get_methods(dev: Option<&LibinputDevice>) -> (r: u32)
    ensures
        r == (match dev {
            Some(d) => if d.has_pointer { CLICK_METHODS_ALL } else { 0 },
            None => 0,
        }),
{
    match dev {
        Some(d) => if d.has_pointer { CLICK_METHODS_ALL } else { 0 },
        None => 0,
    }
}

/// The click method.
pub fn libinput_device_config_click_get_method(dev: Option<&LibinputDevice>) -> (r: u32)
    ensures
        r == (match dev {
            Some(d) => d.click_method,
            None => 0,
        }),
{
    match dev {
        Some(d) => d.click_method,
        None => 0,
    }
}

/// Pointers can emulate a middle button.
pub fn libinput_device_config_middle_emulation_is_available(dev: Option<&LibinputDevice>) -> (r: i32)
    ensures
        r == (match dev {
            Some(d) => flag(d.has_pointer),
            None => 0,
        }),
{
    match dev {
        Some(d) => flag_exec(d.has_pointer),
        None => 0,
    }
}

/// Whether middle-button emulation is on.
pub fn libinput_device_config_middle_emulation_get_enabled(dev: Option<&LibinputDevice>) -> (r: u32)
    ensures
        r == (match dev {
            Some(d) => uflag(d.middle_emulation),
            None => 0,
        }),
{
    match dev {
        Some(d) => uflag_exec(d.middle_emulation),
        None => 0,
    }
}

/// Pointer and touch devices can be disabled while typing.
pub fn libinput_device_config_dwt_is_available(dev: Option<&LibinputDevice>) -> (r: i32)
    ensures
        r == (match dev {
            Some(d) => flag(d.has_pointer || d.has_touch),
            None => 0,
        }),
{
    match dev {
        Some(d) => flag_exec(d.has_pointer || d.has_touch),
        None => 0,
    }
}

/// Whether disable-while-typing is on.
pub fn libinput_device_config_dwt_get_enabled(dev: Option<&LibinputDevice>) -> (r: u32)
    ensures
        r == (match dev {
            Some(d) => uflag(d.dwt_enabled),
            None => 0,
        }),
{
    match dev {
        Some(d) => uflag_exec(d.dwt_enabled),
        None => 0,
    }
}

/// Touch devices can be calibrated.
pub fn libinput_device_config_calibration_has_matrix(dev: Option<&LibinputDevice>) -> (r: i32)
    ensures
        r == (match dev {
            Some(d) => flag(d.has_touch),
            None => 0,
        }),
{
    match dev {
        Some(d) => flag_exec(d.has_touch),
        None => 0,
    }
}

/// Touch devices can be restricted to an area.
pub fn libinput_device_config_area_has_rectangle(dev: Option<&LibinputDevice>) -> (r: i32)
    ensures
        r == (match dev {
            Some(d) => flag(d.has_touch),
            None => 0,
        }),
{
    match dev {
        Some(d) => flag_exec(d.has_touch),
        None => 0,
    }
}

/// Touch devices can be rotated.
pub fn libinput_device_config_rotation_is_available(dev: Option<&LibinputDevice>) -> (r: i32)
    ensures
        r == (match dev {
            Some(d) => flag(d.has_touch),
            None => 0,
        }),
{
    match dev {
        Some(d) => flag_exec(d.has_touch),
        None => 0,
    }
}

/// A keyboard is taken to have every key.
pub fn libinput_device_keyboard_has_key(dev: Option<&LibinputDevice>, _key: u32) -> (r: i32)
    ensures
        r == (match dev {
            Some(d) => flag(d.has_keyboard),
            None => 0,
        }),
{
    match dev {
        Some(d) => flag_exec(d.has_keyboard),
        None => 0,
    }
}

/// A pointer is taken to have every button.
pub fn libinput_device_pointer_has_button(dev: Option<&LibinputDevice>, _button: u32) -> (r: i32)
    ensures
        r == (match dev {
            Some(d) => flag(d.has_pointer),
            None => 0,
        }),
{
    match dev {
        Some(d) => flag_exec(d.has_pointer),
        None => 0,
    }
}

/// A switch device is taken to have every switch.
pub fn libinput_device_switch_has_switch(dev: Option<&LibinputDevice>, _sw: u32) -> (r: i32)
    ensures
        r == (match dev {
            Some(d) => flag(d.has_switch),
            None => 0,
        }),
{
    match dev {
        Some(d) => flag_exec(d.has_switch),
        None => 0,
    }
}

/// A tablet is taken to have every pad key.
pub fn libinput_device_tablet_pad_has_key(dev: Option<&LibinputDevice>, _code: u32) -> (r: i32)
    ensures
        r == (match dev {
            Some(d) => flag(d.has_tablet),
            None => 0,
        }),
{
    match dev {
        Some(d) => flag_exec(d.has_tablet),
        None => 0,
    }
}

/// Tap-to-click is on by default.
pub fn libinput_device_config_tap_get_default_enabled(_dev: Option<&LibinputDevice>) -> (r: u32)
    ensures
        r == 1,
{
    1
}

/// Tap-and-drag is always on.
pub fn libinput_device_config_tap_get_drag_enabled(_dev: Option<&LibinputDevice>) -> (r: u32)
    ensures
        r == 1,
{
    1
}

/// Tap-and-drag is on by default.
pub fn libinput_device_config_tap_get_default_drag_enabled(_dev: Option<&LibinputDevice>) -> (r: u32)
    ensures
        r == 1,
{
    1
}

/// Drag lock is always off.
pub fn libinput_device_config_tap_get_drag_lock_enabled(_dev: Option<&LibinputDevice>) -> (r: u32)
    ensures
        r == 0,
{
    0
}

/// Drag lock is off by default.
pub fn libinput_device_config_tap_get_default_drag_lock_enabled(_dev: Option<&LibinputDevice>) -> (r: u32)
    ensures
        r == 0,
{
    0
}

/// The default tap map is left-right-middle.
pub fn libinput_device_config_tap_get_default_button_map(_dev: Option<&LibinputDevice>) -> (r: u32)
    ensures
        r == 0,
{
    0
}

/// Three-finger drag is never on.
pub fn libinput_device_config_3fg_drag_get_enabled(_dev: Option<&LibinputDevice>) -> (r: u32)
    ensures
        r == 0,
{
    0
}

/// Three-finger drag is off by default.
pub fn libinput_device_config_3fg_drag_get_default_enabled(_dev: Option<&LibinputDevice>) -> (r: u32)
    ensures
        r == 0,
{
    0
}

/// The default acceleration profile is adaptive.
pub fn libinput_device_config_accel_get_default_profile(_dev: Option<&LibinputDevice>) -> (r: u32)
    ensures
        r == ACCEL_PROFILE_ADAPTIVE,
{
    ACCEL_PROFILE_ADAPTIVE
}

/// Natural scrolling is on by default, as on a new device.
pub fn libinput_device_config_scroll_get_default_natural_scroll_enabled(_dev: Option<&LibinputDevice>) -> (r: i32)
    ensures
        r == 1,
{
    1
}

/// Devices are right-handed by default.
pub fn libinput_device_config_left_handed_get_default(_dev: Option<&LibinputDevice>) -> (r: i32)
    ensures
        r == 0,
{
    0
}

/// The default scroll method is two-finger.
pub fn libinput_device_config_scroll_get_default_method(_dev: Option<&LibinputDevice>) -> (r: u32)
    ensures
        r == SCROLL_METHOD_TWO_FINGER,
{
    SCROLL_METHOD_TWO_FINGER
}

/// No scroll button is set.
pub fn libinput_device_config_scroll_get_button(_dev: Option<&LibinputDevice>) -> (r: u32)
    ensures
        r == 0,
{
    0
}

/// No scroll button is set by default.
pub fn libinput_device_config_scroll_get_default_button(_dev: Option<&LibinputDevice>) -> (r: u32)
    ensures
        r == 0,
{
    0
}

/// Scroll button lock is always off.
pub fn libinput_device_config_scroll_get_button_lock(_dev: Option<&LibinputDevice>) -> (r: u32)
    ensures
        r == 0,
{
    0
}

/// Scroll button lock is off by default.
pub fn libinput_device_config_scroll_get_default_button_lock(_dev: Option<&LibinputDevice>) -> (r: u32)
    ensures
        r == 0,
{
    0
}

/// The default click method is button areas.
pub fn libinput_device_config_click_get_default_method(_dev: Option<&LibinputDevice>) -> (r: u32)
    ensures
        r == CLICK_METHOD_BUTTON_AREAS,
{
    CLICK_METHOD_BUTTON_AREAS
}

/// The click-finger map is always left-right-middle.
pub fn libinput_device_config_click_get_clickfinger_button_map(_dev: Option<&LibinputDevice>) -> (r: u32)
    ensures
        r == 0,
{
    0
}

/// The default click-finger map is left-right-middle.
pub fn libinput_device_config_click_get_default_clickfinger_button_map(_dev: Option<&LibinputDevice>) -> (r: u32)
    ensures
        r == 0,
{
    0
}

/// Middle-button emulation is off by default.
pub fn libinput_device_config_middle_emulation_get_default_enabled(_dev: Option<&LibinputDevice>) -> (r: u32)
    ensures
        r == 0,
{
    0
}

/// Disable-while-typing is on by default.
pub fn libinput_device_config_dwt_get_default_enabled(_dev: Option<&LibinputDevice>) -> (r: u32)
    ensures
        r == 1,
{
    1
}

/// The disable-while-typing timeout is 500 ms.
pub fn libinput_device_config_dwt_get_timeout(_dev: Option<&LibinputDevice>) -> (r: u32)
    ensures
        r == DWT_TIMEOUT_MS,
{
    DWT_TIMEOUT_MS
}

/// The default disable-while-typing timeout is 500 ms.
pub fn libinput_device_config_dwt_get_default_timeout(_dev: Option<&LibinputDevice>) -> (r: u32)
    ensures
        r == DWT_TIMEOUT_MS,
{
    DWT_TIMEOUT_MS
}

/// Disable-while-trackpointing is not offered.
pub fn libinput_device_config_dwtp_is_available(_dev: Option<&LibinputDevice>) -> (r: i32)
    ensures
        r == 0,
{
    0
}

/// Disable-while-trackpointing is never on.
pub fn libinput_device_config_dwtp_get_enabled(_dev: Option<&LibinputDevice>) -> (r: u32)
    ensures
        r == 0,
{
    0
}

/// Disable-while-trackpointing is off by default.
pub fn libinput_device_config_dwtp_get_default_enabled(_dev: Option<&LibinputDevice>) -> (r: u32)
    ensures
        r == 0,
{
    0
}

/// The disable-while-trackpointing timeout is 500 ms.
pub fn libinput_device_config_dwtp_get_timeout(_dev: Option<&LibinputDevice>) -> (r: u32)
    ensures
        r == DWT_TIMEOUT_MS,
{
    DWT_TIMEOUT_MS
}

/// The default disable-while-trackpointing timeout is 500 ms.
pub fn libinput_device_config_dwtp_get_default_timeout(_dev: Option<&LibinputDevice>) -> (r: u32)
    ensures
        r == DWT_TIMEOUT_MS,
{
    DWT_TIMEOUT_MS
}

/// Devices are never rotated.
pub fn libinput_device_config_rotation_get_angle(_dev: Option<&LibinputDevice>) -> (r: u32)
    ensures
        r == 0,
{
    0
}

/// Devices are not rotated by default.
pub fn libinput_device_config_rotation_get_default_angle(_dev: Option<&LibinputDevice>) -> (r: u32)
    ensures
        r == 0,
{
    0
}

/// Both send-events modes are offered.
pub fn libinput_device_config_send_events_get_modes(_dev: Option<&LibinputDevice>) -> (r: u32)
    ensures
        r == SEND_EVENTS_MODES_ALL,
{
    SEND_EVENTS_MODES_ALL
}

/// Devices always send events.
pub fn libinput_device_config_send_events_get_mode(_dev: Option<&LibinputDevice>) -> (r: u32)
    ensures
        r == 0,
{
    0
}

/// Devices send events by default.
pub fn libinput_device_config_send_events_get_default_mode(_dev: Option<&LibinputDevice>) -> (r: u32)
    ensures
        r == 0,
{
    0
}

/// The bus type is not known.
pub fn libinput_device_get_id_bustype(_dev: Option<&LibinputDevice>) -> (r: u32)
    ensures
        r == 0,
{
    0
}

/// Tablet pads report no buttons.
pub fn libinput_device_tablet_pad_get_num_buttons(_dev: Option<&LibinputDevice>) -> (r: u32)
    ensures
        r == 0,
{
    0
}

/// Tablet pads report no dials.
pub fn libinput_device_tablet_pad_get_num_dials(_dev: Option<&LibinputDevice>) -> (r: u32)
    ensures
        r == 0,
{
    0
}

/// Tablet pads report no mode groups.
pub fn libinput_device_tablet_pad_get_num_mode_groups(_dev: Option<&LibinputDevice>) -> (r: u32)
    ensures
        r == 0,
{
    0
}

/// Tablet pads report no rings.
pub fn libinput_device_tablet_pad_get_num_rings(_dev: Option<&LibinputDevice>) -> (r: u32)
    ensures
        r == 0,
{
    0
}

/// Tablet pads report no strips.
pub fn libinput_device_tablet_pad_get_num_strips(_dev: Option<&LibinputDevice>) -> (r: u32)
    ensures
        r == 0,
{
    0
}

/// Three-finger drag is not offered on any device.
pub fn libinput_device_config_3fg_drag_get_finger_count(_dev: Option<&LibinputDevice>) -> (r: i32)
    ensures
        r == 0,
{
    0
}

/// Turns tap-to-click on (any non-zero value) or off.
pub fn libinput_device_config_tap_set_enabled(dev: &mut LibinputDevice, enabled: u32) -> (r: u32)
    ensures
        r == CONFIG_STATUS_SUCCESS,
        final(dev).tap_enabled == (enabled != 0),
        final(dev).natural_scroll == old(dev).natural_scroll,
        final(dev).accel_profile == old(dev).accel_profile,
        final(dev).left_handed == old(dev).left_handed,
        final(dev).scroll_method == old(dev).scroll_method,
        final(dev).click_method == old(dev).click_method,
        final(dev).middle_emulation == old(dev).middle_emulation,
        final(dev).dwt_enabled == old(dev).dwt_enabled,
        final(dev).tap_button_map == old(dev).tap_button_map,
        final(dev).same_identity(*old(dev)),
{
    dev.tap_enabled = enabled != 0;
    CONFIG_STATUS_SUCCESS
}

/// Sets the tap button map.
pub fn libinput_device_config_tap_set_button_map(dev: &mut LibinputDevice, map: u32) -> (r: u32)
    ensures
        r == CONFIG_STATUS_SUCCESS,
        final(dev).tap_button_map == (map),
        final(dev).tap_enabled == old(dev).tap_enabled,
        final(dev).natural_scroll == old(dev).natural_scroll,
        final(dev).accel_profile == old(dev).accel_profile,
        final(dev).left_handed == old(dev).left_handed,
        final(dev).scroll_method == old(dev).scroll_method,
        final(dev).click_method == old(dev).click_method,
        final(dev).middle_emulation == old(dev).middle_emulation,
        final(dev).dwt_enabled == old(dev).dwt_enabled,
        final(dev).same_identity(*old(dev)),
{
    dev.tap_button_map = map;
    CONFIG_STATUS_SUCCESS
}

/// Sets the acceleration profile.
pub fn libinput_device_config_accel_set_profile(dev: &mut LibinputDevice, profile: u32) -> (r: u32)
    ensures
        r == CONFIG_STATUS_SUCCESS,
        final(dev).accel_profile == (profile),
        final(dev).tap_enabled == old(dev).tap_enabled,
        final(dev).natural_scroll == old(dev).natural_scroll,
        final(dev).left_handed == old(dev).left_handed,
        final(dev).scroll_method == old(dev).scroll_method,
        final(dev).click_method == old(dev).click_method,
        final(dev).middle_emulation == old(dev).middle_emulation,
        final(dev).dwt_enabled == old(dev).dwt_enabled,
        final(dev).tap_button_map == old(dev).tap_button_map,
        final(dev).same_identity(*old(dev)),
{
    dev.accel_profile = profile;
    CONFIG_STATUS_SUCCESS
}

/// Applies an acceleration configuration: its profile becomes the device's.
pub fn libinput_device_config_accel_apply(dev: &mut LibinputDevice, profile: u32) -> (r: u32)
    ensures
        r == CONFIG_STATUS_SUCCESS,
        final(dev).accel_profile == (profile),
        final(dev).tap_enabled == old(dev).tap_enabled,
        final(dev).natural_scroll == old(dev).natural_scroll,
        final(dev).left_handed == old(dev).left_handed,
        final(dev).scroll_method == old(dev).scroll_method,
        final(dev).click_method == old(dev).click_method,
        final(dev).middle_emulation == old(dev).middle_emulation,
        final(dev).dwt_enabled == old(dev).dwt_enabled,
        final(dev).tap_button_map == old(dev).tap_button_map,
        final(dev).same_identity(*old(dev)),
{
    dev.accel_profile = profile;
    CONFIG_STATUS_SUCCESS
}

/// Turns natural scrolling on (any non-zero value) or off.
pub fn libinput_device_config_scroll_set_natural_scroll_enabled(dev: &mut LibinputDevice, enabled: i32) -> (r: u32)
    ensures
        r == CONFIG_STATUS_SUCCESS,
        final(dev).natural_scroll == (enabled != 0),
        final(dev).tap_enabled == old(dev).tap_enabled,
        final(dev).accel_profile == old(dev).accel_profile,
        final(dev).left_handed == old(dev).left_handed,
        final(dev).scroll_method == old(dev).scroll_method,
        final(dev).click_method == old(dev).click_method,
        final(dev).middle_emulation == old(dev).middle_emulation,
        final(dev).dwt_enabled == old(dev).dwt_enabled,
        final(dev).tap_button_map == old(dev).tap_button_map,
        final(dev).same_identity(*old(dev)),
{
    dev.natural_scroll = enabled != 0;
    CONFIG_STATUS_SUCCESS
}

/// Makes the device left-handed (any non-zero value) or not.
pub fn libinput_device_config_left_handed_set(dev: &mut LibinputDevice, enabled: i32) -> (r: u32)
    ensures
        r == CONFIG_STATUS_SUCCESS,
        final(dev).left_handed == (enabled != 0),
        final(dev).tap_enabled == old(dev).tap_enabled,
        final(dev).natural_scroll == old(dev).natural_scroll,
        final(dev).accel_profile == old(dev).accel_profile,
        final(dev).scroll_method == old(dev).scroll_method,
        final(dev).click_method == old(dev).click_method,
        final(dev).middle_emulation == old(dev).middle_emulation,
        final(dev).dwt_enabled == old(dev).dwt_enabled,
        final(dev).tap_button_map == old(dev).tap_button_map,
        final(dev).same_identity(*old(dev)),
{
    dev.left_handed = enabled != 0;
    CONFIG_STATUS_SUCCESS
}

/// Sets the scroll method.
pub fn libinput_device_config_scroll_set_method(dev: &mut LibinputDevice, method: u32) -> (r: u32)
    ensures
        r == CONFIG_STATUS_SUCCESS,
        final(dev).scroll_method == (method),
        final(dev).tap_enabled == old(dev).tap_enabled,
        final(dev).natural_scroll == old(dev).natural_scroll,
        final(dev).accel_profile == old(dev).accel_profile,
        final(dev).left_handed == old(dev).left_handed,
        final(dev).click_method == old(dev).click_method,
        final(dev).middle_emulation == old(dev).middle_emulation,
        final(dev).dwt_enabled == old(dev).dwt_enabled,
        final(dev).tap_button_map == old(dev).tap_button_map,
        final(dev).same_identity(*old(dev)),
{
    dev.scroll_method = method;
    CONFIG_STATUS_SUCCESS
}

/// Sets the click method.
pub fn libinput_device_config_click_set_method(dev: &mut LibinputDevice, method: u32) -> (r: u32)
    ensures
        r == CONFIG_STATUS_SUCCESS,
        final(dev).click_method == (method),
        final(dev).tap_enabled == old(dev).tap_enabled,
        final(dev).natural_scroll == old(dev).natural_scroll,
        final(dev).accel_profile == old(dev).accel_profile,
        final(dev).left_handed == old(dev).left_handed,
        final(dev).scroll_method == old(dev).scroll_method,
        final(dev).middle_emulation == old(dev).middle_emulation,
        final(dev).dwt_enabled == old(dev).dwt_enabled,
        final(dev).tap_button_map == old(dev).tap_button_map,
        final(dev).same_identity(*old(dev)),
{
    dev.click_method = method;
    CONFIG_STATUS_SUCCESS
}

/// Turns middle-button emulation on (any non-zero value) or off.
pub fn libinput_device_config_middle_emulation_set_enabled(dev: &mut LibinputDevice, enabled: u32) -> (r: u32)
    ensures
        r == CONFIG_STATUS_SUCCESS,
        final(dev).middle_emulation == (enabled != 0),
        final(dev).tap_enabled == old(dev).tap_enabled,
        final(dev).natural_scroll == old(dev).natural_scroll,
        final(dev).accel_profile == old(dev).accel_profile,
        final(dev).left_handed == old(dev).left_handed,
        final(dev).scroll_method == old(dev).scroll_method,
        final(dev).click_method == old(dev).click_method,
        final(dev).dwt_enabled == old(dev).dwt_enabled,
        final(dev).tap_button_map == old(dev).tap_button_map,
        final(dev).same_identity(*old(dev)),
{
    dev.middle_emulation = enabled != 0;
    CONFIG_STATUS_SUCCESS
}

/// Turns disable-while-typing on (any non-zero value) or off.
pub fn libinput_device_config_dwt_set_enabled(dev: &mut LibinputDevice, enabled: u32) -> (r: u32)
    ensures
        r == CONFIG_STATUS_SUCCESS,
        final(dev).dwt_enabled == (enabled != 0),
        final(dev).tap_enabled == old(dev).tap_enabled,
        final(dev).natural_scroll == old(dev).natural_scroll,
        final(dev).accel_profile == old(dev).accel_profile,
        final(dev).left_handed == old(dev).left_handed,
        final(dev).scroll_method == old(dev).scroll_method,
        final(dev).click_method == old(dev).click_method,
        final(dev).middle_emulation == old(dev).middle_emulation,
        final(dev).tap_button_map == old(dev).tap_button_map,
        final(dev).same_identity(*old(dev)),
{
    dev.dwt_enabled = enabled != 0;
    CONFIG_STATUS_SUCCESS
}

/// Tap-and-drag cannot be changed; the request is accepted.
/// Without a device the request is refused as unsupported.
pub fn libinput_device_config_tap_set_drag_enabled(dev: Option<&LibinputDevice>, _enabled: u32) -> (r: u32)
    ensures
        r == (if dev is Some { CONFIG_STATUS_SUCCESS } else { CONFIG_STATUS_UNSUPPORTED }),
{
    match dev {
        Some(_) => CONFIG_STATUS_SUCCESS,
        None => CONFIG_STATUS_UNSUPPORTED,
    }
}

/// Drag lock cannot be changed; the request is accepted.
/// Without a device the request is refused as unsupported.
pub fn libinput_device_config_tap_set_drag_lock_enabled(dev: Option<&LibinputDevice>, _enabled: u32) -> (r: u32)
    ensures
        r == (if dev is Some { CONFIG_STATUS_SUCCESS } else { CONFIG_STATUS_UNSUPPORTED }),
{
    match dev {
        Some(_) => CONFIG_STATUS_SUCCESS,
        None => CONFIG_STATUS_UNSUPPORTED,
    }
}

/// Three-finger drag is not supported.
pub fn libinput_device_config_3fg_drag_set_enabled(_dev: &LibinputDevice, _enable: u32) -> (r: u32)
    ensures
        r == CONFIG_STATUS_UNSUPPORTED,
{
    CONFIG_STATUS_UNSUPPORTED
}

/// The scroll button cannot be changed; the request is accepted.
/// Without a device the request is refused as unsupported.
pub fn libinput_device_config_scroll_set_button(dev: Option<&LibinputDevice>, _button: u32) -> (r: u32)
    ensures
        r == (if dev is Some { CONFIG_STATUS_SUCCESS } else { CONFIG_STATUS_UNSUPPORTED }),
{
    match dev {
        Some(_) => CONFIG_STATUS_SUCCESS,
        None => CONFIG_STATUS_UNSUPPORTED,
    }
}

/// Scroll button lock is not supported.
pub fn libinput_device_config_scroll_set_button_lock(_dev: &LibinputDevice, _state: u32) -> (r: u32)
    ensures
        r == CONFIG_STATUS_UNSUPPORTED,
{
    CONFIG_STATUS_UNSUPPORTED
}

/// The click-finger map is not supported.
pub fn libinput_device_config_click_set_clickfinger_button_map(_dev: &LibinputDevice, _map: u32) -> (r: u32)
    ensures
        r == CONFIG_STATUS_UNSUPPORTED,
{
    CONFIG_STATUS_UNSUPPORTED
}

/// The disable-while-typing timeout is fixed.
pub fn libinput_device_config_dwt_set_timeout(_dev: &LibinputDevice, _millis: u32) -> (r: u32)
    ensures
        r == CONFIG_STATUS_UNSUPPORTED,
{
    CONFIG_STATUS_UNSUPPORTED
}

/// Disable-while-trackpointing is not supported.
pub fn libinput_device_config_dwtp_set_enabled(_dev: &LibinputDevice, _enabled: u32) -> (r: u32)
    ensures
        r == CONFIG_STATUS_UNSUPPORTED,
{
    CONFIG_STATUS_UNSUPPORTED
}

/// Disable-while-trackpointing is not supported.
pub fn libinput_device_config_dwtp_set_timeout(_dev: &LibinputDevice, _millis: u32) -> (r: u32)
    ensures
        r == CONFIG_STATUS_UNSUPPORTED,
{
    CONFIG_STATUS_UNSUPPORTED
}

/// The area request is accepted and ignored.
/// Without a device the request is refused as unsupported.
pub fn libinput_device_config_area_set_rectangle(dev: Option<&LibinputDevice>) -> (r: u32)
    ensures
        r == (if dev is Some { CONFIG_STATUS_SUCCESS } else { CONFIG_STATUS_UNSUPPORTED }),
{
    match dev {
        Some(_) => CONFIG_STATUS_SUCCESS,
        None => CONFIG_STATUS_UNSUPPORTED,
    }
}

/// The rotation request is accepted and ignored.
/// Without a device the request is refused as unsupported.
pub fn libinput_device_config_rotation_set_angle(dev: Option<&LibinputDevice>, _degrees_cw: u32) -> (r: u32)
    ensures
        r == (if dev is Some { CONFIG_STATUS_SUCCESS } else { CONFIG_STATUS_UNSUPPORTED }),
{
    match dev {
        Some(_) => CONFIG_STATUS_SUCCESS,
        None => CONFIG_STATUS_UNSUPPORTED,
    }
}

/// The send-events request is accepted and ignored.
/// Without a device the request is refused as unsupported.
pub fn libinput_device_config_send_events_set_mode(dev: Option<&LibinputDevice>, _mode: u32) -> (r: u32)
    ensures
        r == (if dev is Some { CONFIG_STATUS_SUCCESS } else { CONFIG_STATUS_UNSUPPORTED }),
{
    match dev {
        Some(_) => CONFIG_STATUS_SUCCESS,
        None => CONFIG_STATUS_UNSUPPORTED,
    }
}

/// LED updates are accepted and ignored.
/// Without a device the request is refused as unsupported.
pub fn libinput_device_led_update(dev: Option<&LibinputDevice>, _leds: u32) -> (r: u32)
    ensures
        r == (if dev is Some { CONFIG_STATUS_SUCCESS } else { CONFIG_STATUS_UNSUPPORTED }),
{
    match dev {
        Some(_) => CONFIG_STATUS_SUCCESS,
        None => CONFIG_STATUS_UNSUPPORTED,
    }
}


/// A query answers what the matching change last wrote: for a device whose
/// setting was just changed (and nothing else), tap-to-click, natural
/// scrolling, left-handedness, middle emulation and disable-while-typing
/// read back as 1 exactly when a non-zero value was written, and the tap
/// map, acceleration profile, scroll method and click method read back as
/// written.
pub proof fn law_config_read_back(d: LibinputDevice, written: u32, written_flag: i32)
    requires
        d.tap_enabled == (written != 0),
        d.natural_scroll == (written_flag != 0),
        d.left_handed == (written_flag != 0),
        d.middle_emulation == (written != 0),
        d.dwt_enabled == (written != 0),
    ensures
        uflag(d.tap_enabled) == (if written != 0 { 1u32 } else { 0u32 }),
        flag(d.natural_scroll) == (if written_flag != 0 { 1i32 } else { 0i32 }),
        flag(d.left_handed) == (if written_flag != 0 { 1i32 } else { 0i32 }),
        uflag(d.middle_emulation) == (if written != 0 { 1u32 } else { 0u32 }),
        uflag(d.dwt_enabled) == (if written != 0 { 1u32 } else { 0u32 }),
{
}

} // verus!
