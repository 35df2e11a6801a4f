//! The device table of the evdev backend, and the per-event dispatch from
//! a kernel event to keyboard, relative-device or touchpad processing.
//!
//! Reading the devices (and the clock) is the caller's part: it hands each
//! kernel event, its timestamp and the current monotonic time to
//! [`Backend::process_event`].

use vstd::prelude::*;
use vstd::string::StringSliceAdditionalSpecFns;

use crate::codes::{elapsed, elapsed_usec, DWT_TIMEOUT_USEC, ENODEV};
use crate::events::{all_from, EventPayload, LibinputEvent, LibinputEventType, RawEvent};
use crate::keyboard::{
    after_repeat, keyboard_step, law_keyboard_events_well_typed, repeat_events, HeldKey,
    KeyboardState,
};
use crate::relative::{law_relative_events_well_typed, process_relative_event, relative_output};
use crate::text::{bytes_contain, str_contains};
use crate::touchpad::{
    initial_touchpad, law_touchpad_events_well_typed, touchpad_step, SynAction, TouchpadState,
};

verus! {

/// The capabilities of an evdev device node, as its driver announces them.
#[derive(Debug, Clone, Copy, PartialEq, Eq)]
pub struct DeviceProbe {
    /// `INPUT_PROP_POINTER`.
    pub prop_pointer: bool,
    /// `INPUT_PROP_BUTTONPAD`.
    pub prop_buttonpad: bool,
    /// It reports `EV_REL` events.
    pub has_relative: bool,
    /// It reports `EV_ABS` events.
    pub has_absolute: bool,
    /// It has the key `KEY_A`.
    pub has_key_a: bool,
}

/// How a device node is classified when it is opened.
#[derive(Debug, Clone, Copy, PartialEq, Eq)]
pub struct DeviceCaps {
    pub is_pointer: bool,
    pub is_keyboard: bool,
    pub is_absolute: bool,
}

/// The name of a device node, or `Unknown` when it has none.
pub fn device_display_name<'a>(name: Option<&'a str>) -> (r: &'a str)
    ensures
        name matches Some(n) ==> r == n,
        name is None ==> r@ == "Unknown"@,
{
    match name {
        Some(n) => n,
        None => "Unknown",
    }
}

/// The devices that this library creates itself, which it must not read
/// back: their names hold `virtual pointer` or `libinput-rs`.
pub open spec fn is_own_device_name(name: Seq<u8>) -> bool {
    bytes_contain(name, "virtual pointer".spec_bytes()) || bytes_contain(
        name,
        "libinput-rs".spec_bytes(),
    )
}

/// The classification of a device node on opening: a pointer has
/// `INPUT_PROP_POINTER`, `INPUT_PROP_BUTTONPAD` or relative axes, a keyboard
/// has `KEY_A`; the library's own devices, and devices that are neither
/// pointer nor keyboard, are not opened.
pub open spec fn classify(name: Seq<u8>, probe: DeviceProbe) -> Option<DeviceCaps> {
    let is_pointer = probe.prop_pointer || probe.prop_buttonpad || probe.has_relative;
    let is_keyboard = probe.has_key_a;
    if is_own_device_name(name) || (!is_pointer && !is_keyboard) {
        None
    } else {
        Some(DeviceCaps { is_pointer, is_keyboard, is_absolute: probe.has_absolute })
    }
}

/// Classifies a device node that is being opened (see [`classify`]).
pub fn classify_device(name: &str, probe: &DeviceProbe) -> (r: Option<DeviceCaps>)
    ensures
        r == classify(name.spec_bytes(), *probe),
{
    if str_contains(name, "virtual pointer") || str_contains(name, "libinput-rs") {
        return None;
    }
    let is_pointer = probe.prop_pointer || probe.prop_buttonpad || probe.has_relative;
    let is_keyboard = probe.has_key_a;
    if !is_pointer && !is_keyboard {
        return None;
    }
    Some(DeviceCaps { is_pointer, is_keyboard, is_absolute: probe.has_absolute })
}

/// Whether disable-while-typing holds back the touchpad at `now`: it is
/// enabled and a key was pressed less than 500 ms ago.
pub open spec fn spec_dwt_active(cfg_dwt: bool, global_typing_time: Option<u64>, now: u64) -> bool {
    cfg_dwt && global_typing_time is Some && elapsed(now, global_typing_time->0)
        < DWT_TIMEOUT_USEC
}

/// Executable form of [`spec_dwt_active`].
pub fn dwt_active(cfg_dwt: bool, global_typing_time: Option<u64>, now: u64) -> (r: bool)
    ensures
        r == spec_dwt_active(cfg_dwt, global_typing_time, now),
{
    match global_typing_time {
        Some(t) => cfg_dwt && elapsed_usec(now, t) < DWT_TIMEOUT_USEC,
        None => false,
    }
}

/// Whether a failed read means that the device is gone: not when the read
/// would block, but when it reports `ENODEV` or an unexpected end of file.
/// Other failures are retried on the next dispatch.
pub fn read_error_means_gone(would_block: bool, os_error: Option<i32>, unexpected_eof: bool) -> (r:
    bool)
    ensures
        r == (!would_block && (os_error == Some(ENODEV) || unexpected_eof)),
{
    if would_block {
        return false;
    }
    match os_error {
        Some(e) => e == ENODEV || unexpected_eof,
        None => unexpected_eof,
    }
}

/// A device that the backend reads.
pub struct TrackedDevice {
    pub fd: i32,
    pub path: String,
    pub is_absolute: bool,
    pub is_keyboard: bool,
    pub is_pointer: bool,
    pub keyboard: KeyboardState,
    pub touchpad: TouchpadState,
    /// The caller's handle of the device object that events refer to.
    pub lib_device: usize,
}

/// How the events of a device are processed.
#[derive(Debug, Clone, Copy, PartialEq, Eq, Structural)]
pub enum DeviceKind {
    Keyboard,
    Relative,
    Touchpad,
    Ignored,
}

impl TrackedDevice {
    /// A keyboard without absolute axes is processed as a keyboard, a
    /// pointer without absolute axes as a relative device, and any device
    /// with absolute axes as a touchpad.
    pub open spec fn spec_kind(&self) -> DeviceKind {
        if self.is_keyboard && !self.is_absolute {
            DeviceKind::Keyboard
        } else if !self.is_absolute && self.is_pointer {
            DeviceKind::Relative
        } else if self.is_absolute {
            DeviceKind::Touchpad
        } else {
            DeviceKind::Ignored
        }
    }

    #[verifier::when_used_as_spec(spec_kind)]
    pub fn kind(&self) -> (r: DeviceKind)
        ensures
            r == self.spec_kind(),
    {
        if self.is_keyboard && !self.is_absolute {
            DeviceKind::Keyboard
        } else if !self.is_absolute && self.is_pointer {
            DeviceKind::Relative
        } else if self.is_absolute {
            DeviceKind::Touchpad
        } else {
            DeviceKind::Ignored
        }
    }

    /// A freshly opened device: absolute when it has absolute axes, a
    /// keyboard when it has `KEY_A`, and a pointer when it has
    /// `INPUT_PROP_POINTER`, `INPUT_PROP_BUTTONPAD`, or relative axes
    /// without being a keyboard.  No key is held and no finger is down.
    pub fn new(fd: i32, path: String, probe: &DeviceProbe, lib_device: usize) -> (r: TrackedDevice)
        ensures
            r.fd == fd,
            r.path == path,
            r.is_absolute == probe.has_absolute,
            r.is_keyboard == probe.has_key_a,
            r.is_pointer == (probe.prop_pointer || probe.prop_buttonpad || (!probe.has_key_a
                && probe.has_relative)),
            r.keyboard.held_keys@ == Seq::<HeldKey>::empty(),
            r.keyboard.last_typing_time is None,
            r.touchpad@ == initial_touchpad(),
            r.lib_device == lib_device,
    {
        let is_keyboard = probe.has_key_a;
        TrackedDevice {
            fd: fd,
            path: path,
            is_absolute: probe.has_absolute,
            is_keyboard: is_keyboard,
            is_pointer: probe.prop_pointer || probe.prop_buttonpad || (!is_keyboard
                && probe.has_relative),
            keyboard: KeyboardState::new(),
            touchpad: TouchpadState::new(),
            lib_device: lib_device,
        }
    }
}

/// Whether two paths name the same file path, component by component
/// (`Path == Path`): the comparison that the standard library performs.
pub uninterp spec fn path_eq(a: Seq<char>, b: Seq<char>) -> bool;

/// Compares two paths with `std::path::Path`'s `==`, which compares their
/// components; the contract names the result `path_eq`, and states only
/// that equal texts are equal paths (`Path` is `Eq`).
#[verifier::external_body]
fn same_path(a: &str, b: &str) -> (r: bool)
    ensures
        r == path_eq(a@, b@),
        a@ == b@ ==> r,
{
    std::path::Path::new(a) == std::path::Path::new(b)
}

/// The index of the device read through `fd`, if any.
pub open spec fn fd_index(devices: Seq<TrackedDevice>, fd: i32) -> Option<int> {
    if exists|i: int| 0 <= i < devices.len() && devices[i].fd == fd {
        Some(choose|i: int| 0 <= i < devices.len() && devices[i].fd == fd)
    } else {
        None
    }
}

/// The repeat events of a repeat pass over all keyboards, device by device.
pub open spec fn all_repeat_events(devices: Seq<TrackedDevice>, now: u64) -> Seq<LibinputEvent>
    decreases devices.len(),
{
    if devices.len() == 0 {
        Seq::empty()
    } else {
        let d = devices.last();
        all_repeat_events(devices.drop_last(), now) + (if d.is_keyboard {
            repeat_events(d.keyboard.held_keys@, now, d.lib_device)
        } else {
            Seq::empty()
        })
    }
}

/// The device table of the backend and the time of the last key press on
/// any keyboard.
pub struct Backend {
    pub devices: Vec<TrackedDevice>,
    pub global_typing_time: Option<u64>,
}

/// The DEVICE_ADDED or DEVICE_REMOVED event of a device.
pub open spec fn device_notify(event_type: LibinputEventType, lib_device: usize) -> LibinputEvent {
    LibinputEvent {
        event_type: event_type,
        payload: if event_type == LibinputEventType::LIBINPUT_EVENT_DEVICE_ADDED {
            EventPayload::DeviceAdded
        } else {
            EventPayload::DeviceRemoved
        },
        device: lib_device,
    }
}

/// The events that one kernel event of device `d` reports.
pub open spec fn dispatch_events(
    d: TrackedDevice,
    global_typing_time: Option<u64>,
    ev: RawEvent,
    ts_usec: u64,
    cfg_tap: bool,
    cfg_dwt: bool,
    now: u64,
) -> Seq<LibinputEvent> {
    match d.spec_kind() {
        DeviceKind::Keyboard => keyboard_step(
            d.keyboard.held_keys@,
            d.keyboard.last_typing_time,
            global_typing_time,
            ev,
            ts_usec,
            d.lib_device,
            now,
        ).events,
        DeviceKind::Relative => match relative_output(ev, ts_usec, d.lib_device) {
            Some(e) => seq![e],
            None => Seq::empty(),
        },
        DeviceKind::Touchpad => touchpad_step(
            d.touchpad@,
            ev,
            ts_usec,
            d.lib_device,
            cfg_tap,
            spec_dwt_active(cfg_dwt, global_typing_time, now),
            now,
        ).events,
        DeviceKind::Ignored => Seq::empty(),
    }
}

impl Backend {
    /// No two devices share a file descriptor, and every touchpad state is
    /// well formed.
    pub open spec fn wf(&self) -> bool {
        &&& forall|i: int, j: int|
            0 <= i < j < self.devices@.len() ==> self.devices@[i].fd != self.devices@[j].fd
        &&& forall|i: int| 0 <= i < self.devices@.len() ==> (#[trigger] self.devices@[i]).touchpad@.wf()
    }

    /// A backend that reads no device yet.
    pub fn new() -> (r: Backend)
        ensures
            r.wf(),
            r.devices@ == Seq::<TrackedDevice>::empty(),
            r.global_typing_time is None,
    {
        Backend { devices: Vec::new(), global_typing_time: None }
    }

    /// The file descriptors of the devices, in table order.
    pub fn fds(&self) -> (r: Vec<i32>)
        ensures
            r@ == self.devices@.map_values(|d: TrackedDevice| d.fd),
    {
        let mut r: Vec<i32> = Vec::new();
        let mut i: usize = 0;
        while i < self.devices.len()
            invariant
                i <= self.devices@.len(),
                r@ == self.devices@.take(i as int).map_values(|d: TrackedDevice| d.fd),
            decreases self.devices@.len() - i,
        {
            r.push(self.devices[i].fd);
            i = i + 1;
            proof {
                assert(r@ =~= self.devices@.take(i as int).map_values(|d: TrackedDevice| d.fd));
            }
        }
        proof {
            assert(self.devices@.take(i as int) =~= self.devices@);
        }
        r
    }

    /// Finds the device read through `fd`.
    fn find(&self, fd: i32) -> (r: Option<usize>)
        requires
            self.wf(),
        ensures
            r matches Some(i) ==> i < self.devices@.len() && fd_index(self.devices@, fd) == Some(
                i as int,
            ),
            r is None ==> fd_index(self.devices@, fd) is None,
    {
        let mut i: usize = 0;
        while i < self.devices.len()
            invariant
                i <= self.devices@.len(),
                forall|k: int| 0 <= k < i ==> self.devices@[k].fd != fd,
                self.wf(),
            decreases self.devices@.len() - i,
        {
            if self.devices[i].fd == fd {
                proof {
                    let j = choose|j: int| 0 <= j < self.devices@.len() && self.devices@[j].fd == fd;
                    assert(j == i as int);
                }
                return Some(i);
            }
            i = i + 1;
        }
        None
    }

    /// Whether a device is read through `fd`.
    pub fn has_fd(&self, fd: i32) -> (r: bool)
        requires
            self.wf(),
        ensures
            r == fd_index(self.devices@, fd) is Some,
    {
        self.find(fd).is_some()
    }

    /// The handle of the device object of the device read through `fd`.
    pub fn lib_device_of(&self, fd: i32) -> (r: Option<usize>)
        requires
            self.wf(),
        ensures
            r == (match fd_index(self.devices@, fd) {
                Some(i) => Some(self.devices@[i].lib_device),
                None => None::<usize>,
            }),
    {
        match self.find(fd) {
            Some(i) => Some(self.devices[i].lib_device),
            None => None,
        }
    }

    /// Whether some device was opened from `path` (by `Path` comparison).
    pub fn has_path(&self, path: &str) -> (r: bool)
        ensures
            r == exists|i: int|
                0 <= i < self.devices@.len() && path_eq(self.devices@[i].path@, path@),
    {
        let mut i: usize = 0;
        while i < self.devices.len()
            invariant
                i <= self.devices@.len(),
                forall|k: int| 0 <= k < i ==> !path_eq(self.devices@[k].path@, path@),
            decreases self.devices@.len() - i,
        {
            if same_path(self.devices[i].path.as_str(), path) {
                return true;
            }
            i = i + 1;
        }
        false
    }

    /// Starts reading a device opened through `fd` and reports it as
    /// added; a descriptor that is already read is left alone and reports
    /// nothing.
    pub fn track(&mut self, fd: i32, path: String, probe: &DeviceProbe, lib_device: usize) -> (r:
        Option<LibinputEvent>)
        requires
            old(self).wf(),
        ensures
            final(self).wf(),
            final(self).global_typing_time == old(self).global_typing_time,
            fd_index(old(self).devices@, fd) is Some ==> {
                &&& r is None
                &&& final(self).devices@ == old(self).devices@
            },
            fd_index(old(self).devices@, fd) is None ==> {
                let d = final(self).devices@.last();
                &&& r == Some(
                    device_notify(LibinputEventType::LIBINPUT_EVENT_DEVICE_ADDED, lib_device),
                )
                &&& final(self).devices@.len() == old(self).devices@.len() + 1
                &&& final(self).devices@.drop_last() == old(self).devices@
                &&& d.fd == fd
                &&& d.path == path
                &&& d.is_absolute == probe.has_absolute
                &&& d.is_keyboard == probe.has_key_a
                &&& d.is_pointer == (probe.prop_pointer || probe.prop_buttonpad || (
                !probe.has_key_a && probe.has_relative))
                &&& d.keyboard.held_keys@ == Seq::<HeldKey>::empty()
                &&& d.keyboard.last_typing_time is None
                &&& d.touchpad@ == initial_touchpad()
                &&& d.lib_device == lib_device
            },
            fd_index(final(self).devices@, fd) is Some,
    {
        if self.has_fd(fd) {
            return None;
        }
        let td = TrackedDevice::new(fd, path, probe, lib_device);
        self.devices.push(td);
        proof {
            assert(self.devices@.drop_last() =~= old(self).devices@);
            assert(forall|i: int| 0 <= i < old(self).devices@.len() ==> old(self).devices@[i].fd != fd);
        }
        proof {
            assert(self.devices@[self.devices@.len() - 1].fd == fd);
        }
        Some(
            LibinputEvent {
                event_type: LibinputEventType::LIBINPUT_EVENT_DEVICE_ADDED,
                payload: EventPayload::DeviceAdded,
                device: lib_device,
            },
        )
    }

    /// Stops reading the device read through `fd` and reports it as
    /// removed; an unknown descriptor reports nothing.
    pub fn remove(&mut self, fd: i32) -> (r: Option<LibinputEvent>)
        requires
            old(self).wf(),
        ensures
            final(self).wf(),
            final(self).global_typing_time == old(self).global_typing_time,
            match fd_index(old(self).devices@, fd) {
                Some(i) => {
                    &&& r == Some(
                        device_notify(
                            LibinputEventType::LIBINPUT_EVENT_DEVICE_REMOVED,
                            old(self).devices@[i].lib_device,
                        ),
                    )
                    &&& final(self).devices@ == old(self).devices@.remove(i)
                },
                None => r is None && final(self).devices@ == old(self).devices@,
            },
            fd_index(final(self).devices@, fd) is None,
    {
        match self.find(fd) {
            Some(i) => {
                let td = self.devices.remove(i);
                proof {
                    assert forall|a: int, b: int|
                        0 <= a < b < self.devices@.len() implies self.devices@[a].fd
                        != self.devices@[b].fd by {
                        let a0 = if a < i { a } else { a + 1 };
                        let b0 = if b < i { b } else { b + 1 };
                        assert(self.devices@[a] == old(self).devices@[a0]);
                        assert(self.devices@[b] == old(self).devices@[b0]);
                    }
                    assert forall|k: int| 0 <= k < self.devices@.len() implies (
                    #[trigger] self.devices@[k]).touchpad@.wf() by {
                        let k0 = if k < i { k } else { k + 1 };
                        assert(self.devices@[k] == old(self).devices@[k0]);
                    }
                    assert forall|k: int| 0 <= k < self.devices@.len() implies self.devices@[k].fd
                        != fd by {
                        let k0 = if k < i { k } else { k + 1 };
                        assert(self.devices@[k] == old(self).devices@[k0]);
                        assert(old(self).devices@[i as int].fd == fd);
                    }
                }
                Some(
                    LibinputEvent {
                        event_type: LibinputEventType::LIBINPUT_EVENT_DEVICE_REMOVED,
                        payload: EventPayload::DeviceRemoved,
                        device: td.lib_device,
                    },
                )
            },
            None => None,
        }
    }

    /// The repeat pass over all keyboards at monotonic time `now`.
    pub fn emit_key_repeats(&mut self, now: u64, out: &mut Vec<LibinputEvent>)
        requires
            old(self).wf(),
        ensures
            final(self).wf(),
            final(self).global_typing_time == old(self).global_typing_time,
            final(self).devices@.len() == old(self).devices@.len(),
            forall|i: int|
                0 <= i < old(self).devices@.len() ==> {
                    let d0 = old(self).devices@[i];
                    let d1 = #[trigger] final(self).devices@[i];
                    &&& d1.fd == d0.fd
                    &&& d1.path == d0.path
                    &&& d1.is_absolute == d0.is_absolute
                    &&& d1.is_keyboard == d0.is_keyboard
                    &&& d1.is_pointer == d0.is_pointer
                    &&& d1.lib_device == d0.lib_device
                    &&& d1.touchpad@ == d0.touchpad@
                    &&& d1.keyboard.last_typing_time == d0.keyboard.last_typing_time
                    &&& d1.keyboard.held_keys@ == (if d0.is_keyboard {
                        d0.keyboard.held_keys@.map_values(|k: HeldKey| after_repeat(k, now))
                    } else {
                        d0.keyboard.held_keys@
                    })
                },
            final(out)@ == old(out)@ + all_repeat_events(old(self).devices@, now),
    {
        let ghost devs = self.devices@;
        let ghost out0 = out@;
        let n = self.devices.len();
        let mut i: usize = 0;
        while i < n
            invariant
                n == devs.len(),
                self.devices@.len() == n,
                0 <= i <= n,
                self.global_typing_time == old(self).global_typing_time,
                forall|j: int|
                    i <= j < n ==> #[trigger] self.devices@[j] == devs[j],
                forall|j: int|
                    0 <= j < i ==> {
                        let d0 = devs[j];
                        let d1 = #[trigger] self.devices@[j];
                        &&& d1.fd == d0.fd
                        &&& d1.path == d0.path
                        &&& d1.is_absolute == d0.is_absolute
                        &&& d1.is_keyboard == d0.is_keyboard
                        &&& d1.is_pointer == d0.is_pointer
                        &&& d1.lib_device == d0.lib_device
                        &&& d1.touchpad@ == d0.touchpad@
                        &&& d1.keyboard.last_typing_time == d0.keyboard.last_typing_time
                        &&& d1.keyboard.held_keys@ == (if d0.is_keyboard {
                            d0.keyboard.held_keys@.map_values(|k: HeldKey| after_repeat(k, now))
                        } else {
                            d0.keyboard.held_keys@
                        })
                    },
                out@ == out0 + all_repeat_events(devs.take(i as int), now),
                old(self).wf(),
                devs == old(self).devices@,
            decreases n - i,
        {
            proof {
                assert(devs.take(i + 1).drop_last() =~= devs.take(i as int));
                assert(devs.take(i + 1).last() == devs[i as int]);
            }
            let dev = &mut self.devices[i];
            if dev.is_keyboard {
                let handle = dev.lib_device;
                dev.keyboard.emit_key_repeats(now, handle, out);
            }
            proof {
                assert(out@ =~= out0 + all_repeat_events(devs.take(i + 1), now));
            }
            i = i + 1;
        }
        proof {
            assert(devs.take(n as int) =~= devs);
            assert forall|a: int, b: int|
                0 <= a < b < self.devices@.len() implies self.devices@[a].fd
                != self.devices@[b].fd by {
                assert(self.devices@[a].fd == devs[a].fd);
                assert(self.devices@[b].fd == devs[b].fd);
            }
            assert forall|k: int| 0 <= k < self.devices@.len() implies (
            #[trigger] self.devices@[k]).touchpad@.wf() by {
                assert(self.devices@[k].touchpad@ == devs[k].touchpad@);
            }
        }
    }

    /// Processes one kernel event of the device read through `fd`, with
    /// the device's tap and disable-while-typing settings: keyboards,
    /// relative devices and touchpads each process it their way (see
    /// [`TrackedDevice::spec_kind`]); the events go to `out`, and the result
    /// says what the caller does with the fractional motion pipeline.  An
    /// unknown descriptor changes nothing.
    pub fn process_event(
        &mut self,
        fd: i32,
        ev: &RawEvent,
        ts_usec: u64,
        cfg_tap: bool,
        cfg_dwt: bool,
        now: u64,
        out: &mut Vec<LibinputEvent>,
    ) -> (r: SynAction)
        requires
            old(self).wf(),
        ensures
            final(self).wf(),
            final(self).devices@.len() == old(self).devices@.len(),
            match fd_index(old(self).devices@, fd) {
                None => {
                    &&& final(self).devices@ == old(self).devices@
                    &&& final(self).global_typing_time == old(self).global_typing_time
                    &&& final(out)@ == old(out)@
                    &&& r == SynAction::Nothing
                },
                Some(i) => {
                    let d0 = old(self).devices@[i];
                    let d1 = final(self).devices@[i];
                    &&& forall|j: int|
                        0 <= j < old(self).devices@.len() && j != i ==> final(self).devices@[j]
                            == old(self).devices@[j]
                    &&& d1.fd == d0.fd
                    &&& d1.path == d0.path
                    &&& d1.is_absolute == d0.is_absolute
                    &&& d1.is_keyboard == d0.is_keyboard
                    &&& d1.is_pointer == d0.is_pointer
                    &&& d1.lib_device == d0.lib_device
                    &&& final(out)@ == old(out)@ + dispatch_events(
                        d0,
                        old(self).global_typing_time,
                        *ev,
                        ts_usec,
                        cfg_tap,
                        cfg_dwt,
                        now,
                    )
                    &&& match d0.spec_kind() {
                        DeviceKind::Keyboard => {
                            let s = keyboard_step(
                                d0.keyboard.held_keys@,
                                d0.keyboard.last_typing_time,
                                old(self).global_typing_time,
                                *ev,
                                ts_usec,
                                d0.lib_device,
                                now,
                            );
                            &&& d1.keyboard.held_keys@ == s.held_keys
                            &&& d1.keyboard.last_typing_time == s.last_typing_time
                            &&& final(self).global_typing_time == s.global_typing_time
                            &&& d1.touchpad@ == d0.touchpad@
                            &&& final(out)@ == old(out)@ + s.events
                            &&& r == SynAction::Nothing
                        },
                        DeviceKind::Relative => {
                            &&& d1.keyboard.held_keys@ == d0.keyboard.held_keys@
                            &&& d1.keyboard.last_typing_time == d0.keyboard.last_typing_time
                            &&& final(self).global_typing_time == old(self).global_typing_time
                            &&& d1.touchpad@ == d0.touchpad@
                            &&& final(out)@ == (match relative_output(*ev, ts_usec, d0.lib_device) {
                                Some(e) => old(out)@.push(e),
                                None => old(out)@,
                            })
                            &&& r == SynAction::Nothing
                        },
                        DeviceKind::Touchpad => {
                            let st = touchpad_step(
                                d0.touchpad@,
                                *ev,
                                ts_usec,
                                d0.lib_device,
                                cfg_tap,
                                spec_dwt_active(cfg_dwt, old(self).global_typing_time, now),
                                now,
                            );
                            &&& d1.keyboard.held_keys@ == d0.keyboard.held_keys@
                            &&& d1.keyboard.last_typing_time == d0.keyboard.last_typing_time
                            &&& final(self).global_typing_time == old(self).global_typing_time
                            &&& d1.touchpad@ == st.view
                            &&& final(out)@ == old(out)@ + st.events
                            &&& r == st.action
                        },
                        DeviceKind::Ignored => {
                            &&& d1.keyboard.held_keys@ == d0.keyboard.held_keys@
                            &&& d1.keyboard.last_typing_time == d0.keyboard.last_typing_time
                            &&& final(self).global_typing_time == old(self).global_typing_time
                            &&& d1.touchpad@ == d0.touchpad@
                            &&& final(out)@ == old(out)@
                            &&& r == SynAction::Nothing
                        },
                    }
                },
            },
    {
        let i = match self.find(fd) {
            Some(i) => i,
            None => {
                return SynAction::Nothing;
            },
        };
        let dwt = dwt_active(cfg_dwt, self.global_typing_time, now);
        let ghost devs = self.devices@;
        let kind = self.devices[i].kind();
        let handle = self.devices[i].lib_device;
        let action = match kind {
            DeviceKind::Keyboard => {
                let dev = &mut self.devices[i];
                dev.keyboard.process_keyboard_event(
                    ev,
                    ts_usec,
                    handle,
                    out,
                    &mut self.global_typing_time,
                    now,
                );
                SynAction::Nothing
            },
            DeviceKind::Relative => {
                process_relative_event(ev, ts_usec, handle, out);
                SynAction::Nothing
            },
            DeviceKind::Touchpad => {
                let dev = &mut self.devices[i];
                proof {
                    assert(devs[i as int].touchpad@.wf());
                }
                dev.touchpad.process_absolute_event(ev, ts_usec, handle, out, cfg_tap, dwt, now)
            },
            DeviceKind::Ignored => SynAction::Nothing,
        };
        proof {
            assert forall|a: int, b: int|
                0 <= a < b < self.devices@.len() implies self.devices@[a].fd
                != self.devices@[b].fd by {
                assert(self.devices@[a].fd == devs[a].fd);
                assert(self.devices@[b].fd == devs[b].fd);
            }
            assert forall|k: int| 0 <= k < self.devices@.len() implies (
            #[trigger] self.devices@[k]).touchpad@.wf() by {
                if k != i {
                    assert(self.devices@[k] == devs[k]);
                }
            }
        }
        action
    }
}


/// `std::time::SystemTime`, carried through as an opaque value.
#[verifier::external_type_specification]
#[verifier::external_body]
pub struct ExSystemTime(std::time::SystemTime);

/// The offset of a `SystemTime` from the Unix epoch, in whole seconds and
/// microseconds (`Duration::as_secs`, `Duration::subsec_micros`), or none
/// when it lies before the epoch: what `duration_since(UNIX_EPOCH)` gives
/// for that value.
pub uninterp spec fn epoch_offset(t: std::time::SystemTime) -> Option<(u64, u32)>;

/// Calls `SystemTime::duration_since(UNIX_EPOCH)` and splits the duration
/// into whole seconds and `Duration::subsec_micros`; none when `t` lies
/// before the epoch.  The result is named [`epoch_offset`] of `t`; of it the
/// contract states what `subsec_micros` documents, that the microseconds are
/// less than one million.
#[verifier::external_body]
fn since_unix_epoch(t: std::time::SystemTime) -> (r: Option<(u64, u32)>)
    ensures
        r == epoch_offset(t),
        r matches Some((_, us)) ==> us < 1_000_000,
{
    match t.duration_since(std::time::UNIX_EPOCH) {
        Ok(d) => Some((d.as_secs(), d.subsec_micros())),
        Err(_) => None,
    }
}

/// The microseconds since the epoch of an offset of whole seconds and
/// microseconds, truncated to 64 bits (as `Duration::as_micros() as u64`);
/// a time before the epoch counts as zero.
pub open spec fn epoch_usec(offset: Option<(u64, u32)>) -> u64 {
    match offset {
        Some((secs, us)) => (secs * 1_000_000 + us) as u64,
        None => 0,
    }
}

/// Microseconds since the epoch of an offset from the epoch.
pub fn usec_from_epoch_offset(offset: Option<(u64, u32)>) -> (r: u64)
    ensures
        r == epoch_usec(offset),
{
    match offset {
        Some((secs, us)) => {
            let total: u128 = secs as u128 * 1_000_000u128 + us as u128;
            total as u64
        },
        None => 0,
    }
}

/// The microseconds since the epoch of a kernel timestamp (zero for a time
/// before the epoch), truncated to 64 bits.
pub fn systime_to_usec(t: std::time::SystemTime) -> (r: u64)
    ensures
        r == epoch_usec(epoch_offset(t)),
{
    let offset = since_unix_epoch(t);
    usec_from_epoch_offset(offset)
}


/// Kernel timestamps convert in order: a later offset from the epoch (in
/// seconds, then microseconds) gives no fewer microseconds, as long as the
/// later one fits in 64 bits; a time before the epoch gives the fewest.
pub proof fn law_epoch_usec_monotone(a: Option<(u64, u32)>, b: Option<(u64, u32)>)
    requires
        a matches Some((_, us)) ==> us < 1_000_000,
        b matches Some((_, us)) ==> us < 1_000_000,
        b matches Some((secs, us)) ==> secs * 1_000_000 + us <= u64::MAX,
        a matches Some((sa, ua)) ==> (b matches Some((sb, ub)) && (sa < sb || (sa == sb && ua
            <= ub))),
    ensures
        epoch_usec(a) <= epoch_usec(b),
{
    if let Some((sa, ua)) = a {
        if let Some((sb, ub)) = b {
            assert(sa * 1_000_000 + ua <= sb * 1_000_000 + ub) by (nonlinear_arith)
                requires
                    ua < 1_000_000,
                    sa < sb || (sa == sb && ua <= ub),
            ;
        }
    }
}

/// Disable-while-typing: a key press on any keyboard holds back the
/// touchpads (that have it enabled) for the next 500 ms, and no longer.
pub proof fn law_key_press_starts_dwt(
    held_keys: Seq<HeldKey>,
    last_typing_time: Option<u64>,
    global_typing_time: Option<u64>,
    ev: RawEvent,
    ts_usec: u64,
    device: usize,
    now: u64,
    later: u64,
)
    requires
        ev.event_type == crate::codes::EV_KEY,
        ev.value == 1,
        later >= now,
    ensures
        ({
            let g = keyboard_step(
                held_keys,
                last_typing_time,
                global_typing_time,
                ev,
                ts_usec,
                device,
                now,
            ).global_typing_time;
            &&& spec_dwt_active(true, g, later) <==> later - now < DWT_TIMEOUT_USEC
            &&& !spec_dwt_active(false, g, later)
        }),
{
}


/// Every event that the backend reports is well typed and carries the
/// handle of the device it comes from: device additions and removals, key
/// repeats, and the events of each kernel event.
pub proof fn law_backend_events_well_typed(
    d: TrackedDevice,
    global_typing_time: Option<u64>,
    ev: RawEvent,
    ts_usec: u64,
    cfg_tap: bool,
    cfg_dwt: bool,
    now: u64,
)
    requires
        d.touchpad@.wf(),
    ensures
        all_from(
            dispatch_events(d, global_typing_time, ev, ts_usec, cfg_tap, cfg_dwt, now),
            d.lib_device,
        ),
        all_from(
            seq![device_notify(LibinputEventType::LIBINPUT_EVENT_DEVICE_ADDED, d.lib_device)],
            d.lib_device,
        ),
        all_from(
            seq![device_notify(LibinputEventType::LIBINPUT_EVENT_DEVICE_REMOVED, d.lib_device)],
            d.lib_device,
        ),
        d.is_keyboard ==> all_from(
            repeat_events(d.keyboard.held_keys@, now, d.lib_device),
            d.lib_device,
        ),
{
    law_keyboard_events_well_typed(
        d.keyboard.held_keys@,
        d.keyboard.last_typing_time,
        global_typing_time,
        ev,
        ts_usec,
        d.lib_device,
        now,
    );
    law_relative_events_well_typed(ev, ts_usec, d.lib_device);
    law_touchpad_events_well_typed(
        d.touchpad@,
        ev,
        ts_usec,
        d.lib_device,
        cfg_tap,
        spec_dwt_active(cfg_dwt, global_typing_time, now),
        now,
        0,
        0,
        0,
        0,
        false,
    );
}

} // verus!
