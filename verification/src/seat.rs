//! Seats: the physical and logical name under which devices are grouped.

use vstd::prelude::*;
use vstd::string::StringSliceAdditionalSpecFns;

use crate::text::{c_string, c_string_bytes, c_string_checked};

verus! {

/// A seat.  Its names are held as C strings (NUL-terminated bytes).
pub struct LibinputSeat {
    pub physical_name: Vec<u8>,
    pub logical_name: Vec<u8>,
    pub refcount: i32,
}

impl LibinputSeat {
    /// The default seat: physically `seat0`, logically `default`, one
    /// reference.
    pub fn new() -> (r: LibinputSeat)
        ensures
            r.physical_name@ == c_string("seat0".spec_bytes()),
            r.logical_name@ == c_string("default".spec_bytes()),
            r.refcount == 1,
    {
        LibinputSeat {
            physical_name: c_string_bytes("seat0"),
            logical_name: c_string_bytes("default"),
            refcount: 1,
        }
    }
}

/// The physical name of a seat, as a C string.
pub fn libinput_seat_get_physical_name<'a>(seat: Option<&'a LibinputSeat>) -> (r: Option<&'a [u8]>)
    ensures
        seat matches Some(s) ==> r matches Some(b) && b@ == s.physical_name@,
        seat is None ==> r is None,
{
    match seat {
        Some(s) => Some(s.physical_name.as_slice()),
        None => None,
    }
}

/// The logical name of a seat, as a C string.
pub fn libinput_seat_get_logical_name<'a>(seat: Option<&'a LibinputSeat>) -> (r: Option<&'a [u8]>)
    ensures
        seat matches Some(s) ==> r matches Some(b) && b@ == s.logical_name@,
        seat is None ==> r is None,
{
    match seat {
        Some(s) => Some(s.logical_name.as_slice()),
        None => None,
    }
}

/// Takes a reference to a seat (the count wraps as an atomic counter does).
pub fn libinput_seat_ref(seat: &mut LibinputSeat)
    ensures
        final(seat).refcount == old(seat).refcount.wrapping_add(1),
        final(seat).physical_name@ == old(seat).physical_name@,
        final(seat).logical_name@ == old(seat).logical_name@,
{
    seat.refcount = seat.refcount.wrapping_add(1);
}

/// Drops a reference to a seat; the seat itself lives as long as its
/// context, and the caller gets no seat back.
pub fn libinput_seat_unref(seat: &mut LibinputSeat)
    ensures
        final(seat).refcount == old(seat).refcount.wrapping_sub(1),
        final(seat).physical_name@ == old(seat).physical_name@,
        final(seat).logical_name@ == old(seat).logical_name@,
{
    seat.refcount = seat.refcount.wrapping_sub(1);
}

/// Renames a seat logically; a name holding a NUL byte cannot be a C
/// string and is refused with -1, leaving the seat as it was.
pub fn libinput_device_set_seat_logical_name(seat: &mut LibinputSeat, name: &str) -> (r: i32)
    ensures
        name.spec_bytes().contains(0u8) ==> r == -1 && final(seat).logical_name@ == old(
            seat,
        ).logical_name@,
        !name.spec_bytes().contains(0u8) ==> r == 0 && final(seat).logical_name@ == c_string(
            name.spec_bytes(),
        ),
        final(seat).physical_name@ == old(seat).physical_name@,
        final(seat).refcount == old(seat).refcount,
{
    match c_string_checked(name) {
        Some(bytes) => {
            seat.logical_name = bytes;
            0
        },
        None => -1,
    }
}

} // verus!
