//! The library context: its event queue, its devices, its seat and its
//! reference count.

use vstd::prelude::*;
use vstd::string::StringSliceAdditionalSpecFns;

use crate::events::{LibinputEvent, LibinputEventType};
use crate::seat::{libinput_device_set_seat_logical_name, LibinputSeat};
use crate::text::c_string;

use std::collections::VecDeque;

verus! {

/// A library context.  `devices` holds the handles of the device objects
/// that the context owns, in the order they were created.
pub struct LibinputContext {
    pub event_queue: VecDeque<LibinputEvent>,
    pub devices: Vec<usize>,
    pub seat: LibinputSeat,
    pub refcount: i32,
}

impl LibinputContext {
    /// A context with an empty queue, no device, the default seat and one
    /// reference.
    pub fn new() -> (r: LibinputContext)
        ensures
            r.event_queue@ == Seq::<LibinputEvent>::empty(),
            r.devices@ == Seq::<usize>::empty(),
            r.seat.physical_name@ == c_string("seat0".spec_bytes()),
            r.seat.logical_name@ == c_string("default".spec_bytes()),
            r.seat.refcount == 1,
            r.refcount == 1,
    {
        LibinputContext {
            event_queue: VecDeque::new(),
            devices: Vec::new(),
            seat: LibinputSeat::new(),
            refcount: 1,
        }
    }

    /// The number of references to the context.
    pub fn ref_count(&self) -> (r: i32)
        ensures
            r == self.refcount,
    {
        self.refcount
    }

    /// Takes a reference (the count wraps as an atomic counter does).
    pub fn inc_ref(&mut self)
        ensures
            final(self).refcount == old(self).refcount.wrapping_add(1),
            final(self).event_queue@ == old(self).event_queue@,
            final(self).devices@ == old(self).devices@,
            final(self).seat == old(self).seat,
    {
        self.refcount = self.refcount.wrapping_add(1);
    }

    /// Drops a reference and returns the number left.
    pub fn dec_ref(&mut self) -> (r: i32)
        ensures
            r == old(self).refcount.wrapping_sub(1),
            final(self).refcount == r,
            final(self).event_queue@ == old(self).event_queue@,
            final(self).devices@ == old(self).devices@,
            final(self).seat == old(self).seat,
    {
        self.refcount = self.refcount.wrapping_sub(1);
        self.refcount
    }

    /// Appends events to the queue, in order.
    pub fn enqueue_events(&mut self, events: Vec<LibinputEvent>)
        ensures
            final(self).event_queue@ == old(self).event_queue@ + events@,
            final(self).devices@ == old(self).devices@,
            final(self).refcount == old(self).refcount,
            final(self).seat == old(self).seat,
    {
        let mut i: usize = 0;
        while i < events.len()
            invariant
                i <= events@.len(),
                self.event_queue@ == old(self).event_queue@ + events@.take(i as int),
                self.devices@ == old(self).devices@,
                self.refcount == old(self).refcount,
                self.seat == old(self).seat,
            decreases events@.len() - i,
        {
            self.event_queue.push_back(events[i]);
            i = i + 1;
            proof {
                assert(self.event_queue@ =~= old(self).event_queue@ + events@.take(i as int));
            }
        }
        proof {
            assert(events@.take(i as int) =~= events@);
        }
    }

    /// Records a device object that the context now owns.
    pub fn add_device(&mut self, handle: usize)
        ensures
            final(self).devices@ == old(self).devices@.push(handle),
            final(self).event_queue@ == old(self).event_queue@,
            final(self).refcount == old(self).refcount,
            final(self).seat == old(self).seat,
    {
        self.devices.push(handle);
    }

    /// The device object created last, if any.
    pub fn last_device(&self) -> (r: Option<usize>)
        ensures
            r == (if self.devices@.len() > 0 {
                Some(self.devices@.last())
            } else {
                None::<usize>
            }),
    {
        let n = self.devices.len();
        if n > 0 {
            Some(self.devices[n - 1])
        } else {
            None
        }
    }

    /// Gives the seat the logical name `name` when it is a valid C string;
    /// otherwise the seat keeps its name.
    pub fn assign_seat_name(&mut self, name: &str)
        ensures
            name.spec_bytes().contains(0u8) ==> final(self).seat.logical_name@ == old(
                self,
            ).seat.logical_name@,
            !name.spec_bytes().contains(0u8) ==> final(self).seat.logical_name@ == c_string(
                name.spec_bytes(),
            ),
            final(self).seat.physical_name@ == old(self).seat.physical_name@,
            final(self).seat.refcount == old(self).seat.refcount,
            final(self).event_queue@ == old(self).event_queue@,
            final(self).devices@ == old(self).devices@,
            final(self).refcount == old(self).refcount,
    {
        let _ = libinput_device_set_seat_logical_name(&mut self.seat, name);
    }
}

/// Takes a reference to a context.
pub fn libinput_ref(ctx: &mut LibinputContext)
    ensures
        final(ctx).refcount == old(ctx).refcount.wrapping_add(1),
        final(ctx).event_queue@ == old(ctx).event_queue@,
        final(ctx).devices@ == old(ctx).devices@,
        final(ctx).seat == old(ctx).seat,
{
    ctx.inc_ref();
}

/// Drops a reference to a context; the result tells whether the context
/// lives on (it is destroyed when no reference is left).
pub fn libinput_unref(ctx: &mut LibinputContext) -> (alive: bool)
    ensures
        final(ctx).refcount == old(ctx).refcount.wrapping_sub(1),
        alive == (final(ctx).refcount != 0),
        final(ctx).event_queue@ == old(ctx).event_queue@,
        final(ctx).devices@ == old(ctx).devices@,
        final(ctx).seat == old(ctx).seat,
{
    ctx.dec_ref() != 0
}

/// Takes the oldest pending event off the queue.
pub fn libinput_get_event(ctx: &mut LibinputContext) -> (r: Option<LibinputEvent>)
    ensures
        old(ctx).event_queue@.len() == 0 ==> r is None && final(ctx).event_queue@ == old(
            ctx,
        ).event_queue@,
        old(ctx).event_queue@.len() > 0 ==> r == Some(old(ctx).event_queue@[0])
            && final(ctx).event_queue@ == old(ctx).event_queue@.drop_first(),
        final(ctx).devices@ == old(ctx).devices@,
        final(ctx).refcount == old(ctx).refcount,
        final(ctx).seat == old(ctx).seat,
{
    let r = ctx.event_queue.pop_front();
    proof {
        if old(ctx).event_queue@.len() > 0 {
            assert(old(ctx).event_queue@.subrange(1, old(ctx).event_queue@.len() as int)
                =~= old(ctx).event_queue@.drop_first());
        }
    }
    r
}

/// The type of the oldest pending event, without taking it (none when the
/// queue is empty or there is no context).
pub fn libinput_next_event_type(ctx: Option<&LibinputContext>) -> (r: LibinputEventType)
    ensures
        r == (match ctx {
            Some(c) => if c.event_queue@.len() > 0 {
                c.event_queue@[0].event_type
            } else {
                LibinputEventType::LIBINPUT_EVENT_NONE
            },
            None => LibinputEventType::LIBINPUT_EVENT_NONE,
        }),
{
    match ctx {
        Some(c) => {
            if c.event_queue.len() > 0 {
                c.event_queue[0].event_type
            } else {
                LibinputEventType::LIBINPUT_EVENT_NONE
            }
        },
        None => LibinputEventType::LIBINPUT_EVENT_NONE,
    }
}


/// Events come out of the queue in the order they went in: once the events
/// that were pending are taken, the `j`-th event appended comes next, and
/// the type of the next event is the type of the event taken next.
pub proof fn law_queue_is_fifo(pending: Seq<LibinputEvent>, appended: Seq<LibinputEvent>, j: int)
    requires
        0 <= j < appended.len(),
    ensures
        (pending + appended).skip(pending.len() + j).len() > 0,
        (pending + appended).skip(pending.len() + j)[0] == appended[j],
        (pending + appended).skip(pending.len() + j).drop_first() == (pending + appended).skip(
            pending.len() + j + 1,
        ),
{
    assert((pending + appended).skip(pending.len() + j).drop_first() =~= (pending
        + appended).skip(pending.len() + j + 1));
}

/// Taking a reference and dropping it leaves the count as it was, and
/// dropping the only reference leaves none.
pub proof fn law_ref_unref_restores(count: i32)
    ensures
        count.wrapping_add(1).wrapping_sub(1) == count,
        count == 1 ==> count.wrapping_sub(1) == 0,
{
    assert(((count + 1) as i32 - 1) as i32 == count) by (bit_vector);
}

} // verus!
