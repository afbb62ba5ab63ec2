//! Completion events, lists of them, and the form in which a submission
//! takes the events it has to wait for.

use crate::error::{
    api_error, errcode_try, result_view, spec_api_error, spec_errcode_try, Error, ErrorView,
};
use crate::handle::Context;
use crate::status::{CommandExecutionStatus, EventStatus};
use vstd::prelude::*;

verus! {

/// Who completes an event: the device, when the command is done, or the
/// host, by setting the status itself.
#[derive(Clone, Copy, Debug, PartialEq, Eq, Structural)]
pub enum EventOrigin {
    Hardware,
    User,
}

/// What an [`Event`] holds.
pub struct EventView {
    pub ptr: usize,
    pub origin: EventOrigin,
    pub status: EventStatus,
}

/// A completion event: the handle of a pending or finished operation,
/// together with the last status that the host has seen of it. The status
/// only ever moves from pending to complete or to failed.
#[derive(Clone, Copy, Debug, PartialEq, Eq, Structural)]
pub struct Event {
    ptr: usize,
    origin: EventOrigin,
    status: EventStatus,
}

impl View for Event {
    type V = EventView;

    closed spec fn view(&self) -> EventView {
        EventView { ptr: self.ptr, origin: self.origin, status: self.status }
    }
}

impl Event {
    /// The view of an event that holds nothing: a free slot for a new event.
    pub open spec fn empty_view() -> EventView {
        EventView { ptr: 0, origin: EventOrigin::Hardware, status: EventStatus::Pending }
    }

    /// Whether the event holds a handle, that is, whether its handle is not
    /// null. This is all that the host can tell from the value: an event
    /// whose handle the device has released since still passes.
    pub open spec fn is_valid(&self) -> bool {
        self@.ptr != 0
    }

    /// An event that holds nothing yet.
    pub fn empty() -> (e: Event)
        ensures
            e@ == Event::empty_view(),
    {
        Event { ptr: 0, origin: EventOrigin::Hardware, status: EventStatus::Pending }
    }

    /// The pending event of a command that the device has just taken.
    pub fn from_fresh_ptr(ptr: usize) -> (e: Event)
        ensures
            e@ == (EventView { ptr, origin: EventOrigin::Hardware, status: EventStatus::Pending }),
    {
        Event { ptr, origin: EventOrigin::Hardware, status: EventStatus::Pending }
    }

    /// The handle as the device API takes it.
    pub fn as_ptr(&self) -> (r: usize)
        ensures
            r == self@.ptr,
    {
        self.ptr
    }

    /// Who completes the event.
    pub fn origin(&self) -> (r: EventOrigin)
        ensures
            r == self@.origin,
    {
        self.origin
    }

    /// The last status that the host has seen.
    pub fn status(&self) -> (r: EventStatus)
        ensures
            r == self@.status,
    {
        self.status
    }

    /// Whether the event holds no handle.
    pub fn is_null(&self) -> (r: bool)
        ensures
            r == !self.is_valid(),
    {
        self.ptr == 0
    }

    /// Whether the operation is done: `Ok(true)` once complete, `Ok(false)`
    /// while pending, and the device's error once it has failed.
    pub fn is_complete(&self) -> (r: Result<bool, Error>)
        ensures
            result_view(r) == match self@.status {
                EventStatus::Complete => Ok(true),
                EventStatus::Pending => Ok(false),
                EventStatus::Error(code) => Err(
                    spec_api_error("Event::is_complete"@, code as int),
                ),
            },
    {
        match self.status {
            EventStatus::Complete => Ok(true),
            EventStatus::Pending => Ok(false),
            EventStatus::Error(code) => Err(api_error("Event::is_complete", code)),
        }
    }

    /// Records a status that the device reported. A final status stays: the
    /// event never returns to pending and never changes its outcome.
    pub fn report(&mut self, observed: EventStatus)
        ensures
            final(self)@ == (EventView {
                status: old(self)@.status.spec_merge(observed),
                ..old(self)@
            }),
            old(self)@.status.may_become(final(self)@.status),
    {
        self.status = self.status.merge(observed);
    }

    /// Reads the answer to a status query (the call's own code and the raw
    /// execution status) and records it. A query that failed leaves the
    /// event as it was.
    pub fn observe(&mut self, errcode: i32, status_int: i32) -> (r: Result<EventStatus, Error>)
        ensures
            match r {
                Ok(status) => {
                    &&& errcode == 0
                    &&& status == old(self)@.status.spec_merge(
                        EventStatus::spec_from_raw(status_int as int),
                    )
                    &&& final(self)@ == (EventView { status, ..old(self)@ })
                },
                Err(e) => {
                    &&& Err::<(), ErrorView>(e@) == spec_errcode_try(
                        "clGetEventInfo"@,
                        errcode as int,
                    )
                    &&& *final(self) == *old(self)
                },
            },
            old(self)@.status.may_become(final(self)@.status),
    {
        match errcode_try("clGetEventInfo", errcode) {
            Ok(()) => {
                self.status = self.status.merge(EventStatus::from_raw(status_int));
                Ok(self.status)
            },
            Err(e) => Err(e),
        }
    }

    /// Makes the event a free slot for a new event, and returns the handle
    /// that it held, which the caller has to release.
    pub fn ptr_mut_ptr_new(&mut self) -> (released: Option<usize>)
        ensures
            final(self)@ == Event::empty_view(),
            released == Event::spec_released(old(self)@),
    {
        let released = if self.ptr != 0 {
            Some(self.ptr)
        } else {
            None
        };
        self.ptr = 0;
        self.origin = EventOrigin::Hardware;
        self.status = EventStatus::Pending;
        released
    }

    /// The handle that a slot gives up when it is emptied.
    pub open spec fn spec_released(slot: EventView) -> Option<usize> {
        if slot.ptr != 0 {
            Some(slot.ptr)
        } else {
            None
        }
    }
}

/// An event that the host completes itself.
#[derive(Clone, Copy, Debug, PartialEq, Eq, Structural)]
pub struct UserEvent {
    event: Event,
    context: Context,
}

impl View for UserEvent {
    type V = EventView;

    closed spec fn view(&self) -> EventView {
        self.event@
    }
}

impl UserEvent {
    /// The context that the event was created in.
    pub closed spec fn spec_context(&self) -> Context {
        self.context
    }

    /// The pending user event with handle `ptr`, created in `context`.
    /// Fails with `InvalidHandle` if either handle is null.
    pub fn new(context: &Context, ptr: usize) -> (r: Result<UserEvent, Error>)
        ensures
            match r {
                Ok(uev) => {
                    &&& ptr != 0 && context.ptr != 0
                    &&& uev@ == (EventView {
                        ptr,
                        origin: EventOrigin::User,
                        status: EventStatus::Pending,
                    })
                    &&& uev.spec_context() == *context
                },
                Err(e) => e@ == ErrorView::InvalidHandle && (ptr == 0 || context.ptr == 0),
            },
    {
        if ptr == 0 || context.ptr == 0 {
            Err(Error::InvalidHandle)
        } else {
            Ok(
                UserEvent {
                    event: Event { ptr, origin: EventOrigin::User, status: EventStatus::Pending },
                    context: *context,
                },
            )
        }
    }

    /// The event as others wait for it.
    pub fn event(&self) -> (e: Event)
        ensures
            e@ == self@,
    {
        self.event
    }

    /// The context that the event was created in.
    pub fn context(&self) -> (r: Context)
        ensures
            r == self.spec_context(),
    {
        self.context
    }

    /// The handle as the device API takes it.
    pub fn as_ptr(&self) -> (r: usize)
        ensures
            r == self@.ptr,
    {
        self.event.ptr
    }

    /// The last status that the host has seen.
    pub fn status(&self) -> (r: EventStatus)
        ensures
            r == self@.status,
    {
        self.event.status
    }

    /// The raw execution status that stands for a final status.
    pub open spec fn spec_raw_status(status: EventStatus) -> int {
        match status {
            EventStatus::Error(code) => code as int,
            _ => 0,
        }
    }

    /// Whether `status` is one that the host may set: complete, or failed
    /// with a negative code.
    pub open spec fn spec_settable(status: EventStatus) -> bool {
        match status {
            EventStatus::Pending => false,
            EventStatus::Complete => true,
            EventStatus::Error(code) => code < 0,
        }
    }

    /// Completes the event, or fails it. The status of a user event is set
    /// once: on a pending event, to complete or to a failure with a negative
    /// code. Then the result is the raw status to hand to the device. In
    /// every other case the event is left as it was.
    pub fn set_status(&mut self, status: EventStatus) -> (r: Result<i32, Error>)
        ensures
            match r {
                Ok(raw) => {
                    &&& old(self)@.status is Pending
                    &&& UserEvent::spec_settable(status)
                    &&& raw == UserEvent::spec_raw_status(status)
                    &&& final(self)@ == (EventView { status, ..old(self)@ })
                    &&& final(self).spec_context() == old(self).spec_context()
                },
                Err(e) => {
                    &&& !(old(self)@.status is Pending && UserEvent::spec_settable(status))
                    &&& e@ == ErrorView::Message(
                        "The status of a user event is set once, to complete or to an error."@,
                    )
                    &&& *final(self) == *old(self)
                },
            },
            old(self)@.status.may_become(final(self)@.status),
    {
        let settable = match status {
            EventStatus::Pending => false,
            EventStatus::Complete => true,
            EventStatus::Error(code) => code < 0,
        };
        let pending = match self.event.status {
            EventStatus::Pending => true,
            _ => false,
        };
        if pending && settable {
            self.event.status = status;
            match status {
                EventStatus::Error(code) => Ok(code),
                _ => Ok(0),
            }
        } else {
            Err(
                Error::message(
                    "The status of a user event is set once, to complete or to an error.",
                ),
            )
        }
    }
}

/// An ordered list of events.
#[derive(Clone, Debug, PartialEq, Eq)]
pub struct EventList {
    events: Vec<Event>,
}

impl View for EventList {
    type V = Seq<Event>;

    closed spec fn view(&self) -> Seq<Event> {
        self.events@
    }
}

/// The handles of the events of a list, in order.
pub open spec fn spec_handles(events: Seq<Event>) -> Seq<usize> {
    Seq::new(events.len(), |i: int| events[i]@.ptr)
}

/// Whether every event of the list holds a handle.
pub open spec fn all_valid(events: Seq<Event>) -> bool {
    forall|i: int| 0 <= i < events.len() ==> (#[trigger] events[i]).is_valid()
}

/// The events that are present among optional ones, in order.
pub open spec fn present(events: Seq<Option<Event>>) -> Seq<Event>
    decreases events.len(),
{
    if events.len() == 0 {
        Seq::empty()
    } else {
        match events.last() {
            Some(e) => present(events.drop_last()).push(e),
            None => present(events.drop_last()),
        }
    }
}

/// How many of the optional events are present.
pub open spec fn count_present(events: Seq<Option<Event>>) -> nat
    decreases events.len(),
{
    if events.len() == 0 {
        0
    } else if events.last() is Some {
        count_present(events.drop_last()) + 1
    } else {
        count_present(events.drop_last())
    }
}

/// The events that a submission waits for: those of the list, or none where
/// no list is given.
pub open spec fn spec_waits(wait_list: Option<&EventList>) -> Seq<Event> {
    match wait_list {
        Some(list) => list@,
        None => Seq::empty(),
    }
}

/// The pointer to the events to wait for: null (`None`) for no events, else
/// the handles in order.
pub open spec fn spec_wait_ptr(waits: Seq<Event>) -> Option<Seq<usize>> {
    if waits.len() == 0 {
        None
    } else {
        Some(spec_handles(waits))
    }
}

impl EventList {
    /// The empty list.
    pub fn new() -> (list: EventList)
        ensures
            list@ == Seq::<Event>::empty(),
    {
        EventList { events: Vec::new() }
    }

    /// Appends an event.
    pub fn push(&mut self, event: Event)
        ensures
            final(self)@ == old(self)@.push(event),
    {
        self.events.push(event);
    }

    /// The number of events.
    pub fn len(&self) -> (n: usize)
        ensures
            n == self@.len(),
    {
        self.events.len()
    }

    /// Whether the list holds no event.
    pub fn is_empty(&self) -> (r: bool)
        ensures
            r == (self@.len() == 0),
    {
        self.events.len() == 0
    }

    /// The event at `index`, if there is one.
    pub fn get(&self, index: usize) -> (r: Option<Event>)
        ensures
            r == if index < self@.len() {
                Some(self@[index as int])
            } else {
                None
            },
    {
        if index < self.events.len() {
            Some(self.events[index])
        } else {
            None
        }
    }

    /// A copy of the last event, if there is one.
    pub fn last_clone(&self) -> (r: Option<Event>)
        ensures
            r == if self@.len() > 0 {
                Some(self@.last())
            } else {
                None
            },
    {
        let n = self.events.len();
        if n > 0 {
            Some(self.events[n - 1])
        } else {
            None
        }
    }

    /// Removes every event.
    pub fn clear(&mut self)
        ensures
            final(self)@ == Seq::<Event>::empty(),
    {
        self.events.clear();
    }

    /// The handles of the events, in order.
    pub fn handles(&self) -> (r: Vec<usize>)
        ensures
            r@ == spec_handles(self@),
    {
        let mut out: Vec<usize> = Vec::new();
        let mut i: usize = 0;
        while i < self.events.len()
            invariant
                i <= self.events@.len(),
                out@ == spec_handles(self.events@.take(i as int)),
            decreases self.events@.len() - i,
        {
            out.push(self.events[i].ptr);
            i += 1;
            assert(out@ =~= spec_handles(self.events@.take(i as int)));
        }
        assert(self.events@.take(i as int) =~= self.events@);
        out
    }
}

/// Builds the list of the events that are present among `events`, in their
/// order; absent ones leave no trace.
pub fn into_raw_list(events: &[Option<Event>]) -> (list: EventList)
    ensures
        list@ == present(events@),
{
    let mut list = EventList::new();
    let mut i: usize = 0;
    while i < events.len()
        invariant
            i <= events@.len(),
            list@ == present(events@.take(i as int)),
        decreases events@.len() - i,
    {
        proof {
            assert(events@.take(i + 1).drop_last() =~= events@.take(i as int));
            assert(events@.take(i + 1).last() == events@[i as int]);
        }
        match events[i] {
            Some(e) => {
                list.push(e);
            },
            None => {},
        }
        i += 1;
    }
    proof {
        assert(events@.take(i as int) =~= events@);
    }
    list
}

/// What a submission hands to the device in place of its events.
#[derive(Clone, Debug, PartialEq, Eq)]
pub struct ResolvedEventPtrs {
    /// The number of events to wait for.
    pub wait_list_len: u32,
    /// The events to wait for: `None` is the null pointer, `Some` the
    /// handles that the pointer leads to.
    pub wait_list: Option<Vec<usize>>,
    /// Whether the device is given a place to write the new event to.
    pub new_event: bool,
    /// The handle that the place for the new event held before and gave up.
    pub released: Option<usize>,
}

/// Maps the events to wait for, and the place for the new event, to what the
/// device takes: a count, a pointer to the handles, and a pointer for the
/// new event.
///
/// No list, or an empty one, maps to the count zero and the null pointer:
/// the device takes an empty array for a mistake, not for "no constraint".
/// A list holding an event without a handle is refused with `InvalidHandle`,
/// one of valid events that is longer than the device can count with
/// `ResourceExhausted`; the place for the new event is then left untouched.
/// Otherwise that place, if given, is emptied for the device to fill.
pub fn resolve_event_ptrs(wait_list: Option<&EventList>, new_event: Option<&mut Event>) -> (r:
    Result<ResolvedEventPtrs, Error>)
    ensures
        match r {
            Ok(p) => {
                &&& all_valid(spec_waits(wait_list))
                &&& spec_waits(wait_list).len() <= u32::MAX
                &&& p.wait_list_len == spec_waits(wait_list).len()
                &&& match p.wait_list {
                    Some(handles) => Some(handles@),
                    None => None,
                } == spec_wait_ptr(spec_waits(wait_list))
                &&& p.new_event == new_event.is_some()
                &&& match new_event {
                    Some(slot) => {
                        &&& final(slot)@ == Event::empty_view()
                        &&& p.released == Event::spec_released((*slot)@)
                    },
                    None => p.released is None,
                }
            },
            Err(e) => {
                &&& e@ == if all_valid(spec_waits(wait_list)) {
                    ErrorView::ResourceExhausted
                } else {
                    ErrorView::InvalidHandle
                }
                &&& !all_valid(spec_waits(wait_list)) || spec_waits(wait_list).len() > u32::MAX
                &&& new_event matches Some(slot) ==> *final(slot) == *slot
            },
        },
{
    let (wait_list_len, wait_ptr): (u32, Option<Vec<usize>>) = match wait_list {
        Some(list) => {
            let mut i: usize = 0;
            while i < list.events.len()
                invariant
                    wait_list == Some(list),
                    i <= list.events@.len(),
                    all_valid(list.events@.take(i as int)),
                decreases list.events@.len() - i,
            {
                if list.events[i].ptr == 0 {
                    assert(!spec_waits(wait_list)[i as int].is_valid());
                    return Err(Error::InvalidHandle);
                }
                i += 1;
                assert forall|j: int| 0 <= j < i implies (#[trigger] list.events@.take(
                    i as int,
                )[j]).is_valid() by {
                    if j < i - 1 {
                        assert(list.events@.take(i - 1)[j].is_valid());
                    }
                }
            }
            assert(list.events@.take(i as int) =~= list.events@);
            let n = list.events.len();
            if n > u32::MAX as usize {
                return Err(Error::ResourceExhausted);
            }
            if n > 0 {
                (n as u32, Some(list.handles()))
            } else {
                (0, None)
            }
        },
        None => (0, None),
    };
    match new_event {
        Some(slot) => {
            let released = slot.ptr_mut_ptr_new();
            Ok(ResolvedEventPtrs { wait_list_len, wait_list: wait_ptr, new_event: true, released })
        },
        None => Ok(
            ResolvedEventPtrs {
                wait_list_len,
                wait_list: wait_ptr,
                new_event: false,
                released: None,
            },
        ),
    }
}

/// However many optional events a wait list is built from, it holds exactly
/// those that are present: its length is their number, and the pointer that
/// a submission gets for it is null exactly when none is present.
pub proof fn lemma_resolved_count(events: Seq<Option<Event>>)
    ensures
        present(events).len() == count_present(events),
        spec_wait_ptr(present(events)) is None <==> count_present(events) == 0,
        spec_wait_ptr(present(events)) matches Some(handles) ==> handles.len() == count_present(
            events,
        ),
        count_present(events) <= events.len(),
    decreases events.len(),
{
    if events.len() > 0 {
        lemma_resolved_count(events.drop_last());
    }
}

/// The handles to block on for the first `num_events` events of a list.
pub fn wait_for_events(num_events: u32, event_list: &EventList) -> (handles: Vec<usize>)
    requires
        event_list@.len() >= num_events,
    ensures
        handles@ == spec_handles(event_list@.take(num_events as int)),
{
    let mut out: Vec<usize> = Vec::new();
    let mut i: usize = 0;
    while i < num_events as usize
        invariant
            i <= num_events <= event_list.events@.len(),
            out@ == spec_handles(event_list.events@.take(i as int)),
        decreases num_events - i,
    {
        out.push(event_list.events[i].ptr);
        i += 1;
        assert(out@ =~= spec_handles(event_list.events@.take(i as int)));
    }
    out
}

/// The execution status for a raw status, or the error for a number that
/// names none.
pub open spec fn spec_event_status(errcode: int, status_int: int) -> Result<
    CommandExecutionStatus,
    ErrorView,
> {
    match spec_errcode_try("clGetEventInfo"@, errcode) {
        Err(e) => Err(e),
        Ok(()) => match CommandExecutionStatus::spec_from_i32(status_int) {
            Some(status) => Ok(status),
            None => Err(
                ErrorView::Message("Error converting 'clGetEventInfo' status output."@),
            ),
        },
    }
}

/// Reads the answer to a query of an event's execution status: the call's
/// own code, and the raw status that it wrote.
pub fn get_event_status(errcode: i32, status_int: i32) -> (r: Result<
    CommandExecutionStatus,
    Error,
>)
    ensures
        result_view(r) == spec_event_status(errcode as int, status_int as int),
{
    match errcode_try("clGetEventInfo", errcode) {
        Err(e) => Err(e),
        Ok(()) => match CommandExecutionStatus::from_i32(status_int) {
            Some(status) => Ok(status),
            None => Err(Error::message("Error converting 'clGetEventInfo' status output.")),
        },
    }
}

} // verus!
