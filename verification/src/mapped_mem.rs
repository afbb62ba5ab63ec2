//! A mapping of device memory into host memory: the future that stands for
//! it while the map command runs, and the mapped region that the future
//! resolves to.

use crate::bridge::{spec_wake_action, wake_action, WakeAction, WakeStrategy};
use crate::error::{api_error, spec_api_error, Error, ErrorView};
use crate::event::{Event, EventList, EventView, UserEvent};
use crate::handle::{CommandQueue, Context, Mem};
use crate::status::EventStatus;
use vstd::prelude::*;

verus! {

/// A user event to complete once every event of a list has completed.
pub struct EventListTrigger {
    pub wait_events: EventList,
    pub completion_event: UserEvent,
    pub callback_is_set: bool,
}

/// A user event to complete once another event has completed.
pub struct EventTrigger {
    pub wait_event: Event,
    pub completion_event: UserEvent,
    pub callback_is_set: bool,
}

impl EventListTrigger {
    /// A trigger that has no callback registered yet.
    pub fn new(wait_events: EventList, completion_event: UserEvent) -> (t: EventListTrigger)
        ensures
            t.wait_events@ == wait_events@,
            t.completion_event == completion_event,
            !t.callback_is_set,
    {
        EventListTrigger { wait_events, completion_event, callback_is_set: false }
    }
}

impl EventTrigger {
    /// A trigger that has no callback registered yet.
    pub fn new(wait_event: Event, completion_event: UserEvent) -> (t: EventTrigger)
        ensures
            t.wait_event == wait_event,
            t.completion_event == completion_event,
            !t.callback_is_set,
    {
        EventTrigger { wait_event, completion_event, callback_is_set: false }
    }
}

/// The answer of a poll that did not fail: the value, or word that it is not
/// there yet, with what the caller has to do to be woken.
#[derive(Debug)]
pub enum Async<T> {
    Ready(T),
    NotReady(WakeAction),
}

/// What a [`MappedMem`] holds.
pub struct MappedMemView {
    pub ptr: usize,
    pub len: usize,
    pub unmap_event: Option<UserEvent>,
    pub unmap_queue: Option<CommandQueue>,
    pub buffer: Mem,
    pub queue: CommandQueue,
    pub is_unmapped: bool,
}

impl MappedMemView {
    /// The rule of release: a region has a release event and a queue for the
    /// release both or neither, and that queue is never the one that mapped
    /// the region.
    pub open spec fn wf(self) -> bool {
        &&& self.unmap_event is Some <==> self.unmap_queue is Some
        &&& self.unmap_queue matches Some(uq) ==> uq.ptr != self.queue.ptr
    }

    /// The queue that the unmap command goes to: the one that the caller
    /// names, or else the one set aside for the release, if there is either.
    pub open spec fn release_queue(self, named: Option<CommandQueue>) -> Option<CommandQueue> {
        match named {
            Some(queue) => Some(queue),
            None => self.unmap_queue,
        }
    }

    /// What unmapping the region gives: the unmap command, or the reason why
    /// there is none. An unmap never goes to the queue that mapped the
    /// region.
    pub open spec fn unmap(self, named: Option<CommandQueue>) -> Result<UnmapOrder, ErrorView> {
        if self.is_unmapped {
            Err(ErrorView::ResourceExhausted)
        } else {
            match self.release_queue(named) {
                None => Err(
                    ErrorView::Message(
                        "MappedMem::unmap: No queue is set aside for the release and none is named."@,
                    ),
                ),
                Some(queue) => if queue.ptr == self.queue.ptr {
                    Err(
                        ErrorView::Message(
                            "MappedMem::unmap: The release needs a queue other than the mapping queue."@,
                        ),
                    )
                } else if queue.ptr == 0 {
                    Err(ErrorView::InvalidHandle)
                } else {
                    Ok(
                        UnmapOrder {
                            queue,
                            buffer: self.buffer,
                            mapped_ptr: self.ptr,
                            release_event: self.unmap_event,
                        },
                    )
                },
            }
        }
    }
}

/// The unmap command of a mapped region, for the caller to submit.
#[derive(Clone, Copy, Debug, PartialEq, Eq, Structural)]
pub struct UnmapOrder {
    /// The queue to submit the command to.
    pub queue: CommandQueue,
    /// The memory object that was mapped.
    pub buffer: Mem,
    /// The address that it was mapped to.
    pub mapped_ptr: usize,
    /// The release event, to complete once the command has run.
    pub release_event: Option<UserEvent>,
}

/// A region of device memory that is visible to the host, for as long as it
/// is not unmapped.
#[derive(Debug)]
pub struct MappedMem {
    ptr: usize,
    len: usize,
    unmap_event: Option<UserEvent>,
    unmap_queue: Option<CommandQueue>,
    buffer: Mem,
    queue: CommandQueue,
    is_unmapped: bool,
}

impl View for MappedMem {
    type V = MappedMemView;

    closed spec fn view(&self) -> MappedMemView {
        MappedMemView {
            ptr: self.ptr,
            len: self.len,
            unmap_event: self.unmap_event,
            unmap_queue: self.unmap_queue,
            buffer: self.buffer,
            queue: self.queue,
            is_unmapped: self.is_unmapped,
        }
    }
}

impl MappedMem {
    #[verifier::type_invariant]
    closed spec fn inv(self) -> bool {
        self@.wf()
    }

    /// The address of the region.
    pub fn as_ptr(&self) -> (r: usize)
        ensures
            r == self@.ptr,
    {
        self.ptr
    }

    /// The number of elements in the region.
    pub fn len(&self) -> (r: usize)
        ensures
            r == self@.len,
    {
        self.len
    }

    /// The memory object that is mapped.
    pub fn buffer(&self) -> (r: Mem)
        ensures
            r == self@.buffer,
    {
        self.buffer
    }

    /// The queue that mapped the region.
    pub fn queue(&self) -> (r: CommandQueue)
        ensures
            r == self@.queue,
    {
        self.queue
    }

    /// Whether the region has been unmapped.
    pub fn is_unmapped(&self) -> (r: bool)
        ensures
            r == self@.is_unmapped,
    {
        self.is_unmapped
    }

    /// The release event, if one was created. Its queue is never the queue
    /// that mapped the region.
    pub fn get_unmap_event(&self) -> (r: Option<UserEvent>)
        ensures
            r == self@.unmap_event,
            self@.wf(),
    {
        proof {
            use_type_invariant(self);
        }
        self.unmap_event
    }

    /// The queue set aside for the release, if there is a release event. It
    /// is never the queue that mapped the region.
    pub fn unmap_queue(&self) -> (r: Option<CommandQueue>)
        ensures
            r == self@.unmap_queue,
            r matches Some(uq) ==> uq.ptr != self@.queue.ptr,
            self@.wf(),
    {
        proof {
            use_type_invariant(self);
        }
        self.unmap_queue
    }

    /// Ends the host's access to the region and returns the unmap command
    /// for the caller to submit: see [`MappedMemView::unmap`]. The command
    /// goes to the queue that the caller names, or else to the queue set
    /// aside for the release; never to the queue that mapped the region,
    /// which would wait for what it has not been asked to do yet. A region
    /// is unmapped once. A call that fails changes nothing.
    pub fn unmap(&mut self, queue: Option<&CommandQueue>) -> (r: Result<UnmapOrder, Error>)
        ensures
            old(self)@.wf(),
            crate::error::result_view(r) == old(self)@.unmap(
                match queue {
                    Some(q) => Some(*q),
                    None => None,
                },
            ),
            r matches Ok(order) ==> order.queue.ptr != old(self)@.queue.ptr,
            final(self)@ == if r is Ok {
                MappedMemView { is_unmapped: true, ..old(self)@ }
            } else {
                old(self)@
            },
    {
        proof {
            use_type_invariant(&*self);
        }
        if self.is_unmapped {
            return Err(Error::ResourceExhausted);
        }
        let chosen: Option<CommandQueue> = match queue {
            Some(q) => Some(*q),
            None => self.unmap_queue,
        };
        match chosen {
            None => Err(
                Error::message(
                    "MappedMem::unmap: No queue is set aside for the release and none is named.",
                ),
            ),
            Some(release) => {
                if release.ptr == self.queue.ptr {
                    Err(
                        Error::message(
                            "MappedMem::unmap: The release needs a queue other than the mapping queue.",
                        ),
                    )
                } else if release.ptr == 0 {
                    Err(Error::InvalidHandle)
                } else {
                    self.is_unmapped = true;
                    Ok(
                        UnmapOrder {
                            queue: release,
                            buffer: self.buffer,
                            mapped_ptr: self.ptr,
                            release_event: self.unmap_event,
                        },
                    )
                }
            },
        }
    }
}

/// How far a future has come.
#[derive(Clone, Copy, Debug, PartialEq, Eq, Structural)]
pub enum FutureState {
    /// Not resolved: the resources are held, the event has not failed.
    Pending,
    /// Resolved to a value: the resources have gone into it.
    Ready,
    /// Resolved to an error: the event has failed.
    Failed,
}

/// What a [`FutureMappedMem`] holds.
pub struct FutureMappedMemView {
    pub ptr: usize,
    pub len: usize,
    pub map_event: EventView,
    pub unmap_event: Option<UserEvent>,
    pub unmap_queue: Option<CommandQueue>,
    pub buffer: Option<Mem>,
    pub queue: Option<CommandQueue>,
    pub callback_is_set: bool,
    pub strategy: WakeStrategy,
}

/// An answer of a poll, in the terms of specifications.
pub enum PollView {
    Ready(MappedMemView),
    NotReady(WakeAction),
    Failed(ErrorView),
}

/// An answer of a poll, in the terms of specifications.
pub open spec fn poll_view(r: Result<Async<MappedMem>, Error>) -> PollView {
    match r {
        Ok(Async::Ready(mm)) => PollView::Ready(mm@),
        Ok(Async::NotReady(action)) => PollView::NotReady(action),
        Err(e) => PollView::Failed(e@),
    }
}

impl FutureMappedMemView {
    /// What holds of every future: it holds its buffer and its queue both
    /// or neither; it has given them away only after its event completed;
    /// and a release event comes with a queue of its own, which is not the
    /// queue of the map command.
    pub open spec fn wf(self) -> bool {
        &&& self.buffer is Some <==> self.queue is Some
        &&& self.buffer is None ==> self.map_event.status is Complete
        &&& self.unmap_event is Some <==> self.unmap_queue is Some
        &&& self.unmap_queue matches Some(uq) ==> (self.queue matches Some(q) && uq.ptr != q.ptr)
    }

    /// How far the future has come.
    pub open spec fn state(self) -> FutureState {
        if self.buffer is None {
            FutureState::Ready
        } else if self.map_event.status is Error {
            FutureState::Failed
        } else {
            FutureState::Pending
        }
    }

    /// The region that the future resolves to.
    pub open spec fn materialized(self) -> MappedMemView
        recommends
            self.buffer is Some,
            self.queue is Some,
    {
        MappedMemView {
            ptr: self.ptr,
            len: self.len,
            unmap_event: self.unmap_event,
            unmap_queue: self.unmap_queue,
            buffer: self.buffer->0,
            queue: self.queue->0,
            is_unmapped: false,
        }
    }

    /// The future after it has given its resources away.
    pub open spec fn emptied(self) -> FutureMappedMemView {
        FutureMappedMemView {
            unmap_event: None,
            unmap_queue: None,
            buffer: None,
            queue: None,
            callback_is_set: false,
            ..self
        }
    }

    /// The future after its event was seen with `status`.
    pub open spec fn seen(self, status: EventStatus) -> FutureMappedMemView {
        FutureMappedMemView {
            map_event: EventView { status: self.map_event.status.spec_merge(status), ..self.map_event },
            ..self
        }
    }
}

/// What turning a future into its region gives, and what is left of the
/// future.
pub open spec fn spec_to_mapped_mem(v: FutureMappedMemView) -> (
    FutureMappedMemView,
    Result<MappedMemView, ErrorView>,
) {
    match v.map_event.status {
        EventStatus::Pending => (
            v,
            Err(ErrorView::Message("FutureMappedMem::to_mapped_mem: The map is not complete."@)),
        ),
        EventStatus::Error(code) => (
            v,
            Err(spec_api_error("FutureMappedMem::to_mapped_mem"@, code as int)),
        ),
        EventStatus::Complete => if v.buffer is Some && v.queue is Some {
            (v.emptied(), Ok(v.materialized()))
        } else {
            (v, Err(ErrorView::ResourceExhausted))
        },
    }
}

/// Whether a wake callback has to be taken off the event before the future
/// is polled with the answer `errcode`, `status_int` to the status query:
/// where the query succeeded, the map is then known to be complete, and a
/// callback counts as registered.
pub open spec fn spec_callback_to_unset(v: FutureMappedMemView, errcode: int, status_int: int) -> bool {
    &&& errcode == 0
    &&& v.callback_is_set
    &&& v.seen(EventStatus::spec_from_raw(status_int)).map_event.status is Complete
}

/// What a poll answers, and what is left of the future, when the query of
/// the event's status answered with `errcode` and the raw status
/// `status_int`.
///
/// A query that failed changes nothing and its error is the answer. Else the
/// status is recorded, and by it: a completed map is turned into its region,
/// once, and a poll after that changes nothing and answers
/// `ResourceExhausted`; a failed one answers with the device's error, at
/// every poll, and gives nothing away; a pending one answers "not ready"
/// with the way to be woken, and counts a callback as registered from then
/// on.
pub open spec fn spec_poll(v: FutureMappedMemView, errcode: int, status_int: int) -> (
    FutureMappedMemView,
    PollView,
) {
    if errcode != 0 {
        (v, PollView::Failed(spec_api_error("clGetEventInfo"@, errcode)))
    } else {
        let seen = v.seen(EventStatus::spec_from_raw(status_int));
        match seen.map_event.status {
            EventStatus::Complete => if seen.buffer is Some && seen.queue is Some {
                (seen.emptied(), PollView::Ready(seen.materialized()))
            } else {
                (seen, PollView::Failed(ErrorView::ResourceExhausted))
            },
            EventStatus::Error(code) => (
                seen,
                PollView::Failed(spec_api_error("FutureMappedMem::poll"@, code as int)),
            ),
            EventStatus::Pending => (
                FutureMappedMemView {
                    callback_is_set: seen.strategy is Callback,
                    ..seen
                },
                PollView::NotReady(spec_wake_action(seen.strategy, seen.callback_is_set)),
            ),
        }
    }
}

/// The context to create a release event in, or the reason why the future
/// can have none on the given queue.
pub open spec fn spec_unmap_event_context(v: FutureMappedMemView, unmap_queue: CommandQueue) -> Result<
    Context,
    ErrorView,
> {
    match v.queue {
        None => Err(ErrorView::ResourceExhausted),
        Some(queue) => if queue.ptr == unmap_queue.ptr {
            Err(
                ErrorView::Message(
                    "FutureMappedMem::create_unmap_event: The release event needs a queue other than the mapping queue."@,
                ),
            )
        } else if unmap_queue.ptr == 0 || unmap_queue.context.ptr == 0 {
            Err(ErrorView::InvalidHandle)
        } else {
            Ok(unmap_queue.context)
        },
    }
}

/// A map of device memory that has been submitted and may not have run yet.
/// It owns the buffer and the queue of the map command until it resolves to
/// the mapped region, which takes them over.
#[derive(Debug)]
pub struct FutureMappedMem {
    ptr: usize,
    len: usize,
    map_event: Event,
    unmap_event: Option<UserEvent>,
    unmap_queue: Option<CommandQueue>,
    buffer: Option<Mem>,
    queue: Option<CommandQueue>,
    callback_is_set: bool,
    strategy: WakeStrategy,
}

impl View for FutureMappedMem {
    type V = FutureMappedMemView;

    closed spec fn view(&self) -> FutureMappedMemView {
        FutureMappedMemView {
            ptr: self.ptr,
            len: self.len,
            map_event: self.map_event@,
            unmap_event: self.unmap_event,
            unmap_queue: self.unmap_queue,
            buffer: self.buffer,
            queue: self.queue,
            callback_is_set: self.callback_is_set,
            strategy: self.strategy,
        }
    }
}

impl FutureMappedMem {
    #[verifier::type_invariant]
    closed spec fn inv(self) -> bool {
        self@.wf()
    }

    /// The view of a future that has just been made.
    pub open spec fn fresh_view(
        ptr: usize,
        len: usize,
        map_event: Event,
        buffer: Mem,
        queue: CommandQueue,
        strategy: WakeStrategy,
    ) -> FutureMappedMemView {
        FutureMappedMemView {
            ptr,
            len,
            map_event: map_event@,
            unmap_event: None,
            unmap_queue: None,
            buffer: Some(buffer),
            queue: Some(queue),
            callback_is_set: false,
            strategy,
        }
    }

    /// The future of a map of `len` elements of `buffer` to the address
    /// `ptr`, submitted to `queue` and signalled by `map_event`. It is woken
    /// by being polled again.
    pub fn new(ptr: usize, len: usize, map_event: Event, buffer: Mem, queue: CommandQueue) -> (f:
        FutureMappedMem)
        ensures
            f@ == FutureMappedMem::fresh_view(
                ptr,
                len,
                map_event,
                buffer,
                queue,
                WakeStrategy::Polling,
            ),
            f@.wf(),
    {
        FutureMappedMem::with_strategy(ptr, len, map_event, buffer, queue, WakeStrategy::Polling)
    }

    /// As [`FutureMappedMem::new`], with the way of waking chosen by the
    /// caller. The choice holds for the life of the future.
    pub fn with_strategy(
        ptr: usize,
        len: usize,
        map_event: Event,
        buffer: Mem,
        queue: CommandQueue,
        strategy: WakeStrategy,
    ) -> (f: FutureMappedMem)
        ensures
            f@ == FutureMappedMem::fresh_view(ptr, len, map_event, buffer, queue, strategy),
            f@.wf(),
    {
        FutureMappedMem {
            ptr,
            len,
            map_event,
            unmap_event: None,
            unmap_queue: None,
            buffer: Some(buffer),
            queue: Some(queue),
            callback_is_set: false,
            strategy,
        }
    }

    /// The event of the map command, with the last status seen.
    pub fn map_event(&self) -> (e: Event)
        ensures
            e@ == self@.map_event,
    {
        self.map_event
    }

    /// Whether a wake callback counts as registered.
    pub fn callback_is_set(&self) -> (r: bool)
        ensures
            r == self@.callback_is_set,
    {
        self.callback_is_set
    }

    /// The way this future is woken.
    pub fn strategy(&self) -> (r: WakeStrategy)
        ensures
            r == self@.strategy,
    {
        self.strategy
    }

    /// How far the future has come.
    pub fn state(&self) -> (r: FutureState)
        ensures
            r == self@.state(),
            self@.wf(),
    {
        proof {
            use_type_invariant(self);
        }
        if self.buffer.is_none() {
            FutureState::Ready
        } else {
            match self.map_event.status() {
                EventStatus::Error(_) => FutureState::Failed,
                _ => FutureState::Pending,
            }
        }
    }

    /// The context in which the caller has to create the release event for
    /// `unmap_queue`, before it hands the event to
    /// [`FutureMappedMem::create_unmap_event`].
    ///
    /// The queue of a release must not be the queue of the map command: a
    /// queue that works in order would wait for an event that it has not
    /// been asked to produce yet.
    pub fn unmap_event_context(&self, unmap_queue: &CommandQueue) -> (r: Result<Context, Error>)
        ensures
            crate::error::result_view(r) == spec_unmap_event_context(self@, *unmap_queue),
    {
        match self.queue {
            None => Err(Error::ResourceExhausted),
            Some(queue) => if queue.ptr == unmap_queue.ptr {
                Err(
                    Error::message(
                        "FutureMappedMem::create_unmap_event: The release event needs a queue other than the mapping queue.",
                    ),
                )
            } else if unmap_queue.ptr == 0 || unmap_queue.context.ptr == 0 {
                Err(Error::InvalidHandle)
            } else {
                Ok(unmap_queue.context)
            },
        }
    }

    /// Gives the future its release event: the user event with handle
    /// `event_ptr`, created in the context of `unmap_queue`, to complete
    /// when the region has been unmapped on that queue. An earlier release
    /// event is replaced.
    ///
    /// Fails, and changes nothing, where
    /// [`FutureMappedMem::unmap_event_context`] fails, with its error; and
    /// with `InvalidHandle` for a null `event_ptr`.
    pub fn create_unmap_event(&mut self, unmap_queue: &CommandQueue, event_ptr: usize) -> (r:
        Result<UserEvent, Error>)
        ensures
            old(self)@.wf(),
            final(self)@.wf(),
            match r {
                Ok(uev) => {
                    &&& spec_unmap_event_context(old(self)@, *unmap_queue) is Ok
                    &&& event_ptr != 0
                    &&& uev@ == (EventView {
                        ptr: event_ptr,
                        origin: crate::event::EventOrigin::User,
                        status: EventStatus::Pending,
                    })
                    &&& uev.spec_context() == unmap_queue.context
                    &&& final(self)@ == (FutureMappedMemView {
                        unmap_event: Some(uev),
                        unmap_queue: Some(*unmap_queue),
                        ..old(self)@
                    })
                    &&& old(self)@.queue matches Some(q) && q.ptr != unmap_queue.ptr
                },
                Err(e) => {
                    &&& match spec_unmap_event_context(old(self)@, *unmap_queue) {
                        Err(why) => e@ == why,
                        Ok(_) => event_ptr == 0 && e@ == ErrorView::InvalidHandle,
                    }
                    &&& final(self)@ == old(self)@
                },
            },
    {
        proof {
            use_type_invariant(&*self);
        }
        let context = match self.unmap_event_context(unmap_queue) {
            Ok(context) => context,
            Err(e) => {
                return Err(e);
            },
        };
        match UserEvent::new(&context, event_ptr) {
            Ok(uev) => {
                *self = FutureMappedMem {
                    ptr: self.ptr,
                    len: self.len,
                    map_event: self.map_event,
                    unmap_event: Some(uev),
                    unmap_queue: Some(*unmap_queue),
                    buffer: self.buffer,
                    queue: self.queue,
                    callback_is_set: self.callback_is_set,
                    strategy: self.strategy,
                };
                Ok(uev)
            },
            Err(e) => Err(e),
        }
    }

    /// Returns the unmap event if it has been created.
    pub fn get_unmap_event(&self) -> (r: Option<&UserEvent>)
        ensures
            match r {
                Some(uev) => self@.unmap_event == Some(*uev),
                None => self@.unmap_event is None,
            },
    {
        self.unmap_event.as_ref()
    }

    /// The queue set aside for the release, if a release event has been
    /// created. It is never the queue of the map command.
    pub fn unmap_queue(&self) -> (r: Option<CommandQueue>)
        ensures
            r == self@.unmap_queue,
            self@.wf(),
    {
        proof {
            use_type_invariant(self);
        }
        self.unmap_queue
    }

    /// Turns the future into the mapped region, which takes over the buffer,
    /// the queue and the release event. This happens once, and only for a
    /// map that is known to be complete; in every other case the future
    /// keeps what it has and the call fails: with a note while the map is
    /// pending, with the device's error once it has failed, and with
    /// `ResourceExhausted` when the region has been handed out before.
    pub fn to_mapped_mem(&mut self) -> (r: Result<MappedMem, Error>)
        ensures
            old(self)@.wf(),
            final(self)@.wf(),
            (final(self)@, match r {
                Ok(mm) => Ok(mm@),
                Err(e) => Err(e@),
            }) == spec_to_mapped_mem(old(self)@),
            r matches Ok(mm) ==> mm@.wf(),
    {
        proof {
            use_type_invariant(&*self);
        }
        match self.map_event.status() {
            EventStatus::Pending => Err(
                Error::message("FutureMappedMem::to_mapped_mem: The map is not complete."),
            ),
            EventStatus::Error(code) => Err(api_error("FutureMappedMem::to_mapped_mem", code)),
            EventStatus::Complete => match (self.buffer, self.queue) {
                (Some(buffer), Some(queue)) => {
                    let mm = MappedMem {
                        ptr: self.ptr,
                        len: self.len,
                        unmap_event: self.unmap_event,
                        unmap_queue: self.unmap_queue,
                        buffer,
                        queue,
                        is_unmapped: false,
                    };
                    *self = FutureMappedMem {
                        ptr: self.ptr,
                        len: self.len,
                        map_event: self.map_event,
                        unmap_event: None,
                        unmap_queue: None,
                        buffer: None,
                        queue: None,
                        callback_is_set: false,
                        strategy: self.strategy,
                    };
                    Ok(mm)
                },
                _ => Err(Error::ResourceExhausted),
            },
        }
    }

    /// Whether the caller has to take its wake callback off the event before
    /// it polls with this answer to the status query: it has to where the
    /// query succeeded, the map is now known to be complete, and a callback
    /// counts as registered. If taking it off fails, the caller does not
    /// poll, and the future stays as it is.
    pub fn callback_to_unset(&self, errcode: i32, status_int: i32) -> (r: bool)
        ensures
            r == spec_callback_to_unset(self@, errcode as int, status_int as int),
    {
        if errcode != 0 || !self.callback_is_set {
            return false;
        }
        match self.map_event.status().merge(EventStatus::from_raw(status_int)) {
            EventStatus::Complete => true,
            _ => false,
        }
    }

    /// Polls the future with the answer to a query of its event's status:
    /// the code that the query itself answered with, and the raw status that
    /// it wrote. See [`spec_poll`] for what is answered in each case.
    ///
    /// Before it polls with an answer of which
    /// [`FutureMappedMem::callback_to_unset`] says so, the caller takes its
    /// callback off the event; the poll then counts no callback any more.
    pub fn poll(&mut self, errcode: i32, status_int: i32) -> (r: Result<Async<MappedMem>, Error>)
        ensures
            old(self)@.wf(),
            final(self)@.wf(),
            (final(self)@, poll_view(r)) == spec_poll(
                old(self)@,
                errcode as int,
                status_int as int,
            ),
            r matches Ok(Async::Ready(mm)) ==> mm@.wf(),
    {
        proof {
            use_type_invariant(&*self);
        }
        let mut event = self.map_event;
        let status = match event.observe(errcode, status_int) {
            Ok(status) => status,
            Err(e) => {
                return Err(e);
            },
        };
        self.map_event = event;
        match status {
            EventStatus::Complete => match self.to_mapped_mem() {
                Ok(mm) => Ok(Async::Ready(mm)),
                Err(e) => Err(e),
            },
            EventStatus::Error(code) => Err(api_error("FutureMappedMem::poll", code)),
            EventStatus::Pending => {
                let action = wake_action(self.strategy, self.callback_is_set);
                self.callback_is_set = match self.strategy {
                    WakeStrategy::Callback => true,
                    WakeStrategy::Polling => false,
                };
                Ok(Async::NotReady(action))
            },
        }
    }

    /// Takes back the registration of the wake callback: after the caller
    /// failed to register it, or when the future is given up. Returns
    /// whether a callback counted as registered; if so, the caller takes it
    /// off the event as far as the device allows.
    pub fn disarm(&mut self) -> (was_set: bool)
        ensures
            was_set == old(self)@.callback_is_set,
            final(self)@ == (FutureMappedMemView { callback_is_set: false, ..old(self)@ }),
    {
        proof {
            use_type_invariant(&*self);
        }
        let was_set = self.callback_is_set;
        self.callback_is_set = false;
        was_set
    }
}

/// Whether a future has resolved: its region has been handed out, or its
/// event has failed.
pub open spec fn resolved(v: FutureMappedMemView) -> bool {
    v.state() != FutureState::Pending
}

/// While the event is incomplete, a poll answers "not ready", keeps every
/// resource, and leaves the future pending. With the callback strategy the
/// answer asks for the callback exactly when none is registered, and one
/// counts as registered afterwards: whatever is polled next, a second
/// callback is never asked for. With the polling strategy the answer is
/// always to yield, and no callback is ever counted.
pub proof fn lemma_pending_poll_arms_once(v: FutureMappedMemView, status_int: int, next: int)
    requires
        v.wf(),
        v.map_event.status is Pending,
        status_int > 0,
    ensures
        ({
            let (after, answer) = spec_poll(v, 0, status_int);
            let (_, second) = spec_poll(after, 0, next);
            &&& answer == PollView::NotReady(spec_wake_action(v.strategy, v.callback_is_set))
            &&& after == (FutureMappedMemView { callback_is_set: v.strategy is Callback, ..v })
            &&& after.wf()
            &&& after.state() == v.state()
            &&& (answer == PollView::NotReady(WakeAction::SetCallback)) <==> (v.strategy is Callback
                && !v.callback_is_set)
            &&& second != PollView::NotReady(WakeAction::SetCallback)
            &&& v.strategy is Polling ==> answer == PollView::NotReady(WakeAction::Yield)
                && !after.callback_is_set
        }),
{
}

/// A future that still holds its resources resolves to its region on the
/// poll that sees the event complete; the region takes over the buffer, the
/// queue and the release event, and obeys the rule of release.
pub proof fn lemma_complete_resolves_ready(v: FutureMappedMemView)
    requires
        v.wf(),
        v.state() == FutureState::Pending,
    ensures
        ({
            let (after, answer) = spec_poll(v, 0, 0);
            &&& answer == PollView::Ready(v.materialized())
            &&& v.materialized().wf()
            &&& after.state() == FutureState::Ready
            &&& after.buffer is None && after.queue is None && after.unmap_event is None
            &&& after.wf()
        }),
{
}

/// A poll that sees the event fail answers with the device's error, hands
/// out nothing and leaves the future failed, with its resources.
pub proof fn lemma_error_resolves_failed(v: FutureMappedMemView, code: int)
    requires
        v.wf(),
        v.state() == FutureState::Pending,
        v.map_event.status is Pending,
        i32::MIN <= code < 0,
    ensures
        ({
            let (after, answer) = spec_poll(v, 0, code);
            &&& answer == PollView::Failed(spec_api_error("FutureMappedMem::poll"@, code))
            &&& after.state() == FutureState::Failed
            &&& after.buffer == v.buffer && after.queue == v.queue
            &&& after.wf()
        }),
{
}

/// The callback is taken off exactly before the poll that hands out the
/// region of a future that counts one as registered: a poll that answers
/// with a region of such a future is one before which the callback was to be
/// taken off, and after it no callback counts as registered.
pub proof fn lemma_callback_taken_off_before_ready(
    v: FutureMappedMemView,
    errcode: int,
    status_int: int,
)
    requires
        v.wf(),
    ensures
        ({
            let (after, answer) = spec_poll(v, errcode, status_int);
            &&& answer is Ready ==> !after.callback_is_set
            &&& answer is Ready && v.callback_is_set ==> spec_callback_to_unset(
                v,
                errcode,
                status_int,
            )
            &&& spec_callback_to_unset(v, errcode, status_int) && v.buffer is Some ==> answer
                is Ready
            &&& spec_callback_to_unset(v, errcode, status_int) ==> !(answer is NotReady)
        }),
{
}

/// Resolution is final. A poll answers with a region only if the future was
/// pending before; and once a future has resolved, to a region or to an
/// error, it stays in that state and no poll answers with a region again,
/// whatever the device reports. So a future hands out its region at most
/// once, and a failed one never does.
pub proof fn lemma_resolution_is_final(v: FutureMappedMemView, errcode: int, status_int: int)
    requires
        v.wf(),
    ensures
        ({
            let (after, answer) = spec_poll(v, errcode, status_int);
            &&& after.wf()
            &&& answer is Ready ==> v.state() == FutureState::Pending && after.state()
                == FutureState::Ready
            &&& resolved(v) ==> after.state() == v.state() && !(answer is Ready)
        }),
{
}

} // verus!
