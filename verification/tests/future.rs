use ocl::bridge::{callback_in_order, unpark_task, wake_action, WakeAction, WakeStrategy};
use ocl::error::Error;
use ocl::event::{Event, EventList, UserEvent};
use ocl::handle::{CommandQueue, Context, Mem};
use ocl::mapped_mem::{
    Async, EventListTrigger, EventTrigger, FutureMappedMem, FutureState, MappedMem,
};
use ocl::status::EventStatus;

fn queue(ptr: usize) -> CommandQueue {
    CommandQueue::from_fresh_ptr(ptr, Context::from_fresh_ptr(0xc0))
}

fn future(strategy: WakeStrategy) -> FutureMappedMem {
    FutureMappedMem::with_strategy(
        0xdead0000,
        1 << 20,
        Event::from_fresh_ptr(0xe1),
        Mem::from_fresh_ptr(0xb1),
        queue(0x91),
        strategy,
    )
}

fn ready(r: Result<Async<MappedMem>, Error>) -> MappedMem {
    match r {
        Ok(Async::Ready(mm)) => mm,
        other => panic!("not ready: {:?}", other),
    }
}

fn not_ready(r: Result<Async<MappedMem>, Error>) -> WakeAction {
    match r {
        Ok(Async::NotReady(action)) => action,
        other => panic!("not pending: {:?}", other),
    }
}

#[test]
fn callback_in_order_hands_back_the_token() {
    assert!(callback_in_order(0, true));
    assert_eq!(unpark_task(0, Some(String::from("task"))), String::from("task"));
    assert_eq!(unpark_task(0, Some(17u8)), 17u8);
}

#[test]
fn callback_misuse_is_fatal() {
    for status in [1, 2, 3, -1, -5, 4, i32::MIN, i32::MAX] {
        assert!(!callback_in_order(status, true));
        assert!(!callback_in_order(status, false));
    }
    assert!(!callback_in_order(0, false));
    assert!(Error::CallbackMisuse.is_fatal());
    assert_eq!(
        Error::CallbackMisuse.description(),
        "Wake up user data is null or event is not complete."
    );
}

#[test]
fn wake_actions() {
    assert_eq!(wake_action(WakeStrategy::Callback, false), WakeAction::SetCallback);
    assert_eq!(wake_action(WakeStrategy::Callback, true), WakeAction::Wait);
    assert_eq!(wake_action(WakeStrategy::Polling, false), WakeAction::Yield);
    assert_eq!(wake_action(WakeStrategy::Polling, true), WakeAction::Yield);
}

#[test]
fn triggers_start_without_callback() {
    let ctx = Context::from_fresh_ptr(0xc0);
    let uev = UserEvent::new(&ctx, 0x70).unwrap();
    let t = EventTrigger::new(Event::from_fresh_ptr(0x71), uev);
    assert!(!t.callback_is_set);
    assert_eq!(t.wait_event, Event::from_fresh_ptr(0x71));
    assert_eq!(t.completion_event, uev);
    let mut list = EventList::new();
    list.push(Event::from_fresh_ptr(0x72));
    let lt = EventListTrigger::new(list.clone(), uev);
    assert!(!lt.callback_is_set);
    assert_eq!(lt.wait_events, list);
}

#[test]
fn new_future_polls_by_yielding() {
    let mut f = FutureMappedMem::new(
        0x1000,
        16,
        Event::from_fresh_ptr(0xe1),
        Mem::from_fresh_ptr(0xb1),
        queue(0x91),
    );
    assert_eq!(f.strategy(), WakeStrategy::Polling);
    assert_eq!(f.state(), FutureState::Pending);
    assert_eq!(not_ready(f.poll(0, 3)), WakeAction::Yield);
    assert_eq!(not_ready(f.poll(0, 1)), WakeAction::Yield);
    assert!(!f.callback_is_set());
    assert_eq!(f.state(), FutureState::Pending);
}

#[test]
fn pending_poll_arms_one_callback() {
    let mut f = future(WakeStrategy::Callback);
    assert!(!f.callback_is_set());
    assert_eq!(not_ready(f.poll(0, 3)), WakeAction::SetCallback);
    assert!(f.callback_is_set());
    for raw in [3, 2, 1, 1] {
        assert_eq!(not_ready(f.poll(0, raw)), WakeAction::Wait);
        assert!(f.callback_is_set());
        assert_eq!(f.state(), FutureState::Pending);
    }
}

#[test]
fn disarm_allows_a_new_callback() {
    let mut f = future(WakeStrategy::Callback);
    assert!(!f.disarm());
    assert_eq!(not_ready(f.poll(0, 2)), WakeAction::SetCallback);
    assert!(f.disarm());
    assert!(!f.callback_is_set());
    assert_eq!(not_ready(f.poll(0, 2)), WakeAction::SetCallback);
}

#[test]
fn complete_resolves_ready_exactly_once() {
    let mut f = future(WakeStrategy::Callback);
    assert_eq!(not_ready(f.poll(0, 1)), WakeAction::SetCallback);
    let mm = ready(f.poll(0, 0));
    assert_eq!(mm.as_ptr(), 0xdead0000);
    assert_eq!(mm.len(), 1 << 20);
    assert_eq!(mm.buffer(), Mem::from_fresh_ptr(0xb1));
    assert_eq!(mm.queue(), queue(0x91));
    assert_eq!(mm.get_unmap_event(), None);
    assert!(!mm.is_unmapped());
    assert_eq!(f.state(), FutureState::Ready);
    assert!(!f.callback_is_set());
    // whatever the device says afterwards, there is no second region
    for raw in [0, 1, 3, -5] {
        assert_eq!(f.poll(0, raw).unwrap_err(), Error::ResourceExhausted);
        assert_eq!(f.state(), FutureState::Ready);
    }
    assert_eq!(f.to_mapped_mem().unwrap_err(), Error::ResourceExhausted);
}

#[test]
fn error_resolves_failed_and_never_materializes() {
    let mut f = future(WakeStrategy::Polling);
    let err = f.poll(0, -5).unwrap_err();
    assert_eq!(err.api_code(), Some(-5));
    assert_eq!(
        err.description(),
        " { OPENCL ERROR: \"FutureMappedMem::poll failed with code [-5]: CL_OUT_OF_RESOURCES\" } "
    );
    assert_eq!(f.state(), FutureState::Failed);
    assert_eq!(f.map_event().status(), EventStatus::Error(-5));
    for raw in [0, 1, -12] {
        assert_eq!(f.poll(0, raw).unwrap_err().api_code(), Some(-5));
        assert_eq!(f.state(), FutureState::Failed);
    }
    assert_eq!(f.to_mapped_mem().unwrap_err().api_code(), Some(-5));
}

#[test]
fn failed_query_changes_nothing() {
    let mut f = future(WakeStrategy::Callback);
    let err = f.poll(-58, 0).unwrap_err();
    assert_eq!(
        err.description(),
        " { OPENCL ERROR: \"clGetEventInfo failed with code [-58]: CL_INVALID_EVENT\" } "
    );
    assert_eq!(f.state(), FutureState::Pending);
    assert!(!f.callback_is_set());
    assert_eq!(f.map_event().status(), EventStatus::Pending);
    let _ = ready(f.poll(0, 0));
}

#[test]
fn to_mapped_mem_waits_for_completion() {
    let mut f = future(WakeStrategy::Polling);
    assert_eq!(
        f.to_mapped_mem().unwrap_err(),
        Error::message("FutureMappedMem::to_mapped_mem: The map is not complete.")
    );
    assert_eq!(f.state(), FutureState::Pending);
}

#[test]
fn release_event_needs_another_queue() {
    let mut f = future(WakeStrategy::Polling);
    assert!(f.get_unmap_event().is_none());
    assert_eq!(
        f.create_unmap_event(&queue(0x91), 0x80).unwrap_err(),
        Error::message(
            "FutureMappedMem::create_unmap_event: The release event needs a queue other than the mapping queue."
        )
    );
    assert!(f.get_unmap_event().is_none());
    assert_eq!(f.unmap_queue(), None);
    assert_eq!(f.create_unmap_event(&queue(0x92), 0).unwrap_err(), Error::InvalidHandle);
    assert_eq!(f.create_unmap_event(&queue(0), 0x80).unwrap_err(), Error::InvalidHandle);
    assert_eq!(
        f.create_unmap_event(&CommandQueue::from_fresh_ptr(0x92, Context::from_fresh_ptr(0)), 0x80)
            .unwrap_err(),
        Error::InvalidHandle
    );
    assert_eq!(f.unmap_event_context(&queue(0x92)), Ok(Context::from_fresh_ptr(0xc0)));
    let uev = f.create_unmap_event(&queue(0x92), 0x80).unwrap();
    assert_eq!(uev.as_ptr(), 0x80);
    assert_eq!(f.get_unmap_event(), Some(&uev));
    assert_eq!(f.unmap_queue(), Some(queue(0x92)));
}

#[test]
fn region_is_released_on_its_own_queue() {
    for release in [0x92usize, 0x93, 0x1, usize::MAX] {
        let mut f = future(WakeStrategy::Callback);
        let uev = f.create_unmap_event(&queue(release), 0x80).unwrap();
        let mut mm = ready(f.poll(0, 0));
        assert_eq!(mm.get_unmap_event(), Some(uev));
        assert_eq!(mm.unmap_queue(), Some(queue(release)));
        assert!(f.get_unmap_event().is_none());
        let order = mm.unmap(None).unwrap();
        assert_ne!(order.queue.as_ptr(), mm.queue().as_ptr());
        assert_eq!(order.queue, queue(release));
        assert_eq!(order.buffer, Mem::from_fresh_ptr(0xb1));
        assert_eq!(order.mapped_ptr, 0xdead0000);
        assert_eq!(order.release_event, Some(uev));
        assert!(mm.is_unmapped());
        assert_eq!(mm.unmap(None).unwrap_err(), Error::ResourceExhausted);
        assert_eq!(mm.unmap(Some(&queue(0x99))).unwrap_err(), Error::ResourceExhausted);
    }
}

#[test]
fn unmap_never_uses_the_mapping_queue() {
    let mut f = future(WakeStrategy::Polling);
    let mut mm = ready(f.poll(0, 0));
    assert_eq!(
        mm.unmap(None).unwrap_err(),
        Error::message("MappedMem::unmap: No queue is set aside for the release and none is named.")
    );
    assert_eq!(
        mm.unmap(Some(&queue(0x91))).unwrap_err(),
        Error::message("MappedMem::unmap: The release needs a queue other than the mapping queue.")
    );
    assert_eq!(mm.unmap(Some(&queue(0))).unwrap_err(), Error::InvalidHandle);
    assert!(!mm.is_unmapped());
    let order = mm.unmap(Some(&queue(0x95))).unwrap();
    assert_eq!(order.queue, queue(0x95));
    assert_eq!(order.release_event, None);
    assert!(mm.is_unmapped());
}

#[test]
fn named_queue_goes_before_the_one_set_aside() {
    let mut f = future(WakeStrategy::Polling);
    let uev = f.create_unmap_event(&queue(0x92), 0x80).unwrap();
    let mut mm = ready(f.poll(0, 0));
    assert_eq!(
        mm.unmap(Some(&queue(0x91))).unwrap_err(),
        Error::message("MappedMem::unmap: The release needs a queue other than the mapping queue.")
    );
    let order = mm.unmap(Some(&queue(0x96))).unwrap();
    assert_eq!(order.queue, queue(0x96));
    assert_eq!(order.release_event, Some(uev));
}

#[test]
fn callback_is_taken_off_before_the_region_is_handed_out() {
    let mut f = future(WakeStrategy::Callback);
    assert!(!f.callback_to_unset(0, 0));
    assert_eq!(not_ready(f.poll(0, 2)), WakeAction::SetCallback);
    assert!(!f.callback_to_unset(0, 1));
    assert!(!f.callback_to_unset(0, -5));
    assert!(!f.callback_to_unset(-58, 0));
    assert!(f.callback_to_unset(0, 0));
    let _ = ready(f.poll(0, 0));
    assert!(!f.callback_is_set());
    assert!(!f.callback_to_unset(0, 0));
    let mut yielding = future(WakeStrategy::Polling);
    assert_eq!(not_ready(yielding.poll(0, 2)), WakeAction::Yield);
    assert!(!yielding.callback_to_unset(0, 0));
}

#[test]
fn resolved_future_has_no_queue_for_a_release_event() {
    let mut f = future(WakeStrategy::Polling);
    let _ = ready(f.poll(0, 0));
    assert_eq!(f.create_unmap_event(&queue(0x92), 0x80).unwrap_err(), Error::ResourceExhausted);
    assert_eq!(f.unmap_event_context(&queue(0x92)), Err(Error::ResourceExhausted));
}
