use ocl::error::Error;
use ocl::event::{
    get_event_status, into_raw_list, resolve_event_ptrs, wait_for_events, Event, EventList,
    EventOrigin, UserEvent,
};
use ocl::handle::Context;
use ocl::status::{CommandExecutionStatus, EventStatus};

fn list_of(ptrs: &[usize]) -> EventList {
    let mut list = EventList::new();
    for p in ptrs {
        list.push(Event::from_fresh_ptr(*p));
    }
    list
}

#[test]
fn empty_event_is_a_free_slot() {
    let e = Event::empty();
    assert!(e.is_null());
    assert_eq!(e.as_ptr(), 0);
    assert_eq!(e.status(), EventStatus::Pending);
    assert_eq!(e.origin(), EventOrigin::Hardware);
}

#[test]
fn event_status_moves_forward_only() {
    let mut e = Event::from_fresh_ptr(0x10);
    assert_eq!(e.is_complete(), Ok(false));
    e.report(EventStatus::Pending);
    assert_eq!(e.status(), EventStatus::Pending);
    e.report(EventStatus::Complete);
    assert_eq!(e.is_complete(), Ok(true));
    e.report(EventStatus::Pending);
    assert_eq!(e.status(), EventStatus::Complete);
    e.report(EventStatus::Error(-5));
    assert_eq!(e.status(), EventStatus::Complete);

    let mut f = Event::from_fresh_ptr(0x20);
    f.report(EventStatus::Error(-14));
    f.report(EventStatus::Complete);
    assert_eq!(f.status(), EventStatus::Error(-14));
    let err = f.is_complete().unwrap_err();
    assert_eq!(err.api_code(), Some(-14));
    assert_eq!(
        err.description(),
        " { OPENCL ERROR: \"Event::is_complete failed with code [-14]: CL_EXEC_STATUS_ERROR_FOR_EVENTS_IN_WAIT_LIST\" } "
    );
}

#[test]
fn observe_reads_the_query_answer() {
    let mut e = Event::from_fresh_ptr(0x10);
    assert_eq!(e.observe(0, 3), Ok(EventStatus::Pending));
    assert_eq!(e.observe(0, 1), Ok(EventStatus::Pending));
    let failed = e.observe(-58, 0).unwrap_err();
    assert_eq!(failed.api_code(), Some(-58));
    assert_eq!(e.status(), EventStatus::Pending);
    assert_eq!(e.observe(0, 0), Ok(EventStatus::Complete));
    assert_eq!(e.observe(0, 2), Ok(EventStatus::Complete));
}

#[test]
fn slot_gives_up_its_handle() {
    let mut e = Event::from_fresh_ptr(0x77);
    e.report(EventStatus::Complete);
    assert_eq!(e.ptr_mut_ptr_new(), Some(0x77));
    assert_eq!(e, Event::empty());
    assert_eq!(e.ptr_mut_ptr_new(), None);
}

#[test]
fn user_event_is_set_once() {
    let ctx = Context::from_fresh_ptr(0x1000);
    let mut uev = UserEvent::new(&ctx, 0x2000).unwrap();
    assert_eq!(uev.as_ptr(), 0x2000);
    assert_eq!(uev.context(), ctx);
    assert_eq!(uev.status(), EventStatus::Pending);
    assert_eq!(uev.event().origin(), EventOrigin::User);
    assert!(uev.set_status(EventStatus::Pending).is_err());
    assert!(uev.set_status(EventStatus::Error(3)).is_err());
    assert_eq!(uev.status(), EventStatus::Pending);
    assert_eq!(uev.set_status(EventStatus::Complete), Ok(0));
    assert_eq!(uev.status(), EventStatus::Complete);
    assert_eq!(
        uev.set_status(EventStatus::Error(-5)),
        Err(Error::message("The status of a user event is set once, to complete or to an error."))
    );
    assert_eq!(uev.status(), EventStatus::Complete);

    let mut failing = UserEvent::new(&ctx, 0x2001).unwrap();
    assert_eq!(failing.set_status(EventStatus::Error(-9)), Ok(-9));
    assert_eq!(failing.status(), EventStatus::Error(-9));
}

#[test]
fn user_event_needs_handles() {
    let ctx = Context::from_fresh_ptr(0x1000);
    assert_eq!(UserEvent::new(&ctx, 0), Err(Error::InvalidHandle));
    assert_eq!(UserEvent::new(&Context::from_fresh_ptr(0), 5), Err(Error::InvalidHandle));
}

#[test]
fn event_list_basics() {
    let mut list = EventList::new();
    assert!(list.is_empty());
    assert_eq!(list.last_clone(), None);
    list.push(Event::from_fresh_ptr(1));
    list.push(Event::from_fresh_ptr(2));
    assert_eq!(list.len(), 2);
    assert_eq!(list.get(0), Some(Event::from_fresh_ptr(1)));
    assert_eq!(list.get(2), None);
    assert_eq!(list.last_clone(), Some(Event::from_fresh_ptr(2)));
    assert_eq!(list.handles(), vec![1, 2]);
    list.clear();
    assert_eq!(list.len(), 0);
}

#[test]
fn raw_list_skips_absent_events() {
    let a = Event::from_fresh_ptr(0xa);
    let b = Event::from_fresh_ptr(0xb);
    let list = into_raw_list(&[None, Some(a), None, None, Some(b)]);
    assert_eq!(list.handles(), vec![0xa, 0xb]);
    assert_eq!(into_raw_list(&[]).len(), 0);
    assert_eq!(into_raw_list(&[None, None]).len(), 0);
}

#[test]
fn resolved_count_is_the_number_present() {
    // every pattern of presence among four optional events
    for mask in 0u32..16 {
        let mut events = Vec::new();
        let mut expected = Vec::new();
        for i in 0..4usize {
            if mask & (1 << i) != 0 {
                events.push(Some(Event::from_fresh_ptr(0x100 + i)));
                expected.push(0x100 + i);
            } else {
                events.push(None);
            }
        }
        let list = into_raw_list(&events);
        let resolved = resolve_event_ptrs(Some(&list), None).unwrap();
        assert_eq!(resolved.wait_list_len as usize, expected.len());
        assert_eq!(resolved.wait_list.is_none(), expected.is_empty());
        if !expected.is_empty() {
            assert_eq!(resolved.wait_list, Some(expected));
        }
        assert!(!resolved.new_event);
        assert_eq!(resolved.released, None);
    }
}

#[test]
fn no_list_and_empty_list_resolve_to_null() {
    let none = resolve_event_ptrs(None, None).unwrap();
    assert_eq!(none.wait_list_len, 0);
    assert_eq!(none.wait_list, None);
    let empty = EventList::new();
    let resolved = resolve_event_ptrs(Some(&empty), None).unwrap();
    assert_eq!(resolved.wait_list_len, 0);
    assert_eq!(resolved.wait_list, None);
}

#[test]
fn stale_event_is_an_invalid_handle() {
    let mut list = list_of(&[1, 2]);
    list.push(Event::empty());
    list.push(Event::from_fresh_ptr(4));
    let mut slot = Event::from_fresh_ptr(0x55);
    assert_eq!(resolve_event_ptrs(Some(&list), Some(&mut slot)), Err(Error::InvalidHandle));
    assert_eq!(slot, Event::from_fresh_ptr(0x55));
}

#[test]
fn new_event_slot_is_emptied() {
    let list = list_of(&[7]);
    let mut slot = Event::from_fresh_ptr(0x55);
    let resolved = resolve_event_ptrs(Some(&list), Some(&mut slot)).unwrap();
    assert!(resolved.new_event);
    assert_eq!(resolved.released, Some(0x55));
    assert_eq!(resolved.wait_list, Some(vec![7]));
    assert_eq!(slot, Event::empty());

    let mut fresh = Event::empty();
    let resolved = resolve_event_ptrs(None, Some(&mut fresh)).unwrap();
    assert!(resolved.new_event);
    assert_eq!(resolved.released, None);
}

#[test]
fn wait_for_first_events() {
    let list = list_of(&[3, 4, 5]);
    assert_eq!(wait_for_events(2, &list), vec![3, 4]);
    assert_eq!(wait_for_events(0, &list), Vec::<usize>::new());
    assert_eq!(wait_for_events(3, &list), vec![3, 4, 5]);
}

#[test]
fn event_status_query() {
    assert_eq!(get_event_status(0, 0), Ok(CommandExecutionStatus::Complete));
    assert_eq!(get_event_status(0, 3), Ok(CommandExecutionStatus::Queued));
    assert_eq!(
        get_event_status(0, -5),
        Err(Error::message("Error converting 'clGetEventInfo' status output."))
    );
    assert_eq!(
        get_event_status(0, 4),
        Err(Error::message("Error converting 'clGetEventInfo' status output."))
    );
    let err = get_event_status(-58, 0).unwrap_err();
    assert_eq!(
        err.description(),
        " { OPENCL ERROR: \"clGetEventInfo failed with code [-58]: CL_INVALID_EVENT\" } "
    );
}
