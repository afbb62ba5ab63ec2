use ocl::error::Error;
use ocl::rw_vec::{Access, RwVec};

#[test]
fn five_readers_share() {
    let mut v = RwVec::new(vec![1i32, 2, 3]);
    let mut tickets = Vec::new();
    for _ in 0..5 {
        tickets.push(v.request_read().unwrap());
    }
    assert_eq!(tickets, vec![0, 1, 2, 3, 4]);
    for t in &tickets {
        assert!(v.poll(*t));
        assert!(v.holds_read(*t));
        assert_eq!(v.read(*t).unwrap(), &vec![1, 2, 3]);
    }
    assert_eq!(v.reader_count(), 5);
    assert!(!v.is_write_locked());
    assert_eq!(v.pending_count(), 0);
}

#[test]
fn writer_waits_for_all_readers() {
    let mut v = RwVec::new(vec![0u8; 4]);
    let readers: Vec<u64> = (0..5).map(|_| v.request_read().unwrap()).collect();
    let writer = v.request_write().unwrap();
    assert!(!v.poll(writer));
    assert_eq!(v.pending_count(), 1);
    for (n, r) in readers.iter().enumerate() {
        assert!(!v.poll(writer));
        assert!(v.poll(*r));
        v.release(*r);
        assert!(!v.poll(*r));
        assert_eq!(v.reader_count(), if n < 4 { 4 - n } else { 0 });
    }
    assert!(v.poll(writer));
    assert!(v.holds_write(writer));
    assert!(v.is_write_locked());
    assert_eq!(v.reader_count(), 0);
}

#[test]
fn reader_waits_for_the_writer() {
    let mut v = RwVec::new(vec![7i32; 3]);
    let writer = v.request_write().unwrap();
    assert!(v.poll(writer));
    let reader = v.request_read().unwrap();
    let second_writer = v.request(Access::Write).unwrap();
    assert!(!v.poll(reader));
    assert!(!v.poll(second_writer));
    assert_eq!(v.read(reader).unwrap_err(), Error::InvalidHandle);
    assert_eq!(v.write(writer, vec![8, 8, 8]).unwrap(), vec![7, 7, 7]);
    assert!(!v.poll(reader));
    v.release(writer);
    assert!(v.poll(reader));
    assert!(!v.poll(second_writer));
    assert_eq!(v.read(reader).unwrap(), &vec![8, 8, 8]);
    v.release(reader);
    assert!(v.poll(second_writer));
}

#[test]
fn readers_behind_a_waiting_writer_wait_too() {
    let mut v = RwVec::new(vec![0i32]);
    let first = v.request_read().unwrap();
    let writer = v.request_write().unwrap();
    let late = v.request_read().unwrap();
    assert!(v.poll(first));
    assert!(!v.poll(writer));
    assert!(!v.poll(late));
    v.release(first);
    assert!(v.poll(writer));
    assert!(!v.poll(late));
    v.release(writer);
    assert!(v.poll(late));
}

#[test]
fn writing_needs_the_writers_permit() {
    let mut v = RwVec::new(vec![1i32, 2]);
    let reader = v.request_read().unwrap();
    assert_eq!(v.write(reader, vec![9]).unwrap_err(), Error::InvalidHandle);
    assert_eq!(v.write(42, vec![9]).unwrap_err(), Error::InvalidHandle);
    assert_eq!(v.read(reader).unwrap(), &vec![1, 2]);
    assert_eq!(v.len(), 2);
}

#[test]
fn a_waiting_request_can_be_withdrawn() {
    let mut v = RwVec::new(vec![0i32]);
    let reader = v.request_read().unwrap();
    let writer = v.request_write().unwrap();
    let late = v.request_read().unwrap();
    v.release(writer);
    assert_eq!(v.pending_count(), 0);
    assert!(v.poll(late));
    assert!(v.poll(reader));
    v.release(99);
    assert_eq!(v.reader_count(), 2);
}
