//! Handle and queue lifecycle: open, bind, registration, configuration,
//! and teardown, driven with simulated native results.

use libnfqueue::error::{error, ErrorReason};
use libnfqueue::handle::{
    recv_disposition, start_sized_length, Handle, ProtocolFamily, RecvOutcome,
};
use libnfqueue::message::Message;
use libnfqueue::queue::{CopyMode, Queue, Verdict, VerdictHandler};

struct CountingDecider {
    count: u64,
}

impl VerdictHandler for CountingDecider {
    // The abstract decision function exists only for verification; the
    // erased build never calls it.
    fn spec_decide(&self, _message: Message) -> (Verdict, Self) {
        unreachable!()
    }

    fn decide(&mut self, _message: &Message) -> Verdict {
        self.count += 1;
        Verdict::Accept
    }
}

fn open_handle() -> Handle {
    Handle::new(0x1000).unwrap()
}

fn registered_queue() -> Queue<CountingDecider> {
    let mut q = Queue::new(CountingDecider { count: 0 });
    q.register(1, 0x2000).unwrap();
    q
}

#[test]
fn test_handle_create_handle() {
    let _h = open_handle();
}

#[test]
fn test_handle_bind_unbind() {
    let mut h = open_handle();
    h.bind(ProtocolFamily::INET, 0).unwrap();
    h.unbind(ProtocolFamily::INET, 0).unwrap();
}

#[test]
fn test_queue_create_queue() {
    let mut h = open_handle();
    h.bind(ProtocolFamily::INET, 0).unwrap();
    let queue = registered_queue();
    assert!(queue.is_registered());
}

#[test]
fn test_queue_set_mode() {
    let mut h = open_handle();
    h.bind(ProtocolFamily::INET, 0).unwrap();
    let mut queue = registered_queue();
    queue.mode(CopyMode::Packet(1024), 0).unwrap();
}

#[test]
fn test_queue_set_maxlen() {
    let mut h = open_handle();
    h.bind(ProtocolFamily::INET, 0).unwrap();
    let mut queue = registered_queue();
    queue.maxlen(1024, 0).unwrap();
}

#[test]
fn open_failure_reports_reason() {
    match Handle::new(0) {
        Err(e) => {
            assert_eq!(e.reason, ErrorReason::OpenHandle);
            assert_eq!(e.res, None);
        }
        Ok(_) => panic!("a null native handle must not open"),
    }
}

#[test]
fn bind_failure_carries_the_native_return() {
    let mut h = open_handle();
    match h.bind(ProtocolFamily::INET6, -1) {
        Err(e) => {
            assert_eq!(e.reason, ErrorReason::Bind);
            assert_eq!(e.res, Some(-1));
        }
        Ok(_) => panic!("a negative bind return must fail"),
    }
    match h.unbind(ProtocolFamily::INET6, -2) {
        Err(e) => {
            assert_eq!(e.reason, ErrorReason::Unbind);
            assert_eq!(e.res, Some(-2));
        }
        Ok(_) => panic!("a negative unbind return must fail"),
    }
}

#[test]
fn family_codes_are_the_kernel_numbers() {
    assert_eq!(ProtocolFamily::INET.family_code(), 2);
    assert_eq!(ProtocolFamily::INET6.family_code(), 10);
}

#[test]
fn failed_registration_leaves_nothing_behind() {
    // A null native queue handle fails construction atomically: the queue
    // stays unregistered and yields no teardown token, so no teardown
    // call is ever attempted for it.
    let mut q = Queue::new(CountingDecider { count: 0 });
    match q.register(1, 0) {
        Err(e) => assert_eq!(e.reason, ErrorReason::CreateQueue),
        Ok(_) => panic!("a null native queue handle must not register"),
    }
    assert!(!q.is_registered());
    assert_eq!(q.release(), None);
}

#[test]
fn teardown_token_comes_out_exactly_once() {
    // Releasing consumes the queue, so the native handle can be taken out
    // for teardown only once, and no dispatch can follow.
    let q = registered_queue();
    assert_eq!(q.release(), Some(0x2000));
}

#[test]
fn mode_failure_keeps_the_old_setting() {
    let mut q = registered_queue();
    q.set_mode(CopyMode::Metadata, 0).unwrap();
    match q.set_mode(CopyMode::NoCopy, -1) {
        Err(e) => {
            assert_eq!(e.reason, ErrorReason::SetQueueMode);
            assert_eq!(e.res, Some(-1));
        }
        Ok(_) => panic!("a nonzero set-mode return must fail"),
    }
}

#[test]
fn maxlen_failure_reports_reason() {
    let mut q = registered_queue();
    match q.set_max_length(4096, 5) {
        Err(e) => {
            assert_eq!(e.reason, ErrorReason::SetQueueMaxlen);
            assert_eq!(e.res, Some(5));
        }
        Ok(_) => panic!("a nonzero maxlen return must fail"),
    }
}

#[test]
fn copy_mode_encoding() {
    assert_eq!(CopyMode::NoCopy.mode_code(), 0);
    assert_eq!(CopyMode::Metadata.mode_code(), 1);
    assert_eq!(CopyMode::Packet(1024).mode_code(), 2);
    assert_eq!(CopyMode::NoCopy.copy_range(), 0);
    assert_eq!(CopyMode::Metadata.copy_range(), 0);
    assert_eq!(CopyMode::Packet(1024).copy_range(), 1024);
}

#[test]
fn set_mode_sized_uses_eight_bits_per_byte() {
    let mut q = registered_queue();
    q.set_mode_sized(20, 0).unwrap();
}

#[test]
fn receive_loop_dispatches_reads_and_stops_on_error() {
    assert_eq!(recv_disposition(0), RecvOutcome::Dispatch(0));
    assert_eq!(recv_disposition(4096), RecvOutcome::Dispatch(4096));
    assert_eq!(recv_disposition(-1), RecvOutcome::Stop);
}

#[test]
fn sized_receive_length_adds_the_message_header() {
    assert_eq!(start_sized_length(20), 128 + 160);
    assert_eq!(start_sized_length(0), 128);
}

#[test]
fn errors_carry_their_diagnostics() {
    let e = error(ErrorReason::Unknown, "something failed", Some(-3));
    assert_eq!(e.reason, ErrorReason::Unknown);
    assert_eq!(e.description(), "something failed");
    assert_eq!(e.res, Some(-3));
    assert_eq!(e.errno, None);
    let e = e.with_errno(13);
    assert_eq!(e.errno, Some(13));
    assert_eq!(e.res, Some(-3));
}
