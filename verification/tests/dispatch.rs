//! The dispatch core: the deciding adapter, the raw handler form, and the
//! end-to-end scenario over a registered queue.

use libnfqueue::error::NFQError;
use libnfqueue::handle::{Handle, ProtocolFamily};
use libnfqueue::message::{Header, Message};
use libnfqueue::queue::{PacketHandler, Queue, QueueHandle, Verdict, VerdictHandler};
use libnfqueue::verdict::VerdictCall;
use vstd::prelude::Seq;

struct AcceptAll;

impl VerdictHandler for AcceptAll {
    // The abstract decision function exists only for verification; the
    // erased build never calls it.
    fn spec_decide(&self, _message: Message) -> (Verdict, Self) {
        unreachable!()
    }

    fn decide(&mut self, _message: &Message) -> Verdict {
        Verdict::Accept
    }
}

/// Counts invocations and alternates by parity: the first (odd) packet is
/// dropped, the second accepted, and so on.
struct ParityDecider {
    count: u64,
}

impl VerdictHandler for ParityDecider {
    fn spec_decide(&self, _message: Message) -> (Verdict, Self) {
        unreachable!()
    }

    fn decide(&mut self, _message: &Message) -> Verdict {
        self.count += 1;
        if self.count % 2 == 0 {
            Verdict::Accept
        } else {
            Verdict::Drop
        }
    }
}

/// A raw handler: reports its own verdicts, and a handler-level status of
/// its own that the dispatch core must not propagate.
struct RawReporter;

impl PacketHandler for RawReporter {
    fn spec_handle(
        &self,
        _hq: QueueHandle,
        _message: Result<Message, NFQError>,
    ) -> (i32, Self, Seq<VerdictCall>) {
        unreachable!()
    }

    fn handle(&mut self, hq: &mut QueueHandle, message: Result<&Message, &NFQError>) -> i32 {
        if let Ok(m) = message {
            if let Ok(h) = m.header() {
                let id = h.id();
                Verdict::set_verdict(hq, id, Verdict::Stolen, Some(vec![9]));
            }
        }
        -1
    }
}

fn header_with_host_id(id: u32) -> Header {
    // Encode the host-order id as the raw big-endian field a little-endian
    // host would have loaded.
    Header { packet_id: id.swap_bytes(), hw_protocol: 0, hook: 0 }
}

#[test]
fn decider_accept_sets_one_verdict() {
    let mut q = Queue::new(AcceptAll);
    q.register(0, 7).unwrap();
    let mut qh = QueueHandle::new(7);
    let m = Message::new(Some(header_with_host_id(42)), None);

    let status = q.handle_packet(&mut qh, Ok(&m));

    assert_eq!(status, 0);
    // Exactly one verdict call, with the header's packet id in host
    // order, the accept code, and no data.
    assert_eq!(
        qh.calls,
        vec![VerdictCall { packet_id: 42, verdict_code: 1, data: None }]
    );
}

#[test]
fn unavailable_header_skips_the_verdict() {
    let mut q = Queue::new(AcceptAll);
    q.register(0, 7).unwrap();
    let mut qh = QueueHandle::new(7);
    let m = Message::new(None, None);

    let status = q.handle_packet(&mut qh, Ok(&m));

    assert_eq!(status, 0);
    assert!(qh.calls.is_empty());
}

#[test]
fn message_failure_skips_the_verdict() {
    let mut q = Queue::new(AcceptAll);
    q.register(0, 7).unwrap();
    let mut qh = QueueHandle::new(7);
    let e = libnfqueue::error::error(libnfqueue::error::ErrorReason::Unknown, "synthetic", None);

    let status = q.handle_packet(&mut qh, Err(&e));

    assert_eq!(status, 0);
    assert!(qh.calls.is_empty());
}

#[test]
fn raw_handler_reports_for_itself() {
    let mut q = Queue::new(RawReporter);
    q.register(0, 3).unwrap();
    let mut qh = QueueHandle::new(3);
    let m = Message::new(Some(header_with_host_id(5)), None);

    let status = q.handle_packet(&mut qh, Ok(&m));

    // The dispatch core returns the fixed status to the native library
    // regardless of the handler's own outcome.
    assert_eq!(status, 0);
    assert_eq!(
        qh.calls,
        vec![VerdictCall { packet_id: 5, verdict_code: 2, data: Some(vec![9]) }]
    );
}

#[test]
fn three_packets_alternate_by_parity() {
    // End to end: open, bind, register a counting decider, feed three
    // callback invocations with distinct packet ids, and expect the
    // verdict calls (10, Drop), (11, Accept), (12, Drop) in that order.
    let mut handle = Handle::new(0x1000).unwrap();
    handle.bind(ProtocolFamily::INET, 0).unwrap();

    let mut q = Queue::new(ParityDecider { count: 0 });
    q.register(0, 0x2000).unwrap();

    let mut qh = QueueHandle::new(0x2000);
    for id in [10u32, 11, 12] {
        let m = Message::new(Some(header_with_host_id(id)), None);
        let status = q.handle_packet(&mut qh, Ok(&m));
        assert_eq!(status, 0);
    }

    assert_eq!(
        qh.calls,
        vec![
            VerdictCall { packet_id: 10, verdict_code: 0, data: None },
            VerdictCall { packet_id: 11, verdict_code: 1, data: None },
            VerdictCall { packet_id: 12, verdict_code: 0, data: None },
        ]
    );
    assert_eq!(q.handler().count, 3);

    assert_eq!(q.release(), Some(0x2000));
    assert_eq!(handle.release(), 0x1000);
}
