//! Queue registration and callback dispatch.
//!
//! A [`Queue`] owns one registered native queue and the handler that
//! decides the fate of every packet delivered to it. Its life is a strict
//! state machine: it is created unregistered, becomes registered when the
//! native registration call succeeds, and ends when the owner takes the
//! native handle back out for teardown. Registration fails atomically — a
//! failed attempt leaves the queue exactly as it was, owing no teardown.
//!
//! On the hot path the foreign shell reconstructs the owning queue from
//! the callback's opaque pointer, assembles the [`Message`] view, and
//! hands both to [`Queue::handle_packet`]; every decision from there on is
//! verified.

use vstd::prelude::*;

use crate::error::{error, ErrorReason, NFQError};
use crate::message::Message;
pub use crate::verdict::QueueHandle;
pub use crate::verdict::Verdict;
pub use crate::verdict::VerdictCall;

verus! {

/// How much of each queued packet the kernel copies to userspace.
#[derive(Clone, Copy, Debug, PartialEq, Eq, Structural)]
pub enum CopyMode {
    /// Copy nothing.
    NoCopy,
    /// Copy packet metadata only.
    Metadata,
    /// Copy the metadata and up to the given number of payload bytes.
    ///
    /// The receive loop's buffer must be sized to match, or payload
    /// parsing will read past the valid data — a caller contract that the
    /// dispatch core cannot enforce.
    Packet(u16),
}

/// The native code for a copy mode.
pub open spec fn spec_mode_code(mode: CopyMode) -> u8 {
    match mode {
        CopyMode::NoCopy => 0,
        CopyMode::Metadata => 1,
        CopyMode::Packet(_) => 2,
    }
}

/// The native range argument for a copy mode: the payload byte count for
/// [`CopyMode::Packet`], zero otherwise.
pub open spec fn spec_copy_range(mode: CopyMode) -> u32 {
    match mode {
        CopyMode::Packet(r) => r as u32,
        _ => 0,
    }
}

impl CopyMode {
    /// The mode code the native `set_mode` call expects.
    pub fn mode_code(&self) -> (code: u8)
        ensures
            code == spec_mode_code(*self),
    {
        match *self {
            CopyMode::NoCopy => 0,
            CopyMode::Metadata => 1,
            CopyMode::Packet(_) => 2,
        }
    }

    /// The range argument the native `set_mode` call expects.
    pub fn copy_range(&self) -> (range: u32)
        ensures
            range == spec_copy_range(*self),
    {
        match *self {
            CopyMode::Packet(r) => r as u32,
            _ => 0,
        }
    }
}

/// The borrowed callback arguments as the owned values the handler
/// specifications speak of.
pub open spec fn spec_message_arg(message: Result<&Message, &NFQError>) -> Result<
    Message,
    NFQError,
> {
    match message {
        Ok(m) => Ok(*m),
        Err(e) => Err(*e),
    }
}

/// Invoked to handle packets from the queue.
///
/// This is the general handler form: it receives the message view — or the
/// failure that arose while assembling it — together with the queue handle,
/// and is responsible for recording any verdict calls on that handle.
pub trait PacketHandler: Sized {
    /// What one invocation of this handler does, as a function of the
    /// handler's state, the queue handle, and the message: the status it
    /// returns, its own state afterwards, and the verdict record
    /// afterwards.
    spec fn spec_handle(&self, hq: QueueHandle, message: Result<Message, NFQError>) -> (
        i32,
        Self,
        Seq<VerdictCall>,
    );

    /// Handles one packet, reporting any verdicts through `hq`.
    fn handle(&mut self, hq: &mut QueueHandle, message: Result<&Message, &NFQError>) -> (status:
        i32)
        ensures
            final(hq).raw == old(hq).raw,
            (status, *final(self), final(hq).calls@) == old(self).spec_handle(
                *old(hq),
                spec_message_arg(message),
            ),
    ;
}

/// An abstraction over [`PacketHandler`] for handling that needs only a
/// verdict.
///
/// Only messages with a well-formed header reach `decide`; the blanket
/// adapter reports the verdict on the handler's behalf and does nothing
/// when the header was unavailable. Implement it on a named type: Verus
/// does not accept a closure that borrows its context mutably, so the
/// closure form of such a handler is not offered.
pub trait VerdictHandler: Sized {
    /// The verdict this handler decides for a message, and its own state
    /// afterwards.
    spec fn spec_decide(&self, message: Message) -> (Verdict, Self);

    /// Chooses the verdict for one well-formed message.
    fn decide(&mut self, message: &Message) -> (verdict: Verdict)
        ensures
            (verdict, *final(self)) == old(self).spec_decide(*message),
    ;
}

/// The fixed adapter from a deciding handler to the general form.
///
/// When the message and its header are well formed, it asks the handler
/// for a verdict — exactly once — and reports exactly one verdict call,
/// carrying the header's packet id in host byte order, the encoding of the
/// verdict the handler decided, and no replacement payload. When the
/// header — or the whole message — was unavailable it reports nothing and
/// leaves the handler untouched. Either way it returns the fixed status
/// the native calling convention expects.
pub fn dispatch_decision<V: VerdictHandler>(
    handler: &mut V,
    hq: &mut QueueHandle,
    message: Result<&Message, &NFQError>,
) -> (status: i32)
    ensures
        status == 0,
        final(hq).raw == old(hq).raw,
        (match message {
            Ok(m) => match m.header {
                Some(h) => {
                    &&& *final(handler) == old(handler).spec_decide(*m).1
                    &&& final(hq).calls@ == old(hq).calls@.push(
                        (VerdictCall {
                            packet_id: crate::message::spec_swap_bytes_u32(h.packet_id),
                            verdict_code: crate::verdict::spec_verdict_code(
                                old(handler).spec_decide(*m).0,
                            ),
                            data: None,
                        }),
                    )
                },
                None => final(hq).calls@ == old(hq).calls@ && *final(handler) == *old(handler),
            },
            Err(_) => final(hq).calls@ == old(hq).calls@ && *final(handler) == *old(handler),
        }),
{
    match message {
        Ok(m) => {
            match m.header() {
                Ok(h) => {
                    let id = h.id();
                    let verdict = handler.decide(m);
                    Verdict::set_verdict(hq, id, verdict, None);
                },
                Err(_) => {},
            }
        },
        Err(_) => {},
    }
    0
}

/// Any deciding handler is usable wherever the general handler form is
/// expected, through the fixed adapter.
impl<V: VerdictHandler> PacketHandler for V {
    open spec fn spec_handle(&self, hq: QueueHandle, message: Result<Message, NFQError>) -> (
        i32,
        Self,
        Seq<VerdictCall>,
    ) {
        match message {
            Ok(m) => match m.header {
                Some(h) => (
                    0,
                    self.spec_decide(m).1,
                    hq.calls@.push(
                        (VerdictCall {
                            packet_id: crate::message::spec_swap_bytes_u32(h.packet_id),
                            verdict_code: crate::verdict::spec_verdict_code(self.spec_decide(m).0),
                            data: None,
                        }),
                    ),
                ),
                None => (0, *self, hq.calls@),
            },
            Err(_) => (0, *self, hq.calls@),
        }
    }

    fn handle(&mut self, hq: &mut QueueHandle, message: Result<&Message, &NFQError>) -> (status:
        i32)
    {
        dispatch_decision(self, hq, message)
    }
}

/// One userspace queue: the handler it dispatches to, and — once
/// registration has succeeded — the native queue handle and queue number.
///
/// States: unregistered, then registered, then destroyed. The terminal
/// state has no representation: taking the native handle back out with
/// [`Queue::release`] consumes the queue, so no dispatch can follow
/// teardown and teardown can happen at most once.
pub struct Queue<F: PacketHandler> {
    registered: bool,
    raw: usize,
    queue_number: u16,
    mode: Option<CopyMode>,
    max_length: Option<u32>,
    handler: F,
}

impl<F: PacketHandler> Queue<F> {
    /// Whether the native registration has succeeded.
    pub closed spec fn spec_registered(&self) -> bool {
        self.registered
    }

    /// The native queue handle as a pointer-sized token; meaningful only
    /// while registered.
    pub closed spec fn spec_raw(&self) -> usize {
        self.raw
    }

    /// The queue number this queue was registered against.
    pub closed spec fn spec_queue_number(&self) -> u16 {
        self.queue_number
    }

    /// The copy mode most recently configured, if any.
    pub closed spec fn spec_mode(&self) -> Option<CopyMode> {
        self.mode
    }

    /// The maximum queue length most recently configured, if any.
    pub closed spec fn spec_max_length(&self) -> Option<u32> {
        self.max_length
    }

    /// The handler value.
    pub closed spec fn spec_handler(&self) -> F {
        self.handler
    }

    /// A registered queue's native handle is never null.
    pub open spec fn wf(&self) -> bool {
        self.spec_registered() ==> self.spec_raw() != 0
    }

    /// Creates the queue in its unregistered state, holding the handler.
    ///
    /// The owner must give the value a stable address before registering
    /// it, since registration hands that address to the native library as
    /// the opaque callback token.
    pub fn new(handler: F) -> (q: Queue<F>)
        ensures
            !q.spec_registered(),
            q.wf(),
            q.spec_handler() == handler,
            q.spec_mode() is None,
            q.spec_max_length() is None,
    {
        Queue { registered: false, raw: 0, queue_number: 0, mode: None, max_length: None, handler }
    }

    /// Judges the native registration call's result for this queue.
    ///
    /// `qraw` is the native queue handle returned for `queue_number`, as a
    /// pointer-sized token, zero for a null return. A null return fails
    /// the registration atomically: the queue is left exactly as it was,
    /// unregistered, and no teardown is owed.
    pub fn register(&mut self, queue_number: u16, qraw: usize) -> (r: Result<(), NFQError>)
        requires
            !old(self).spec_registered(),
        ensures
            final(self).wf(),
            qraw == 0 ==> (r matches Err(e)
                && e.reason == ErrorReason::CreateQueue
                && e.res is None
                && *final(self) == *old(self)),
            qraw != 0 ==> (r is Ok
                && final(self).spec_registered()
                && final(self).spec_raw() == qraw
                && final(self).spec_queue_number() == queue_number
                && final(self).spec_handler() == old(self).spec_handler()
                && final(self).spec_mode() == old(self).spec_mode()
                && final(self).spec_max_length() == old(self).spec_max_length()),
    {
        if qraw == 0 {
            Err(error(ErrorReason::CreateQueue, "Failed to create queue", None))
        } else {
            self.registered = true;
            self.raw = qraw;
            self.queue_number = queue_number;
            Ok(())
        }
    }

    /// Whether the queue currently holds a registered native handle.
    pub fn is_registered(&self) -> (b: bool)
        ensures
            b == self.spec_registered(),
    {
        self.registered
    }

    /// The native queue handle token, for the foreign calls that need it;
    /// meaningful only while registered.
    pub fn raw(&self) -> (raw: usize)
        ensures
            raw == self.spec_raw(),
    {
        self.raw
    }

    /// A shared borrow of the handler, for inspecting its state.
    pub fn handler(&self) -> (h: &F)
        ensures
            *h == self.spec_handler(),
    {
        &self.handler
    }

    /// Dispatches one callback invocation to the handler.
    ///
    /// The foreign shell calls this once per native callback, with the
    /// queue handle the callback delivered and the message view assembled
    /// from the callback's message pointers. The handler is invoked
    /// exactly once — its new state and the verdicts it records are the
    /// ones its own specification gives — while the queue's registration,
    /// native handle and configuration are untouched. The returned status
    /// is the fixed zero the native calling convention expects, whatever
    /// the handler's own outcome: the native layer propagates only
    /// transport-level errors, never handler-level ones.
    pub fn handle_packet(&mut self, hq: &mut QueueHandle, message: Result<&Message, &NFQError>)
        -> (status: i32)
        requires
            old(self).wf(),
        ensures
            status == 0,
            final(self).wf(),
            final(self).spec_registered() == old(self).spec_registered(),
            final(self).spec_raw() == old(self).spec_raw(),
            final(self).spec_queue_number() == old(self).spec_queue_number(),
            final(self).spec_mode() == old(self).spec_mode(),
            final(self).spec_max_length() == old(self).spec_max_length(),
            final(hq).raw == old(hq).raw,
            final(self).spec_handler() == old(self).spec_handler().spec_handle(
                *old(hq),
                spec_message_arg(message),
            ).1,
            final(hq).calls@ == old(self).spec_handler().spec_handle(
                *old(hq),
                spec_message_arg(message),
            ).2,
    {
        let _handler_status = self.handler.handle(hq, message);
        0
    }

    /// Judges the native `set_mode` call's result, recording the mode on
    /// success.
    ///
    /// The foreign shell encodes `mode` with [`CopyMode::mode_code`] and
    /// [`CopyMode::copy_range`], makes the native call, and hands its
    /// return value in as `res`.
    pub fn set_mode(&mut self, mode: CopyMode, res: i32) -> (r: Result<(), NFQError>)
        ensures
            final(self).wf() == old(self).wf(),
            final(self).spec_registered() == old(self).spec_registered(),
            final(self).spec_raw() == old(self).spec_raw(),
            final(self).spec_queue_number() == old(self).spec_queue_number(),
            final(self).spec_handler() == old(self).spec_handler(),
            final(self).spec_max_length() == old(self).spec_max_length(),
            res != 0 ==> (r matches Err(e)
                && e.reason == ErrorReason::SetQueueMode
                && e.res == Some(res)
                && final(self).spec_mode() == old(self).spec_mode()),
            res == 0 ==> (r is Ok && final(self).spec_mode() == Some(mode)),
    {
        if res != 0 {
            Err(error(ErrorReason::SetQueueMode, "Failed to set queue mode", Some(res)))
        } else {
            self.mode = Some(mode);
            Ok(())
        }
    }

    /// [`Queue::set_mode`] under its older name.
    pub fn mode(&mut self, mode: CopyMode, res: i32) -> (r: Result<(), NFQError>)
        ensures
            final(self).wf() == old(self).wf(),
            final(self).spec_registered() == old(self).spec_registered(),
            final(self).spec_raw() == old(self).spec_raw(),
            final(self).spec_queue_number() == old(self).spec_queue_number(),
            final(self).spec_handler() == old(self).spec_handler(),
            final(self).spec_max_length() == old(self).spec_max_length(),
            res != 0 ==> (r matches Err(e)
                && e.reason == ErrorReason::SetQueueMode
                && e.res == Some(res)
                && final(self).spec_mode() == old(self).spec_mode()),
            res == 0 ==> (r is Ok && final(self).spec_mode() == Some(mode)),
    {
        self.set_mode(mode, res)
    }

    /// The copy-mode byte count for copying a payload structure of the
    /// given size, as [`Queue::set_mode_sized`] configures it: eight bits
    /// per payload byte.
    pub fn set_mode_sized(&mut self, payload_bytes: u16, res: i32) -> (r: Result<(), NFQError>)
        requires
            payload_bytes <= 8191,
        ensures
            final(self).wf() == old(self).wf(),
            final(self).spec_registered() == old(self).spec_registered(),
            final(self).spec_raw() == old(self).spec_raw(),
            final(self).spec_queue_number() == old(self).spec_queue_number(),
            final(self).spec_handler() == old(self).spec_handler(),
            final(self).spec_max_length() == old(self).spec_max_length(),
            res != 0 ==> (r matches Err(e)
                && e.reason == ErrorReason::SetQueueMode
                && e.res == Some(res)
                && final(self).spec_mode() == old(self).spec_mode()),
            res == 0 ==> (r is Ok
                && final(self).spec_mode() == Some(CopyMode::Packet((8 * payload_bytes) as u16))),
    {
        self.set_mode(CopyMode::Packet(8 * payload_bytes), res)
    }

    /// Judges the native `set_queue_maxlen` call's result, recording the
    /// length on success. Once `length` packets are enqueued, further
    /// packets are dropped until enqueued ones are processed.
    pub fn set_max_length(&mut self, length: u32, res: i32) -> (r: Result<(), NFQError>)
        ensures
            final(self).wf() == old(self).wf(),
            final(self).spec_registered() == old(self).spec_registered(),
            final(self).spec_raw() == old(self).spec_raw(),
            final(self).spec_queue_number() == old(self).spec_queue_number(),
            final(self).spec_handler() == old(self).spec_handler(),
            final(self).spec_mode() == old(self).spec_mode(),
            res != 0 ==> (r matches Err(e)
                && e.reason == ErrorReason::SetQueueMaxlen
                && e.res == Some(res)
                && final(self).spec_max_length() == old(self).spec_max_length()),
            res == 0 ==> (r is Ok && final(self).spec_max_length() == Some(length)),
    {
        if res != 0 {
            Err(error(ErrorReason::SetQueueMaxlen, "Failed to set queue maxlen", Some(res)))
        } else {
            self.max_length = Some(length);
            Ok(())
        }
    }

    /// [`Queue::set_max_length`] under its older name.
    pub fn maxlen(&mut self, length: u32, res: i32) -> (r: Result<(), NFQError>)
        ensures
            final(self).wf() == old(self).wf(),
            final(self).spec_registered() == old(self).spec_registered(),
            final(self).spec_raw() == old(self).spec_raw(),
            final(self).spec_queue_number() == old(self).spec_queue_number(),
            final(self).spec_handler() == old(self).spec_handler(),
            final(self).spec_mode() == old(self).spec_mode(),
            res != 0 ==> (r matches Err(e)
                && e.reason == ErrorReason::SetQueueMaxlen
                && e.res == Some(res)
                && final(self).spec_max_length() == old(self).spec_max_length()),
            res == 0 ==> (r is Ok && final(self).spec_max_length() == Some(length)),
    {
        self.set_max_length(length, res)
    }

    /// Ends the queue's life, handing back what teardown needs.
    ///
    /// Consumes the queue, so no dispatch can follow and teardown happens
    /// at most once. A registered queue yields its native handle, which
    /// the owner must pass to the native teardown call; a queue whose
    /// registration never succeeded yields nothing, and no teardown call
    /// must be made for it.
    pub fn release(self) -> (r: Option<usize>)
        requires
            self.wf(),
        ensures
            self.spec_registered() ==> r == Some(self.spec_raw()),
            !self.spec_registered() ==> r is None,
            r matches Some(raw) ==> raw != 0,
    {
        if self.registered {
            Some(self.raw)
        } else {
            None
        }
    }
}

} // verus!
