//! Packet verdicts and their native encoding.
//!
//! A verdict is the disposition a userspace handler assigns to one queued
//! packet. The closed set of six outcomes is encoded into the single `u32`
//! that the native `set_verdict` call expects: the low sixteen bits hold
//! which outcome it is, and a re-queued packet's destination number sits
//! in the upper sixteen bits.

use vstd::prelude::*;

use crate::error::{error, ErrorReason, NFQError};

verus! {

/// Native code for dropping the packet.
pub const NF_DROP: u32 = 0;

/// Native code for accepting the packet.
pub const NF_ACCEPT: u32 = 1;

/// Native code for keeping the packet's buffer in userspace.
pub const NF_STOLEN: u32 = 2;

/// Native code for re-queuing the packet; the target queue number is
/// carried in the upper half of the encoded word.
pub const NF_QUEUE: u32 = 3;

/// Native code for running the current hook again on the packet.
pub const NF_REPEAT: u32 = 4;

/// Native code for stopping traversal, similar to accepting.
pub const NF_STOP: u32 = 5;

/// Packet verdict used to notify the kernel of a packet's destiny.
#[derive(Clone, Copy, Debug, PartialEq, Eq, Structural)]
pub enum Verdict {
    /// Drop the packet and release its memory.
    Drop,
    /// Accept the packet from this chain.
    Accept,
    /// Drop the packet but keep its kernel-side buffer for userspace.
    Stolen,
    /// Queue the packet into the given queue number.
    Queue(u16),
    /// Run this hook again for this packet.
    Repeat,
    /// Stop traversal; similar to accepting.
    Stop,
}

/// The `u32` a verdict becomes for the native call: the code of the
/// outcome, and for a re-queued packet the destination number shifted
/// into the upper bits.
pub open spec fn spec_verdict_code(v: Verdict) -> u32 {
    match v {
        Verdict::Drop => NF_DROP,
        Verdict::Accept => NF_ACCEPT,
        Verdict::Stolen => NF_STOLEN,
        Verdict::Queue(t) => NF_QUEUE | ((t as u32) << 16),
        Verdict::Repeat => NF_REPEAT,
        Verdict::Stop => NF_STOP,
    }
}

/// Reads the destination number back out of an encoded re-queue verdict.
pub open spec fn spec_queue_target(code: u32) -> u16 {
    (code >> 16) as u16
}

/// One verdict request for the native layer: everything `set_verdict`
/// needs for one packet. `data` is the replacement payload to hand back to
/// the kernel; `None` stands for a null pointer with zero length, the
/// common case.
#[derive(Debug, PartialEq, Eq)]
pub struct VerdictCall {
    /// The packet id, already in host byte order.
    pub packet_id: u32,
    /// The encoded verdict word.
    pub verdict_code: u32,
    /// The replacement payload, or `None` for no data.
    pub data: Option<Vec<u8>>,
}

/// The handle a packet handler reports verdicts through.
///
/// It stands for one registered native queue: `raw` is the native queue
/// handle as a pointer-sized token, and `calls` accumulates the verdict
/// requests of the current callback invocation in order, for the foreign
/// shell to submit to the native library before the callback returns.
pub struct QueueHandle {
    /// The native queue handle, as a pointer-sized token.
    pub raw: usize,
    /// The verdict requests recorded so far, oldest first.
    pub calls: Vec<VerdictCall>,
}

impl QueueHandle {
    /// Wraps the native queue handle token delivered to a callback.
    pub fn new(raw: usize) -> (qh: QueueHandle)
        ensures
            qh.raw == raw,
            qh.calls@ =~= Seq::<VerdictCall>::empty(),
    {
        QueueHandle { raw, calls: Vec::new() }
    }
}

impl Verdict {
    /// Encodes the verdict into the word the native `set_verdict` call
    /// expects.
    pub fn as_u32(&self) -> (code: u32)
        ensures
            code == spec_verdict_code(*self),
    {
        match *self {
            Verdict::Drop => NF_DROP,
            Verdict::Accept => NF_ACCEPT,
            Verdict::Stolen => NF_STOLEN,
            Verdict::Queue(t) => NF_QUEUE | ((t as u32) << 16),
            Verdict::Repeat => NF_REPEAT,
            Verdict::Stop => NF_STOP,
        }
    }

    /// Records the verdict for one packet.
    ///
    /// The packet id must already be in host byte order, as returned by
    /// the header's `id` accessor. The request is appended to the queue
    /// handle's record; the foreign shell performs the native call and
    /// judges its return with [`set_verdict_outcome`].
    pub fn set_verdict(
        qh: &mut QueueHandle,
        packet_id: u32,
        verdict: Verdict,
        data: Option<Vec<u8>>,
    )
        ensures
            final(qh).raw == old(qh).raw,
            final(qh).calls@ == old(qh).calls@.push(
                (VerdictCall { packet_id, verdict_code: spec_verdict_code(verdict), data }),
            ),
    {
        let code = verdict.as_u32();
        qh.calls.push(VerdictCall { packet_id, verdict_code: code, data });
    }
}

/// Judges the native `set_verdict` return value: a negative return is the
/// native library's failure report, anything else is success carrying the
/// native return code.
pub fn set_verdict_outcome(res: i32) -> (r: Result<i32, NFQError>)
    ensures
        res < 0 ==> (r matches Err(e)
            && e.reason == ErrorReason::SetVerdict
            && e.res == Some(res)),
        res >= 0 ==> r == Ok::<i32, NFQError>(res),
{
    if res < 0 {
        Err(error(ErrorReason::SetVerdict, "Failed to set verdict", Some(res)))
    } else {
        Ok(res)
    }
}

/// Recovers the queue number from an encoded queue verdict.
pub fn queue_target(code: u32) -> (target: u16)
    ensures
        target == spec_queue_target(code),
{
    (code >> 16) as u16
}

/// The encoding is total and deterministic by construction; this law
/// states that it is also injective: two verdicts with the same encoded
/// word are the same verdict, and in particular the target number of a
/// queue verdict is carried losslessly.
pub proof fn lemma_verdict_code_injective(a: Verdict, b: Verdict)
    requires
        spec_verdict_code(a) == spec_verdict_code(b),
    ensures
        a == b,
{
    if let Verdict::Queue(s) = a {
        if let Verdict::Queue(t) = b {
            assert((NF_QUEUE | ((s as u32) << 16)) == (NF_QUEUE | ((t as u32) << 16))
                ==> s == t) by (bit_vector);
        } else {
            lemma_queue_code_is_no_plain_code(s);
        }
    } else {
        if let Verdict::Queue(t) = b {
            lemma_queue_code_is_no_plain_code(t);
        }
    }
}

/// An encoded queue verdict never collides with the code of any other
/// outcome: its low sixteen bits are always the queue code itself.
proof fn lemma_queue_code_is_no_plain_code(t: u16)
    ensures
        (NF_QUEUE | ((t as u32) << 16)) & 0xFFFF == NF_QUEUE,
        NF_QUEUE | ((t as u32) << 16) != NF_DROP,
        NF_QUEUE | ((t as u32) << 16) != NF_ACCEPT,
        NF_QUEUE | ((t as u32) << 16) != NF_STOLEN,
        NF_QUEUE | ((t as u32) << 16) != NF_REPEAT,
        NF_QUEUE | ((t as u32) << 16) != NF_STOP,
{
    assert((3u32 | ((t as u32) << 16)) & 0xFFFF == 3u32) by (bit_vector);
    assert((3u32 | ((t as u32) << 16)) != 0u32 && (3u32 | ((t as u32) << 16)) != 1u32
        && (3u32 | ((t as u32) << 16)) != 2u32 && (3u32 | ((t as u32) << 16)) != 4u32
        && (3u32 | ((t as u32) << 16)) != 5u32) by (bit_vector);
}

/// The target queue number of a queue verdict round-trips through the
/// encoding: decoding the upper half of the encoded word gives the number
/// back.
pub proof fn lemma_queue_target_round_trip(t: u16)
    ensures
        spec_queue_target(spec_verdict_code(Verdict::Queue(t))) == t,
{
    assert(((3u32 | ((t as u32) << 16)) >> 16) as u16 == t) by (bit_vector);
}

} // verus!
