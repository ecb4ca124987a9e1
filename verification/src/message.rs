//! The per-packet message view.
//!
//! For every callback invocation the native library exposes one packet's
//! metadata and, depending on the queue's copy mode, some of its payload.
//! The foreign shell fetches both through the native accessors and hands
//! them in as plain values; a [`Message`] is the resulting read-only view,
//! constructed fresh for each invocation and never retained beyond it.
//!
//! The raw header fields arrive in the kernel's on-wire byte order
//! (big-endian) as they were loaded on a little-endian host, so every
//! multi-byte field must pass through an explicit byte swap before it is
//! compared or echoed back to the native library.

use vstd::prelude::*;

use crate::error::{error, ErrorReason, NFQError};

verus! {

/// A 32-bit field read from the wire on a little-endian host, brought to
/// host order: the four bytes in reverse.
pub open spec fn spec_swap_bytes_u32(x: u32) -> u32 {
    ((x & 0xFF) << 24) | ((x & 0xFF00) << 8) | ((x >> 8) & 0xFF00) | ((x >> 24) & 0xFF)
}

/// A 16-bit field read from the wire on a little-endian host, brought to
/// host order: the two bytes exchanged.
pub open spec fn spec_swap_bytes_u16(x: u16) -> u16 {
    ((x & 0xFF) << 8) | ((x >> 8) & 0xFF)
}

/// The fixed-format packet header the kernel attaches to every queued
/// packet. The fields hold the raw on-wire (big-endian) values; use the
/// accessors to read them in host order.
#[derive(Clone, Copy, Debug, PartialEq, Eq, Structural)]
pub struct Header {
    /// The packet id, raw, in on-wire byte order.
    ///
    /// This id identifies the packet to `set_verdict`, but only after the
    /// byte swap that [`Header::id`] performs.
    pub packet_id: u32,
    /// The hardware protocol, raw, in on-wire byte order.
    pub hw_protocol: u16,
    /// The netfilter hook the packet was queued from; a single byte, so
    /// no conversion applies.
    pub hook: u8,
}

impl Header {
    /// The packet id in host byte order.
    ///
    /// This is the id to hand to `set_verdict` to decide the packet's
    /// destiny; the raw field must never be used for that directly. The
    /// conversion is the byte swap that reading a big-endian field amounts
    /// to on the little-endian hosts this library supports; a big-endian
    /// host would need the identity here instead.
    pub fn id(&self) -> (id: u32)
        ensures
            id == spec_swap_bytes_u32(self.packet_id),
    {
        let x = self.packet_id;
        ((x & 0xFF) << 24) | ((x & 0xFF00) << 8) | ((x >> 8) & 0xFF00) | ((x >> 24) & 0xFF)
    }

    /// The hardware protocol in host byte order, under the same
    /// little-endian-host assumption as [`Header::id`].
    pub fn protocol(&self) -> (p: u16)
        ensures
            p == spec_swap_bytes_u16(self.hw_protocol),
    {
        let x = self.hw_protocol;
        ((x & 0xFF) << 8) | ((x >> 8) & 0xFF)
    }
}

/// Swapping twice gives the original field back: reading a field in host
/// order and encoding it again for the wire loses nothing.
pub proof fn lemma_swap_bytes_u32_involutive(x: u32)
    ensures
        spec_swap_bytes_u32(spec_swap_bytes_u32(x)) == x,
{
    assert(spec_swap_bytes_u32(spec_swap_bytes_u32(x)) == x) by (bit_vector);
}

/// The 16-bit swap is an involution as well.
pub proof fn lemma_swap_bytes_u16_involutive(x: u16)
    ensures
        spec_swap_bytes_u16(spec_swap_bytes_u16(x)) == x,
{
    assert(spec_swap_bytes_u16(spec_swap_bytes_u16(x)) == x) by (bit_vector);
}

/// A read-only view over one callback invocation's packet.
///
/// `header` is `None` when the native header accessor returned a null
/// pointer, and `payload` is `None` when no payload was delivered —
/// because the copy mode copies none, or because the native payload fetch
/// reported an error. Both absences surface as recoverable errors, never
/// as a crash.
pub struct Message {
    /// The packet header, when the native accessor produced one.
    pub header: Option<Header>,
    /// The payload bytes copied for this packet, when any were delivered.
    pub payload: Option<Vec<u8>>,
}

impl Message {
    /// Assembles the view for one callback invocation from what the
    /// native accessors delivered.
    pub fn new(header: Option<Header>, payload: Option<Vec<u8>>) -> (m: Message)
        ensures
            m.header == header,
            m.payload == payload,
    {
        Message { header, payload }
    }

    /// The packet header, or the recoverable failure for a null header
    /// pointer.
    pub fn header(&self) -> (r: Result<&Header, NFQError>)
        ensures
            (self.header matches Some(h) ==> (r matches Ok(rh) && *rh == h)),
            (self.header is None ==> (r matches Err(e)
                && e.reason == ErrorReason::HeaderUnavailable
                && e.res is None)),
    {
        match &self.header {
            Some(h) => Ok(h),
            None => Err(error(ErrorReason::HeaderUnavailable, "Failed to get header", None)),
        }
    }

    /// The payload bytes delivered for this packet, or the recoverable
    /// failure when none were.
    pub fn payload(&self) -> (r: Result<&Vec<u8>, NFQError>)
        ensures
            (self.payload matches Some(p) ==> (r matches Ok(rp) && rp@ == p@)),
            (self.payload is None ==> (r matches Err(e)
                && e.reason == ErrorReason::PayloadUnavailable
                && e.res is None)),
    {
        match &self.payload {
            Some(p) => Ok(p),
            None => Err(error(ErrorReason::PayloadUnavailable, "Failed to get payload", None)),
        }
    }

    /// The first `expected` payload bytes — the byte layout of a
    /// fixed-format structure the caller means to parse.
    ///
    /// Fails recoverably when no payload was delivered or fewer bytes than
    /// the expected layout were copied, instead of reading past the valid
    /// data.
    pub fn payload_sized(&self, expected: usize) -> (r: Result<&[u8], NFQError>)
        ensures
            (match self.payload {
                Some(p) => {
                    &&& p@.len() >= expected ==> (r matches Ok(b)
                        && b@ == p@.subrange(0, expected as int))
                    &&& p@.len() < expected ==> (r matches Err(e)
                        && e.reason == ErrorReason::PayloadUnavailable)
                },
                None => (r matches Err(e) && e.reason == ErrorReason::PayloadUnavailable),
            }),
    {
        match &self.payload {
            Some(p) => {
                if p.len() >= expected {
                    Ok(vstd::slice::slice_subrange(p.as_slice(), 0, expected))
                } else {
                    Err(error(
                        ErrorReason::PayloadUnavailable,
                        "Payload shorter than expected",
                        None,
                    ))
                }
            },
            None => Err(error(ErrorReason::PayloadUnavailable, "Failed to get payload", None)),
        }
    }
}

} // verus!
