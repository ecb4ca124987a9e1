//! The top-level library handle and the receive-loop decisions.
//!
//! A [`Handle`] stands for one open native library handle. Opening,
//! binding and unbinding are native calls; the foreign shell makes them
//! and hands their results in as plain values, and the decisions taken on
//! those values are verified here. So is the policy of the blocking
//! receive loop: which read results are dispatched and which one ends the
//! loop.

use vstd::prelude::*;

use crate::error::{error, ErrorReason, NFQError};

verus! {

/// Protocol family a handle can be bound to.
///
/// The queue facility is used here for IP only, so only the two IP
/// families are offered.
#[derive(Clone, Copy, Debug, PartialEq, Eq, Structural)]
pub enum ProtocolFamily {
    /// The IPv4 address family.
    INET,
    /// The IPv6 address family.
    INET6,
}

/// The kernel's number for an address family.
pub open spec fn spec_family_code(proto: ProtocolFamily) -> u16 {
    match proto {
        ProtocolFamily::INET => 2,
        ProtocolFamily::INET6 => 10,
    }
}

impl ProtocolFamily {
    /// The address-family number the native bind and unbind calls expect.
    pub fn family_code(&self) -> (code: u16)
        ensures
            code == spec_family_code(*self),
    {
        match *self {
            ProtocolFamily::INET => 2,
            ProtocolFamily::INET6 => 10,
        }
    }
}

/// One open native library handle, as a pointer-sized token.
pub struct Handle {
    raw: usize,
}

impl Handle {
    /// The native handle token.
    pub closed spec fn spec_raw(&self) -> usize {
        self.raw
    }

    /// An open handle's native token is never null.
    pub open spec fn wf(&self) -> bool {
        self.spec_raw() != 0
    }

    /// Judges the native open call's result.
    ///
    /// `raw` is the handle the native allocator returned, as a
    /// pointer-sized token, zero for a null return. A null return means no
    /// handle exists and nothing is owed to the native library.
    pub fn new(raw: usize) -> (r: Result<Handle, NFQError>)
        ensures
            raw == 0 ==> (r matches Err(e)
                && e.reason == ErrorReason::OpenHandle
                && e.res is None),
            raw != 0 ==> (r matches Ok(h) && h.spec_raw() == raw && h.wf()),
    {
        if raw == 0 {
            Err(error(ErrorReason::OpenHandle, "Failed to allocate handle", None))
        } else {
            Ok(Handle { raw })
        }
    }

    /// The native handle token, for the foreign calls that need it.
    pub fn raw(&self) -> (raw: usize)
        ensures
            raw == self.spec_raw(),
    {
        self.raw
    }

    /// Judges the native bind call's result for the given family: a
    /// negative return is the native failure report.
    pub fn bind(&mut self, proto: ProtocolFamily, res: i32) -> (r: Result<(), NFQError>)
        ensures
            *final(self) == *old(self),
            res < 0 ==> (r matches Err(e)
                && e.reason == ErrorReason::Bind
                && e.res == Some(res)),
            res >= 0 ==> r is Ok,
    {
        if res < 0 {
            Err(error(ErrorReason::Bind, "Failed to bind handle", Some(res)))
        } else {
            Ok(())
        }
    }

    /// Judges the native unbind call's result for the given family: a
    /// negative return is the native failure report.
    ///
    /// Unbinding should usually be avoided, as it may detach other
    /// programs from the family.
    pub fn unbind(&mut self, proto: ProtocolFamily, res: i32) -> (r: Result<(), NFQError>)
        ensures
            *final(self) == *old(self),
            res < 0 ==> (r matches Err(e)
                && e.reason == ErrorReason::Unbind
                && e.res == Some(res)),
            res >= 0 ==> r is Ok,
    {
        if res < 0 {
            Err(error(ErrorReason::Unbind, "Failed to unbind handle", Some(res)))
        } else {
            Ok(())
        }
    }

    /// Ends the handle's life, handing back the native token for the
    /// close call. Consumes the handle, so the token is taken out at most
    /// once, and only after every queue borrowing the handle is gone.
    pub fn release(self) -> (raw: usize)
        requires
            self.wf(),
        ensures
            raw == self.spec_raw(),
            raw != 0,
    {
        self.raw
    }
}

/// What the receive loop does with one blocking read's result.
#[derive(Clone, Copy, Debug, PartialEq, Eq, Structural)]
pub enum RecvOutcome {
    /// Hand the buffer and this byte count to the native packet-dispatch
    /// entry point.
    Dispatch(i32),
    /// End the loop: the read failed, conventionally because the
    /// descriptor was closed.
    Stop,
}

/// The receive loop's one decision: a non-negative byte count is
/// dispatched, a negative one ends the loop.
///
/// The count must fit the native dispatch call's argument; reads fill a
/// caller-supplied buffer whose length is far below that bound.
pub fn recv_disposition(rv: isize) -> (outcome: RecvOutcome)
    requires
        rv <= 0x7FFF_FFFF,
    ensures
        rv >= 0 ==> outcome == RecvOutcome::Dispatch(rv as i32),
        rv < 0 ==> outcome == RecvOutcome::Stop,
{
    if rv >= 0 {
        RecvOutcome::Dispatch(rv as i32)
    } else {
        RecvOutcome::Stop
    }
}

/// The receive-buffer length, in bits, that matches a copy mode sized to a
/// payload structure of the given byte size: the fixed message header's
/// 128 bits, then eight bits per payload byte.
pub fn start_sized_length(payload_bytes: u16) -> (bits: u16)
    requires
        payload_bytes <= 8175,
    ensures
        bits == 128 + 8 * payload_bytes,
{
    128 + 8 * payload_bytes
}

} // verus!
