//! Error taxonomy for the queue bindings.
//!
//! Every fallible native operation is reported through one [`NFQError`],
//! which records which operation failed, a fixed diagnostic message, the
//! native call's return value when one was observed, and the native `errno`
//! when the caller captured it.

use vstd::prelude::*;

verus! {

/// The operation that an [`NFQError`] originated from.
#[derive(Clone, Copy, Debug, PartialEq, Eq, Structural)]
pub enum ErrorReason {
    /// Opening the top-level library handle failed.
    OpenHandle,
    /// Binding the handle to a protocol family failed.
    Bind,
    /// Unbinding the handle from a protocol family failed.
    Unbind,
    /// Registering a queue with the native library failed.
    CreateQueue,
    /// Configuring a queue's copy mode failed.
    SetQueueMode,
    /// Configuring a queue's maximum length failed.
    SetQueueMaxlen,
    /// Reporting a verdict for a packet failed.
    SetVerdict,
    /// The per-packet header could not be fetched.
    HeaderUnavailable,
    /// The per-packet payload could not be fetched.
    PayloadUnavailable,
    /// Any failure that fits no other reason.
    Unknown,
}

/// An error from one native queue operation.
///
/// `res` holds the native call's return value when the failure came from a
/// call that returned one; `errno` holds the native `errno` when the caller
/// captured it right after the call. Both are diagnostics, never control
/// data.
#[derive(Debug)]
pub struct NFQError {
    /// Which operation failed.
    pub reason: ErrorReason,
    /// A fixed description of the failure.
    pub description: String,
    /// The native call's return value, when one was observed.
    pub res: Option<i32>,
    /// The native `errno` captured after the call, when available.
    pub errno: Option<i32>,
}

/// Builds the error for one failed operation.
///
/// The native `errno` is an environment value that only the caller of the
/// native function can capture; it is attached afterwards with
/// [`NFQError::with_errno`].
pub fn error(reason: ErrorReason, msg: &str, res: Option<i32>) -> (e: NFQError)
    ensures
        e.reason == reason,
        e.description@ == msg@,
        e.res == res,
        e.errno is None,
{
    NFQError { reason, description: msg.to_owned(), res, errno: None }
}

impl NFQError {
    /// Attaches the native `errno` captured after the failing call.
    pub fn with_errno(self, errno: i32) -> (e: NFQError)
        ensures
            e.reason == self.reason,
            e.description@ == self.description@,
            e.res == self.res,
            e.errno == Some(errno),
    {
        NFQError { errno: Some(errno), ..self }
    }

    /// The fixed description of the failure.
    pub fn description(&self) -> (d: &str)
        ensures
            d@ == self.description@,
    {
        self.description.as_str()
    }
}

} // verus!
