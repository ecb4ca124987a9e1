//! A verified core for userspace packet-queue bindings.
//!
//! The kernel's packet-queuing facility diverts matched packets to a
//! userspace program, which inspects each one and reports a verdict back.
//! The native library that speaks the kernel protocol is a fixed foreign
//! boundary; everything this crate can decide without crossing it is
//! gathered here and verified:
//!
//! - the closed verdict set and its numeric encoding ([`verdict`]),
//! - the byte-order handling of the raw packet header ([`message`]),
//! - the per-packet message view and its recoverable failures ([`message`]),
//! - the queue registration state machine and the callback dispatch
//!   protocol ([`queue`]),
//! - the handle lifecycle and receive-loop decisions ([`handle`]),
//! - the error taxonomy ([`error`]).
//!
//! The foreign shell around this crate performs the native calls and hands
//! their results in as plain values; every decision taken on those values
//! is specified and proved here.

pub mod error;
pub mod handle;
pub mod message;
pub mod queue;
pub mod verdict;
