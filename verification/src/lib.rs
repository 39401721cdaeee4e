//! Core of a line-oriented chat relay: clients send messages, and every
//! connected client receives every message.
//!
//! - [`protocol`]: the message codec, with its legacy form `sender:content` and
//!   its structured form, a JSON object.
//! - [`hub`]: the broadcast channel that the connections share.
//! - [`pump`]: what one connection does with each event, from its first read
//!   to its release.
//! - [`server`]: what the accept loop does with each outcome of an accept.
//! - [`session`]: what holds of whole runs of a connection, and of several
//!   connections side by side.
//! - [`text`], [`json`], [`error`]: what the others stand on.
//!
//! The library decides and never waits: sockets, timers and tasks belong to
//! its caller, which hands in what happened and carries out what is asked.

use vstd::prelude::*;

pub mod error;
pub mod hub;
pub mod json;
pub mod protocol;
pub mod pump;
pub mod server;
pub mod session;
pub mod text;

verus! {

/// Sum of two counters.
pub fn add(left: u64, right: u64) -> (sum: u64)
    requires
        left + right <= u64::MAX,
    ensures
        sum == left + right,
{
    left + right
}

} // verus!
