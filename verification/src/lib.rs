//! The decision logic of a small chat service: which pub/sub topic a socket
//! message goes to, how the broker keeps its roster of connected clients,
//! which store query a broadcast event asks for, and who is told what once
//! the store has answered.
//!
//! Everything that waits on a socket, a database or a pub/sub server lives
//! outside this crate; it hands the values it received to these functions and
//! carries out what they return.

pub mod broker;
pub mod channel;
pub mod db;
pub mod laws;
pub mod message;
pub mod socket;

use vstd::prelude::*;

verus! {

/// An instant in UTC: whole seconds since the Unix epoch, and nanoseconds
/// past that second (from 1_000_000_000 on during a leap second).
#[derive(Debug, Clone, Copy, PartialEq, Eq)]
pub struct Timestamp {
    pub secs: i64,
    pub nanos: u32,
}

/// A user of the chat, as clients name themselves in socket messages.
#[derive(Debug, Clone, PartialEq, Eq)]
pub struct User {
    pub id: i64,
    pub username: String,
}

} // verus!
