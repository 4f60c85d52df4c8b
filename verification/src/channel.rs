//! Chat channels, as stored and as sent by clients.
//!
//! Identifiers are UUIDs held as their 128-bit value.

use crate::Timestamp;
use vstd::prelude::*;

verus! {

/// A channel as the store holds it.
#[derive(Debug, Clone, PartialEq, Eq)]
pub struct Channel {
    pub id: u128,
    pub idx: i64,
    pub name: String,
    pub created_at: Timestamp,
    pub updated_at: Timestamp,
}

/// A channel as a client describes it: only the name is always present.
#[derive(Debug, Clone, PartialEq, Eq)]
pub struct PartialChannel {
    pub id: Option<u128>,
    pub idx: Option<i64>,
    pub name: String,
    pub created_at: Option<Timestamp>,
    pub updated_at: Option<Timestamp>,
}

} // verus!
