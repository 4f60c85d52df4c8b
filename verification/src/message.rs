//! Chat messages, as stored and as sent by clients.
//!
//! Identifiers are UUIDs held as their 128-bit value.

use crate::Timestamp;
use vstd::prelude::*;

verus! {

/// A message as the store holds it.
#[derive(Debug, Clone, PartialEq, Eq)]
pub struct Message {
    pub id: u128,
    pub idx: i64,
    pub username: String,
    pub content: String,
    pub channel_id: u128,
    pub created_at: Timestamp,
    pub updated_at: Timestamp,
}

/// A message as a client describes it: author, text and channel are always
/// present.
#[derive(Debug, Clone, PartialEq, Eq)]
pub struct PartialMessage {
    pub id: Option<u128>,
    pub idx: Option<i64>,
    pub username: String,
    pub content: String,
    pub channel_id: u128,
    pub created_at: Option<Timestamp>,
    pub updated_at: Option<Timestamp>,
}

} // verus!
