//! Identifier types: type-safe identifiers for entities across the system.

use vstd::prelude::*;
use crate::text::{concat, decimal, decimal_string, push_decimal, to_owned};

verus! {

/// Unique identifier for an intent within a graph.
///
/// Format: high 32 bits = step count, low 32 bits = intent index.
#[derive(Debug, Clone, Copy, PartialEq, Eq, Hash, PartialOrd, Ord, Structural)]
pub struct IntentId(pub u64);

/// The value of the identifier built from a step count and an intent index.
pub open spec fn intent_id_value(step_count: u32, intent_index: u32) -> int {
    step_count as int * 0x1_0000_0000 + intent_index as int
}

impl IntentId {
    /// Create a new intent ID from a raw value.
    pub fn new(id: u64) -> (r: Self)
        ensures
            r.0 == id,
    {
        IntentId(id)
    }

    /// Get the next sequential ID.
    pub fn next(&self) -> (r: Self)
        requires
            self.0 < u64::MAX,
        ensures
            r.0 == self.0 + 1,
    {
        IntentId(self.0 + 1)
    }

    /// Create a deterministic IntentId from kernel state.
    pub fn from_step(step_count: u32, intent_index: u32) -> (r: Self)
        ensures
            r.0 == intent_id_value(step_count, intent_index),
    {
        let s: u64 = step_count as u64;
        let i: u64 = intent_index as u64;
        let id: u64 = (s << 32u64) | i;
        assert(id == s * 0x1_0000_0000 + i) by (bit_vector)
            requires
                id == (s << 32u64) | i,
                s < 0x1_0000_0000,
                i < 0x1_0000_0000,
        ;
        IntentId(id)
    }

    /// Extract the step count (high 32 bits).
    pub fn step_count(&self) -> (r: u32)
        ensures
            r == self.0 / 0x1_0000_0000,
    {
        let v: u64 = self.0;
        let h: u64 = v >> 32u64;
        assert(h == v / 0x1_0000_0000 && h < 0x1_0000_0000) by (bit_vector)
            requires
                h == v >> 32u64,
        ;
        h as u32
    }

    /// Extract the intent index (low 32 bits).
    pub fn intent_index(&self) -> (r: u32)
        ensures
            r == self.0 % 0x1_0000_0000,
    {
        let v: u64 = self.0;
        let l: u64 = v & 0xFFFF_FFFFu64;
        assert(l == v % 0x1_0000_0000) by (bit_vector)
            requires
                l == v & 0xFFFF_FFFFu64,
        ;
        l as u32
    }
}

/// Decomposing an identifier built from a step count and an intent index gives
/// back that step count and that index.
pub proof fn lemma_intent_id_roundtrip(step_count: u32, intent_index: u32)
    ensures
        intent_id_value(step_count, intent_index) / 0x1_0000_0000 == step_count,
        intent_id_value(step_count, intent_index) % 0x1_0000_0000 == intent_index,
{
    let v = intent_id_value(step_count, intent_index);
    vstd::arithmetic::div_mod::lemma_fundamental_div_mod_converse(
        v,
        0x1_0000_0000,
        step_count as int,
        intent_index as int,
    );
}

impl IntentId {
    /// The display form `intent:<n>`.
    pub fn to_string(&self) -> (r: String)
        ensures
            r@ == "intent:"@ + decimal(self.0 as nat),
    {
        let mut s = to_owned("intent:");
        push_decimal(&mut s, self.0);
        s
    }
}

/// Unique identifier for a node.
#[derive(Debug, Clone, Copy, PartialEq, Eq, Hash, Structural)]
pub struct NodeId(pub u64);

impl NodeId {
    pub fn new(id: u64) -> (r: Self)
        ensures
            r.0 == id,
    {
        NodeId(id)
    }

    /// The display form `node:<n>`.
    pub fn to_string(&self) -> (r: String)
        ensures
            r@ == "node:"@ + decimal(self.0 as nat),
    {
        let mut s = to_owned("node:");
        push_decimal(&mut s, self.0);
        s
    }
}

/// Unique identifier for an event.
#[derive(Debug, Clone, Copy, PartialEq, Eq, Hash, PartialOrd, Ord, Structural)]
pub struct EventId(pub u64);

impl EventId {
    pub fn new(id: u64) -> (r: Self)
        ensures
            r.0 == id,
    {
        EventId(id)
    }

    pub fn next(&self) -> (r: Self)
        requires
            self.0 < u64::MAX,
        ensures
            r.0 == self.0 + 1,
    {
        EventId(self.0 + 1)
    }

    /// The display form `event:<n>`.
    pub fn to_string(&self) -> (r: String)
        ensures
            r@ == "event:"@ + decimal(self.0 as nat),
    {
        let mut s = to_owned("event:");
        push_decimal(&mut s, self.0);
        s
    }
}

/// Logical clock for event ordering (Lamport clock).
#[derive(Debug, Clone, Copy, PartialEq, Eq, PartialOrd, Ord, Hash, Structural)]
pub struct LogicalClock(pub u64);

impl LogicalClock {
    pub fn zero() -> (r: Self)
        ensures
            r.0 == 0,
    {
        LogicalClock(0)
    }

    pub fn new(time: u64) -> (r: Self)
        ensures
            r.0 == time,
    {
        LogicalClock(time)
    }

    /// Advances the clock by one tick.
    pub fn increment(&mut self)
        requires
            old(self).0 < u64::MAX,
        ensures
            final(self).0 == old(self).0 + 1,
    {
        self.0 = self.0 + 1;
    }

    /// Merges a received time: one past the later of the two clocks.
    pub fn update(&mut self, received: LogicalClock)
        requires
            old(self).0 < u64::MAX,
            received.0 < u64::MAX,
        ensures
            final(self).0 == (if old(self).0 >= received.0 {
                old(self).0
            } else {
                received.0
            }) + 1,
    {
        let m = if self.0 >= received.0 {
            self.0
        } else {
            received.0
        };
        self.0 = m + 1;
    }

    pub fn next(&self) -> (r: Self)
        requires
            self.0 < u64::MAX,
        ensures
            r.0 == self.0 + 1,
    {
        LogicalClock(self.0 + 1)
    }

    /// The display form `t<n>`.
    pub fn to_string(&self) -> (r: String)
        ensures
            r@ == "t"@ + decimal(self.0 as nat),
    {
        let mut s = to_owned("t");
        push_decimal(&mut s, self.0);
        s
    }
}

/// A law of the logical clock: after merging a received time, the clock is
/// strictly later than both its own previous time and the received one.
pub proof fn lemma_clock_update_later(local: u64, received: u64, merged: u64)
    requires
        merged == (if local >= received {
            local
        } else {
            received
        }) + 1,
    ensures
        merged > local,
        merged > received,
{
}

/// Unique identifier for a session.
#[derive(Debug, Clone)]
pub struct SessionId(pub String);

impl SessionId {
    pub fn new(id: &str) -> (r: Self)
        ensures
            r.0@ == id@,
    {
        SessionId(to_owned(id))
    }

    /// The display form `session:<id>`.
    pub fn to_string(&self) -> (r: String)
        ensures
            r@ == "session:"@ + self.0@,
    {
        concat("session:", self.0.as_str())
    }
}

/// Task identifier.
pub type TaskId = String;

/// Job identifier.
pub type JobId = String;

/// Generator for sequential IDs, safe to share between threads.
pub struct IdGenerator {
    next: std::sync::atomic::AtomicU64,
}

impl IdGenerator {
    /// A generator whose first identifier is 1.
    pub fn new() -> (r: Self) {
        IdGenerator { next: std::sync::atomic::AtomicU64::new(1) }
    }

    /// A generator whose first identifier is `start`.
    pub fn starting_at(start: u64) -> (r: Self) {
        IdGenerator { next: std::sync::atomic::AtomicU64::new(start) }
    }

    /// The next intent identifier (shared counter, incremented atomically).
    pub fn next_intent(&self) -> (r: IntentId) {
        IntentId(self.next.fetch_add(1, std::sync::atomic::Ordering::SeqCst))
    }

    /// The next event identifier (same counter as intents).
    pub fn next_event(&self) -> (r: EventId) {
        EventId(self.next.fetch_add(1, std::sync::atomic::Ordering::SeqCst))
    }
}

impl Default for IdGenerator {
    fn default() -> (r: Self) {
        IdGenerator::new()
    }
}

} // verus!
