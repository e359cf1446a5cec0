//! Cross-message statistics: content hashes and per-block event records
//! used for latency correlation.

use vstd::prelude::*;

use crate::hex_coding::{hex_encode, hex_str_of};
use crate::types::{MessageType, TimePoint, TimeSpan, Timestamp};

verus! {

/// A 32-byte content hash.
#[derive(Clone, Copy, PartialEq, Eq, Debug)]
pub struct Hash(pub [u8; 32]);

impl Hash {
    /// The lowercase hex text of this hash.
    pub fn to_hex(&self) -> (r: String)
        ensures
            r@ == hex_str_of(self.0@),
    {
        hex_encode(self.0.as_slice())
    }
}

impl From<[u8; 32]> for Hash {
    /// Wrap raw digest bytes.
    fn from(v: [u8; 32]) -> (r: Hash) {
        Hash(v)
    }
}

impl vstd::std_specs::convert::FromSpecImpl<[u8; 32]> for Hash {
    open spec fn obeys_from_spec() -> bool {
        true
    }

    open spec fn from_spec(v: [u8; 32]) -> Hash {
        Hash(v)
    }
}

/// One observed gossip message, placed in time and space.
#[derive(Clone, Debug)]
pub struct Event {
    pub incoming: bool,
    pub message_kind: MessageType,
    pub producer_id: Vec<u8>,
    pub hash: Hash,
    pub message_id: u64,
    pub block_height: u32,
    pub global_slot: u32,
    pub time: TimePoint,
    pub sender_addr: String,
    pub receiver_addr: String,
    pub latency: Option<TimeSpan>,
}

impl Timestamp for Event {
    open spec fn ts_spec(&self) -> TimePoint {
        self.time
    }

    fn timestamp(&self) -> (r: TimePoint) {
        self.time
    }
}

/// Events of one block height, gathered for statistics.
#[derive(Debug)]
pub struct T {
    pub height: u32,
    pub events: Vec<Event>,
}

impl T {
    /// Drop the gathered events, keeping the height.
    pub fn clear(&mut self)
        ensures
            final(self).events@ =~= Seq::<Event>::empty(),
            final(self).height == old(self).height,
    {
        self.events = Vec::new();
    }
}

} // verus!
