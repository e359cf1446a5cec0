//! Name-based protocol dispatch: a negotiated protocol name resolves to a
//! handler from a closed, explicitly enumerated set; any unrecognized name
//! falls back to a raw pass-through recorder, so unknown protocols degrade
//! to raw recording rather than failing.

use vstd::prelude::*;

use crate::meshsub_events::{DecodeError, Event, parse_it, spec_events_match, spec_parse_fails};
use crate::types::{ConnectionId, StreamId};
use crate::FlowDirection;

verus! {

/// A routing key for decoded records: connection, optional stream,
/// direction and a per-key monotonic sequence number.
#[derive(Clone, Copy, PartialEq, Eq, Structural, Debug)]
pub struct DirectedId {
    pub cn: ConnectionId,
    pub stream: Option<StreamId>,
    pub direction: FlowDirection,
    pub sequence: u64,
}

/// A handler constructed from a negotiated protocol name.
pub trait DynamicProtocol {
    /// The handler that speaks the protocol of this name on this stream.
    fn from_name(name: &str, stream_id: StreamId) -> Self where Self: core::marker::Sized;
}

/// One protocol layer: consume bytes for one direction, emit zero or more
/// decoded units.
pub trait HandleData {
    /// Decode one chunk of reassembled bytes.
    fn on_data(&mut self, id: DirectedId, bytes: &Vec<u8>) -> Result<Vec<Event>, DecodeError>;
}

/// The closed set of recognized application protocols, with the raw
/// fallback.
#[derive(Clone, Copy, PartialEq, Eq, Structural, Debug)]
pub enum HandlerKind {
    /// Gossip publish/subscribe envelopes.
    Meshsub,
    /// Application remote procedure calls.
    Rpc,
    /// Distributed-hash-table queries.
    Kad,
    /// Pass-through raw recording for unrecognized names.
    Raw,
}

/// Which handler a protocol name resolves to.
pub open spec fn spec_handler_for(name: Seq<char>) -> HandlerKind {
    if name == "/meshsub/1.1.0"@ {
        HandlerKind::Meshsub
    } else if name == "coda/rpcs/0.0.1"@ {
        HandlerKind::Rpc
    } else if name == "/coda/kad/1.0.0"@ {
        HandlerKind::Kad
    } else {
        HandlerKind::Raw
    }
}

/// A per-stream application decoder, created by name-based dispatch.
pub struct Handler {
    pub kind: HandlerKind,
    pub stream_id: StreamId,
}

impl Handler {
    /// Resolve a negotiated protocol name to a handler for one stream.
    /// Unrecognized names resolve to the raw recorder.
    pub fn resolve(name: &str, stream_id: StreamId) -> (r: Handler)
        ensures
            r.kind == spec_handler_for(name@),
            r.stream_id == stream_id,
    {
        let n = name.to_owned();
        let kind = if n == String::from_str("/meshsub/1.1.0") {
            HandlerKind::Meshsub
        } else if n == String::from_str("coda/rpcs/0.0.1") {
            HandlerKind::Rpc
        } else if n == String::from_str("/coda/kad/1.0.0") {
            HandlerKind::Kad
        } else {
            HandlerKind::Raw
        };
        Handler { kind, stream_id }
    }
}

impl DynamicProtocol for Handler {
    fn from_name(name: &str, stream_id: StreamId) -> (r: Self)
        ensures
            r.kind == spec_handler_for(name@),
            r.stream_id == stream_id,
    {
        Handler::resolve(name, stream_id)
    }
}

impl HandleData for Handler {
    /// Decode one chunk: gossip envelopes are decoded structurally, with
    /// content hashes; every other protocol is recorded raw and yields no
    /// structured events.
    fn on_data(&mut self, id: DirectedId, bytes: &Vec<u8>) -> (r: Result<Vec<Event>, DecodeError>)
        ensures
            *final(self) == *old(self),
            old(self).kind is Meshsub ==> {
                &&& r is Err <==> spec_parse_fails(bytes@)
                &&& r matches Ok(es) ==> spec_events_match(bytes@, es@, false, true)
            },
            !(old(self).kind is Meshsub) ==> (r matches Ok(es) && es@.len() == 0),
    {
        match self.kind {
            HandlerKind::Meshsub => parse_it(bytes.as_slice(), false, true),
            _ => Ok(Vec::new()),
        }
    }
}

} // verus!
