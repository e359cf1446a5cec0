//! Passive recorder for a peer-to-peer gossip network.
//!
//! The library reconstructs captured traffic by replaying byte streams
//! through a stack of protocol-layer decoders: key unscrambling, protocol
//! negotiation, secure-channel handshake tracking, stream multiplexing and
//! application-level pub/sub decoding.  Decoded records are encoded with a
//! deterministic binary codec and selected through validated query filters.

pub mod accumulator;
pub mod channel;
pub mod context;
pub mod dispatch;
pub mod custom_coding;
pub mod hex_coding;
pub mod ledger;
pub mod meshsub;
pub mod meshsub_events;
pub mod meshsub_pb;
pub mod meshsub_stats;
pub mod multistream;
pub mod noise;
pub mod mux;
pub mod params;
pub mod pnet;
pub mod types;

use vstd::prelude::*;

verus! {

/// Direction of one multiplexed stream's traffic relative to the captured
/// peer: `Forward` is local peer to remote, `Backward` is remote to local.
#[derive(Clone, Copy, PartialEq, Eq, Structural, Debug)]
pub enum FlowDirection {
    Forward,
    Backward,
}

} // verus!
