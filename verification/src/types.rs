//! Core data model: connection and stream identities, stream classification
//! and the compact signed-integer packing of [`StreamMeta`].

use vstd::prelude::*;

verus! {

/// Identity of one transport connection.
#[derive(Clone, Copy, PartialEq, Eq, Structural, Debug)]
pub struct ConnectionId(pub u64);

/// Identity of one multiplexed logical stream, unique within its owning
/// connection.
#[derive(Clone, Copy, PartialEq, Eq, Structural, Debug)]
pub enum StreamId {
    /// The secure-channel handshake pseudo-stream.
    Handshake,
    /// The n-th stream opened in the forward direction.
    Forward(u64),
    /// The n-th stream opened in the backward direction.
    Backward(u64),
}

/// A stream identity qualified by its owning connection.
#[derive(Clone, Copy, PartialEq, Eq, Structural, Debug)]
pub struct StreamFullId {
    pub cn: ConnectionId,
    pub id: StreamId,
}

/// Classification and creation ordinal of a stream.
///
/// Packed into one 64-bit word for storage: the two extreme values are the
/// `Raw` and `Handshake` sentinels, non-negative values are `Forward`
/// ordinals and negative values encode `Backward` ordinals.
#[derive(Clone, Copy, PartialEq, Eq, Structural, Debug)]
pub enum StreamMeta {
    /// Traffic seen before any negotiation.
    Raw,
    /// Secure-channel handshake traffic.
    Handshake,
    /// The n-th stream opened in the forward direction.
    Forward(u64),
    /// The n-th stream opened in the backward direction.
    Backward(u64),
}

/// Sentinel word for `StreamMeta::Raw`: the largest non-negative value of
/// the signed packing.
pub const META_RAW_CODE: u64 = 0x7fff_ffff_ffff_ffff;

/// Sentinel word for `StreamMeta::Handshake`: the smallest negative value
/// of the signed packing.
pub const META_HANDSHAKE_CODE: u64 = 0x8000_0000_0000_0000;

/// A meta is representable when its ordinal stays clear of the two
/// sentinel words.
pub open spec fn stream_meta_valid(m: StreamMeta) -> bool {
    match m {
        StreamMeta::Raw => true,
        StreamMeta::Handshake => true,
        StreamMeta::Forward(n) => n < META_RAW_CODE,
        StreamMeta::Backward(n) => n < META_RAW_CODE,
    }
}

/// The packed 64-bit word of a stream meta.  A backward ordinal n is stored
/// as the two's complement word of -(n + 1).
pub open spec fn stream_meta_code(m: StreamMeta) -> u64 {
    match m {
        StreamMeta::Raw => META_RAW_CODE,
        StreamMeta::Handshake => META_HANDSHAKE_CODE,
        StreamMeta::Forward(n) => n,
        StreamMeta::Backward(n) => (u64::MAX - n) as u64,
    }
}

/// The stream meta denoted by a packed 64-bit word.
pub open spec fn stream_meta_of_code(d: u64) -> StreamMeta {
    if d == META_RAW_CODE {
        StreamMeta::Raw
    } else if d == META_HANDSHAKE_CODE {
        StreamMeta::Handshake
    } else if d < META_HANDSHAKE_CODE {
        StreamMeta::Forward(d)
    } else {
        StreamMeta::Backward((u64::MAX - d) as u64)
    }
}

/// The packing is a bijection: decoding inverts encoding on every
/// representable meta.
pub proof fn lemma_stream_meta_code_round_trip(m: StreamMeta)
    requires
        stream_meta_valid(m),
    ensures
        stream_meta_of_code(stream_meta_code(m)) == m,
{
}

/// Every 64-bit word denotes a representable meta, and encoding inverts
/// decoding, so distinct representable metas never share a word.
pub proof fn lemma_stream_meta_code_onto(d: u64)
    ensures
        stream_meta_valid(stream_meta_of_code(d)),
        stream_meta_code(stream_meta_of_code(d)) == d,
{
}

/// The four variants stay pairwise distinguishable for all ordinals: equal
/// words mean equal metas.
pub proof fn lemma_stream_meta_code_injective(a: StreamMeta, b: StreamMeta)
    requires
        stream_meta_valid(a),
        stream_meta_valid(b),
        stream_meta_code(a) == stream_meta_code(b),
    ensures
        a == b,
{
    lemma_stream_meta_code_round_trip(a);
    lemma_stream_meta_code_round_trip(b);
}

impl StreamMeta {
    /// Runtime form of [`stream_meta_valid`].
    pub fn is_representable(&self) -> (r: bool)
        ensures
            r == stream_meta_valid(*self),
    {
        match self {
            StreamMeta::Raw => true,
            StreamMeta::Handshake => true,
            StreamMeta::Forward(n) => *n < META_RAW_CODE,
            StreamMeta::Backward(n) => *n < META_RAW_CODE,
        }
    }

    /// Pack this meta into its 64-bit word.
    pub fn code(&self) -> (r: u64)
        requires
            stream_meta_valid(*self),
        ensures
            r == stream_meta_code(*self),
    {
        match self {
            StreamMeta::Raw => META_RAW_CODE,
            StreamMeta::Handshake => META_HANDSHAKE_CODE,
            StreamMeta::Forward(n) => *n,
            StreamMeta::Backward(n) => u64::MAX - *n,
        }
    }

    /// Unpack a 64-bit word into the meta it denotes.
    pub fn of_code(d: u64) -> (r: StreamMeta)
        ensures
            r == stream_meta_of_code(d),
            stream_meta_valid(r),
    {
        proof {
            lemma_stream_meta_code_onto(d);
        }
        if d == META_RAW_CODE {
            StreamMeta::Raw
        } else if d == META_HANDSHAKE_CODE {
            StreamMeta::Handshake
        } else if d < META_HANDSHAKE_CODE {
            StreamMeta::Forward(d)
        } else {
            StreamMeta::Backward(u64::MAX - d)
        }
    }
}

/// The protocol spoken on a stream, stored as a 2-byte enumerated value.
#[derive(Clone, Copy, PartialEq, Eq, Structural, Debug)]
pub enum StreamKind {
    /// Secure-channel handshake traffic.
    Handshake,
    /// Distributed-hash-table queries.
    Kad,
    /// Helper-process control channel.
    Ipc,
    /// Peer-exchange advertisements.
    PeerExchange,
    /// Block-exchange requests.
    Bitswap,
    /// Node status probes.
    NodeStatus,
    /// Protocol negotiation lines.
    Select,
    /// Stream multiplexing frames.
    Mplex,
    /// Stream multiplexing frames, window-based variant.
    Yamux,
    /// Application remote procedure calls.
    Rpc,
    /// Gossip publish/subscribe envelopes.
    Meshsub,
    /// Fallback for values this version does not recognize.
    Unknown,
}

/// The 2-byte tag of a stream kind.
pub open spec fn stream_kind_code(k: StreamKind) -> u16 {
    match k {
        StreamKind::Handshake => 1,
        StreamKind::Kad => 2,
        StreamKind::Ipc => 3,
        StreamKind::PeerExchange => 4,
        StreamKind::Bitswap => 5,
        StreamKind::NodeStatus => 6,
        StreamKind::Select => 7,
        StreamKind::Mplex => 8,
        StreamKind::Yamux => 9,
        StreamKind::Rpc => 10,
        StreamKind::Meshsub => 11,
        StreamKind::Unknown => 0xffff,
    }
}

/// The stream kind a 2-byte tag denotes; unrecognized tags fall back to
/// `Unknown` so that records written by a later version stay readable.
pub open spec fn stream_kind_of_code(d: u16) -> StreamKind {
    if d == 1 {
        StreamKind::Handshake
    } else if d == 2 {
        StreamKind::Kad
    } else if d == 3 {
        StreamKind::Ipc
    } else if d == 4 {
        StreamKind::PeerExchange
    } else if d == 5 {
        StreamKind::Bitswap
    } else if d == 6 {
        StreamKind::NodeStatus
    } else if d == 7 {
        StreamKind::Select
    } else if d == 8 {
        StreamKind::Mplex
    } else if d == 9 {
        StreamKind::Yamux
    } else if d == 10 {
        StreamKind::Rpc
    } else if d == 11 {
        StreamKind::Meshsub
    } else {
        StreamKind::Unknown
    }
}

/// Decoding inverts encoding for every stream kind, `Unknown` included.
pub proof fn lemma_stream_kind_code_round_trip(k: StreamKind)
    ensures
        stream_kind_of_code(stream_kind_code(k)) == k,
{
}

impl StreamKind {
    /// The 2-byte tag of this kind.
    pub fn code(&self) -> (r: u16)
        ensures
            r == stream_kind_code(*self),
    {
        match self {
            StreamKind::Handshake => 1,
            StreamKind::Kad => 2,
            StreamKind::Ipc => 3,
            StreamKind::PeerExchange => 4,
            StreamKind::Bitswap => 5,
            StreamKind::NodeStatus => 6,
            StreamKind::Select => 7,
            StreamKind::Mplex => 8,
            StreamKind::Yamux => 9,
            StreamKind::Rpc => 10,
            StreamKind::Meshsub => 11,
            StreamKind::Unknown => 0xffff,
        }
    }

    /// The kind a 2-byte tag denotes, `Unknown` when unrecognized.
    pub fn of_code(d: u16) -> (r: StreamKind)
        ensures
            r == stream_kind_of_code(d),
    {
        if d == 1 {
            StreamKind::Handshake
        } else if d == 2 {
            StreamKind::Kad
        } else if d == 3 {
            StreamKind::Ipc
        } else if d == 4 {
            StreamKind::PeerExchange
        } else if d == 5 {
            StreamKind::Bitswap
        } else if d == 6 {
            StreamKind::NodeStatus
        } else if d == 7 {
            StreamKind::Select
        } else if d == 8 {
            StreamKind::Mplex
        } else if d == 9 {
            StreamKind::Yamux
        } else if d == 10 {
            StreamKind::Rpc
        } else if d == 11 {
            StreamKind::Meshsub
        } else {
            StreamKind::Unknown
        }
    }
}

/// The structural classification of one decoded application message.
#[derive(Clone, Copy, PartialEq, Eq, Structural, Debug)]
pub enum MessageType {
    Subscribe,
    Unsubscribe,
    PublishNewState,
    PublishSnarkPoolDiff,
    PublishTransactionPoolDiff,
    ControlIHave,
    ControlIWant,
    ControlGraft,
    ControlPrune,
}

/// A point in time: seconds and sub-second nanoseconds since the fixed
/// epoch.
#[derive(Clone, Copy, PartialEq, Eq, Structural, Debug)]
pub struct TimePoint {
    pub secs: u64,
    pub nanos: u32,
}

/// A span of time: seconds and sub-second nanoseconds.
#[derive(Clone, Copy, PartialEq, Eq, Structural, Debug)]
pub struct TimeSpan {
    pub secs: u64,
    pub nanos: u32,
}

/// A transport address: 16-byte address form (4-byte addresses in mapped
/// form) and a port.
#[derive(Clone, Copy, Debug)]
pub struct Addr {
    pub ip: [u8; 16],
    pub port: u16,
}

/// Two addresses are the same place when their address bytes and ports
/// agree.
pub open spec fn addr_eq(a: Addr, b: Addr) -> bool {
    a.ip@ =~= b.ip@ && a.port == b.port
}

impl Addr {
    /// Decide [`addr_eq`] at runtime.
    pub fn matches(&self, other: &Addr) -> (r: bool)
        ensures
            r == addr_eq(*self, *other),
    {
        if self.port != other.port {
            return false;
        }
        for i in 0..16
            invariant
                forall|j: int| 0 <= j < i ==> self.ip@[j] == other.ip@[j],
                self.port == other.port,
        {
            if self.ip[i] != other.ip[i] {
                return false;
            }
        }
        true
    }
}

/// Anything ordered by a recording timestamp.
pub trait Timestamp {
    /// The moment this record was captured, as the specification sees it.
    spec fn ts_spec(&self) -> TimePoint;

    /// The moment this record was captured.
    fn timestamp(&self) -> (r: TimePoint)
        ensures
            r == self.ts_spec(),
    ;
}

} // verus!
