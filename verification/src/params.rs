//! Query parameters for the read-only store façade: validation of filter
//! combinations and the bounded scan that applies a count limit and a stop
//! timestamp to an ordered range.

use vstd::prelude::*;

use crate::types::{Addr, ConnectionId, MessageType, StreamFullId, StreamId, StreamKind, TimePoint, Timestamp, addr_eq};

verus! {

/// Why a set of query parameters was rejected.
#[derive(Clone, Debug)]
pub enum ParamsValidateError {
    /// The peer address text could not be parsed.
    ParseSocketAddr(String),
    /// A stream-id filter needs a connection-id filter beside it.
    StreamIdWithoutConnectionId,
    /// The stream-id text could not be parsed.
    ParseStreamId(String),
    /// The message-kind text could not be parsed.
    ParseMessageKind,
}

/// Where a scan starts.
#[derive(Clone, Copy, PartialEq, Eq, Structural, Debug)]
pub enum Coordinate {
    /// Start at the record with this timestamp; `explicit` records whether
    /// the caller supplied it or the default was used.
    ByTimestamp { timestamp: u64, explicit: bool },
}

/// Which direction a scan walks the ordered store.
#[derive(Clone, Copy, PartialEq, Eq, Structural, Debug)]
pub enum Direction {
    Forward,
    Reverse,
}

impl Default for Direction {
    /// Scans walk forward unless asked otherwise.
    fn default() -> (r: Direction)
        ensures
            r == Direction::Forward,
    {
        Direction::Forward
    }
}

/// Which streams a query reads.
pub enum StreamFilter {
    /// Every stream of every connection with this peer address.
    AnyStreamByAddr(Addr),
    /// Every stream of one connection.
    AnyStreamInConnection(ConnectionId),
    /// One stream.
    Stream(StreamFullId),
}

/// Which message records a query reads.
pub enum KindFilter {
    /// Every message on streams of these kinds.
    AnyMessageInStream(Vec<StreamKind>),
    /// Messages of these kinds, wherever they appear.
    Message(Vec<MessageType>),
}

/// Raw query parameters, as the façade hands them over.
#[derive(Default)]
pub struct Params {
    /// The start of the list: timestamp of the first record.
    pub timestamp: Option<u64>,
    /// Whether to go forward or reverse; forward when absent.
    pub direction: Direction,
    /// How many records to read; the default is 16, or unbounded when
    /// `limit_timestamp` is given.
    pub limit: Option<usize>,
    /// Stop before records beyond this timestamp.
    pub limit_timestamp: Option<u64>,
    /// Keep only connections with this id.
    pub connection_id: Option<u64>,
    /// Keep only connections with this peer address.
    pub addr: Option<Addr>,
    /// Keep only this stream; needs `connection_id`.
    pub stream_id: Option<StreamId>,
    /// Keep only streams of these kinds.
    pub stream_kind: Option<Vec<StreamKind>>,
    /// Keep only messages of these kinds; wins over `stream_kind`.
    pub message_kind: Option<Vec<MessageType>>,
}

/// A validated scan coordinate.
pub struct ValidParamsCoordinate {
    pub start: Coordinate,
    pub limit: usize,
    pub limit_timestamp: Option<u64>,
    pub direction: Direction,
}

/// Validated parameters for stream and message queries.
pub struct ValidParams {
    pub coordinate: ValidParamsCoordinate,
    pub stream_filter: Option<StreamFilter>,
    pub kind_filter: Option<KindFilter>,
}

/// Validated parameters for connection queries.
pub struct ValidParamsConnection {
    pub coordinate: ValidParamsCoordinate,
}

/// The coordinate that a set of raw parameters denotes.
pub open spec fn spec_coordinate(p: &Params) -> ValidParamsCoordinate {
    ValidParamsCoordinate {
        start: match p.timestamp {
            None => Coordinate::ByTimestamp {
                timestamp: if p.direction is Forward {
                    0
                } else {
                    u64::MAX
                },
                explicit: false,
            },
            Some(timestamp) => Coordinate::ByTimestamp { timestamp, explicit: true },
        },
        limit: if p.limit_timestamp is Some {
            match p.limit {
                Some(l) => l,
                None => usize::MAX,
            }
        } else {
            match p.limit {
                Some(l) => l,
                None => 16,
            }
        },
        limit_timestamp: p.limit_timestamp,
        direction: p.direction,
    }
}

impl Params {
    /// Ask for streams of one kind only.
    pub fn with_stream_kind(self, stream_kind: StreamKind) -> (r: Params)
        ensures
            r.stream_kind matches Some(ks) && ks@ =~= seq![stream_kind],
            r.timestamp == self.timestamp,
            r.direction == self.direction,
            r.limit == self.limit,
            r.limit_timestamp == self.limit_timestamp,
            r.connection_id == self.connection_id,
            r.addr == self.addr,
            r.stream_id == self.stream_id,
            r.message_kind == self.message_kind,
    {
        let mut r = self;
        let mut ks: Vec<StreamKind> = Vec::new();
        ks.push(stream_kind);
        proof {
            assert(ks@ =~= seq![stream_kind]);
        }
        r.stream_kind = Some(ks);
        r
    }

    /// Ask for at most `limit` records.
    pub fn with_limit(self, limit: usize) -> (r: Params)
        ensures
            r.limit == Some(limit),
            r.timestamp == self.timestamp,
            r.direction == self.direction,
            r.limit_timestamp == self.limit_timestamp,
            r.connection_id == self.connection_id,
            r.addr == self.addr,
            r.stream_id == self.stream_id,
            r.stream_kind == self.stream_kind,
            r.message_kind == self.message_kind,
    {
        let mut r = self;
        r.limit = Some(limit);
        r
    }

    /// Resolve the scan start, count limit and direction.  An absent start
    /// means the lowest timestamp going forward and the highest going in
    /// reverse; an absent count means 16, or no bound when a stop timestamp
    /// is given.
    pub fn validate_coordinate(&self) -> (r: ValidParamsCoordinate)
        ensures
            r == spec_coordinate(self),
    {
        let start = match self.timestamp {
            None => match self.direction {
                Direction::Forward => Coordinate::ByTimestamp { timestamp: 0, explicit: false },
                Direction::Reverse => Coordinate::ByTimestamp {
                    timestamp: u64::MAX,
                    explicit: false,
                },
            },
            Some(timestamp) => Coordinate::ByTimestamp { timestamp, explicit: true },
        };
        let limit = if self.limit_timestamp.is_some() {
            match self.limit {
                Some(l) => l,
                None => usize::MAX,
            }
        } else {
            match self.limit {
                Some(l) => l,
                None => 16,
            }
        };
        ValidParamsCoordinate { start, limit, limit_timestamp: self.limit_timestamp, direction: self.direction }
    }

    /// Validation for connection queries: only the coordinate matters.
    pub fn validate_connection(self) -> (r: ValidParamsConnection)
        ensures
            r.coordinate == spec_coordinate(&self),
    {
        let coordinate = self.validate_coordinate();
        ValidParamsConnection { coordinate }
    }

    /// Validation for stream and message queries.
    ///
    /// A stream-id filter without a connection-id filter is contradictory
    /// and rejected, whatever else is supplied; otherwise an address filter
    /// wins.  A message-kind filter wins over a stream-kind filter when
    /// both are supplied.
    pub fn validate(self) -> (r: Result<ValidParams, ParamsValidateError>)
        ensures
            r is Err <==> (self.connection_id is None && self.stream_id is Some),
            r matches Err(e) ==> e is StreamIdWithoutConnectionId,
            r matches Ok(v) ==> {
                &&& v.coordinate == spec_coordinate(&self)
                &&& match self.addr {
                    Some(a) => v.stream_filter matches Some(
                        StreamFilter::AnyStreamByAddr(b),
                    ) && a == b,
                    None => match (self.connection_id, self.stream_id) {
                        (None, None) => v.stream_filter is None,
                        (Some(id), None) => v.stream_filter matches Some(
                            StreamFilter::AnyStreamInConnection(c),
                        ) && c == ConnectionId(id),
                        (Some(id), Some(s)) => v.stream_filter matches Some(
                            StreamFilter::Stream(f),
                        ) && f == (StreamFullId { cn: ConnectionId(id), id: s }),
                        (None, Some(_)) => false,
                    },
                }
                &&& match (self.stream_kind, self.message_kind) {
                    (None, None) => v.kind_filter is None,
                    (Some(ks), None) => v.kind_filter matches Some(
                        KindFilter::AnyMessageInStream(ks2),
                    ) && ks2@ == ks@,
                    (_, Some(ms)) => v.kind_filter matches Some(KindFilter::Message(ms2))
                        && ms2@ == ms@,
                }
            },
    {
        if self.connection_id.is_none() && self.stream_id.is_some() {
            return Err(ParamsValidateError::StreamIdWithoutConnectionId);
        }
        let coordinate = self.validate_coordinate();
        let stream_filter = match (self.addr, self.connection_id, self.stream_id) {
            (Some(addr), _, _) => Some(StreamFilter::AnyStreamByAddr(addr)),
            (None, None, None) => None,
            (None, Some(id), None) => Some(StreamFilter::AnyStreamInConnection(ConnectionId(id))),
            (None, Some(id), Some(s)) => Some(
                StreamFilter::Stream(StreamFullId { cn: ConnectionId(id), id: s }),
            ),
            (None, None, Some(_)) => {
                return Err(ParamsValidateError::StreamIdWithoutConnectionId);
            },
        };
        let kind_filter = match (self.stream_kind, self.message_kind) {
            (None, None) => None,
            (Some(kinds), None) => Some(KindFilter::AnyMessageInStream(kinds)),
            (_, Some(kinds)) => Some(KindFilter::Message(kinds)),
        };
        Ok(ValidParams { coordinate, stream_filter, kind_filter })
    }
}

/// Whether a record at this timestamp is still inside the stop bound.
pub open spec fn spec_admits<T: Timestamp>(
    limit_timestamp: Option<u64>,
    forward: bool,
    t: &T,
) -> bool {
    match limit_timestamp {
        None => true,
        Some(l) => (t.ts_spec().secs < l) == forward,
    }
}

/// Length of the longest prefix of `s` whose records are all inside the
/// stop bound.
pub open spec fn spec_cut<K, T: Timestamp>(
    s: Seq<(K, T)>,
    limit_timestamp: Option<u64>,
    forward: bool,
) -> int
    decreases s.len(),
{
    if s.len() == 0 {
        0
    } else if !spec_admits(limit_timestamp, forward, &s[0].1) {
        0
    } else {
        1 + spec_cut(s.skip(1), limit_timestamp, forward)
    }
}

/// The smaller of two lengths.
pub open spec fn min_int(a: int, b: int) -> int {
    if a < b {
        a
    } else {
        b
    }
}

/// The cut is never negative.
proof fn lemma_cut_nonneg<K, T: Timestamp>(
    s: Seq<(K, T)>,
    limit_timestamp: Option<u64>,
    forward: bool,
)
    ensures
        spec_cut(s, limit_timestamp, forward) >= 0,
    decreases s.len(),
{
    if s.len() > 0 && spec_admits(limit_timestamp, forward, &s[0].1) {
        lemma_cut_nonneg(s.skip(1), limit_timestamp, forward);
    }
}

/// A prefix of admitted records bounds the cut from below.
proof fn lemma_cut_lower<K, T: Timestamp>(
    s: Seq<(K, T)>,
    limit_timestamp: Option<u64>,
    forward: bool,
    i: int,
)
    requires
        0 <= i <= s.len(),
        forall|j: int| 0 <= j < i ==> spec_admits(limit_timestamp, forward, &s[j].1),
    ensures
        spec_cut(s, limit_timestamp, forward) >= i,
    decreases i,
{
    lemma_cut_nonneg(s, limit_timestamp, forward);
    if i > 0 {
        assert(spec_admits(limit_timestamp, forward, &s[0].1));
        assert forall|j: int| 0 <= j < i - 1 implies spec_admits(
            limit_timestamp,
            forward,
            &s.skip(1)[j].1,
        ) by {
            assert(s.skip(1)[j] == s[j + 1]);
        }
        lemma_cut_lower(s.skip(1), limit_timestamp, forward, i - 1);
        assert(spec_cut(s, limit_timestamp, forward) == 1 + spec_cut(
            s.skip(1),
            limit_timestamp,
            forward,
        ));
    }
}

/// An admitted prefix closed off by a refused record pins the cut exactly.
proof fn lemma_cut_exact<K, T: Timestamp>(
    s: Seq<(K, T)>,
    limit_timestamp: Option<u64>,
    forward: bool,
    i: int,
)
    requires
        0 <= i <= s.len(),
        forall|j: int| 0 <= j < i ==> spec_admits(limit_timestamp, forward, &s[j].1),
        i < s.len() ==> !spec_admits(limit_timestamp, forward, &s[i].1),
    ensures
        spec_cut(s, limit_timestamp, forward) == i,
    decreases i,
{
    if i == 0 {
    } else {
        assert(spec_admits(limit_timestamp, forward, &s[0].1));
        assert forall|j: int| 0 <= j < i - 1 implies spec_admits(
            limit_timestamp,
            forward,
            &s.skip(1)[j].1,
        ) by {
            assert(s.skip(1)[j] == s[j + 1]);
        }
        assert(i - 1 < s.skip(1).len() ==> !spec_admits(limit_timestamp, forward, &s.skip(1)[i - 1].1))
            by {
            if i - 1 < s.skip(1).len() {
                assert(s.skip(1)[i - 1] == s[i]);
            }
        }
        lemma_cut_exact(s.skip(1), limit_timestamp, forward, i - 1);
    }
}

impl ValidParamsCoordinate {
    /// Bounded scan over an ordered range: keep records while they are
    /// inside the stop timestamp (compared in the scan direction), and stop
    /// after `limit` records, whichever comes first.
    pub fn limit<K, T: Timestamp>(&self, it: Vec<(K, T)>) -> (r: Vec<(K, T)>)
        ensures
            r@ == it@.take(
                min_int(
                    self.limit as int,
                    spec_cut(it@, self.limit_timestamp, self.direction is Forward),
                ),
            ),
    {
        let ghost lt = self.limit_timestamp;
        let ghost fwd = self.direction is Forward;
        let total = it.len();
        let mut src = it;
        let mut rev: Vec<(K, T)> = Vec::new();
        while src.len() > 0
            invariant
                total == it@.len(),
                src@.len() + rev@.len() == total,
                src@ =~= it@.take(src@.len() as int),
                forall|j: int| 0 <= j < rev@.len() ==> rev@[j] == it@[total - 1 - j],
            decreases src@.len(),
        {
            proof {
                assert(src@.last() == it@[src@.len() - 1]);
            }
            let x = src.pop().unwrap();
            rev.push(x);
            proof {
                assert(src@ =~= it@.take(src@.len() as int));
            }
        }
        let mut out: Vec<(K, T)> = Vec::new();
        loop
            invariant_except_break
                total == it@.len(),
                lt == self.limit_timestamp,
                fwd == (self.direction is Forward),
                out@.len() + rev@.len() == total,
                out@ =~= it@.take(out@.len() as int),
                out@.len() <= self.limit,
                forall|j: int| 0 <= j < rev@.len() ==> rev@[j] == it@[total - 1 - j],
                forall|j: int| 0 <= j < out@.len() ==> spec_admits(lt, fwd, &it@[j].1),
            ensures
                out@ == it@.take(min_int(self.limit as int, spec_cut(it@, lt, fwd))),
            decreases rev@.len(),
        {
            let ghost idx = out@.len() as int;
            if rev.len() == 0 {
                proof {
                    lemma_cut_exact(it@, lt, fwd, idx);
                }
                break;
            }
            if out.len() == self.limit {
                proof {
                    lemma_cut_lower(it@, lt, fwd, idx);
                }
                break;
            }
            proof {
                assert(rev@[rev@.len() - 1] == it@[total - 1 - (rev@.len() - 1)]);
                assert(rev@.last() == it@[idx]);
            }
            let pair = rev.pop().unwrap();
            let admit_here = match self.limit_timestamp {
                None => true,
                Some(l) => {
                    let secs = pair.1.timestamp().secs;
                    match self.direction {
                        Direction::Forward => secs < l,
                        Direction::Reverse => !(secs < l),
                    }
                },
            };
            if !admit_here {
                proof {
                    assert(!spec_admits(lt, fwd, &it@[idx].1));
                    lemma_cut_exact(it@, lt, fwd, idx);
                }
                break;
            }
            out.push(pair);
            proof {
                assert(out@ =~= it@.take(out@.len() as int));
            }
        }
        out
    }
}

impl ValidParamsConnection {
    /// The bounded scan of the validated coordinate.
    pub fn limit<T: Timestamp>(&self, it: Vec<(u64, T)>) -> (r: Vec<(u64, T)>)
        ensures
            r@ == it@.take(
                min_int(
                    self.coordinate.limit as int,
                    spec_cut(
                        it@,
                        self.coordinate.limit_timestamp,
                        self.coordinate.direction is Forward,
                    ),
                ),
            ),
    {
        self.coordinate.limit(it)
    }
}

impl ValidParams {
    /// The bounded scan of the validated coordinate.
    pub fn limit<K, T: Timestamp>(&self, it: Vec<(K, T)>) -> (r: Vec<(K, T)>)
        ensures
            r@ == it@.take(
                min_int(
                    self.coordinate.limit as int,
                    spec_cut(
                        it@,
                        self.coordinate.limit_timestamp,
                        self.coordinate.direction is Forward,
                    ),
                ),
            ),
    {
        self.coordinate.limit(it)
    }
}

/// One recorded connection, as the connection query sees it.
#[derive(Clone, Copy, Debug)]
pub struct ConnectionRecord {
    pub id: ConnectionId,
    pub addr: Addr,
    pub timestamp: TimePoint,
}

/// The connections of `items` whose recorded peer address equals `a`, in
/// their stored order.
pub open spec fn spec_connections_with_addr(items: Seq<ConnectionRecord>, a: Addr) -> Seq<
    ConnectionRecord,
>
    decreases items.len(),
{
    if items.len() == 0 {
        Seq::empty()
    } else {
        let rest = spec_connections_with_addr(items.drop_last(), a);
        if addr_eq(items.last().addr, a) {
            rest.push(items.last())
        } else {
            rest
        }
    }
}

/// The selection is sound and complete: every selected connection has the
/// address, and every connection with the address is selected.
pub proof fn lemma_connections_with_addr_exact(items: Seq<ConnectionRecord>, a: Addr)
    ensures
        forall|j: int|
            0 <= j < spec_connections_with_addr(items, a).len() ==> addr_eq(
                #[trigger] spec_connections_with_addr(items, a)[j].addr,
                a,
            ),
        forall|i: int|
            0 <= i < items.len() && addr_eq(#[trigger] items[i].addr, a)
                ==> spec_connections_with_addr(items, a).contains(items[i]),
    decreases items.len(),
{
    if items.len() > 0 {
        lemma_connections_with_addr_exact(items.drop_last(), a);
        let rest = spec_connections_with_addr(items.drop_last(), a);
        let whole = spec_connections_with_addr(items, a);
        assert forall|i: int|
            0 <= i < items.len() && addr_eq(#[trigger] items[i].addr, a) implies whole.contains(
            items[i],
        ) by {
            if i < items.len() - 1 {
                assert(items.drop_last()[i] == items[i]);
                assert(rest.contains(items[i]));
                let w = choose|w: int| 0 <= w < rest.len() && rest[w] == items[i];
                assert(whole[w] == items[i]);
            } else {
                assert(whole.last() == items[i]);
            }
        }
    }
}

/// A query for connections filtered by peer address returns exactly the
/// connections whose recorded address equals that address.
pub fn filter_connections_by_addr(items: &Vec<ConnectionRecord>, addr: &Addr) -> (r: Vec<
    ConnectionRecord,
>)
    ensures
        r@ == spec_connections_with_addr(items@, *addr),
{
    let mut r: Vec<ConnectionRecord> = Vec::new();
    let n = items.len();
    for i in 0..n
        invariant
            n == items@.len(),
            r@ =~= spec_connections_with_addr(items@.take(i as int), *addr),
    {
        proof {
            assert(items@.take(i + 1).drop_last() =~= items@.take(i as int));
            assert(items@.take(i + 1).last() == items@[i as int]);
        }
        let c = items[i];
        if c.addr.matches(addr) {
            r.push(c);
        }
    }
    proof {
        assert(items@.take(n as int) =~= items@);
    }
    r
}

} // verus!
