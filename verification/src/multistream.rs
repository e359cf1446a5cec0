//! Text-line protocol negotiation.  Each side sends length-prefixed,
//! newline-terminated tokens: a protocol header, proposals from the
//! initiator, and echoes or refusals from the responder.  A proposal
//! echoed back verbatim settles the negotiation; everything after that is
//! handed on untouched.

use vstd::prelude::*;

use crate::FlowDirection;
use crate::meshsub_pb::{lemma_varint_bounds, read_varint, spec_varint};

verus! {

/// Where a negotiation stands.
pub enum NegState {
    /// No proposal is pending.
    Await,
    /// The initiator proposed this protocol name.
    Proposed(Vec<u8>),
    /// Both sides accepted this protocol name.
    Negotiated(Vec<u8>),
    /// The exchange broke the protocol; the stream falls back to raw
    /// recording.
    Failed,
}

/// Mathematical form of a negotiation state.
pub enum NegStateV {
    Await,
    Proposed(Seq<u8>),
    Negotiated(Seq<u8>),
    Failed,
}

impl View for NegState {
    type V = NegStateV;

    open spec fn view(&self) -> NegStateV {
        match self {
            NegState::Await => NegStateV::Await,
            NegState::Proposed(p) => NegStateV::Proposed(p@),
            NegState::Negotiated(p) => NegStateV::Negotiated(p@),
            NegState::Failed => NegStateV::Failed,
        }
    }
}

/// The protocol header token each side sends first.
pub open spec fn header_token() -> Seq<u8> {
    seq![
        0x2fu8,
        0x6d,
        0x75,
        0x6c,
        0x74,
        0x69,
        0x73,
        0x74,
        0x72,
        0x65,
        0x61,
        0x6d,
        0x2f,
        0x31,
        0x2e,
        0x30,
        0x2e,
        0x30,
    ]
}

/// The refusal token.
pub open spec fn na_token() -> Seq<u8> {
    seq![0x6eu8, 0x61]
}

/// How one token moves the negotiation along.  Headers are ignored; a
/// token from the initiator is its latest proposal; the responder may
/// refuse (clearing the proposal) or accept by echoing the pending
/// proposal verbatim.  Anything else breaks the exchange.  A settled or
/// broken negotiation absorbs further tokens.
pub open spec fn spec_neg_step(st: NegStateV, dir: FlowDirection, token: Seq<u8>) -> NegStateV {
    match st {
        NegStateV::Negotiated(n) => NegStateV::Negotiated(n),
        NegStateV::Failed => NegStateV::Failed,
        NegStateV::Await => if token =~= header_token() {
            NegStateV::Await
        } else {
            match dir {
                FlowDirection::Forward => NegStateV::Proposed(token),
                FlowDirection::Backward => if token =~= na_token() {
                    NegStateV::Await
                } else {
                    NegStateV::Failed
                },
            }
        },
        NegStateV::Proposed(p) => if token =~= header_token() {
            NegStateV::Proposed(p)
        } else {
            match dir {
                FlowDirection::Forward => NegStateV::Proposed(token),
                FlowDirection::Backward => if token =~= na_token() {
                    NegStateV::Await
                } else if token =~= p {
                    NegStateV::Negotiated(p)
                } else {
                    NegStateV::Failed
                },
            }
        },
    }
}

/// The state after a whole exchange of tokens, from `st`.
pub open spec fn neg_fold(tokens: Seq<(FlowDirection, Seq<u8>)>, st: NegStateV) -> NegStateV
    decreases tokens.len(),
{
    if tokens.len() == 0 {
        st
    } else {
        neg_fold(tokens.skip(1), spec_neg_step(st, tokens[0].0, tokens[0].1))
    }
}

/// A settled negotiation stays settled under any further tokens.
pub proof fn lemma_negotiated_absorbs(tokens: Seq<(FlowDirection, Seq<u8>)>, name: Seq<u8>)
    ensures
        neg_fold(tokens, NegStateV::Negotiated(name)) == NegStateV::Negotiated(name),
    decreases tokens.len(),
{
    if tokens.len() > 0 {
        lemma_negotiated_absorbs(tokens.skip(1), name);
    }
}

/// After a well-formed exchange, the negotiated name equals the last
/// mutually accepted proposal: the exchange settled at the responder's
/// echo of the then-pending proposal, and nothing after it changed the
/// name.
pub proof fn lemma_negotiated_is_accepted_proposal(
    tokens: Seq<(FlowDirection, Seq<u8>)>,
    st: NegStateV,
    name: Seq<u8>,
)
    requires
        neg_fold(tokens, st) == NegStateV::Negotiated(name),
        !(st is Negotiated),
    ensures
        exists|i: int|
            {
                &&& 0 <= i < tokens.len()
                &&& (#[trigger] tokens[i]).0 is Backward
                &&& tokens[i].1 =~= name
                &&& neg_fold(tokens.take(i), st) == NegStateV::Proposed(name)
            },
    decreases tokens.len(),
{
    let st1 = spec_neg_step(st, tokens[0].0, tokens[0].1);
    if st1 is Negotiated {
        lemma_negotiated_absorbs(tokens.skip(1), st1->Negotiated_0);
        assert(st1 == NegStateV::Negotiated(name));
        assert(st == NegStateV::Proposed(name));
        assert(tokens.take(0) =~= Seq::empty());
        assert(neg_fold(tokens.take(0), st) == NegStateV::Proposed(name));
        assert(tokens[0].0 is Backward && tokens[0].1 =~= name);
    } else {
        lemma_negotiated_is_accepted_proposal(tokens.skip(1), st1, name);
        let i = choose|i: int|
            {
                &&& 0 <= i < tokens.skip(1).len()
                &&& (#[trigger] tokens.skip(1)[i]).0 is Backward
                &&& tokens.skip(1)[i].1 =~= name
                &&& neg_fold(tokens.skip(1).take(i), st1) == NegStateV::Proposed(name)
            };
        assert(tokens[i + 1] == tokens.skip(1)[i]);
        assert(tokens.take(i + 1).skip(1) =~= tokens.skip(1).take(i));
        assert(tokens.take(i + 1)[0] == tokens[0]);
        assert(neg_fold(tokens.take(i + 1), st) == neg_fold(tokens.skip(1).take(i), st1));
    }
}

/// Whether two byte strings hold the same bytes.
fn bytes_eq(a: &[u8], b: &[u8]) -> (r: bool)
    ensures
        r == (a@ =~= b@),
{
    if a.len() != b.len() {
        return false;
    }
    let n = a.len();
    for i in 0..n
        invariant
            n == a@.len() == b@.len(),
            forall|j: int| 0 <= j < i ==> a@[j] == b@[j],
    {
        if a[i] != b[i] {
            return false;
        }
    }
    true
}

/// The protocol header token, as bytes.
fn header_bytes() -> (r: Vec<u8>)
    ensures
        r@ =~= header_token(),
{
    let mut v: Vec<u8> = Vec::new();
    v.push(0x2f);
    v.push(0x6d);
    v.push(0x75);
    v.push(0x6c);
    v.push(0x74);
    v.push(0x69);
    v.push(0x73);
    v.push(0x74);
    v.push(0x72);
    v.push(0x65);
    v.push(0x61);
    v.push(0x6d);
    v.push(0x2f);
    v.push(0x31);
    v.push(0x2e);
    v.push(0x30);
    v.push(0x2e);
    v.push(0x30);
    v
}

/// The protocol negotiation of one connection or stream.
pub struct Negotiator {
    state: NegState,
}

impl Negotiator {
    /// Where the negotiation stands.
    pub closed spec fn state(&self) -> NegStateV {
        self.state@
    }

    /// A fresh negotiation, awaiting the first proposal.
    pub fn new() -> (r: Negotiator)
        ensures
            r.state() == NegStateV::Await,
    {
        Negotiator { state: NegState::Await }
    }

    /// The negotiated name, once both sides accepted one.
    pub fn negotiated(&self) -> (r: Option<&Vec<u8>>)
        ensures
            r matches Some(n) ==> self.state() == NegStateV::Negotiated(n@),
            r is None <==> !(self.state() is Negotiated),
    {
        match &self.state {
            NegState::Negotiated(n) => Some(n),
            _ => None,
        }
    }

    /// Feed one token of the exchange.
    pub fn on_token(&mut self, dir: FlowDirection, token: &Vec<u8>)
        ensures
            final(self).state() == spec_neg_step(old(self).state(), dir, token@),
    {
        let header = header_bytes();
        if bytes_eq(token.as_slice(), header.as_slice()) {
            return ;
        }
        let is_na = token.len() == 2 && token[0] == 0x6e && token[1] == 0x61;
        proof {
            assert(is_na == (token@ =~= na_token()));
        }
        let mut st = NegState::Failed;
        core::mem::swap(&mut st, &mut self.state);
        self.state = match st {
            NegState::Negotiated(n) => NegState::Negotiated(n),
            NegState::Failed => NegState::Failed,
            NegState::Await => match dir {
                FlowDirection::Forward => NegState::Proposed(clone_bytes(token)),
                FlowDirection::Backward => if is_na {
                    NegState::Await
                } else {
                    NegState::Failed
                },
            },
            NegState::Proposed(p) => match dir {
                FlowDirection::Forward => NegState::Proposed(clone_bytes(token)),
                FlowDirection::Backward => if is_na {
                    NegState::Await
                } else if bytes_eq(token.as_slice(), p.as_slice()) {
                    NegState::Negotiated(p)
                } else {
                    NegState::Failed
                },
            },
        };
    }

    /// Feed unscrambled bytes: complete newline-terminated tokens are
    /// consumed and stepped through the exchange; an incomplete trailing
    /// line is left for the next call; once the negotiation settles, every
    /// remaining byte is left untouched for the next layer.  A line without
    /// its newline terminator breaks the exchange.
    pub fn feed(&mut self, dir: FlowDirection, input: &[u8]) -> (r: usize)
        ensures
            (final(self).state(), r as int) == spec_neg_feed(
                input@,
                0,
                old(self).state(),
                dir,
            ),
    {
        let mut i: usize = 0;
        let n = input.len();
        loop
            invariant_except_break
                i <= n,
                n == input@.len(),
                spec_neg_feed(input@, i as int, self.state(), dir) == spec_neg_feed(
                    input@,
                    0,
                    old(self).state(),
                    dir,
                ),
            ensures
                (final(self).state(), i as int) == spec_neg_feed(
                    input@,
                    0,
                    old(self).state(),
                    dir,
                ),
            decreases n - i,
        {
            let done = match &self.state {
                NegState::Negotiated(_) => true,
                NegState::Failed => true,
                _ => false,
            };
            if done {
                break ;
            }
            match read_varint(input, i) {
                None => {
                    break ;
                },
                Some((l, p)) => {
                    proof {
                        lemma_varint_bounds(input@, i as int);
                    }
                    if l > (n - p) as u64 {
                        break ;
                    }
                    let e = p + (l as usize);
                    if l == 0 || input[e - 1] != 0x0a {
                        self.state = NegState::Failed;
                        i = e;
                        proof {
                            assert(input@.subrange(p as int, e as int).len() == l);
                        }
                        continue ;
                    }
                    let token = crate::meshsub_events::span_bytes(
                        input,
                        crate::meshsub_pb::Span { start: p, end: e - 1 },
                    );
                    proof {
                        let line = input@.subrange(p as int, e as int);
                        assert(line.len() == l);
                        assert(line.last() == input@[e - 1]);
                        assert(token@ =~= line.drop_last());
                    }
                    self.on_token(dir, &token);
                    i = e;
                },
            }
        }
        i
    }
}

/// Copy a byte string.
fn clone_bytes(v: &Vec<u8>) -> (r: Vec<u8>)
    ensures
        r@ == v@,
{
    let mut r: Vec<u8> = Vec::new();
    let n = v.len();
    for i in 0..n
        invariant
            n == v@.len(),
            r@ =~= v@.subrange(0, i as int),
    {
        r.push(v[i]);
    }
    proof {
        assert(r@ =~= v@);
    }
    r
}

/// The state and consumed count after feeding bytes from position `i`:
/// complete newline-terminated tokens are stepped through the exchange;
/// an incomplete token is retained; a settled or broken exchange consumes
/// nothing more, so bytes after negotiation pass through unmodified.
pub open spec fn spec_neg_feed(s: Seq<u8>, i: int, st: NegStateV, dir: FlowDirection) -> (
    NegStateV,
    int,
)
    decreases s.len() - i,
{
    if st is Negotiated || st is Failed {
        (st, i)
    } else {
        match spec_varint(s, i) {
            None => (st, i),
            Some((l, p)) => if p + l > s.len() || !(i < p) {
                (st, i)
            } else {
                let line = s.subrange(p, p + l);
                if l == 0 || line.last() != 0x0a {
                    (NegStateV::Failed, p + l)
                } else {
                    spec_neg_feed(s, p + l, spec_neg_step(st, dir, line.drop_last()), dir)
                }
            },
        }
    }
}

/// Once the negotiation has settled, feeding passes every byte through
/// unmodified: nothing is consumed and the name stands.
pub proof fn lemma_negotiated_passes_through(s: Seq<u8>, i: int, name: Seq<u8>, dir: FlowDirection)
    ensures
        spec_neg_feed(s, i, NegStateV::Negotiated(name), dir) == (
            NegStateV::Negotiated(name),
            i,
        ),
{
}

} // verus!
