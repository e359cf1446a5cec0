//! The gossip/pub-sub envelope: subscribe/unsubscribe declarations,
//! publish messages and control sub-messages, decoded from the
//! length-delimited wire form into structured events.
//!
//! Parsed sub-messages carry spans into the envelope buffer; the event
//! layer turns them into owned values.

use vstd::prelude::*;

use crate::meshsub_pb::{FieldVal, Span, lemma_next_field_bounds, next_field, read_varint, spec_next_field, spec_varint};

verus! {

/// One subscription change: subscribe or unsubscribe to one topic.
#[derive(Clone, Copy, PartialEq, Eq, Structural, Debug)]
pub struct SubOpt {
    pub subscribe: Option<bool>,
    pub topic_id: Option<Span>,
}


/// Every span of a subscription change lies inside a buffer of length `n`.
pub open spec fn spec_sub_opt_ok(o: SubOpt, n: int) -> bool {
    match o.topic_id {
        Some(sp) => sp.inside(n),
        None => true,
    }
}

/// Whether an optional span lies inside a buffer of length `n`.
pub open spec fn spec_opt_span_ok(o: Option<Span>, n: int) -> bool {
    match o {
        Some(sp) => sp.inside(n),
        None => true,
    }
}

/// How one field changes a partially read subscription change; an unknown
/// field is skipped, a known field of the wrong shape fails.
pub open spec fn spec_sub_opt_field(acc: SubOpt, tag: u64, val: FieldVal) -> Option<SubOpt> {
    if tag == 1 {
        match val {
            FieldVal::Varint(v) => Some(SubOpt { subscribe: Some(v != 0), topic_id: acc.topic_id }),
            _ => None,
        }
    } else if tag == 2 {
        match val {
            FieldVal::Len(sp) => Some(SubOpt { subscribe: acc.subscribe, topic_id: Some(sp) }),
            _ => None,
        }
    } else {
        Some(acc)
    }
}

/// The subscription change read from the fields in `[i, end)`, continuing
/// from `acc`.
pub open spec fn spec_parse_sub_opt_at(s: Seq<u8>, i: int, end: int, acc: SubOpt) -> Option<SubOpt>
    decreases end - i,
{
    if i == end {
        Some(acc)
    } else if i > end {
        None
    } else {
        match spec_next_field(s, i) {
            None => None,
            Some((tag, val, n)) => if n <= i || n > end {
                None
            } else {
                match spec_sub_opt_field(acc, tag, val) {
                    None => None,
                    Some(acc2) => spec_parse_sub_opt_at(s, n, end, acc2),
                }
            },
        }
    }
}

/// The subscription change encoded in this span.
pub open spec fn spec_parse_sub_opt(s: Seq<u8>, sp: Span) -> Option<SubOpt> {
    spec_parse_sub_opt_at(
        s,
        sp.start as int,
        sp.end as int,
        SubOpt { subscribe: None, topic_id: None },
    )
}

/// Apply one field to a partially read subscription change.
fn sub_opt_field(acc: SubOpt, tag: u64, val: FieldVal) -> (r: Option<SubOpt>)
    ensures
        r == spec_sub_opt_field(acc, tag, val),
{
    if tag == 1 {
        match val {
            FieldVal::Varint(v) => Some(SubOpt { subscribe: Some(v != 0), topic_id: acc.topic_id }),
            _ => None,
        }
    } else if tag == 2 {
        match val {
            FieldVal::Len(sp) => Some(SubOpt { subscribe: acc.subscribe, topic_id: Some(sp) }),
            _ => None,
        }
    } else {
        Some(acc)
    }
}

/// Read one subscription change from its span.
pub fn parse_sub_opt(s: &[u8], sp: Span) -> (r: Option<SubOpt>)
    requires
        sp.inside(s@.len() as int),
    ensures
        r == spec_parse_sub_opt(s@, sp),
        r matches Some(o) ==> spec_sub_opt_ok(o, s@.len() as int),
{
    let mut acc = SubOpt { subscribe: None, topic_id: None };
    let slen = s.len();
    let mut i = sp.start;
    while i < sp.end
        invariant
            slen == s@.len(),
            sp.inside(s@.len() as int),
            sp.start <= i <= sp.end,
            spec_parse_sub_opt_at(s@, i as int, sp.end as int, acc) == spec_parse_sub_opt(s@, sp),
            spec_sub_opt_ok(acc, s@.len() as int),
        decreases sp.end - i,
    {
        match next_field(s, i) {
            None => {
                return None;
            },
            Some((tag, val, n)) => {
                proof {
                    lemma_next_field_bounds(s@, i as int);
                }
                if n > sp.end {
                    return None;
                }
                match sub_opt_field(acc, tag, val) {
                    None => {
                        return None;
                    },
                    Some(acc2) => {
                        acc = acc2;
                        i = n;
                    },
                }
            },
        }
    }
    Some(acc)
}

/// One published message: sender, payload and routing metadata, all as
/// spans into the envelope.
#[derive(Clone, Copy, PartialEq, Eq, Structural, Debug)]
pub struct PubMsg {
    pub from: Option<Span>,
    pub data: Option<Span>,
    pub seqno: Option<Span>,
    pub topic: Option<Span>,
    pub signature: Option<Span>,
    pub key: Option<Span>,
}


/// Every span of a published message lies inside a buffer of length `n`.
pub open spec fn spec_pub_msg_ok(m: PubMsg, n: int) -> bool {
    spec_opt_span_ok(m.from, n) && spec_opt_span_ok(m.data, n) && spec_opt_span_ok(m.seqno, n)
        && spec_opt_span_ok(m.topic, n) && spec_opt_span_ok(m.signature, n) && spec_opt_span_ok(
        m.key,
        n,
    )
}

/// How one field changes a partially read published message.
pub open spec fn spec_pub_msg_field(acc: PubMsg, tag: u64, val: FieldVal) -> Option<PubMsg> {
    if 1 <= tag <= 6 {
        match val {
            FieldVal::Len(sp) => Some(
                PubMsg {
                    from: if tag == 1 {
                        Some(sp)
                    } else {
                        acc.from
                    },
                    data: if tag == 2 {
                        Some(sp)
                    } else {
                        acc.data
                    },
                    seqno: if tag == 3 {
                        Some(sp)
                    } else {
                        acc.seqno
                    },
                    topic: if tag == 4 {
                        Some(sp)
                    } else {
                        acc.topic
                    },
                    signature: if tag == 5 {
                        Some(sp)
                    } else {
                        acc.signature
                    },
                    key: if tag == 6 {
                        Some(sp)
                    } else {
                        acc.key
                    },
                },
            ),
            _ => None,
        }
    } else {
        Some(acc)
    }
}

/// The published message read from the fields in `[i, end)`.
pub open spec fn spec_parse_pub_msg_at(s: Seq<u8>, i: int, end: int, acc: PubMsg) -> Option<PubMsg>
    decreases end - i,
{
    if i == end {
        Some(acc)
    } else if i > end {
        None
    } else {
        match spec_next_field(s, i) {
            None => None,
            Some((tag, val, n)) => if n <= i || n > end {
                None
            } else {
                match spec_pub_msg_field(acc, tag, val) {
                    None => None,
                    Some(acc2) => spec_parse_pub_msg_at(s, n, end, acc2),
                }
            },
        }
    }
}

/// The published message encoded in this span.
pub open spec fn spec_parse_pub_msg(s: Seq<u8>, sp: Span) -> Option<PubMsg> {
    spec_parse_pub_msg_at(
        s,
        sp.start as int,
        sp.end as int,
        PubMsg { from: None, data: None, seqno: None, topic: None, signature: None, key: None },
    )
}

/// Apply one field to a partially read published message.
fn pub_msg_field(acc: PubMsg, tag: u64, val: FieldVal) -> (r: Option<PubMsg>)
    ensures
        r == spec_pub_msg_field(acc, tag, val),
{
    if 1 <= tag && tag <= 6 {
        match val {
            FieldVal::Len(sp) => {
                let mut acc2 = acc;
                if tag == 1 {
                    acc2.from = Some(sp);
                } else if tag == 2 {
                    acc2.data = Some(sp);
                } else if tag == 3 {
                    acc2.seqno = Some(sp);
                } else if tag == 4 {
                    acc2.topic = Some(sp);
                } else if tag == 5 {
                    acc2.signature = Some(sp);
                } else {
                    acc2.key = Some(sp);
                }
                Some(acc2)
            },
            _ => None,
        }
    } else {
        Some(acc)
    }
}

/// Read one published message from its span.
pub fn parse_pub_msg(s: &[u8], sp: Span) -> (r: Option<PubMsg>)
    requires
        sp.inside(s@.len() as int),
    ensures
        r == spec_parse_pub_msg(s@, sp),
        r matches Some(o) ==> spec_pub_msg_ok(o, s@.len() as int),
{
    let mut acc = PubMsg {
        from: None,
        data: None,
        seqno: None,
        topic: None,
        signature: None,
        key: None,
    };
    let slen = s.len();
    let mut i = sp.start;
    while i < sp.end
        invariant
            slen == s@.len(),
            sp.inside(s@.len() as int),
            sp.start <= i <= sp.end,
            spec_parse_pub_msg_at(s@, i as int, sp.end as int, acc) == spec_parse_pub_msg(s@, sp),
            spec_pub_msg_ok(acc, s@.len() as int),
        decreases sp.end - i,
    {
        match next_field(s, i) {
            None => {
                return None;
            },
            Some((tag, val, n)) => {
                proof {
                    lemma_next_field_bounds(s@, i as int);
                }
                if n > sp.end {
                    return None;
                }
                match pub_msg_field(acc, tag, val) {
                    None => {
                        return None;
                    },
                    Some(acc2) => {
                        acc = acc2;
                        i = n;
                    },
                }
            },
        }
    }
    Some(acc)
}

/// A graft announcement: the sender adds us to its mesh for one topic.
#[derive(Clone, Copy, PartialEq, Eq, Structural, Debug)]
pub struct GraftFrame {
    pub topic_id: Option<Span>,
}


/// Every span of a graft announcement lies inside a buffer of length `n`.
pub open spec fn spec_graft_ok(g: GraftFrame, n: int) -> bool {
    spec_opt_span_ok(g.topic_id, n)
}

/// How one field changes a partially read graft announcement.
pub open spec fn spec_graft_field(acc: GraftFrame, tag: u64, val: FieldVal) -> Option<
    GraftFrame,
> {
    if tag == 1 {
        match val {
            FieldVal::Len(sp) => Some(GraftFrame { topic_id: Some(sp) }),
            _ => None,
        }
    } else {
        Some(acc)
    }
}

/// The graft announcement read from the fields in `[i, end)`.
pub open spec fn spec_parse_graft_at(s: Seq<u8>, i: int, end: int, acc: GraftFrame) -> Option<
    GraftFrame,
>
    decreases end - i,
{
    if i == end {
        Some(acc)
    } else if i > end {
        None
    } else {
        match spec_next_field(s, i) {
            None => None,
            Some((tag, val, n)) => if n <= i || n > end {
                None
            } else {
                match spec_graft_field(acc, tag, val) {
                    None => None,
                    Some(acc2) => spec_parse_graft_at(s, n, end, acc2),
                }
            },
        }
    }
}

/// The graft announcement encoded in this span.
pub open spec fn spec_parse_graft(s: Seq<u8>, sp: Span) -> Option<GraftFrame> {
    spec_parse_graft_at(s, sp.start as int, sp.end as int, GraftFrame { topic_id: None })
}

/// Read one graft announcement from its span.
pub fn parse_graft(s: &[u8], sp: Span) -> (r: Option<GraftFrame>)
    requires
        sp.inside(s@.len() as int),
    ensures
        r == spec_parse_graft(s@, sp),
        r matches Some(o) ==> spec_graft_ok(o, s@.len() as int),
{
    let mut acc = GraftFrame { topic_id: None };
    let slen = s.len();
    let mut i = sp.start;
    while i < sp.end
        invariant
            slen == s@.len(),
            sp.inside(s@.len() as int),
            sp.start <= i <= sp.end,
            spec_parse_graft_at(s@, i as int, sp.end as int, acc) == spec_parse_graft(s@, sp),
            spec_graft_ok(acc, s@.len() as int),
        decreases sp.end - i,
    {
        match next_field(s, i) {
            None => {
                return None;
            },
            Some((tag, val, n)) => {
                proof {
                    lemma_next_field_bounds(s@, i as int);
                }
                if n > sp.end {
                    return None;
                }
                let acc2 = if tag == 1 {
                    match val {
                        FieldVal::Len(sp2) => Some(GraftFrame { topic_id: Some(sp2) }),
                        _ => None,
                    }
                } else {
                    Some(acc)
                };
                match acc2 {
                    None => {
                        return None;
                    },
                    Some(a) => {
                        acc = a;
                        i = n;
                    },
                }
            },
        }
    }
    Some(acc)
}

/// A peer advertisement inside a prune: identity and signed record.
#[derive(Clone, Copy, PartialEq, Eq, Structural, Debug)]
pub struct PeerInfoFrame {
    pub peer_id: Option<Span>,
    pub signed_peer_record: Option<Span>,
}


/// Every span of a peer advertisement lies inside a buffer of length `n`.
pub open spec fn spec_peer_info_ok(p: PeerInfoFrame, n: int) -> bool {
    spec_opt_span_ok(p.peer_id, n) && spec_opt_span_ok(p.signed_peer_record, n)
}

/// How one field changes a partially read peer advertisement.
pub open spec fn spec_peer_info_field(acc: PeerInfoFrame, tag: u64, val: FieldVal) -> Option<PeerInfoFrame> {
    if tag == 1 {
        match val {
            FieldVal::Len(sp) => Some(
                PeerInfoFrame { peer_id: Some(sp), signed_peer_record: acc.signed_peer_record },
            ),
            _ => None,
        }
    } else if tag == 2 {
        match val {
            FieldVal::Len(sp) => Some(PeerInfoFrame { peer_id: acc.peer_id, signed_peer_record: Some(sp) }),
            _ => None,
        }
    } else {
        Some(acc)
    }
}

/// The peer advertisement read from the fields in `[i, end)`.
pub open spec fn spec_parse_peer_info_at(s: Seq<u8>, i: int, end: int, acc: PeerInfoFrame) -> Option<
    PeerInfoFrame,
>
    decreases end - i,
{
    if i == end {
        Some(acc)
    } else if i > end {
        None
    } else {
        match spec_next_field(s, i) {
            None => None,
            Some((tag, val, n)) => if n <= i || n > end {
                None
            } else {
                match spec_peer_info_field(acc, tag, val) {
                    None => None,
                    Some(acc2) => spec_parse_peer_info_at(s, n, end, acc2),
                }
            },
        }
    }
}

/// The peer advertisement encoded in this span.
pub open spec fn spec_parse_peer_info(s: Seq<u8>, sp: Span) -> Option<PeerInfoFrame> {
    spec_parse_peer_info_at(
        s,
        sp.start as int,
        sp.end as int,
        PeerInfoFrame { peer_id: None, signed_peer_record: None },
    )
}

/// Apply one field to a partially read peer advertisement.
fn peer_info_field(acc: PeerInfoFrame, tag: u64, val: FieldVal) -> (r: Option<PeerInfoFrame>)
    ensures
        r == spec_peer_info_field(acc, tag, val),
{
    if tag == 1 {
        match val {
            FieldVal::Len(sp) => Some(
                PeerInfoFrame { peer_id: Some(sp), signed_peer_record: acc.signed_peer_record },
            ),
            _ => None,
        }
    } else if tag == 2 {
        match val {
            FieldVal::Len(sp) => Some(PeerInfoFrame { peer_id: acc.peer_id, signed_peer_record: Some(sp) }),
            _ => None,
        }
    } else {
        Some(acc)
    }
}

/// Read one peer advertisement from its span.
pub fn parse_peer_info(s: &[u8], sp: Span) -> (r: Option<PeerInfoFrame>)
    requires
        sp.inside(s@.len() as int),
    ensures
        r == spec_parse_peer_info(s@, sp),
        r matches Some(o) ==> spec_peer_info_ok(o, s@.len() as int),
{
    let mut acc = PeerInfoFrame { peer_id: None, signed_peer_record: None };
    let slen = s.len();
    let mut i = sp.start;
    while i < sp.end
        invariant
            slen == s@.len(),
            sp.inside(s@.len() as int),
            sp.start <= i <= sp.end,
            spec_parse_peer_info_at(s@, i as int, sp.end as int, acc) == spec_parse_peer_info(
                s@,
                sp,
            ),
            spec_peer_info_ok(acc, s@.len() as int),
        decreases sp.end - i,
    {
        match next_field(s, i) {
            None => {
                return None;
            },
            Some((tag, val, n)) => {
                proof {
                    lemma_next_field_bounds(s@, i as int);
                }
                if n > sp.end {
                    return None;
                }
                match peer_info_field(acc, tag, val) {
                    None => {
                        return None;
                    },
                    Some(acc2) => {
                        acc = acc2;
                        i = n;
                    },
                }
            },
        }
    }
    Some(acc)
}

/// Identifiers the sender has messages for: a topic and a list of message
/// identifiers.
pub struct IHaveFrame {
    pub topic_id: Option<Span>,
    pub message_ids: Vec<Span>,
}

/// Mathematical form of a have-list.
pub struct IHaveFrameV {
    pub topic_id: Option<Span>,
    pub message_ids: Seq<Span>,
}

impl View for IHaveFrame {
    type V = IHaveFrameV;

    open spec fn view(&self) -> IHaveFrameV {
        IHaveFrameV { topic_id: self.topic_id, message_ids: self.message_ids@ }
    }
}


/// Every span of a have-list lies inside a buffer of length `n`.
pub open spec fn spec_ihave_ok(f: IHaveFrameV, n: int) -> bool {
    spec_opt_span_ok(f.topic_id, n) && (forall|j: int|
        0 <= j < f.message_ids.len() ==> (#[trigger] f.message_ids[j]).inside(n))
}

/// How one field changes a partially read have-list.
pub open spec fn spec_ihave_field(acc: IHaveFrameV, tag: u64, val: FieldVal) -> Option<
    IHaveFrameV,
> {
    if tag == 1 {
        match val {
            FieldVal::Len(sp) => Some(
                IHaveFrameV { topic_id: Some(sp), message_ids: acc.message_ids },
            ),
            _ => None,
        }
    } else if tag == 2 {
        match val {
            FieldVal::Len(sp) => Some(
                IHaveFrameV { topic_id: acc.topic_id, message_ids: acc.message_ids.push(sp) },
            ),
            _ => None,
        }
    } else {
        Some(acc)
    }
}

/// The have-list read from the fields in `[i, end)`.
pub open spec fn spec_parse_ihave_at(s: Seq<u8>, i: int, end: int, acc: IHaveFrameV) -> Option<
    IHaveFrameV,
>
    decreases end - i,
{
    if i == end {
        Some(acc)
    } else if i > end {
        None
    } else {
        match spec_next_field(s, i) {
            None => None,
            Some((tag, val, n)) => if n <= i || n > end {
                None
            } else {
                match spec_ihave_field(acc, tag, val) {
                    None => None,
                    Some(acc2) => spec_parse_ihave_at(s, n, end, acc2),
                }
            },
        }
    }
}

/// The have-list encoded in this span.
pub open spec fn spec_parse_ihave(s: Seq<u8>, sp: Span) -> Option<IHaveFrameV> {
    spec_parse_ihave_at(
        s,
        sp.start as int,
        sp.end as int,
        IHaveFrameV { topic_id: None, message_ids: Seq::empty() },
    )
}

/// Read one have-list from its span.
pub fn parse_ihave(s: &[u8], sp: Span) -> (r: Option<IHaveFrame>)
    requires
        sp.inside(s@.len() as int),
    ensures
        r matches Some(m) ==> spec_parse_ihave(s@, sp) == Some(m@),
        r is Some <==> spec_parse_ihave(s@, sp) is Some,
        r matches Some(m) ==> spec_ihave_ok(m@, s@.len() as int),
{
    let mut acc = IHaveFrame { topic_id: None, message_ids: Vec::new() };
    proof {
        assert(acc@.message_ids =~= Seq::<Span>::empty());
    }
    let slen = s.len();
    let mut i = sp.start;
    while i < sp.end
        invariant
            slen == s@.len(),
            sp.inside(s@.len() as int),
            sp.start <= i <= sp.end,
            spec_parse_ihave_at(s@, i as int, sp.end as int, acc@) == spec_parse_ihave(s@, sp),
            spec_ihave_ok(acc@, s@.len() as int),
        decreases sp.end - i,
    {
        match next_field(s, i) {
            None => {
                return None;
            },
            Some((tag, val, n)) => {
                proof {
                    lemma_next_field_bounds(s@, i as int);
                }
                if n > sp.end {
                    return None;
                }
                if tag == 1 {
                    match val {
                        FieldVal::Len(sp2) => {
                            acc.topic_id = Some(sp2);
                        },
                        _ => {
                            return None;
                        },
                    }
                } else if tag == 2 {
                    match val {
                        FieldVal::Len(sp2) => {
                            acc.message_ids.push(sp2);
                        },
                        _ => {
                            return None;
                        },
                    }
                }
                i = n;
            },
        }
    }
    Some(acc)
}

/// Identifiers the sender wants: a list of message identifiers.
pub struct IWantFrame {
    pub message_ids: Vec<Span>,
}

/// Mathematical form of a want-list.
pub struct IWantFrameV {
    pub message_ids: Seq<Span>,
}

impl View for IWantFrame {
    type V = IWantFrameV;

    open spec fn view(&self) -> IWantFrameV {
        IWantFrameV { message_ids: self.message_ids@ }
    }
}


/// Every span of a want-list lies inside a buffer of length `n`.
pub open spec fn spec_iwant_ok(f: IWantFrameV, n: int) -> bool {
    forall|j: int| 0 <= j < f.message_ids.len() ==> (#[trigger] f.message_ids[j]).inside(n)
}

/// How one field changes a partially read want-list.
pub open spec fn spec_iwant_field(acc: IWantFrameV, tag: u64, val: FieldVal) -> Option<
    IWantFrameV,
> {
    if tag == 1 {
        match val {
            FieldVal::Len(sp) => Some(IWantFrameV { message_ids: acc.message_ids.push(sp) }),
            _ => None,
        }
    } else {
        Some(acc)
    }
}

/// The want-list read from the fields in `[i, end)`.
pub open spec fn spec_parse_iwant_at(s: Seq<u8>, i: int, end: int, acc: IWantFrameV) -> Option<
    IWantFrameV,
>
    decreases end - i,
{
    if i == end {
        Some(acc)
    } else if i > end {
        None
    } else {
        match spec_next_field(s, i) {
            None => None,
            Some((tag, val, n)) => if n <= i || n > end {
                None
            } else {
                match spec_iwant_field(acc, tag, val) {
                    None => None,
                    Some(acc2) => spec_parse_iwant_at(s, n, end, acc2),
                }
            },
        }
    }
}

/// The want-list encoded in this span.
pub open spec fn spec_parse_iwant(s: Seq<u8>, sp: Span) -> Option<IWantFrameV> {
    spec_parse_iwant_at(
        s,
        sp.start as int,
        sp.end as int,
        IWantFrameV { message_ids: Seq::empty() },
    )
}

/// Read one want-list from its span.
pub fn parse_iwant(s: &[u8], sp: Span) -> (r: Option<IWantFrame>)
    requires
        sp.inside(s@.len() as int),
    ensures
        r matches Some(m) ==> spec_parse_iwant(s@, sp) == Some(m@),
        r is Some <==> spec_parse_iwant(s@, sp) is Some,
        r matches Some(m) ==> spec_iwant_ok(m@, s@.len() as int),
{
    let mut acc = IWantFrame { message_ids: Vec::new() };
    proof {
        assert(acc@.message_ids =~= Seq::<Span>::empty());
    }
    let slen = s.len();
    let mut i = sp.start;
    while i < sp.end
        invariant
            slen == s@.len(),
            sp.inside(s@.len() as int),
            sp.start <= i <= sp.end,
            spec_parse_iwant_at(s@, i as int, sp.end as int, acc@) == spec_parse_iwant(s@, sp),
            spec_iwant_ok(acc@, s@.len() as int),
        decreases sp.end - i,
    {
        match next_field(s, i) {
            None => {
                return None;
            },
            Some((tag, val, n)) => {
                proof {
                    lemma_next_field_bounds(s@, i as int);
                }
                if n > sp.end {
                    return None;
                }
                if tag == 1 {
                    match val {
                        FieldVal::Len(sp2) => {
                            acc.message_ids.push(sp2);
                        },
                        _ => {
                            return None;
                        },
                    }
                }
                i = n;
            },
        }
    }
    Some(acc)
}

/// A prune announcement: the sender drops us from its mesh for one topic,
/// possibly advertising other peers and a backoff.
pub struct PruneFrame {
    pub topic_id: Option<Span>,
    pub peers: Vec<PeerInfoFrame>,
    pub backoff: Option<u64>,
}

/// Mathematical form of a prune announcement.
pub struct PruneFrameV {
    pub topic_id: Option<Span>,
    pub peers: Seq<PeerInfoFrame>,
    pub backoff: Option<u64>,
}

impl View for PruneFrame {
    type V = PruneFrameV;

    open spec fn view(&self) -> PruneFrameV {
        PruneFrameV { topic_id: self.topic_id, peers: self.peers@, backoff: self.backoff }
    }
}


/// Every span of a prune announcement lies inside a buffer of length `n`.
pub open spec fn spec_prune_ok(f: PruneFrameV, n: int) -> bool {
    spec_opt_span_ok(f.topic_id, n) && (forall|j: int|
        0 <= j < f.peers.len() ==> spec_peer_info_ok(#[trigger] f.peers[j], n))
}

/// How one field changes a partially read prune announcement.  A peers
/// field is itself a message; a malformed one fails the whole envelope.
pub open spec fn spec_prune_field(s: Seq<u8>, acc: PruneFrameV, tag: u64, val: FieldVal) -> Option<
    PruneFrameV,
> {
    if tag == 1 {
        match val {
            FieldVal::Len(sp) => Some(
                PruneFrameV { topic_id: Some(sp), peers: acc.peers, backoff: acc.backoff },
            ),
            _ => None,
        }
    } else if tag == 2 {
        match val {
            FieldVal::Len(sp) => match spec_parse_peer_info(s, sp) {
                None => None,
                Some(p) => Some(
                    PruneFrameV {
                        topic_id: acc.topic_id,
                        peers: acc.peers.push(p),
                        backoff: acc.backoff,
                    },
                ),
            },
            _ => None,
        }
    } else if tag == 3 {
        match val {
            FieldVal::Varint(v) => Some(
                PruneFrameV { topic_id: acc.topic_id, peers: acc.peers, backoff: Some(v) },
            ),
            _ => None,
        }
    } else {
        Some(acc)
    }
}

/// The prune announcement read from the fields in `[i, end)`.
pub open spec fn spec_parse_prune_at(s: Seq<u8>, i: int, end: int, acc: PruneFrameV) -> Option<
    PruneFrameV,
>
    decreases end - i,
{
    if i == end {
        Some(acc)
    } else if i > end {
        None
    } else {
        match spec_next_field(s, i) {
            None => None,
            Some((tag, val, n)) => if n <= i || n > end {
                None
            } else {
                match spec_prune_field(s, acc, tag, val) {
                    None => None,
                    Some(acc2) => spec_parse_prune_at(s, n, end, acc2),
                }
            },
        }
    }
}

/// The prune announcement encoded in this span.
pub open spec fn spec_parse_prune(s: Seq<u8>, sp: Span) -> Option<PruneFrameV> {
    spec_parse_prune_at(
        s,
        sp.start as int,
        sp.end as int,
        PruneFrameV { topic_id: None, peers: Seq::empty(), backoff: None },
    )
}

/// Read one prune announcement from its span.
pub fn parse_prune(s: &[u8], sp: Span) -> (r: Option<PruneFrame>)
    requires
        sp.inside(s@.len() as int),
    ensures
        r matches Some(m) ==> spec_parse_prune(s@, sp) == Some(m@),
        r is Some <==> spec_parse_prune(s@, sp) is Some,
        r matches Some(m) ==> spec_prune_ok(m@, s@.len() as int),
{
    let mut acc = PruneFrame { topic_id: None, peers: Vec::new(), backoff: None };
    proof {
        assert(acc@.peers =~= Seq::<PeerInfoFrame>::empty());
    }
    let slen = s.len();
    let mut i = sp.start;
    while i < sp.end
        invariant
            slen == s@.len(),
            sp.inside(s@.len() as int),
            sp.start <= i <= sp.end,
            spec_parse_prune_at(s@, i as int, sp.end as int, acc@) == spec_parse_prune(s@, sp),
            spec_prune_ok(acc@, s@.len() as int),
        decreases sp.end - i,
    {
        match next_field(s, i) {
            None => {
                return None;
            },
            Some((tag, val, n)) => {
                proof {
                    lemma_next_field_bounds(s@, i as int);
                }
                if n > sp.end {
                    return None;
                }
                if tag == 1 {
                    match val {
                        FieldVal::Len(sp2) => {
                            acc.topic_id = Some(sp2);
                        },
                        _ => {
                            return None;
                        },
                    }
                } else if tag == 2 {
                    match val {
                        FieldVal::Len(sp2) => match parse_peer_info(s, sp2) {
                            None => {
                                return None;
                            },
                            Some(p) => {
                                acc.peers.push(p);
                            },
                        },
                        _ => {
                            return None;
                        },
                    }
                } else if tag == 3 {
                    match val {
                        FieldVal::Varint(v) => {
                            acc.backoff = Some(v);
                        },
                        _ => {
                            return None;
                        },
                    }
                }
                i = n;
            },
        }
    }
    Some(acc)
}

/// Mesh maintenance: have/want/graft/prune sub-messages.
pub struct ControlMessage {
    pub ihave: Vec<IHaveFrame>,
    pub iwant: Vec<IWantFrame>,
    pub graft: Vec<GraftFrame>,
    pub prune: Vec<PruneFrame>,
}

/// Mathematical form of a control message.
pub struct ControlMessageV {
    pub ihave: Seq<IHaveFrameV>,
    pub iwant: Seq<IWantFrameV>,
    pub graft: Seq<GraftFrame>,
    pub prune: Seq<PruneFrameV>,
}

impl View for ControlMessage {
    type V = ControlMessageV;

    open spec fn view(&self) -> ControlMessageV {
        ControlMessageV {
            ihave: self.ihave@.map_values(|x: IHaveFrame| x@),
            iwant: self.iwant@.map_values(|x: IWantFrame| x@),
            graft: self.graft@,
            prune: self.prune@.map_values(|x: PruneFrame| x@),
        }
    }
}


/// Every span of a control message lies inside a buffer of length `n`.
pub open spec fn spec_control_ok(c: ControlMessageV, n: int) -> bool {
    (forall|j: int| 0 <= j < c.ihave.len() ==> spec_ihave_ok(#[trigger] c.ihave[j], n)) && (forall|
        j: int,
    | 0 <= j < c.iwant.len() ==> spec_iwant_ok(#[trigger] c.iwant[j], n)) && (forall|j: int|
        0 <= j < c.graft.len() ==> spec_graft_ok(#[trigger] c.graft[j], n)) && (forall|j: int|
        0 <= j < c.prune.len() ==> spec_prune_ok(#[trigger] c.prune[j], n))
}

/// How one field changes a partially read control message.  Every known
/// field is a nested message; a malformed one fails the whole envelope.
pub open spec fn spec_control_field(
    s: Seq<u8>,
    acc: ControlMessageV,
    tag: u64,
    val: FieldVal,
) -> Option<ControlMessageV> {
    if tag == 1 {
        match val {
            FieldVal::Len(sp) => match spec_parse_ihave(s, sp) {
                None => None,
                Some(m) => Some(ControlMessageV { ihave: acc.ihave.push(m), ..acc }),
            },
            _ => None,
        }
    } else if tag == 2 {
        match val {
            FieldVal::Len(sp) => match spec_parse_iwant(s, sp) {
                None => None,
                Some(m) => Some(ControlMessageV { iwant: acc.iwant.push(m), ..acc }),
            },
            _ => None,
        }
    } else if tag == 3 {
        match val {
            FieldVal::Len(sp) => match spec_parse_graft(s, sp) {
                None => None,
                Some(m) => Some(ControlMessageV { graft: acc.graft.push(m), ..acc }),
            },
            _ => None,
        }
    } else if tag == 4 {
        match val {
            FieldVal::Len(sp) => match spec_parse_prune(s, sp) {
                None => None,
                Some(m) => Some(ControlMessageV { prune: acc.prune.push(m), ..acc }),
            },
            _ => None,
        }
    } else {
        Some(acc)
    }
}

/// The control message read from the fields in `[i, end)`.
pub open spec fn spec_parse_control_at(
    s: Seq<u8>,
    i: int,
    end: int,
    acc: ControlMessageV,
) -> Option<ControlMessageV>
    decreases end - i,
{
    if i == end {
        Some(acc)
    } else if i > end {
        None
    } else {
        match spec_next_field(s, i) {
            None => None,
            Some((tag, val, n)) => if n <= i || n > end {
                None
            } else {
                match spec_control_field(s, acc, tag, val) {
                    None => None,
                    Some(acc2) => spec_parse_control_at(s, n, end, acc2),
                }
            },
        }
    }
}

/// The empty control message.
pub open spec fn spec_control_empty() -> ControlMessageV {
    ControlMessageV {
        ihave: Seq::empty(),
        iwant: Seq::empty(),
        graft: Seq::empty(),
        prune: Seq::empty(),
    }
}

/// The control message encoded in this span.
pub open spec fn spec_parse_control(s: Seq<u8>, sp: Span) -> Option<ControlMessageV> {
    spec_parse_control_at(s, sp.start as int, sp.end as int, spec_control_empty())
}

/// Read one control message from its span.
pub fn parse_control(s: &[u8], sp: Span) -> (r: Option<ControlMessage>)
    requires
        sp.inside(s@.len() as int),
    ensures
        r matches Some(m) ==> spec_parse_control(s@, sp) == Some(m@),
        r is Some <==> spec_parse_control(s@, sp) is Some,
        r matches Some(m) ==> spec_control_ok(m@, s@.len() as int),
{
    let mut acc = ControlMessage {
        ihave: Vec::new(),
        iwant: Vec::new(),
        graft: Vec::new(),
        prune: Vec::new(),
    };
    proof {
        assert(acc@.ihave =~= Seq::<IHaveFrameV>::empty());
        assert(acc@.iwant =~= Seq::<IWantFrameV>::empty());
        assert(acc@.graft =~= Seq::<GraftFrame>::empty());
        assert(acc@.prune =~= Seq::<PruneFrameV>::empty());
        assert(acc@ == spec_control_empty());
    }
    let slen = s.len();
    let mut i = sp.start;
    while i < sp.end
        invariant
            slen == s@.len(),
            sp.inside(s@.len() as int),
            sp.start <= i <= sp.end,
            spec_parse_control_at(s@, i as int, sp.end as int, acc@) == spec_parse_control(s@, sp),
            spec_control_ok(acc@, s@.len() as int),
        decreases sp.end - i,
    {
        match next_field(s, i) {
            None => {
                return None;
            },
            Some((tag, val, n)) => {
                proof {
                    lemma_next_field_bounds(s@, i as int);
                }
                if n > sp.end {
                    return None;
                }
                let ghost before = acc@;
                if tag == 1 {
                    match val {
                        FieldVal::Len(sp2) => match parse_ihave(s, sp2) {
                            None => {
                                return None;
                            },
                            Some(m) => {
                                acc.ihave.push(m);
                                proof {
                                    assert(acc@.ihave =~= before.ihave.push(m@));
                                }
                            },
                        },
                        _ => {
                            return None;
                        },
                    }
                } else if tag == 2 {
                    match val {
                        FieldVal::Len(sp2) => match parse_iwant(s, sp2) {
                            None => {
                                return None;
                            },
                            Some(m) => {
                                acc.iwant.push(m);
                                proof {
                                    assert(acc@.iwant =~= before.iwant.push(m@));
                                }
                            },
                        },
                        _ => {
                            return None;
                        },
                    }
                } else if tag == 3 {
                    match val {
                        FieldVal::Len(sp2) => match parse_graft(s, sp2) {
                            None => {
                                return None;
                            },
                            Some(m) => {
                                acc.graft.push(m);
                            },
                        },
                        _ => {
                            return None;
                        },
                    }
                } else if tag == 4 {
                    match val {
                        FieldVal::Len(sp2) => match parse_prune(s, sp2) {
                            None => {
                                return None;
                            },
                            Some(m) => {
                                acc.prune.push(m);
                                proof {
                                    assert(acc@.prune =~= before.prune.push(m@));
                                }
                            },
                        },
                        _ => {
                            return None;
                        },
                    }
                }
                proof {
                    assert(acc@.ihave =~= spec_control_field(s@, before, tag, val).unwrap().ihave);
                    assert(acc@.iwant =~= spec_control_field(s@, before, tag, val).unwrap().iwant);
                    assert(acc@.prune =~= spec_control_field(s@, before, tag, val).unwrap().prune);
                    assert(acc@ == spec_control_field(s@, before, tag, val).unwrap());
                }
                i = n;
            },
        }
    }
    Some(acc)
}

/// One decoded envelope: subscription changes, published messages and an
/// optional control message.
pub struct Rpc {
    pub subscriptions: Vec<SubOpt>,
    pub publish: Vec<PubMsg>,
    pub control: Option<ControlMessage>,
}

/// Mathematical form of an envelope.
pub struct RpcV {
    pub subscriptions: Seq<SubOpt>,
    pub publish: Seq<PubMsg>,
    pub control: Option<ControlMessageV>,
}

impl View for Rpc {
    type V = RpcV;

    open spec fn view(&self) -> RpcV {
        RpcV {
            subscriptions: self.subscriptions@,
            publish: self.publish@,
            control: match self.control {
                None => None,
                Some(c) => Some(c@),
            },
        }
    }
}


/// Every span of an envelope lies inside a buffer of length `n`.
pub open spec fn spec_rpc_ok(r: RpcV, n: int) -> bool {
    (forall|j: int|
        0 <= j < r.subscriptions.len() ==> spec_sub_opt_ok(#[trigger] r.subscriptions[j], n)) && (
    forall|j: int| 0 <= j < r.publish.len() ==> spec_pub_msg_ok(#[trigger] r.publish[j], n))
        && match r.control {
        None => true,
        Some(c) => spec_control_ok(c, n),
    }
}

/// How one field changes a partially read envelope.
pub open spec fn spec_rpc_field(s: Seq<u8>, acc: RpcV, tag: u64, val: FieldVal) -> Option<RpcV> {
    if tag == 1 {
        match val {
            FieldVal::Len(sp) => match spec_parse_sub_opt(s, sp) {
                None => None,
                Some(m) => Some(RpcV { subscriptions: acc.subscriptions.push(m), ..acc }),
            },
            _ => None,
        }
    } else if tag == 2 {
        match val {
            FieldVal::Len(sp) => match spec_parse_pub_msg(s, sp) {
                None => None,
                Some(m) => Some(RpcV { publish: acc.publish.push(m), ..acc }),
            },
            _ => None,
        }
    } else if tag == 3 {
        match val {
            FieldVal::Len(sp) => match spec_parse_control(s, sp) {
                None => None,
                Some(m) => Some(RpcV { control: Some(m), ..acc }),
            },
            _ => None,
        }
    } else {
        Some(acc)
    }
}

/// The envelope read from the fields in `[i, end)`.
pub open spec fn spec_parse_rpc_at(s: Seq<u8>, i: int, end: int, acc: RpcV) -> Option<RpcV>
    decreases end - i,
{
    if i == end {
        Some(acc)
    } else if i > end {
        None
    } else {
        match spec_next_field(s, i) {
            None => None,
            Some((tag, val, n)) => if n <= i || n > end {
                None
            } else {
                match spec_rpc_field(s, acc, tag, val) {
                    None => None,
                    Some(acc2) => spec_parse_rpc_at(s, n, end, acc2),
                }
            },
        }
    }
}

/// The envelope encoded in this span.
pub open spec fn spec_parse_rpc(s: Seq<u8>, sp: Span) -> Option<RpcV> {
    spec_parse_rpc_at(
        s,
        sp.start as int,
        sp.end as int,
        RpcV { subscriptions: Seq::empty(), publish: Seq::empty(), control: None },
    )
}

/// The envelope encoded in a length-delimited buffer: a base-128 length,
/// then the envelope's fields in exactly that many bytes.  Bytes after the
/// delimited region are ignored.
pub open spec fn spec_parse_envelope(s: Seq<u8>) -> Option<RpcV> {
    match spec_varint(s, 0) {
        None => None,
        Some((l, p)) => if p + l <= s.len() {
            spec_parse_rpc(s, Span { start: p as usize, end: (p + l) as usize })
        } else {
            None
        },
    }
}

/// Read one envelope from its span.
pub fn parse_rpc(s: &[u8], sp: Span) -> (r: Option<Rpc>)
    requires
        sp.inside(s@.len() as int),
    ensures
        r matches Some(m) ==> spec_parse_rpc(s@, sp) == Some(m@),
        r is Some <==> spec_parse_rpc(s@, sp) is Some,
        r matches Some(m) ==> spec_rpc_ok(m@, s@.len() as int),
{
    let mut acc = Rpc { subscriptions: Vec::new(), publish: Vec::new(), control: None };
    proof {
        assert(acc@.subscriptions =~= Seq::<SubOpt>::empty());
        assert(acc@.publish =~= Seq::<PubMsg>::empty());
    }
    let slen = s.len();
    let mut i = sp.start;
    while i < sp.end
        invariant
            slen == s@.len(),
            sp.inside(s@.len() as int),
            sp.start <= i <= sp.end,
            spec_parse_rpc_at(s@, i as int, sp.end as int, acc@) == spec_parse_rpc(s@, sp),
            spec_rpc_ok(acc@, s@.len() as int),
        decreases sp.end - i,
    {
        match next_field(s, i) {
            None => {
                return None;
            },
            Some((tag, val, n)) => {
                proof {
                    lemma_next_field_bounds(s@, i as int);
                }
                if n > sp.end {
                    return None;
                }
                let ghost before = acc@;
                if tag == 1 {
                    match val {
                        FieldVal::Len(sp2) => match parse_sub_opt(s, sp2) {
                            None => {
                                return None;
                            },
                            Some(m) => {
                                acc.subscriptions.push(m);
                                proof {
                                    assert(acc@.subscriptions =~= before.subscriptions.push(m));
                                }
                            },
                        },
                        _ => {
                            return None;
                        },
                    }
                } else if tag == 2 {
                    match val {
                        FieldVal::Len(sp2) => match parse_pub_msg(s, sp2) {
                            None => {
                                return None;
                            },
                            Some(m) => {
                                acc.publish.push(m);
                                proof {
                                    assert(acc@.publish =~= before.publish.push(m));
                                }
                            },
                        },
                        _ => {
                            return None;
                        },
                    }
                } else if tag == 3 {
                    match val {
                        FieldVal::Len(sp2) => match parse_control(s, sp2) {
                            None => {
                                return None;
                            },
                            Some(m) => {
                                acc.control = Some(m);
                            },
                        },
                        _ => {
                            return None;
                        },
                    }
                }
                proof {
                    assert(acc@.subscriptions =~= spec_rpc_field(
                        s@,
                        before,
                        tag,
                        val,
                    ).unwrap().subscriptions);
                    assert(acc@.publish =~= spec_rpc_field(s@, before, tag, val).unwrap().publish);
                    assert(acc@ == spec_rpc_field(s@, before, tag, val).unwrap());
                }
                i = n;
            },
        }
    }
    Some(acc)
}

/// Read one length-delimited envelope from the start of a buffer.
pub fn parse_envelope(s: &[u8]) -> (r: Option<Rpc>)
    ensures
        r matches Some(m) ==> spec_parse_envelope(s@) == Some(m@),
        r is Some <==> spec_parse_envelope(s@) is Some,
        r matches Some(m) ==> spec_rpc_ok(m@, s@.len() as int),
{
    match read_varint(s, 0) {
        None => None,
        Some((l, p)) => {
            proof {
                crate::meshsub_pb::lemma_varint_bounds(s@, 0);
            }
            if l <= (s.len() - p) as u64 {
                let e = p + (l as usize);
                parse_rpc(s, Span { start: p, end: e })
            } else {
                None
            }
        },
    }
}

} // verus!
