//! Structured events decoded from gossip envelopes: subscription changes,
//! publishes (full or preview form) and control messages, with content
//! hashes for cross-message correlation.

use vstd::prelude::*;
use vstd::utf8::{encode_utf8, valid_utf8};

use crate::hex_coding::{hex_decode, hex_encode, hex_parse, hex_str_of};
use crate::meshsub::{GraftFrame, IHaveFrameV, IWantFrameV, PeerInfoFrame, PruneFrameV, PubMsg, RpcV, SubOpt, parse_envelope, spec_parse_envelope, ControlMessageV};
use crate::meshsub_pb::Span;
use crate::types::MessageType;

verus! {

/// Why an envelope could not be decoded.
#[derive(Clone, Copy, PartialEq, Eq, Structural, Debug)]
pub enum DecodeError {
    /// The outer length-delimited envelope is malformed.
    Envelope,
    /// A text field of the envelope is not valid character data.
    Text,
}

/// The coarse shape of a published payload, read from its leading tag byte
/// without decoding the full schema.
#[derive(Clone, Copy, PartialEq, Eq, Structural, Debug)]
pub enum GossipNetMessagePreview {
    NewState,
    SnarkPoolDiff,
    TransactionPoolDiff,
}

/// Identifiers the sender has messages for, in owned form: hex text for
/// each identifier.
pub struct ControlIHave {
    pub topic_id: Option<String>,
    pub message_ids: Vec<String>,
}

/// Identifiers the sender wants, in owned form.
pub struct ControlIWant {
    pub message_ids: Vec<String>,
}

/// A graft announcement in owned form.
pub struct ControlGraft {
    pub topic_id: Option<String>,
}

/// A peer advertisement in owned form: hex text for the raw fields.
pub struct PeerInfo {
    pub peer_id: Option<String>,
    pub signed_peer_record: Option<String>,
}

/// A prune announcement in owned form.
pub struct ControlPrune {
    pub topic_id: Option<String>,
    pub peers: Vec<PeerInfo>,
    pub backoff: Option<u64>,
}

/// One structured event decoded from a gossip envelope.
pub enum Event {
    Subscribe { topic: String },
    Unsubscribe { topic: String },
    /// A published message: structural preview of the payload, routing
    /// metadata in hex, and the content hash when asked for.
    PublishV2 {
        from: Option<Vec<u8>>,
        seqno: Option<String>,
        signature: Option<String>,
        key: Option<String>,
        topic: String,
        message: GossipNetMessagePreview,
        hash: [u8; 32],
    },
    /// A published message reduced to its structural preview.
    PublishPreview { topic: String, message: GossipNetMessagePreview },
    /// A plain-text test message, as used on testing networks.
    PublishTestingMessage { from: Vec<u8>, topic: String, message: String, hash: [u8; 32] },
    Control {
        ihave: Vec<ControlIHave>,
        iwant: Vec<ControlIWant>,
        graft: Vec<ControlGraft>,
        prune: Vec<ControlPrune>,
    },
}

/// The digest of the 32-byte-output unkeyed hash over some bytes.
pub uninterp spec fn blake2b_digest(data: Seq<u8>) -> Seq<u8>;

/// The tag of the 32-byte-output keyed hash over some bytes.
pub uninterp spec fn blake2b_mac(key: Seq<u8>, data: Seq<u8>) -> Seq<u8>;

/// Relies on `blake2::Blake2b` with 32-byte output: the digest depends on
/// the input bytes alone and is 32 bytes long.
#[verifier::external_body]
fn blake2b_digest_bytes(data: &[u8]) -> (r: Vec<u8>)
    ensures
        r@ == blake2b_digest(data@),
        r@.len() == 32,
{
    let mut d = <blake2::Blake2b<blake2::digest::typenum::U32> as core::default::Default>::default();
    blake2::digest::Update::update(&mut d, data);
    let out = blake2::digest::FixedOutput::finalize_fixed(d);
    out.as_slice().to_vec()
}

/// Relies on `blake2::Blake2bMac` with 32-byte output: the tag depends on
/// the key and input bytes alone and is 32 bytes long.  The key must be at
/// most 64 bytes, or the constructor refuses it.
#[verifier::external_body]
fn blake2b_mac_bytes(key: &[u8], data: &[u8]) -> (r: Vec<u8>)
    requires
        key@.len() <= 64,
    ensures
        r@ == blake2b_mac(key@, data@),
        r@.len() == 32,
{
    let mut m = <blake2::Blake2bMac<blake2::digest::typenum::U32> as blake2::digest::KeyInit>::new_from_slice(
        key,
    ).expect("key length checked");
    blake2::digest::Update::update(&mut m, data);
    let out = blake2::digest::FixedOutput::finalize_fixed(m);
    out.as_slice().to_vec()
}

/// Relies on std's `String::from_utf8`: it succeeds exactly on valid
/// character data and keeps the bytes.
#[verifier::external_body]
fn utf8_string(b: Vec<u8>) -> (r: Option<String>)
    ensures
        r is Some <==> valid_utf8(b@),
        r matches Some(t) ==> encode_utf8(t@) == b@,
{
    String::from_utf8(b).ok()
}

/// The content hash of one published payload: the keyed hash over the
/// payload, keyed by the topic, with over-long topics first reduced to
/// their 32-byte digest.
pub open spec fn spec_message_hash(topic: Seq<u8>, data: Seq<u8>) -> Seq<u8> {
    if topic.len() <= 64 {
        blake2b_mac(topic, data)
    } else {
        blake2b_mac(blake2b_digest(topic), data)
    }
}

/// 32 zero bytes: the hash of record when none was computed.
pub open spec fn zero_hash() -> Seq<u8> {
    Seq::new(32, |i: int| 0u8)
}

/// Compute the content hash of one published payload.
pub fn message_hash(topic: &[u8], data: &[u8]) -> (r: [u8; 32])
    ensures
        r@ == spec_message_hash(topic@, data@),
{
    let digest;
    let key: &[u8] = if topic.len() <= 64 {
        topic
    } else {
        digest = blake2b_digest_bytes(topic);
        digest.as_slice()
    };
    let v = blake2b_mac_bytes(key, data);
    let mut out: [u8; 32] = [0; 32];
    for i in 0..32
        invariant
            v@.len() == 32,
            v@ == spec_message_hash(topic@, data@),
            forall|j: int| 0 <= j < i ==> out@[j] == v@[j],
    {
        out[i] = v[i];
    }
    proof {
        assert(out@ =~= v@);
    }
    out
}

/// Copy the bytes a span selects.
pub fn span_bytes(s: &[u8], sp: Span) -> (r: Vec<u8>)
    requires
        sp.inside(s@.len() as int),
    ensures
        r@ == sp.select(s@),
{
    let mut r: Vec<u8> = Vec::new();
    let mut i = sp.start;
    while i < sp.end
        invariant
            sp.inside(s@.len() as int),
            sp.start <= i <= sp.end,
            r@ =~= s@.subrange(sp.start as int, i as int),
        decreases sp.end - i,
    {
        r.push(s[i]);
        i = i + 1;
    }
    proof {
        assert(r@ =~= sp.select(s@));
    }
    r
}

/// The bytes of an optional span: empty when absent.
pub open spec fn span_or_empty(s: Seq<u8>, o: Option<Span>) -> Seq<u8> {
    match o {
        None => Seq::empty(),
        Some(sp) => sp.select(s),
    }
}

/// Whether an owned text equals the bytes of an optional span.
pub open spec fn opt_str_is(t: Option<String>, o: Option<Span>, s: Seq<u8>) -> bool {
    match (t, o) {
        (None, None) => true,
        (Some(t), Some(sp)) => encode_utf8(t@) == sp.select(s),
        _ => false,
    }
}

/// Whether an owned text is the hex form of the bytes of an optional span.
pub open spec fn opt_hex_is(t: Option<String>, o: Option<Span>, s: Seq<u8>) -> bool {
    match (t, o) {
        (None, None) => true,
        (Some(t), Some(sp)) => t@ == hex_str_of(sp.select(s)),
        _ => false,
    }
}

/// Whether owned bytes equal the bytes of an optional span.
pub open spec fn opt_bytes_is(t: Option<Vec<u8>>, o: Option<Span>, s: Seq<u8>) -> bool {
    match (t, o) {
        (None, None) => true,
        (Some(t), Some(sp)) => t@ == sp.select(s),
        _ => false,
    }
}

/// The text of an optional span, or `None` when it is not valid character
/// data.
fn topic_string(s: &[u8], o: Option<Span>) -> (r: Option<String>)
    requires
        crate::meshsub::spec_opt_span_ok(o, s@.len() as int),
    ensures
        r is Some <==> valid_utf8(span_or_empty(s@, o)),
        r matches Some(t) ==> encode_utf8(t@) == span_or_empty(s@, o),
{
    let b = match o {
        None => {
            let v: Vec<u8> = Vec::new();
            proof {
                assert(v@ =~= span_or_empty(s@, o));
            }
            v
        },
        Some(sp) => span_bytes(s, sp),
    };
    utf8_string(b)
}

/// The text of an optional span, kept optional; invalid character data is
/// an error.
fn opt_topic_field(s: &[u8], o: Option<Span>) -> (r: Result<Option<String>, DecodeError>)
    requires
        crate::meshsub::spec_opt_span_ok(o, s@.len() as int),
    ensures
        r is Err <==> (o is Some && !valid_utf8(span_or_empty(s@, o))),
        r matches Ok(t) ==> opt_str_is(t, o, s@),
{
    match o {
        None => Ok(None),
        Some(sp) => {
            let b = span_bytes(s, sp);
            match utf8_string(b) {
                None => Err(DecodeError::Text),
                Some(t) => Ok(Some(t)),
            }
        },
    }
}

/// The hex text of an optional span.
fn opt_hex_field(s: &[u8], o: Option<Span>) -> (r: Option<String>)
    requires
        crate::meshsub::spec_opt_span_ok(o, s@.len() as int),
    ensures
        opt_hex_is(r, o, s@),
{
    match o {
        None => None,
        Some(sp) => {
            let b = span_bytes(s, sp);
            Some(hex_encode(b.as_slice()))
        },
    }
}

/// Whether an owned have-list renders this frame: same topic, and the hex
/// text of each identifier.
pub open spec fn matches_ihave(e: ControlIHave, f: IHaveFrameV, s: Seq<u8>) -> bool {
    &&& opt_str_is(e.topic_id, f.topic_id, s)
    &&& e.message_ids@.len() == f.message_ids.len()
    &&& forall|j: int|
        0 <= j < f.message_ids.len() ==> (#[trigger] e.message_ids@[j])@ == hex_str_of(
            f.message_ids[j].select(s),
        )
}

/// Whether an owned want-list renders this frame.
pub open spec fn matches_iwant(e: ControlIWant, f: IWantFrameV, s: Seq<u8>) -> bool {
    &&& e.message_ids@.len() == f.message_ids.len()
    &&& forall|j: int|
        0 <= j < f.message_ids.len() ==> (#[trigger] e.message_ids@[j])@ == hex_str_of(
            f.message_ids[j].select(s),
        )
}

/// Whether an owned graft renders this frame.
pub open spec fn matches_graft(e: ControlGraft, f: GraftFrame, s: Seq<u8>) -> bool {
    opt_str_is(e.topic_id, f.topic_id, s)
}

/// Whether an owned peer advertisement renders this frame: both raw fields
/// in hex.
pub open spec fn matches_peer(e: PeerInfo, f: PeerInfoFrame, s: Seq<u8>) -> bool {
    opt_hex_is(e.peer_id, f.peer_id, s) && opt_hex_is(e.signed_peer_record, f.signed_peer_record, s)
}

/// Whether an owned prune renders this frame.
pub open spec fn matches_prune(e: ControlPrune, f: PruneFrameV, s: Seq<u8>) -> bool {
    &&& opt_str_is(e.topic_id, f.topic_id, s)
    &&& e.backoff == f.backoff
    &&& e.peers@.len() == f.peers.len()
    &&& forall|j: int| 0 <= j < f.peers.len() ==> matches_peer(#[trigger] e.peers@[j], f.peers[j], s)
}

/// Build the owned form of one have-list.
fn ihave_owned(s: &[u8], f: &crate::meshsub::IHaveFrame) -> (r: Result<ControlIHave, DecodeError>)
    requires
        crate::meshsub::spec_ihave_ok(f@, s@.len() as int),
    ensures
        r is Err <==> (f@.topic_id is Some && !valid_utf8(span_or_empty(s@, f@.topic_id))),
        r matches Ok(e) ==> matches_ihave(e, f@, s@),
{
    let topic_id = match opt_topic_field(s, f.topic_id) {
        Err(e) => {
            return Err(e);
        },
        Ok(t) => t,
    };
    let mut ids: Vec<String> = Vec::new();
    let n = f.message_ids.len();
    for idx in 0..n
        invariant
            n == f.message_ids@.len(),
            crate::meshsub::spec_ihave_ok(f@, s@.len() as int),
            ids@.len() == idx,
            forall|j: int|
                0 <= j < idx ==> (#[trigger] ids@[j])@ == hex_str_of(f@.message_ids[j].select(s@)),
    {
        let sp = f.message_ids[idx];
        proof {
            assert(f@.message_ids[idx as int].inside(s@.len() as int));
        }
        let b = span_bytes(s, sp);
        ids.push(hex_encode(b.as_slice()));
    }
    Ok(ControlIHave { topic_id, message_ids: ids })
}

/// Build the owned form of one want-list.
fn iwant_owned(s: &[u8], f: &crate::meshsub::IWantFrame) -> (r: ControlIWant)
    requires
        crate::meshsub::spec_iwant_ok(f@, s@.len() as int),
    ensures
        matches_iwant(r, f@, s@),
{
    let mut ids: Vec<String> = Vec::new();
    let n = f.message_ids.len();
    for idx in 0..n
        invariant
            n == f.message_ids@.len(),
            crate::meshsub::spec_iwant_ok(f@, s@.len() as int),
            ids@.len() == idx,
            forall|j: int|
                0 <= j < idx ==> (#[trigger] ids@[j])@ == hex_str_of(f@.message_ids[j].select(s@)),
    {
        let sp = f.message_ids[idx];
        proof {
            assert(f@.message_ids[idx as int].inside(s@.len() as int));
        }
        let b = span_bytes(s, sp);
        ids.push(hex_encode(b.as_slice()));
    }
    ControlIWant { message_ids: ids }
}

/// Build the owned form of one prune announcement.
fn prune_owned(s: &[u8], f: &crate::meshsub::PruneFrame) -> (r: Result<ControlPrune, DecodeError>)
    requires
        crate::meshsub::spec_prune_ok(f@, s@.len() as int),
    ensures
        r is Err <==> (f@.topic_id is Some && !valid_utf8(span_or_empty(s@, f@.topic_id))),
        r matches Ok(e) ==> matches_prune(e, f@, s@),
{
    let topic_id = match opt_topic_field(s, f.topic_id) {
        Err(e) => {
            return Err(e);
        },
        Ok(t) => t,
    };
    let mut peers: Vec<PeerInfo> = Vec::new();
    let n = f.peers.len();
    for idx in 0..n
        invariant
            n == f.peers@.len(),
            crate::meshsub::spec_prune_ok(f@, s@.len() as int),
            peers@.len() == idx,
            forall|j: int| 0 <= j < idx ==> matches_peer(#[trigger] peers@[j], f@.peers[j], s@),
    {
        let p = f.peers[idx];
        proof {
            assert(crate::meshsub::spec_peer_info_ok(f@.peers[idx as int], s@.len() as int));
        }
        let peer_id = opt_hex_field(s, p.peer_id);
        let signed_peer_record = opt_hex_field(s, p.signed_peer_record);
        peers.push(PeerInfo { peer_id, signed_peer_record });
    }
    Ok(ControlPrune { topic_id, peers, backoff: f.backoff })
}

/// Whether one event renders one subscription change: a subscribe event
/// when the flag is set, otherwise an unsubscribe, carrying the topic.
pub open spec fn matches_sub(e: Event, o: SubOpt, s: Seq<u8>) -> bool {
    let topic = span_or_empty(s, o.topic_id);
    if o.subscribe == Some(true) {
        e matches Event::Subscribe { topic: t } && encode_utf8(t@) == topic
    } else {
        e matches Event::Unsubscribe { topic: t } && encode_utf8(t@) == topic
    }
}

/// The structural preview a tag byte announces.
pub open spec fn preview_of(tag: u8) -> GossipNetMessagePreview {
    if tag == 0 {
        GossipNetMessagePreview::NewState
    } else if tag == 1 {
        GossipNetMessagePreview::SnarkPoolDiff
    } else {
        GossipNetMessagePreview::TransactionPoolDiff
    }
}

/// Whether a published message yields an event: it needs a payload with a
/// known tag byte; the plain-text form also needs readable text and a
/// sender.  Anything else is locally undecodable and skipped.
pub open spec fn spec_pub_keep(s: Seq<u8>, m: PubMsg) -> bool {
    match m.data {
        None => false,
        Some(sp) => {
            let d = sp.select(s);
            if d.len() < 9 {
                false
            } else if d[8] == 0 || d[8] == 1 || d[8] == 2 {
                true
            } else if d[8] == 3 {
                valid_utf8(d.skip(9)) && m.from is Some
            } else {
                false
            }
        },
    }
}

/// Whether one event renders one kept published message, in the asked-for
/// form, with the content hash when it was computed.
pub open spec fn matches_publish(
    e: Event,
    m: PubMsg,
    s: Seq<u8>,
    preview: bool,
    calc_hash: bool,
) -> bool
    recommends
        spec_pub_keep(s, m),
{
    let d = span_or_empty(s, m.data);
    let topic = span_or_empty(s, m.topic);
    let want_hash = if calc_hash {
        spec_message_hash(topic, d)
    } else {
        zero_hash()
    };
    if d.len() >= 9 && d[8] == 3 {
        e matches Event::PublishTestingMessage { from, topic: t, message, hash }
            && encode_utf8(t@) == topic && from@ == span_or_empty(s, m.from) && encode_utf8(
            message@,
        ) == d.skip(9) && hash@ == want_hash
    } else if preview {
        e matches Event::PublishPreview { topic: t, message } && encode_utf8(t@) == topic
            && (d.len() >= 9 && message == preview_of(d[8]))
    } else {
        e matches Event::PublishV2 { from, seqno, signature, key, topic: t, message, hash }
            && encode_utf8(t@) == topic && (d.len() >= 9 && message == preview_of(d[8]))
            && opt_bytes_is(from, m.from, s) && opt_hex_is(seqno, m.seqno, s) && opt_hex_is(
            signature,
            m.signature,
            s,
        ) && opt_hex_is(key, m.key, s) && hash@ == want_hash
    }
}

/// How many of the first `upto` published messages yield events.
pub open spec fn kept_upto(s: Seq<u8>, pubs: Seq<PubMsg>, upto: int) -> int
    decreases upto,
{
    if upto <= 0 {
        0
    } else {
        kept_upto(s, pubs, upto - 1) + if spec_pub_keep(s, pubs[upto - 1]) {
            1int
        } else {
            0int
        }
    }
}


/// The kept count is never negative.
proof fn lemma_kept_nonneg(s: Seq<u8>, pubs: Seq<PubMsg>, upto: int)
    ensures
        kept_upto(s, pubs, upto) >= 0,
    decreases upto,
{
    if upto > 0 {
        lemma_kept_nonneg(s, pubs, upto - 1);
    }
}

/// The kept count grows with its bound.
proof fn lemma_kept_mono(s: Seq<u8>, pubs: Seq<PubMsg>, a: int, b: int)
    requires
        a <= b,
    ensures
        kept_upto(s, pubs, a) <= kept_upto(s, pubs, b),
    decreases b - a,
{
    if a < b {
        lemma_kept_mono(s, pubs, a, b - 1);
    }
}

/// Whether one event renders a whole control message.
pub open spec fn matches_control(e: Event, c: ControlMessageV, s: Seq<u8>) -> bool {
    e matches Event::Control { ihave, iwant, graft, prune } && {
        &&& ihave@.len() == c.ihave.len()
        &&& forall|j: int| 0 <= j < c.ihave.len() ==> matches_ihave(#[trigger] ihave@[j], c.ihave[j], s)
        &&& iwant@.len() == c.iwant.len()
        &&& forall|j: int| 0 <= j < c.iwant.len() ==> matches_iwant(#[trigger] iwant@[j], c.iwant[j], s)
        &&& graft@.len() == c.graft.len()
        &&& forall|j: int| 0 <= j < c.graft.len() ==> matches_graft(#[trigger] graft@[j], c.graft[j], s)
        &&& prune@.len() == c.prune.len()
        &&& forall|j: int| 0 <= j < c.prune.len() ==> matches_prune(#[trigger] prune@[j], c.prune[j], s)
    }
}

/// Whether every text field of an envelope is valid character data.  The
/// decoder refuses an envelope with unreadable text, as the wire format
/// demands.
pub open spec fn rpc_strings_ok(s: Seq<u8>, rpc: RpcV) -> bool {
    &&& forall|j: int|
        0 <= j < rpc.subscriptions.len() ==> valid_utf8(
            span_or_empty(s, (#[trigger] rpc.subscriptions[j]).topic_id),
        )
    &&& forall|j: int|
        0 <= j < rpc.publish.len() ==> valid_utf8(
            span_or_empty(s, (#[trigger] rpc.publish[j]).topic),
        )
    &&& match rpc.control {
        None => true,
        Some(c) => control_strings_ok(s, c),
    }
}

/// Whether every text field of a control message is valid character data.
pub open spec fn control_strings_ok(s: Seq<u8>, c: ControlMessageV) -> bool {
    &&& forall|j: int|
        0 <= j < c.ihave.len() ==> valid_utf8(span_or_empty(s, (#[trigger] c.ihave[j]).topic_id))
    &&& forall|j: int|
        0 <= j < c.graft.len() ==> valid_utf8(span_or_empty(s, (#[trigger] c.graft[j]).topic_id))
    &&& forall|j: int|
        0 <= j < c.prune.len() ==> valid_utf8(span_or_empty(s, (#[trigger] c.prune[j]).topic_id))
}


/// Build the owned control event from a control frame: each sub-message in
/// owned form, in order.  Unreadable text anywhere in it is an error.
fn control_owned(s: &[u8], c: &crate::meshsub::ControlMessage) -> (r: Result<Event, DecodeError>)
    requires
        crate::meshsub::spec_control_ok(c@, s@.len() as int),
    ensures
        r is Err <==> !control_strings_ok(s@, c@),
        r matches Ok(e) ==> matches_control(e, c@, s@),
{
    let mut ihave: Vec<ControlIHave> = Vec::new();
    let n1 = c.ihave.len();
    for idx in 0..n1
        invariant
            n1 == c.ihave@.len(),
            crate::meshsub::spec_control_ok(c@, s@.len() as int),
            ihave@.len() == idx,
            forall|j: int| 0 <= j < idx ==> matches_ihave(#[trigger] ihave@[j], c@.ihave[j], s@),
            forall|j: int|
                0 <= j < idx ==> valid_utf8(span_or_empty(s@, (#[trigger] c@.ihave[j]).topic_id)),
    {
        proof {
            assert(crate::meshsub::spec_ihave_ok(c@.ihave[idx as int], s@.len() as int));
            assert(c@.ihave[idx as int] == c.ihave@[idx as int]@);
        }
        let f = &c.ihave[idx];
        match ihave_owned(s, f) {
            Err(e) => {
                return Err(e);
            },
            Ok(v) => {
                ihave.push(v);
            },
        }
    }
    let mut iwant: Vec<ControlIWant> = Vec::new();
    let n2 = c.iwant.len();
    for idx in 0..n2
        invariant
            n2 == c.iwant@.len(),
            crate::meshsub::spec_control_ok(c@, s@.len() as int),
            iwant@.len() == idx,
            forall|j: int| 0 <= j < idx ==> matches_iwant(#[trigger] iwant@[j], c@.iwant[j], s@),
    {
        proof {
            assert(crate::meshsub::spec_iwant_ok(c@.iwant[idx as int], s@.len() as int));
            assert(c@.iwant[idx as int] == c.iwant@[idx as int]@);
        }
        let f = &c.iwant[idx];
        iwant.push(iwant_owned(s, f));
    }
    let mut graft: Vec<ControlGraft> = Vec::new();
    let n3 = c.graft.len();
    for idx in 0..n3
        invariant
            n3 == c.graft@.len(),
            crate::meshsub::spec_control_ok(c@, s@.len() as int),
            graft@.len() == idx,
            forall|j: int| 0 <= j < idx ==> matches_graft(#[trigger] graft@[j], c@.graft[j], s@),
            forall|j: int|
                0 <= j < idx ==> valid_utf8(span_or_empty(s@, (#[trigger] c@.graft[j]).topic_id)),
    {
        proof {
            assert(crate::meshsub::spec_graft_ok(c@.graft[idx as int], s@.len() as int));
        }
        let f = c.graft[idx];
        let topic_id = match opt_topic_field(s, f.topic_id) {
            Err(e) => {
                return Err(e);
            },
            Ok(v) => v,
        };
        graft.push(ControlGraft { topic_id });
    }
    let mut prune: Vec<ControlPrune> = Vec::new();
    let n4 = c.prune.len();
    for idx in 0..n4
        invariant
            n4 == c.prune@.len(),
            crate::meshsub::spec_control_ok(c@, s@.len() as int),
            prune@.len() == idx,
            forall|j: int| 0 <= j < idx ==> matches_prune(#[trigger] prune@[j], c@.prune[j], s@),
            forall|j: int|
                0 <= j < idx ==> valid_utf8(span_or_empty(s@, (#[trigger] c@.prune[j]).topic_id)),
    {
        proof {
            assert(crate::meshsub::spec_prune_ok(c@.prune[idx as int], s@.len() as int));
            assert(c@.prune[idx as int] == c.prune@[idx as int]@);
        }
        let f = &c.prune[idx];
        match prune_owned(s, f) {
            Err(e) => {
                return Err(e);
            },
            Ok(v) => {
                prune.push(v);
            },
        }
    }
    Ok(Event::Control { ihave, iwant, graft, prune })
}

/// Whether decoding one envelope must fail: the outer length-delimited
/// form is malformed, or a text field in it is unreadable.
pub open spec fn spec_parse_fails(bytes: Seq<u8>) -> bool {
    spec_parse_envelope(bytes) is None || !rpc_strings_ok(
        bytes,
        spec_parse_envelope(bytes).unwrap(),
    )
}

/// What a successful decode returns: one event for each subscription
/// change, then the control event when the envelope carries one, then one
/// event for each decodable publish, in envelope order within each group.
pub open spec fn spec_events_match(
    bytes: Seq<u8>,
    events: Seq<Event>,
    preview: bool,
    calc_hash: bool,
) -> bool
    recommends
        spec_parse_envelope(bytes) is Some,
{
    let rpc = spec_parse_envelope(bytes).unwrap();
    let ns = rpc.subscriptions.len() as int;
    let nc: int = if rpc.control is Some {
        1int
    } else {
        0int
    };
    let np = kept_upto(bytes, rpc.publish, rpc.publish.len() as int);
    &&& events.len() == ns + nc + np
    &&& forall|k: int| 0 <= k < ns ==> matches_sub(#[trigger] events[k], rpc.subscriptions[k], bytes)
    &&& rpc.control matches Some(c) ==> matches_control(events[ns], c, bytes)
    &&& forall|j: int|
        0 <= j < rpc.publish.len() && spec_pub_keep(bytes, #[trigger] rpc.publish[j])
            ==> matches_publish(
            events[ns + nc + kept_upto(bytes, rpc.publish, j)],
            rpc.publish[j],
            bytes,
            preview,
            calc_hash,
        )
}

/// Decode one gossip envelope into its structured events: first the
/// subscription changes, then the control message when present, then the
/// decodable publishes (undecodable ones are skipped, not fatal).  A
/// malformed envelope, or unreadable text in it, is an error.
pub fn parse_it(bytes: &[u8], preview: bool, calc_hash: bool) -> (r: Result<
    Vec<Event>,
    DecodeError,
>)
    ensures
        r is Err <==> spec_parse_fails(bytes@),
        r matches Ok(events) ==> spec_events_match(bytes@, events@, preview, calc_hash),
{
    let rpc = match parse_envelope(bytes) {
        None => {
            return Err(DecodeError::Envelope);
        },
        Some(r) => r,
    };
    let ghost s = bytes@;
    let ghost rv = rpc@;
    let mut events: Vec<Event> = Vec::new();
    let ns = rpc.subscriptions.len();
    for idx in 0..ns
        invariant
            spec_parse_envelope(s) == Some(rv),
            crate::meshsub::spec_rpc_ok(rv, s.len() as int),
            s == bytes@,
            rv == rpc@,
            ns == rpc.subscriptions@.len(),
            events@.len() == idx,
            forall|k: int| 0 <= k < idx ==> matches_sub(#[trigger] events@[k], rv.subscriptions[k], s),
            forall|k: int|
                0 <= k < idx ==> valid_utf8(
                    span_or_empty(s, (#[trigger] rv.subscriptions[k]).topic_id),
                ),
    {
        let o = rpc.subscriptions[idx];
        proof {
            assert(crate::meshsub::spec_sub_opt_ok(rv.subscriptions[idx as int], s.len() as int));
        }
        let t = match topic_string(bytes, o.topic_id) {
            None => {
                return Err(DecodeError::Text);
            },
            Some(t) => t,
        };
        let subscribe = match o.subscribe {
            Some(b) => b,
            None => false,
        };
        let ghost before = events@;
        if subscribe {
            events.push(Event::Subscribe { topic: t });
        } else {
            events.push(Event::Unsubscribe { topic: t });
        }
        proof {
            assert(forall|k: int| 0 <= k < before.len() ==> #[trigger] events@[k] == before[k]);
        }
    }
    let ghost nc: int = if rv.control is Some {
        1int
    } else {
        0int
    };
    match &rpc.control {
        None => {},
        Some(c) => {
            proof {
                assert(rv.control == Some(c@));
                assert(crate::meshsub::spec_control_ok(c@, s.len() as int));
            }
            let ghost before = events@;
            match control_owned(bytes, c) {
                Err(e) => {
                    return Err(e);
                },
                Ok(ev) => {
                    events.push(ev);
                    proof {
                        assert(forall|k: int|
                            0 <= k < before.len() ==> #[trigger] events@[k] == before[k]);
                        assert(matches_control(events@[ns as int], c@, s));
                    }
                },
            }
        },
    }
    let np = rpc.publish.len();
    for idx in 0..np
        invariant
            spec_parse_envelope(s) == Some(rv),
            crate::meshsub::spec_rpc_ok(rv, s.len() as int),
            s == bytes@,
            rv == rpc@,
            ns == rv.subscriptions.len(),
            np == rpc.publish@.len(),
            nc == (if rv.control is Some {
                1int
            } else {
                0int
            }),
            kept_upto(s, rv.publish, idx as int) >= 0,
            events@.len() == ns + nc + kept_upto(s, rv.publish, idx as int),
            forall|k: int| 0 <= k < ns ==> matches_sub(#[trigger] events@[k], rv.subscriptions[k], s),
            forall|k: int|
                0 <= k < ns ==> valid_utf8(
                    span_or_empty(s, (#[trigger] rv.subscriptions[k]).topic_id),
                ),
            rv.control matches Some(c) ==> matches_control(events@[ns as int], c, s),
            match rv.control {
                None => true,
                Some(c) => control_strings_ok(s, c),
            },
            forall|j: int|
                0 <= j < idx && spec_pub_keep(s, #[trigger] rv.publish[j]) ==> matches_publish(
                    events@[ns + nc + kept_upto(s, rv.publish, j)],
                    rv.publish[j],
                    s,
                    preview,
                    calc_hash,
                ),
            forall|j: int|
                0 <= j < idx ==> valid_utf8(span_or_empty(s, (#[trigger] rv.publish[j]).topic)),
    {
        let m = rpc.publish[idx];
        proof {
            assert(crate::meshsub::spec_pub_msg_ok(rv.publish[idx as int], s.len() as int));
        }
        let t = match topic_string(bytes, m.topic) {
            None => {
                return Err(DecodeError::Text);
            },
            Some(t) => t,
        };
        let ghost before = events@;
        match m.data {
            None => {},
            Some(dsp) => {
                let d = span_bytes(bytes, dsp);
                if d.len() >= 9 {
                    let tag = d[8];
                    let topic_b = match m.topic {
                        None => Vec::new(),
                        Some(sp) => span_bytes(bytes, sp),
                    };
                    proof {
                        assert(topic_b@ =~= span_or_empty(s, rv.publish[idx as int].topic));
                    }
                    if tag <= 2 {
                        if preview {
                            events.push(Event::PublishPreview { topic: t, message: preview_tag(tag) });
                        } else {
                            let hash = publish_hash(calc_hash, topic_b.as_slice(), d.as_slice());
                            let from = match m.from {
                                None => None,
                                Some(sp) => Some(span_bytes(bytes, sp)),
                            };
                            let seqno = opt_hex_field(bytes, m.seqno);
                            let signature = opt_hex_field(bytes, m.signature);
                            let key = opt_hex_field(bytes, m.key);
                            events.push(
                                Event::PublishV2 {
                                    from,
                                    seqno,
                                    signature,
                                    key,
                                    topic: t,
                                    message: preview_tag(tag),
                                    hash,
                                },
                            );
                        }
                    } else if tag == 3 {
                        match m.from {
                            None => {},
                            Some(fsp) => {
                                let msp = Span { start: dsp.start + 9, end: dsp.end };
                                proof {
                                    assert(msp.select(s) =~= dsp.select(s).skip(9));
                                }
                                let mb = span_bytes(bytes, msp);
                                match utf8_string(mb) {
                                    None => {},
                                    Some(message) => {
                                        let hash = publish_hash(
                                            calc_hash,
                                            topic_b.as_slice(),
                                            d.as_slice(),
                                        );
                                        let from = span_bytes(bytes, fsp);
                                        events.push(
                                            Event::PublishTestingMessage {
                                                from,
                                                topic: t,
                                                message,
                                                hash,
                                            },
                                        );
                                    },
                                }
                            },
                        }
                    }
                }
            },
        }
        proof {
            assert(forall|k: int| 0 <= k < before.len() ==> #[trigger] events@[k] == before[k]);
            assert(kept_upto(s, rv.publish, idx + 1) == kept_upto(s, rv.publish, idx as int) + (
            if spec_pub_keep(s, rv.publish[idx as int]) {
                1int
            } else {
                0int
            }));
            if spec_pub_keep(s, rv.publish[idx as int]) {
                assert(events@.len() == before.len() + 1);
                assert(matches_publish(
                    events@[before.len() as int],
                    rv.publish[idx as int],
                    s,
                    preview,
                    calc_hash,
                ));
            } else {
                assert(events@ == before);
            }
            assert forall|j: int|
                0 <= j < idx + 1 && spec_pub_keep(s, #[trigger] rv.publish[j]) implies matches_publish(
                events@[ns + nc + kept_upto(s, rv.publish, j)],
                rv.publish[j],
                s,
                preview,
                calc_hash,
            ) by {
                lemma_kept_nonneg(s, rv.publish, j);
                assert(kept_upto(s, rv.publish, j + 1) == kept_upto(s, rv.publish, j) + 1);
                if j < idx {
                    lemma_kept_mono(s, rv.publish, j + 1, idx as int);
                    assert(ns + nc + kept_upto(s, rv.publish, j) < before.len());
                }
            }
        }
    }
    Ok(events)
}

/// The structural preview of a known tag byte.
fn preview_tag(tag: u8) -> (r: GossipNetMessagePreview)
    ensures
        r == preview_of(tag),
{
    if tag == 0 {
        GossipNetMessagePreview::NewState
    } else if tag == 1 {
        GossipNetMessagePreview::SnarkPoolDiff
    } else {
        GossipNetMessagePreview::TransactionPoolDiff
    }
}

/// The content hash when asked for, otherwise the zero hash of record.
fn publish_hash(calc_hash: bool, topic: &[u8], data: &[u8]) -> (r: [u8; 32])
    ensures
        r@ == if calc_hash {
            spec_message_hash(topic@, data@)
        } else {
            zero_hash()
        },
{
    if calc_hash {
        message_hash(topic, data)
    } else {
        let z: [u8; 32] = [0; 32];
        proof {
            assert(z@ =~= zero_hash());
        }
        z
    }
}

/// Decode one gossip envelope into structured events, without content
/// hashes.
pub fn parse(bytes: Vec<u8>, preview: bool) -> (r: Result<Vec<Event>, DecodeError>)
    ensures
        r is Err <==> spec_parse_fails(bytes@),
        r matches Ok(events) ==> spec_events_match(bytes@, events@, preview, false),
{
    parse_it(bytes.as_slice(), preview, false)
}

/// The message type a subscription change announces.
pub open spec fn sub_type(o: SubOpt) -> MessageType {
    if o.subscribe == Some(true) {
        MessageType::Subscribe
    } else {
        MessageType::Unsubscribe
    }
}

/// The message types of a list of subscription changes, in order.
pub open spec fn sub_types(subs: Seq<SubOpt>) -> Seq<MessageType>
    decreases subs.len(),
{
    if subs.len() == 0 {
        Seq::empty()
    } else {
        sub_types(subs.drop_last()).push(sub_type(subs.last()))
    }
}

/// The message types a control message announces: one for each non-empty
/// sub-message list, in have/want/graft/prune order.
pub open spec fn control_types(c: Option<ControlMessageV>) -> Seq<MessageType> {
    match c {
        None => Seq::empty(),
        Some(c) => (if c.ihave.len() > 0 {
            seq![MessageType::ControlIHave]
        } else {
            Seq::empty()
        }) + (if c.iwant.len() > 0 {
            seq![MessageType::ControlIWant]
        } else {
            Seq::empty()
        }) + (if c.graft.len() > 0 {
            seq![MessageType::ControlGraft]
        } else {
            Seq::empty()
        }) + (if c.prune.len() > 0 {
            seq![MessageType::ControlPrune]
        } else {
            Seq::empty()
        }),
    }
}

/// Whether a published message announces a type: it needs a payload whose
/// tag byte is one of the three known publish forms.
pub open spec fn pub_type_keep(s: Seq<u8>, m: PubMsg) -> bool {
    match m.data {
        None => false,
        Some(sp) => {
            let d = sp.select(s);
            d.len() >= 9 && (d[8] == 0 || d[8] == 1 || d[8] == 2)
        },
    }
}

/// The message type a kept published message announces.
pub open spec fn pub_type_of(s: Seq<u8>, m: PubMsg) -> MessageType
    recommends
        pub_type_keep(s, m),
{
    let d = span_or_empty(s, m.data);
    if d.len() >= 9 && d[8] == 0 {
        MessageType::PublishNewState
    } else if d.len() >= 9 && d[8] == 1 {
        MessageType::PublishSnarkPoolDiff
    } else {
        MessageType::PublishTransactionPoolDiff
    }
}

/// The message types of a list of published messages, unknown forms
/// skipped.
pub open spec fn pub_types(s: Seq<u8>, pubs: Seq<PubMsg>) -> Seq<MessageType>
    decreases pubs.len(),
{
    if pubs.len() == 0 {
        Seq::empty()
    } else {
        pub_types(s, pubs.drop_last()) + (if pub_type_keep(s, pubs.last()) {
            seq![pub_type_of(s, pubs.last())]
        } else {
            Seq::empty()
        })
    }
}

/// Classify one envelope without building events: the subscription types,
/// then the control types, then the types of the decodable publishes.
pub fn parse_types(bytes: &[u8]) -> (r: Result<Vec<MessageType>, DecodeError>)
    ensures
        r is Err <==> spec_parse_envelope(bytes@) is None,
        r matches Ok(ts) ==> ({
            let rpc = spec_parse_envelope(bytes@).unwrap();
            ts@ == sub_types(rpc.subscriptions) + control_types(rpc.control) + pub_types(
                bytes@,
                rpc.publish,
            )
        }),
{
    let rpc = match parse_envelope(bytes) {
        None => {
            return Err(DecodeError::Envelope);
        },
        Some(r) => r,
    };
    let ghost s = bytes@;
    let ghost rv = rpc@;
    let mut ts: Vec<MessageType> = Vec::new();
    let ns = rpc.subscriptions.len();
    for idx in 0..ns
        invariant
            s == bytes@,
            rv == rpc@,
            ns == rpc.subscriptions@.len(),
            ts@ =~= sub_types(rv.subscriptions.take(idx as int)),
    {
        let o = rpc.subscriptions[idx];
        proof {
            assert(rv.subscriptions.take(idx + 1).drop_last() =~= rv.subscriptions.take(
                idx as int,
            ));
            assert(rv.subscriptions.take(idx + 1).last() == rv.subscriptions[idx as int]);
        }
        let subscribe = match o.subscribe {
            Some(b) => b,
            None => false,
        };
        if subscribe {
            ts.push(MessageType::Subscribe);
        } else {
            ts.push(MessageType::Unsubscribe);
        }
    }
    proof {
        assert(rv.subscriptions.take(ns as int) =~= rv.subscriptions);
    }
    match &rpc.control {
        None => {},
        Some(c) => {
            let ghost before = ts@;
            if c.ihave.len() > 0 {
                ts.push(MessageType::ControlIHave);
            }
            if c.iwant.len() > 0 {
                ts.push(MessageType::ControlIWant);
            }
            if c.graft.len() > 0 {
                ts.push(MessageType::ControlGraft);
            }
            if c.prune.len() > 0 {
                ts.push(MessageType::ControlPrune);
            }
            proof {
                assert(rv.control == Some(c@));
                assert(c@.ihave.len() == c.ihave@.len());
                assert(c@.iwant.len() == c.iwant@.len());
                assert(c@.graft.len() == c.graft@.len());
                assert(c@.prune.len() == c.prune@.len());
                assert(ts@ =~= before + control_types(rv.control));
            }
        },
    }
    let ghost head = sub_types(rv.subscriptions) + control_types(rv.control);
    proof {
        assert(ts@ =~= head);
    }
    let np = rpc.publish.len();
    for idx in 0..np
        invariant
            s == bytes@,
            rv == rpc@,
            np == rpc.publish@.len(),
            crate::meshsub::spec_rpc_ok(rv, s.len() as int),
            head == sub_types(rv.subscriptions) + control_types(rv.control),
            ts@ =~= head + pub_types(s, rv.publish.take(idx as int)),
    {
        let m = rpc.publish[idx];
        proof {
            assert(crate::meshsub::spec_pub_msg_ok(rv.publish[idx as int], s.len() as int));
            assert(rv.publish.take(idx + 1).drop_last() =~= rv.publish.take(idx as int));
            assert(rv.publish.take(idx + 1).last() == rv.publish[idx as int]);
        }
        match m.data {
            None => {},
            Some(dsp) => {
                if dsp.len() >= 9 {
                    let tag = bytes[dsp.start + 8];
                    proof {
                        assert(dsp.select(s)[8] == s[dsp.start + 8]);
                    }
                    if tag == 0 {
                        ts.push(MessageType::PublishNewState);
                    } else if tag == 1 {
                        ts.push(MessageType::PublishSnarkPoolDiff);
                    } else if tag == 2 {
                        ts.push(MessageType::PublishTransactionPoolDiff);
                    }
                }
            },
        }
        proof {
            assert(ts@ =~= head + pub_types(s, rv.publish.take(idx + 1)));
        }
    }
    proof {
        assert(rv.publish.take(np as int) =~= rv.publish);
    }
    Ok(ts)
}

/// The payloads of the published messages that carry one, in order.
pub open spec fn pub_datas(s: Seq<u8>, pubs: Seq<PubMsg>) -> Seq<Seq<u8>>
    decreases pubs.len(),
{
    if pubs.len() == 0 {
        Seq::empty()
    } else {
        pub_datas(s, pubs.drop_last()) + (match pubs.last().data {
            None => Seq::empty(),
            Some(sp) => seq![sp.select(s)],
        })
    }
}

/// Extract the raw payload of every published message in one envelope.
pub fn parse_protobuf_publish(bytes: &[u8]) -> (r: Result<Vec<Vec<u8>>, DecodeError>)
    ensures
        r is Err <==> spec_parse_envelope(bytes@) is None,
        r matches Ok(ds) ==> ds@.map_values(|v: Vec<u8>| v@) == pub_datas(
            bytes@,
            spec_parse_envelope(bytes@).unwrap().publish,
        ),
{
    let rpc = match parse_envelope(bytes) {
        None => {
            return Err(DecodeError::Envelope);
        },
        Some(r) => r,
    };
    let ghost s = bytes@;
    let ghost rv = rpc@;
    let mut ds: Vec<Vec<u8>> = Vec::new();
    let np = rpc.publish.len();
    for idx in 0..np
        invariant
            s == bytes@,
            rv == rpc@,
            np == rpc.publish@.len(),
            crate::meshsub::spec_rpc_ok(rv, s.len() as int),
            ds@.map_values(|v: Vec<u8>| v@) =~= pub_datas(s, rv.publish.take(idx as int)),
    {
        let m = rpc.publish[idx];
        proof {
            assert(crate::meshsub::spec_pub_msg_ok(rv.publish[idx as int], s.len() as int));
            assert(rv.publish.take(idx + 1).drop_last() =~= rv.publish.take(idx as int));
            assert(rv.publish.take(idx + 1).last() == rv.publish[idx as int]);
        }
        match m.data {
            None => {},
            Some(dsp) => {
                let d = span_bytes(bytes, dsp);
                ds.push(d);
            },
        }
        proof {
            assert(ds@.map_values(|v: Vec<u8>| v@) =~= pub_datas(s, rv.publish.take(idx + 1)));
        }
    }
    proof {
        assert(rv.publish.take(np as int) =~= rv.publish);
    }
    Ok(ds)
}

/// Whether one hex identifier denotes a 32-byte hash.
pub open spec fn id_is_hash(id: Seq<char>) -> bool {
    hex_parse(id) matches Some(b) && b.len() == 32
}

/// How many of the first `upto` identifiers denote 32-byte hashes.
pub open spec fn hashes_upto(ids: Seq<String>, upto: int) -> int
    decreases upto,
{
    if upto <= 0 {
        0
    } else {
        hashes_upto(ids, upto - 1) + if id_is_hash(ids[upto - 1]@) {
            1int
        } else {
            0int
        }
    }
}

/// The hash count is never negative.
proof fn lemma_hashes_nonneg(ids: Seq<String>, upto: int)
    ensures
        hashes_upto(ids, upto) >= 0,
    decreases upto,
{
    if upto > 0 {
        lemma_hashes_nonneg(ids, upto - 1);
    }
}

/// The hash count grows with its bound.
proof fn lemma_hashes_mono(ids: Seq<String>, a: int, b: int)
    requires
        a <= b,
    ensures
        hashes_upto(ids, a) <= hashes_upto(ids, b),
    decreases b - a,
{
    if a < b {
        lemma_hashes_mono(ids, a, b - 1);
    }
}

/// Decode a list of hex identifiers into the 32-byte hashes among them,
/// in order; identifiers of any other shape are skipped.
fn ids_to_hashes(ids: &Vec<String>) -> (r: Vec<crate::meshsub_stats::Hash>)
    ensures
        r@.len() == hashes_upto(ids@, ids@.len() as int),
        forall|j: int|
            0 <= j < ids@.len() && id_is_hash(#[trigger] ids@[j]@) ==> r@[hashes_upto(ids@, j)].0@
                == hex_parse(ids@[j]@).unwrap(),
{
    let mut r: Vec<crate::meshsub_stats::Hash> = Vec::new();
    let n = ids.len();
    for idx in 0..n
        invariant
            n == ids@.len(),
            hashes_upto(ids@, idx as int) >= 0,
            r@.len() == hashes_upto(ids@, idx as int),
            forall|j: int|
                0 <= j < idx && id_is_hash(#[trigger] ids@[j]@) ==> r@[hashes_upto(ids@, j)].0@
                    == hex_parse(ids@[j]@).unwrap(),
    {
        let ghost before = r@;
        let id = &ids[idx];
        match hex_decode(id.as_str()) {
            None => {},
            Some(b) => {
                if b.len() == 32 {
                    let mut arr: [u8; 32] = [0; 32];
                    for k in 0..32
                        invariant
                            b@.len() == 32,
                            forall|x: int| 0 <= x < k ==> arr@[x] == b@[x],
                    {
                        arr[k] = b[k];
                    }
                    proof {
                        assert(arr@ =~= b@);
                    }
                    r.push(crate::meshsub_stats::Hash(arr));
                }
            },
        }
        proof {
            assert(forall|k: int| 0 <= k < before.len() ==> #[trigger] r@[k] == before[k]);
            assert(hashes_upto(ids@, idx + 1) == hashes_upto(ids@, idx as int) + (if id_is_hash(
                ids@[idx as int]@,
            ) {
                1int
            } else {
                0int
            }));
            assert forall|j: int|
                0 <= j < idx + 1 && id_is_hash(#[trigger] ids@[j]@) implies r@[hashes_upto(
                ids@,
                j,
            )].0@ == hex_parse(ids@[j]@).unwrap() by {
                lemma_hashes_nonneg(ids@, j);
                assert(hashes_upto(ids@, j + 1) == hashes_upto(ids@, j) + 1);
                if j < idx {
                    lemma_hashes_mono(ids@, j + 1, idx as int);
                    assert(hashes_upto(ids@, j) < before.len());
                    assert(r@[hashes_upto(ids@, j)] == before[hashes_upto(ids@, j)]);
                }
            }
        }
    }
    r
}

impl ControlIHave {
    /// The 32-byte hashes among the advertised identifiers, in order.
    pub fn hashes(&self) -> (r: Vec<crate::meshsub_stats::Hash>)
        ensures
            r@.len() == hashes_upto(self.message_ids@, self.message_ids@.len() as int),
            forall|j: int|
                0 <= j < self.message_ids@.len() && id_is_hash(#[trigger] self.message_ids@[j]@)
                    ==> r@[hashes_upto(self.message_ids@, j)].0@ == hex_parse(
                    self.message_ids@[j]@,
                ).unwrap(),
    {
        ids_to_hashes(&self.message_ids)
    }
}

impl ControlIWant {
    /// The 32-byte hashes among the wanted identifiers, in order.
    pub fn hashes(&self) -> (r: Vec<crate::meshsub_stats::Hash>)
        ensures
            r@.len() == hashes_upto(self.message_ids@, self.message_ids@.len() as int),
            forall|j: int|
                0 <= j < self.message_ids@.len() && id_is_hash(#[trigger] self.message_ids@[j]@)
                    ==> r@[hashes_upto(self.message_ids@, j)].0@ == hex_parse(
                    self.message_ids@[j]@,
                ).unwrap(),
    {
        ids_to_hashes(&self.message_ids)
    }
}

} // verus!
