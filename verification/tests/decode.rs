use mina_recorder::hex_coding::{hex_decode, hex_encode};
use mina_recorder::ledger::{
    BlockSummary, LedgerHashKind, SnarkPoolDiffSummary, SnarkWithHash, SnarkWorkSummary,
    ledger_hashes_of_works,
};
use mina_recorder::meshsub::parse_envelope;
use mina_recorder::meshsub_events::{
    Event, GossipNetMessagePreview, message_hash, parse_it, parse_types, parse_protobuf_publish,
};
use mina_recorder::types::MessageType;

fn field_bytes(tag: u8, payload: &[u8]) -> Vec<u8> {
    let mut v = vec![tag << 3 | 2, payload.len() as u8];
    v.extend_from_slice(payload);
    v
}

/// An envelope with one subscribe, one control message with a non-empty
/// have-list, and one valid publish.
fn sample_envelope() -> (Vec<u8>, Vec<u8>) {
    // SubOpt: subscribe = true, topic "t".
    let sub = vec![0x08, 0x01, 0x12, 0x01, b't'];
    // Publish: data of nine bytes whose tag byte is zero, topic "t".
    let mut publish = field_bytes(2, &[0, 0, 0, 0, 0, 0, 0, 0, 0]);
    publish.extend_from_slice(&field_bytes(4, b"t"));
    // Control with one have-list carrying one 32-byte identifier.
    let id: Vec<u8> = (0u8..32).collect();
    let ihave = field_bytes(2, &id);
    let control = field_bytes(1, &ihave);
    let mut body = field_bytes(1, &sub);
    body.extend_from_slice(&field_bytes(2, &publish));
    body.extend_from_slice(&field_bytes(3, &control));
    let mut envelope = vec![body.len() as u8];
    envelope.extend_from_slice(&body);
    (envelope, id)
}

#[test]
fn envelope_parses_structurally() {
    let (envelope, _) = sample_envelope();
    let rpc = parse_envelope(&envelope).unwrap();
    assert_eq!(rpc.subscriptions.len(), 1);
    assert_eq!(rpc.publish.len(), 1);
    let control = rpc.control.as_ref().unwrap();
    assert_eq!(control.ihave.len(), 1);
    assert_eq!(control.ihave[0].message_ids.len(), 1);
}

#[test]
fn three_events_in_order() {
    let (envelope, id) = sample_envelope();
    // Classification lists the subscribe, then the control, then the
    // publish.
    let types = parse_types(&envelope).unwrap();
    assert_eq!(
        types,
        vec![MessageType::Subscribe, MessageType::ControlIHave, MessageType::PublishNewState],
    );
    // Full decoding yields exactly three events, in (subscribe, control,
    // publish) order.
    let events = parse_it(&envelope, false, false).unwrap();
    assert_eq!(events.len(), 3);
    match &events[0] {
        Event::Subscribe { topic } => assert_eq!(topic, "t"),
        _ => panic!("expected a subscribe event"),
    }
    match &events[1] {
        Event::Control { ihave, iwant, graft, prune } => {
            assert_eq!(ihave.len(), 1);
            assert!(iwant.is_empty());
            assert!(graft.is_empty());
            assert!(prune.is_empty());
            // The have identifier round-trips through hex to its original
            // 32-byte value.
            assert_eq!(ihave[0].message_ids[0], hex_encode(&id));
            let hashes = ihave[0].hashes();
            assert_eq!(hashes.len(), 1);
            assert_eq!(hashes[0].0.to_vec(), id);
        },
        _ => panic!("expected a control event"),
    }
    match &events[2] {
        Event::PublishV2 { topic, message, hash, .. } => {
            assert_eq!(topic, "t");
            assert!(matches!(message, GossipNetMessagePreview::NewState));
            assert_eq!(*hash, [0u8; 32]);
        },
        _ => panic!("expected a publish event"),
    }
}

#[test]
fn preview_reduces_publish() {
    let (envelope, _) = sample_envelope();
    let events = parse_it(&envelope, true, false).unwrap();
    assert!(matches!(
        &events[2],
        Event::PublishPreview { message: GossipNetMessagePreview::NewState, .. }
    ));
}

#[test]
fn publish_payloads_extracted() {
    let (envelope, _) = sample_envelope();
    let datas = parse_protobuf_publish(&envelope).unwrap();
    assert_eq!(datas, vec![vec![0u8; 9]]);
}

#[test]
fn malformed_envelope_is_rejected() {
    assert!(parse_it(&[0xff, 0xff, 0xff], false, false).is_err());
    assert!(parse_types(&[0x05, 0x0a]).is_err());
}

#[test]
fn invalid_topic_text_is_rejected() {
    // A subscription whose topic is not valid character data.
    let sub = vec![0x12, 0x01, 0xff];
    let body = field_bytes(1, &sub);
    let mut envelope = vec![body.len() as u8];
    envelope.extend_from_slice(&body);
    assert!(parse_it(&envelope, false, false).is_err());
    // The classification reads no text and accepts the same envelope.
    assert!(parse_types(&envelope).is_ok());
}

#[test]
fn undecodable_publish_is_skipped_not_fatal() {
    // One publish whose tag byte is unknown: the envelope still decodes,
    // the publish yields no event.
    let publish = field_bytes(2, &[0, 0, 0, 0, 0, 0, 0, 0, 9]);
    let body = field_bytes(2, &publish);
    let mut envelope = vec![body.len() as u8];
    envelope.extend_from_slice(&body);
    let events = parse_it(&envelope, false, false).unwrap();
    assert!(events.is_empty());
}

#[test]
fn hex_round_trips() {
    assert_eq!(hex_encode(&[0xab, 0x01, 0xef]), "ab01ef");
    assert_eq!(hex_decode("ab01ef").unwrap(), vec![0xab, 0x01, 0xef]);
    assert_eq!(hex_decode("AB01EF").unwrap(), vec![0xab, 0x01, 0xef]);
    assert!(hex_decode("abc").is_none());
    assert!(hex_decode("zz").is_none());
}

#[test]
fn content_hash_is_keyed_and_fixed_size() {
    let topic = b"coda/consensus-messages/0.0.1";
    let data = vec![0u8; 16];
    let h1 = message_hash(topic, &data);
    let h2 = message_hash(b"other-topic", &data);
    // A hash is not the data handed back, and the key matters.
    assert_ne!(h1.to_vec(), data);
    assert_ne!(h1, h2);
    // Over-long topics are reduced to their digest first, and still hash.
    let long_topic = vec![b'x'; 100];
    let h3 = message_hash(&long_topic, &data);
    assert_ne!(h3, h1);
}

#[test]
fn ledger_hashes_positions_and_truncation() {
    let mut source = [0u8; 32];
    source[0] = 0xaa;
    source[1] = 0xbb;
    let mut target = [0u8; 32];
    target[31] = 0xcc;
    let one = SnarkWorkSummary::One { source, target };
    let two = SnarkWorkSummary::Two {
        first_source: source,
        middle: target,
        second_target: source,
    };
    let hashes = ledger_hashes_of_works(&vec![one, two]);
    assert_eq!(hashes.len(), 5);
    assert_eq!(hashes[0].kind, LedgerHashKind::Source);
    assert_eq!(hashes[0].hash[0], 0xbb);
    assert_eq!(hashes[1].kind, LedgerHashKind::Target);
    assert_eq!(hashes[1].hash[30], 0xcc);
    assert_eq!(hashes[2].kind, LedgerHashKind::FirstSource);
    assert_eq!(hashes[3].kind, LedgerHashKind::Middle);
    assert_eq!(hashes[4].kind, LedgerHashKind::SecondTarget);
}

#[test]
fn snark_with_hash_from_pool_and_block() {
    let one = SnarkWorkSummary::One { source: [1; 32], target: [2; 32] };
    let s = SnarkWithHash::try_from_inner(&SnarkPoolDiffSummary::AddSolvedWork(one)).unwrap();
    assert!(matches!(s, SnarkWithHash::Leaf { hashes } if hashes[0] == [1; 32] && hashes[1] == [2; 32]));
    assert!(SnarkWithHash::try_from_inner(&SnarkPoolDiffSummary::Empty).is_none());
    let block = BlockSummary {
        first_works: vec![one],
        second_works: Some(vec![
            SnarkWorkSummary::Two {
                first_source: [3; 32],
                middle: [4; 32],
                second_target: [5; 32],
            },
        ]),
    };
    let snarks = SnarkWithHash::try_from_block(&block);
    assert_eq!(snarks.len(), 2);
    assert!(matches!(snarks[1], SnarkWithHash::Merge { hashes } if hashes[1] == [4; 32]));
}
