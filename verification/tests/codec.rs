use mina_recorder::custom_coding::{
    addr_absorb, addr_emit, duration_absorb, duration_emit, stream_kind_absorb, stream_kind_emit,
    stream_meta_absorb, stream_meta_emit, time_absorb, time_emit,
};
use mina_recorder::types::{Addr, StreamKind, StreamMeta, TimePoint, TimeSpan};

#[test]
fn duration_round_trip_exact_bytes() {
    let v = TimeSpan { secs: 1, nanos: 2 };
    let bytes = duration_emit(&v, Vec::new());
    assert_eq!(bytes, vec![0, 0, 0, 0, 0, 0, 0, 1, 0, 0, 0, 2]);
    let (back, next) = duration_absorb(&bytes, 0).unwrap();
    assert_eq!(next, 12);
    assert_eq!(back, v);
}

#[test]
fn time_round_trip() {
    let v = TimePoint { secs: 0xdead_beef, nanos: 999_999_999 };
    let bytes = time_emit(&v, Vec::new());
    let (back, next) = time_absorb(&bytes, 0).unwrap();
    assert_eq!(next, 12);
    assert_eq!(back, v);
}

#[test]
fn time_absorb_truncated() {
    let v = TimePoint { secs: 7, nanos: 8 };
    let bytes = time_emit(&v, Vec::new());
    assert!(time_absorb(&bytes[..11], 0).is_none());
}

#[test]
fn addr_round_trip() {
    let a = Addr { ip: [0, 1, 2, 3, 4, 5, 6, 7, 8, 9, 10, 11, 12, 13, 14, 15], port: 8302 };
    let bytes = addr_emit(&a, Vec::new());
    assert_eq!(bytes.len(), 18);
    let (back, next) = addr_absorb(&bytes, 0).unwrap();
    assert_eq!(next, 18);
    assert!(back.matches(&a));
}

#[test]
fn stream_kind_round_trip_all() {
    let kinds = [
        StreamKind::Handshake,
        StreamKind::Kad,
        StreamKind::Ipc,
        StreamKind::PeerExchange,
        StreamKind::Bitswap,
        StreamKind::NodeStatus,
        StreamKind::Select,
        StreamKind::Mplex,
        StreamKind::Yamux,
        StreamKind::Rpc,
        StreamKind::Meshsub,
        StreamKind::Unknown,
    ];
    for k in kinds {
        let bytes = stream_kind_emit(&k, Vec::new());
        let (back, next) = stream_kind_absorb(&bytes, 0).unwrap();
        assert_eq!(next, 2);
        assert_eq!(back, k);
    }
}

#[test]
fn stream_kind_unknown_tag_falls_back() {
    let bytes = vec![0x12, 0x34];
    let (back, _) = stream_kind_absorb(&bytes, 0).unwrap();
    assert_eq!(back, StreamKind::Unknown);
}

#[test]
fn stream_meta_round_trip_all_variants() {
    let metas = [
        StreamMeta::Raw,
        StreamMeta::Handshake,
        StreamMeta::Forward(0),
        StreamMeta::Forward(1),
        StreamMeta::Forward(0x7fff_ffff_ffff_fffe),
        StreamMeta::Backward(0),
        StreamMeta::Backward(5),
        StreamMeta::Backward(0x7fff_ffff_ffff_fffe),
    ];
    for m in metas {
        let bytes = stream_meta_emit(&m, Vec::new());
        assert_eq!(bytes.len(), 8);
        let (back, next) = stream_meta_absorb(&bytes, 0).unwrap();
        assert_eq!(next, 8);
        assert_eq!(back, m);
    }
}

#[test]
fn stream_meta_signed_packing_matches() {
    // Forward ordinals are the non-negative words, backward ordinals the
    // two's complement of -(n + 1), and the two sentinels the extremes.
    let raw = stream_meta_emit(&StreamMeta::Raw, Vec::new());
    assert_eq!(raw, (i64::MAX as u64).to_be_bytes().to_vec());
    let hs = stream_meta_emit(&StreamMeta::Handshake, Vec::new());
    assert_eq!(hs, (i64::MIN as u64).to_be_bytes().to_vec());
    let fwd = stream_meta_emit(&StreamMeta::Forward(7), Vec::new());
    assert_eq!(fwd, 7u64.to_be_bytes().to_vec());
    let bwd = stream_meta_emit(&StreamMeta::Backward(2), Vec::new());
    assert_eq!(bwd, ((-3i64) as u64).to_be_bytes().to_vec());
}

#[test]
fn stream_meta_variants_distinguishable() {
    let a = StreamMeta::Forward(0);
    let b = StreamMeta::Backward(0);
    let c = StreamMeta::Raw;
    let d = StreamMeta::Handshake;
    let ea = stream_meta_emit(&a, Vec::new());
    let eb = stream_meta_emit(&b, Vec::new());
    let ec = stream_meta_emit(&c, Vec::new());
    let ed = stream_meta_emit(&d, Vec::new());
    assert_ne!(ea, eb);
    assert_ne!(ea, ec);
    assert_ne!(ea, ed);
    assert_ne!(eb, ec);
    assert_ne!(eb, ed);
    assert_ne!(ec, ed);
}
