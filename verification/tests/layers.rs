use mina_recorder::FlowDirection;
use mina_recorder::accumulator::Accumulator;
use mina_recorder::channel::{
    ChecksumIo, OpenStreamState, ReaderStep, RpcEvent, decode_frame, keypair_outcome,
    open_stream_step, reader_step,
};
use mina_recorder::context::{BridgeAction, Variant, classify};
use mina_recorder::multistream::Negotiator;
use mina_recorder::mux::{Multiplexer, MuxError};
use mina_recorder::noise::{FrameOutcome, Phase, SecureChannel};
use mina_recorder::pnet::unscramble;
use mina_recorder::types::{StreamId, StreamMeta};

#[test]
fn accumulator_conserves_bytes_across_chunking() {
    // One byte stream, fed in arbitrary chunks: the concatenation of the
    // released frames plus the residue equals the concatenation of the
    // chunks.
    let stream: Vec<u8> = (0u8..=99).collect();
    let chunks: [&[u8]; 5] = [
        &stream[0..1],
        &stream[1..1],
        &stream[1..47],
        &stream[47..90],
        &stream[90..100],
    ];
    let mut acc = Accumulator::new();
    let mut out: Vec<u8> = Vec::new();
    for c in chunks {
        acc.feed(c);
        while let Some(frame) = acc.take(7) {
            out.extend_from_slice(&frame);
        }
    }
    let residue_len = acc.available();
    assert_eq!(out.len() + residue_len, 100);
    assert_eq!(out, stream[..out.len()].to_vec());
}

#[test]
fn accumulator_length_prefixed_frames() {
    let mut acc = Accumulator::new();
    // Frame: length 3, payload [9, 8, 7]; arrives split.
    acc.feed(&[0x00]);
    assert!(acc.take_frame_len16().is_none());
    acc.feed(&[0x03, 9, 8]);
    assert!(acc.take_frame_len16().is_none());
    acc.feed(&[7, 0xff]);
    let frame = acc.take_frame_len16().unwrap();
    assert_eq!(frame, vec![0x00, 0x03, 9, 8, 7]);
    assert_eq!(acc.available(), 1);
}

#[test]
fn pnet_unscramble_keeps_length_and_inverts() {
    let data = vec![1u8, 2, 3, 4, 5];
    let key = vec![0xaau8, 0xbb, 0xcc, 0xdd, 0xee];
    let once = unscramble(&data, &key);
    assert_eq!(once.len(), data.len());
    assert_ne!(once, data);
    let twice = unscramble(&once, &key);
    assert_eq!(twice, data);
}

fn token_line(token: &[u8]) -> Vec<u8> {
    let mut v = Vec::new();
    v.push((token.len() + 1) as u8);
    v.extend_from_slice(token);
    v.push(b'\n');
    v
}

#[test]
fn negotiation_settles_on_last_accepted_proposal() {
    let mut neg = Negotiator::new();
    // Both sides open with the header; the initiator's first proposal is
    // refused; its second proposal is echoed back and settles the name.
    let header = b"/multistream/1.0.0";
    let first = b"/other/1.0.0";
    let second = b"/meshsub/1.1.0";
    let steps: [(FlowDirection, &[u8]); 6] = [
        (FlowDirection::Forward, header),
        (FlowDirection::Backward, header),
        (FlowDirection::Forward, first),
        (FlowDirection::Backward, b"na"),
        (FlowDirection::Forward, second),
        (FlowDirection::Backward, second),
    ];
    for (dir, token) in steps {
        let line = token_line(token);
        let consumed = neg.feed(dir, &line);
        assert_eq!(consumed, line.len());
    }
    assert_eq!(neg.negotiated().unwrap().as_slice(), second.as_slice());
    // Everything after the settled negotiation passes through untouched.
    let payload = vec![0xde, 0xad, 0xbe, 0xef];
    let consumed = neg.feed(FlowDirection::Backward, &payload);
    assert_eq!(consumed, 0);
    assert_eq!(neg.negotiated().unwrap().as_slice(), second.as_slice());
}

#[test]
fn negotiation_partial_line_is_retained() {
    let mut neg = Negotiator::new();
    let line = token_line(b"/meshsub/1.1.0");
    // Only part of the line arrived: nothing is consumed yet.
    let consumed = neg.feed(FlowDirection::Forward, &line[..4]);
    assert_eq!(consumed, 0);
    let consumed = neg.feed(FlowDirection::Forward, &line);
    assert_eq!(consumed, line.len());
}

#[test]
fn mux_assigns_dense_ordinals_per_direction() {
    let mut mux = Multiplexer::new();
    // Two forward opens and one backward open, interleaved with data and a
    // close: ordinals are Forward(0), Forward(1), Backward(0).
    let (id0, meta0) = mux.on_open(FlowDirection::Forward, 10).unwrap();
    assert_eq!(id0, StreamId::Forward(0));
    assert_eq!(meta0, StreamMeta::Forward(0));
    let (id1, meta1) = mux.on_open(FlowDirection::Backward, 11).unwrap();
    assert_eq!(id1, StreamId::Backward(0));
    assert_eq!(meta1, StreamMeta::Backward(0));
    assert_eq!(mux.on_data(10).unwrap(), StreamMeta::Forward(0));
    assert_eq!(mux.on_close(11).unwrap(), StreamMeta::Backward(0));
    let (id2, meta2) = mux.on_open(FlowDirection::Forward, 12).unwrap();
    assert_eq!(id2, StreamId::Forward(1));
    assert_eq!(meta2, StreamMeta::Forward(1));
}

#[test]
fn mux_frame_faults_are_local() {
    let mut mux = Multiplexer::new();
    mux.on_open(FlowDirection::Forward, 5).unwrap();
    assert!(matches!(mux.on_open(FlowDirection::Forward, 5), Err(MuxError::DuplicateStream)));
    assert!(matches!(mux.on_data(6), Err(MuxError::UnknownStream)));
    assert!(matches!(mux.on_close(6), Err(MuxError::UnknownStream)));
    // The table is unchanged: the live stream still routes.
    assert_eq!(mux.on_data(5).unwrap(), StreamMeta::Forward(0));
    // A closed identifier may be reused; the ordinal is fresh, not reused.
    mux.on_close(5).unwrap();
    let (_, meta) = mux.on_open(FlowDirection::Forward, 5).unwrap();
    assert_eq!(meta, StreamMeta::Forward(1));
}

#[test]
fn secure_channel_phases_and_nonces() {
    let mut sc = SecureChannel::new();
    assert_eq!(sc.phase, Phase::Init);
    sc.on_handshake(true);
    assert_eq!(sc.phase, Phase::ExchangeEphemeral);
    sc.on_handshake(true);
    assert_eq!(sc.phase, Phase::ExchangeStatic);
    sc.on_handshake(true);
    assert_eq!(sc.phase, Phase::Transport);
    // Post-transport failures are local; the nonce advances either way.
    assert_eq!(sc.on_transport_frame(FlowDirection::Forward, true), FrameOutcome::Decoded);
    assert_eq!(sc.on_transport_frame(FlowDirection::Forward, false), FrameOutcome::RecordedRaw);
    assert_eq!(sc.on_transport_frame(FlowDirection::Forward, true), FrameOutcome::Decoded);
    assert_eq!(sc.fwd_nonce, 3);
    assert_eq!(sc.bwd_nonce, 0);
}

#[test]
fn secure_channel_handshake_failure_is_fatal() {
    let mut sc = SecureChannel::new();
    sc.on_handshake(true);
    sc.on_handshake(false);
    assert_eq!(sc.phase, Phase::Failed);
}

#[test]
fn bridge_classifies_syscalls() {
    let w = Variant::Write { fd: 3, data_ptr: 100, pad: 0 };
    assert_eq!(classify(&w), BridgeAction::DataPayload { fd: 3, direction: FlowDirection::Forward });
    assert_eq!(w.ptr(), 100);
    let r = Variant::Recv { fd: 4, data_ptr: 200, pad: 0 };
    assert_eq!(
        classify(&r),
        BridgeAction::DataPayload { fd: 4, direction: FlowDirection::Backward },
    );
    let b = Variant::Bind { fd: 5, addr_ptr: 300, addr_len: 16 };
    assert_eq!(classify(&b), BridgeAction::AddressEvent { fd: 5 });
    assert_eq!(b.ptr(), 300);
    let g = Variant::GetSockOptL1O4 { fd: 6, val_ptr: 400, len_ptr: 0 };
    assert_eq!(classify(&g), BridgeAction::Irrelevant);
}

#[test]
fn channel_frames_and_checksum() {
    let mut tx = ChecksumIo::new();
    let frame = tx.encode_frame(&vec![1, 2, 3]);
    assert_eq!(frame, vec![0, 0, 0, 0, 0, 0, 0, 3, 1, 2, 3]);
    let (payload, consumed) = decode_frame(&frame).unwrap();
    assert_eq!(payload, vec![1, 2, 3]);
    assert_eq!(consumed, 11);
    assert!(decode_frame(&frame[..10]).is_none());
    assert_ne!(tx.checksum(), 0);
}

#[test]
fn reader_terminates_on_unknown_discriminant() {
    assert_eq!(reader_step(0), ReaderStep::DispatchPush);
    assert_eq!(reader_step(1), ReaderStep::DispatchRpc);
    assert_eq!(reader_step(7), ReaderStep::Terminate);
}

#[test]
fn open_stream_exchange_decisions() {
    // The handler acknowledgement passes; the stream identifier settles it.
    let st = open_stream_step(OpenStreamState::AwaitHandlerAck, RpcEvent::Other);
    assert!(matches!(st, OpenStreamState::AwaitStream));
    let st = open_stream_step(st, RpcEvent::StreamOpened { stream_id: 42 });
    assert!(matches!(st, OpenStreamState::Opened(42)));
    // A refusal fails the exchange with the helper's text.
    let st = open_stream_step(OpenStreamState::AwaitHandlerAck, RpcEvent::Refused {
        error: b"busy".to_vec(),
    });
    match st {
        OpenStreamState::Failed { error } => assert_eq!(error.unwrap(), b"busy".to_vec()),
        _ => panic!("expected a failed exchange"),
    }
    // Any other answer while the stream is awaited fails without text.
    let st = open_stream_step(OpenStreamState::AwaitStream, RpcEvent::Disconnected);
    assert!(matches!(st, OpenStreamState::Failed { error: None }));
}

#[test]
fn keypair_outcome_takes_only_the_generated_identity() {
    let ev = RpcEvent::KeypairGenerated {
        peer_id: vec![1],
        public_key: vec![2, 2],
        secret_key: vec![3, 3, 3],
    };
    let (peer_id, public_key, secret_key) = keypair_outcome(ev).unwrap();
    assert_eq!(peer_id, vec![1]);
    assert_eq!(public_key, vec![2, 2]);
    assert_eq!(secret_key, vec![3, 3, 3]);
    assert!(keypair_outcome(RpcEvent::Other).is_none());
    assert!(keypair_outcome(RpcEvent::Disconnected).is_none());
}
