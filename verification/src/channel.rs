//! The helper-process channel: a length-framed request/response protocol
//! with a running integrity checksum carried alongside the byte stream,
//! and the reader-loop rule that an unrecognized response discriminant
//! terminates only that channel's reader loop.

use vstd::prelude::*;

use crate::custom_coding::{be8, emit_u64, u64_of_be};

verus! {

/// The running checksum after absorbing one more byte.
pub open spec fn checksum_step(c: u64, b: u8) -> u64 {
    ((c * 256 + b) % 0x1_0000_0000) as u64
}

/// The running checksum of a byte string, from `c`.
pub open spec fn checksum_fold(c: u64, s: Seq<u8>) -> u64
    decreases s.len(),
{
    if s.len() == 0 {
        c
    } else {
        checksum_fold(checksum_step(c, s[0]), s.skip(1))
    }
}

/// The checksums of the two directions of one channel, as reported when it
/// closes.
#[derive(Clone, Copy, PartialEq, Eq, Structural, Debug)]
pub struct ChecksumPair(pub u64, pub u64);

/// One direction of a helper channel: the running checksum of every byte
/// that passed.
pub struct ChecksumIo {
    checksum: u64,
}

impl ChecksumIo {
    /// The checksum so far.
    pub closed spec fn sum(&self) -> u64 {
        self.checksum
    }

    /// The checksum stays below its modulus.
    pub closed spec fn wf(&self) -> bool {
        self.checksum < 0x1_0000_0000
    }

    /// A fresh direction with nothing absorbed.
    pub fn new() -> (r: ChecksumIo)
        ensures
            r.sum() == 0,
            r.wf(),
    {
        ChecksumIo { checksum: 0 }
    }

    /// Absorb bytes that passed on this direction.
    pub fn absorb(&mut self, data: &[u8])
        requires
            old(self).wf(),
        ensures
            final(self).wf(),
            final(self).sum() == checksum_fold(old(self).sum(), data@),
    {
        let n = data.len();
        let mut i: usize = 0;
        proof {
            assert(data@.skip(0) =~= data@);
        }
        while i < n
            invariant
                n == data@.len(),
                i <= n,
                self.wf(),
                checksum_fold(self.sum(), data@.skip(i as int)) == checksum_fold(
                    old(self).sum(),
                    data@,
                ),
            decreases n - i,
        {
            proof {
                assert(data@.skip(i as int)[0] == data@[i as int]);
                assert(data@.skip(i as int).skip(1) =~= data@.skip(i + 1));
            }
            self.checksum = (self.checksum * 256 + data[i] as u64) % 0x1_0000_0000;
            i = i + 1;
        }
        proof {
            assert(data@.skip(n as int) =~= Seq::<u8>::empty());
        }
    }

    /// The checksum so far, as reported when the channel closes.
    pub fn checksum(&self) -> (r: u64)
        ensures
            r == self.sum(),
    {
        self.checksum
    }

    /// Frame one message for the wire: its 8-byte big-endian length, then
    /// its bytes, with the whole frame absorbed into the checksum.
    pub fn encode_frame(&mut self, payload: &Vec<u8>) -> (r: Vec<u8>)
        requires
            old(self).wf(),
        ensures
            final(self).wf(),
            r@ == be8(payload@.len() as u64) + payload@,
            final(self).sum() == checksum_fold(old(self).sum(), r@),
    {
        let header: Vec<u8> = Vec::new();
        let mut frame = emit_u64(payload.len() as u64, header);
        proof {
            assert(frame@ =~= be8(payload@.len() as u64));
        }
        let n = payload.len();
        let ghost head = frame@;
        for i in 0..n
            invariant
                n == payload@.len(),
                frame@ =~= head + payload@.subrange(0, i as int),
        {
            frame.push(payload[i]);
        }
        proof {
            assert(frame@ =~= be8(payload@.len() as u64) + payload@);
        }
        self.absorb(frame.as_slice());
        frame
    }
}

/// One frame parsed back from the wire: an 8-byte big-endian length, then
/// exactly that many payload bytes.  `None` while the frame is incomplete.
pub fn decode_frame(input: &[u8]) -> (r: Option<(Vec<u8>, usize)>)
    ensures
        r matches Some((payload, consumed)) ==> {
            &&& input@.len() >= 8
            &&& payload@ == input@.subrange(8, 8 + u64_of_be(input@.take(8)) as int)
            &&& consumed == 8 + u64_of_be(input@.take(8))
        },
        r is None <==> (input@.len() < 8 || input@.len() < 8 + u64_of_be(input@.take(8))),
{
    if input.len() < 8 {
        return None;
    }
    let l = crate::custom_coding::read_u64(input, 0);
    proof {
        assert(input@.subrange(0, 8) =~= input@.take(8));
    }
    if ((input.len() - 8) as u64) < l {
        return None;
    }
    let payload = crate::meshsub_events::span_bytes(
        input,
        crate::meshsub_pb::Span { start: 8, end: 8 + l as usize },
    );
    Some((payload, 8 + l as usize))
}

/// What the reader loop does with one response discriminant.
#[derive(Clone, Copy, PartialEq, Eq, Structural, Debug)]
pub enum ReaderStep {
    /// A pushed message: dispatch it and keep reading.
    DispatchPush,
    /// A call response: dispatch it and keep reading.
    DispatchRpc,
    /// An unrecognized discriminant: stop this channel's reader loop; the
    /// recorder itself carries on.
    Terminate,
}

/// The reader-loop rule for one discriminant byte.
pub open spec fn spec_reader_step(d: u8) -> ReaderStep {
    if d == 0 {
        ReaderStep::DispatchPush
    } else if d == 1 {
        ReaderStep::DispatchRpc
    } else {
        ReaderStep::Terminate
    }
}

/// Decide what the reader loop does with one response discriminant: the
/// two known kinds are dispatched; anything else ends only this reader
/// loop.
pub fn reader_step(d: u8) -> (r: ReaderStep)
    ensures
        r == spec_reader_step(d),
{
    if d == 0 {
        ReaderStep::DispatchPush
    } else if d == 1 {
        ReaderStep::DispatchRpc
    } else {
        ReaderStep::Terminate
    }
}

/// One decoded response from the helper process, reduced to what the
/// request logic reads.
pub enum RpcEvent {
    /// A generated identity: peer id, public key and secret key.
    KeypairGenerated { peer_id: Vec<u8>, public_key: Vec<u8>, secret_key: Vec<u8> },
    /// An outgoing stream was opened under this identifier.
    StreamOpened { stream_id: u64 },
    /// The helper refused the request with this error text.
    Refused { error: Vec<u8> },
    /// Any other response.
    Other,
    /// The channel closed before a response arrived.
    Disconnected,
}

/// Where an open-stream exchange stands: the handler registration is
/// acknowledged first, then the stream itself.
pub enum OpenStreamState {
    /// The handler registration was sent; its acknowledgement is awaited.
    AwaitHandlerAck,
    /// The open request was sent; the stream identifier is awaited.
    AwaitStream,
    /// The stream is open under this identifier.
    Opened(u64),
    /// The exchange failed, with the helper's error text when it gave one.
    Failed { error: Option<Vec<u8>> },
}

/// How one response moves an open-stream exchange along: a refusal fails
/// it with the helper's text; anything else acknowledges the handler
/// registration; only a stream identifier completes it, and any other
/// answer at that point fails it without text.  A settled exchange absorbs
/// further responses.
pub open spec fn spec_open_stream_step(st: OpenStreamState, ev: RpcEvent) -> OpenStreamState {
    match st {
        OpenStreamState::AwaitHandlerAck => match ev {
            RpcEvent::Refused { error } => OpenStreamState::Failed { error: Some(error) },
            _ => OpenStreamState::AwaitStream,
        },
        OpenStreamState::AwaitStream => match ev {
            RpcEvent::StreamOpened { stream_id } => OpenStreamState::Opened(stream_id),
            RpcEvent::Refused { error } => OpenStreamState::Failed { error: Some(error) },
            _ => OpenStreamState::Failed { error: None },
        },
        OpenStreamState::Opened(id) => OpenStreamState::Opened(id),
        OpenStreamState::Failed { error } => OpenStreamState::Failed { error },
    }
}

/// Decide how one response moves an open-stream exchange along.  The outer
/// loop only sends requests and hands responses back in.
pub fn open_stream_step(st: OpenStreamState, ev: RpcEvent) -> (r: OpenStreamState)
    ensures
        r == spec_open_stream_step(st, ev),
{
    match st {
        OpenStreamState::AwaitHandlerAck => match ev {
            RpcEvent::Refused { error } => OpenStreamState::Failed { error: Some(error) },
            _ => OpenStreamState::AwaitStream,
        },
        OpenStreamState::AwaitStream => match ev {
            RpcEvent::StreamOpened { stream_id } => OpenStreamState::Opened(stream_id),
            RpcEvent::Refused { error } => OpenStreamState::Failed { error: Some(error) },
            _ => OpenStreamState::Failed { error: None },
        },
        OpenStreamState::Opened(id) => OpenStreamState::Opened(id),
        OpenStreamState::Failed { error } => OpenStreamState::Failed { error },
    }
}

/// The identity a keypair request produced: the generated triple exactly
/// when the helper answered with one, and nothing on any other response or
/// a closed channel.
pub fn keypair_outcome(ev: RpcEvent) -> (r: Option<(Vec<u8>, Vec<u8>, Vec<u8>)>)
    ensures
        r is Some <==> ev is KeypairGenerated,
        r matches Some(t) ==> (ev matches RpcEvent::KeypairGenerated {
            peer_id,
            public_key,
            secret_key,
        } && t.0@ == peer_id@ && t.1@ == public_key@ && t.2@ == secret_key@),
{
    match ev {
        RpcEvent::KeypairGenerated { peer_id, public_key, secret_key } => Some(
            (peer_id, public_key, secret_key),
        ),
        _ => None,
    }
}

} // verus!
