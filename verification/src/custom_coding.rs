//! Deterministic binary codec for persisted records: fixed-width big-endian
//! fields for addresses, time values, stream kinds and the packed stream
//! meta word.  Every `*_emit` appends to a buffer; every `*_absorb` reads at
//! an offset and reports how far it advanced.

use vstd::prelude::*;

use crate::types::{
    Addr, StreamKind, StreamMeta, TimePoint, TimeSpan, addr_eq, stream_kind_code,
    stream_kind_of_code, stream_meta_code, stream_meta_of_code, stream_meta_valid,
};

verus! {

/// Big-endian bytes of a 16-bit word.
pub open spec fn be2(v: u16) -> Seq<u8> {
    seq![(v >> 8) as u8, v as u8]
}

/// Big-endian bytes of a 32-bit word.
pub open spec fn be4(v: u32) -> Seq<u8> {
    seq![(v >> 24) as u8, (v >> 16) as u8, (v >> 8) as u8, v as u8]
}

/// Big-endian bytes of a 64-bit word.
pub open spec fn be8(v: u64) -> Seq<u8> {
    seq![
        (v >> 56) as u8,
        (v >> 48) as u8,
        (v >> 40) as u8,
        (v >> 32) as u8,
        (v >> 24) as u8,
        (v >> 16) as u8,
        (v >> 8) as u8,
        v as u8,
    ]
}

/// The 16-bit word read from two big-endian bytes.
pub open spec fn u16_of_be(s: Seq<u8>) -> u16
    recommends
        s.len() == 2,
{
    (((s[0] as u16) << 8) | (s[1] as u16)) as u16
}

/// The 32-bit word read from four big-endian bytes.
pub open spec fn u32_of_be(s: Seq<u8>) -> u32
    recommends
        s.len() == 4,
{
    (((s[0] as u32) << 24) | ((s[1] as u32) << 16) | ((s[2] as u32) << 8) | (s[3] as u32)) as u32
}

/// The 64-bit word read from eight big-endian bytes.
pub open spec fn u64_of_be(s: Seq<u8>) -> u64
    recommends
        s.len() == 8,
{
    (((s[0] as u64) << 56) | ((s[1] as u64) << 48) | ((s[2] as u64) << 40) | ((s[3] as u64) << 32)
        | ((s[4] as u64) << 24) | ((s[5] as u64) << 16) | ((s[6] as u64) << 8) | (
    s[7] as u64)) as u64
}

/// Reading back the big-endian bytes of a 16-bit word gives the word.
pub proof fn lemma_be2_round(v: u16)
    ensures
        u16_of_be(be2(v)) == v,
{
    let b0 = (v >> 8) as u8;
    let b1 = v as u8;
    assert((((b0 as u16) << 8) | (b1 as u16)) as u16 == v) by (bit_vector)
        requires
            b0 == (v >> 8) as u8,
            b1 == v as u8,
    ;
}

/// Reading back the big-endian bytes of a 32-bit word gives the word.
pub proof fn lemma_be4_round(v: u32)
    ensures
        u32_of_be(be4(v)) == v,
{
    let b0 = (v >> 24) as u8;
    let b1 = (v >> 16) as u8;
    let b2 = (v >> 8) as u8;
    let b3 = v as u8;
    assert((((b0 as u32) << 24) | ((b1 as u32) << 16) | ((b2 as u32) << 8) | (b3 as u32)) as u32
        == v) by (bit_vector)
        requires
            b0 == (v >> 24) as u8,
            b1 == (v >> 16) as u8,
            b2 == (v >> 8) as u8,
            b3 == v as u8,
    ;
}

/// Reading back the big-endian bytes of a 64-bit word gives the word.
pub proof fn lemma_be8_round(v: u64)
    ensures
        u64_of_be(be8(v)) == v,
{
    let b0 = (v >> 56) as u8;
    let b1 = (v >> 48) as u8;
    let b2 = (v >> 40) as u8;
    let b3 = (v >> 32) as u8;
    let b4 = (v >> 24) as u8;
    let b5 = (v >> 16) as u8;
    let b6 = (v >> 8) as u8;
    let b7 = v as u8;
    assert((((b0 as u64) << 56) | ((b1 as u64) << 48) | ((b2 as u64) << 40) | ((b3 as u64) << 32)
        | ((b4 as u64) << 24) | ((b5 as u64) << 16) | ((b6 as u64) << 8) | (b7 as u64)) as u64
        == v) by (bit_vector)
        requires
            b0 == (v >> 56) as u8,
            b1 == (v >> 48) as u8,
            b2 == (v >> 40) as u8,
            b3 == (v >> 32) as u8,
            b4 == (v >> 24) as u8,
            b5 == (v >> 16) as u8,
            b6 == (v >> 8) as u8,
            b7 == v as u8,
    ;
}

/// Append the big-endian bytes of a 16-bit word.
pub fn emit_u16(v: u16, buffer: Vec<u8>) -> (r: Vec<u8>)
    ensures
        r@ =~= buffer@ + be2(v),
{
    let mut buffer = buffer;
    buffer.push((v >> 8) as u8);
    buffer.push(v as u8);
    buffer
}

/// Append the big-endian bytes of a 32-bit word.
pub fn emit_u32(v: u32, buffer: Vec<u8>) -> (r: Vec<u8>)
    ensures
        r@ =~= buffer@ + be4(v),
{
    let mut buffer = buffer;
    buffer.push((v >> 24) as u8);
    buffer.push((v >> 16) as u8);
    buffer.push((v >> 8) as u8);
    buffer.push(v as u8);
    buffer
}

/// Append the big-endian bytes of a 64-bit word.
pub fn emit_u64(v: u64, buffer: Vec<u8>) -> (r: Vec<u8>)
    ensures
        r@ =~= buffer@ + be8(v),
{
    let mut buffer = buffer;
    buffer.push((v >> 56) as u8);
    buffer.push((v >> 48) as u8);
    buffer.push((v >> 40) as u8);
    buffer.push((v >> 32) as u8);
    buffer.push((v >> 24) as u8);
    buffer.push((v >> 16) as u8);
    buffer.push((v >> 8) as u8);
    buffer.push(v as u8);
    buffer
}

/// Read a big-endian 16-bit word at `pos`.
pub fn read_u16(input: &[u8], pos: usize) -> (r: u16)
    requires
        pos + 2 <= input@.len(),
    ensures
        r == u16_of_be(input@.subrange(pos as int, pos + 2)),
{
    ((input[pos] as u16) << 8) | (input[pos + 1] as u16)
}

/// Read a big-endian 32-bit word at `pos`.
pub fn read_u32(input: &[u8], pos: usize) -> (r: u32)
    requires
        pos + 4 <= input@.len(),
    ensures
        r == u32_of_be(input@.subrange(pos as int, pos + 4)),
{
    ((input[pos] as u32) << 24) | ((input[pos + 1] as u32) << 16) | ((input[pos + 2] as u32) << 8)
        | (input[pos + 3] as u32)
}

/// Read a big-endian 64-bit word at `pos`.
pub fn read_u64(input: &[u8], pos: usize) -> (r: u64)
    requires
        pos + 8 <= input@.len(),
    ensures
        r == u64_of_be(input@.subrange(pos as int, pos + 8)),
{
    ((input[pos] as u64) << 56) | ((input[pos + 1] as u64) << 48) | ((input[pos + 2] as u64) << 40)
        | ((input[pos + 3] as u64) << 32) | ((input[pos + 4] as u64) << 24) | ((input[pos
        + 5] as u64) << 16) | ((input[pos + 6] as u64) << 8) | (input[pos + 7] as u64)
}

/// On-wire bytes of an address: the 16 address bytes, then the port.
pub open spec fn addr_spec_bytes(a: Addr) -> Seq<u8> {
    a.ip@ + be2(a.port)
}

/// Append an address: 16 address bytes, then the 2-byte port.
pub fn addr_emit(value: &Addr, buffer: Vec<u8>) -> (r: Vec<u8>)
    ensures
        r@ =~= buffer@ + addr_spec_bytes(*value),
{
    let mut buffer = buffer;
    let ghost buffer0 = buffer@;
    for i in 0..16
        invariant
            buffer@ =~= buffer0 + value.ip@.subrange(0, i as int),
    {
        buffer.push(value.ip[i]);
    }
    proof {
        assert(buffer@ =~= buffer0 + value.ip@);
    }
    emit_u16(value.port, buffer)
}

/// Read an address back from its 18 on-wire bytes.
pub fn addr_absorb(input: &[u8], pos: usize) -> (r: Option<(Addr, usize)>)
    ensures
        pos + 18 <= input@.len() <==> r is Some,
        r matches Some((a, next)) ==> {
            &&& next == pos + 18
            &&& addr_spec_bytes(a) =~= input@.subrange(pos as int, pos + 18)
        },
{
    if input.len() < 18 || pos > input.len() - 18 {
        return None;
    }
    let n = input.len();
    let mut ip: [u8; 16] = [0; 16];
    for i in 0..16
        invariant
            n == input@.len(),
            pos + 18 <= n <= usize::MAX,
            forall|j: int| 0 <= j < i ==> ip@[j] == input@[pos + j],
    {
        ip[i] = input[pos + i];
    }
    let port = read_u16(input, pos + 16);
    proof {
        lemma_be2_round(port);
        let sub = input@.subrange(pos as int, pos + 18);
        assert(ip@ =~= sub.subrange(0, 16));
        assert(input@.subrange(pos + 16, pos + 18) =~= sub.subrange(16, 18));
        assert(be2(u16_of_be(sub.subrange(16, 18))) =~= sub.subrange(16, 18)) by {
            lemma_be2_bytes(sub.subrange(16, 18));
        }
        assert(ip@ + be2(port) =~= sub);
    }
    Some((Addr { ip, port }, pos + 18))
}

/// Two big-endian bytes are recovered from the word they encode.
pub proof fn lemma_be2_bytes(s: Seq<u8>)
    requires
        s.len() == 2,
    ensures
        be2(u16_of_be(s)) =~= s,
{
    let b0 = s[0];
    let b1 = s[1];
    let v = u16_of_be(s);
    assert((((((b0 as u16) << 8) | (b1 as u16)) as u16) >> 8) as u8 == b0) by (bit_vector);
    assert(((((b0 as u16) << 8) | (b1 as u16)) as u16) as u8 == b1) by (bit_vector);
}

/// On-wire bytes of a time span: 8-byte seconds, then 4-byte nanoseconds.
pub open spec fn duration_spec_bytes(v: TimeSpan) -> Seq<u8> {
    be8(v.secs) + be4(v.nanos)
}

/// Append a time span: 8-byte seconds, then 4-byte sub-second nanoseconds.
pub fn duration_emit(value: &TimeSpan, buffer: Vec<u8>) -> (r: Vec<u8>)
    ensures
        r@ =~= buffer@ + duration_spec_bytes(*value),
{
    let buffer = emit_u64(value.secs, buffer);
    emit_u32(value.nanos, buffer)
}

/// Read a time span back from its 12 on-wire bytes.
pub fn duration_absorb(input: &[u8], pos: usize) -> (r: Option<(TimeSpan, usize)>)
    ensures
        pos + 12 <= input@.len() <==> r is Some,
        r matches Some((v, next)) ==> {
            &&& next == pos + 12
            &&& v.secs == u64_of_be(input@.subrange(pos as int, pos + 8))
            &&& v.nanos == u32_of_be(input@.subrange(pos + 8, pos + 12))
        },
{
    if input.len() < 12 || pos > input.len() - 12 {
        return None;
    }
    let secs = read_u64(input, pos);
    let nanos = read_u32(input, pos + 8);
    Some((TimeSpan { secs, nanos }, pos + 12))
}

/// On-wire bytes of a time point: 8-byte seconds, then 4-byte nanoseconds,
/// both since the fixed epoch.
pub open spec fn time_spec_bytes(v: TimePoint) -> Seq<u8> {
    be8(v.secs) + be4(v.nanos)
}

/// Append a time point: 8-byte seconds, then 4-byte sub-second nanoseconds.
pub fn time_emit(value: &TimePoint, buffer: Vec<u8>) -> (r: Vec<u8>)
    ensures
        r@ =~= buffer@ + time_spec_bytes(*value),
{
    let buffer = emit_u64(value.secs, buffer);
    emit_u32(value.nanos, buffer)
}

/// Read a time point back from its 12 on-wire bytes.
pub fn time_absorb(input: &[u8], pos: usize) -> (r: Option<(TimePoint, usize)>)
    ensures
        pos + 12 <= input@.len() <==> r is Some,
        r matches Some((v, next)) ==> {
            &&& next == pos + 12
            &&& v.secs == u64_of_be(input@.subrange(pos as int, pos + 8))
            &&& v.nanos == u32_of_be(input@.subrange(pos + 8, pos + 12))
        },
{
    if input.len() < 12 || pos > input.len() - 12 {
        return None;
    }
    let secs = read_u64(input, pos);
    let nanos = read_u32(input, pos + 8);
    Some((TimePoint { secs, nanos }, pos + 12))
}

/// Append a stream kind as its 2-byte enumerated value.
pub fn stream_kind_emit(value: &StreamKind, buffer: Vec<u8>) -> (r: Vec<u8>)
    ensures
        r@ =~= buffer@ + be2(stream_kind_code(*value)),
{
    emit_u16(value.code(), buffer)
}

/// Read a stream kind back; a value not recognized by this version decodes
/// as `Unknown` so that future tags stay readable.
pub fn stream_kind_absorb(input: &[u8], pos: usize) -> (r: Option<(StreamKind, usize)>)
    ensures
        pos + 2 <= input@.len() <==> r is Some,
        r matches Some((k, next)) ==> {
            &&& next == pos + 2
            &&& k == stream_kind_of_code(u16_of_be(input@.subrange(pos as int, pos + 2)))
        },
{
    if input.len() < 2 || pos > input.len() - 2 {
        return None;
    }
    let d = read_u16(input, pos);
    Some((StreamKind::of_code(d), pos + 2))
}

/// Append a stream meta as its packed 8-byte word.
pub fn stream_meta_emit(value: &StreamMeta, buffer: Vec<u8>) -> (r: Vec<u8>)
    requires
        stream_meta_valid(*value),
    ensures
        r@ =~= buffer@ + be8(stream_meta_code(*value)),
{
    emit_u64(value.code(), buffer)
}

/// Read a stream meta back from its packed 8-byte word.
pub fn stream_meta_absorb(input: &[u8], pos: usize) -> (r: Option<(StreamMeta, usize)>)
    ensures
        pos + 8 <= input@.len() <==> r is Some,
        r matches Some((m, next)) ==> {
            &&& next == pos + 8
            &&& m == stream_meta_of_code(u64_of_be(input@.subrange(pos as int, pos + 8)))
            &&& stream_meta_valid(m)
        },
{
    if input.len() < 8 || pos > input.len() - 8 {
        return None;
    }
    let d = read_u64(input, pos);
    Some((StreamMeta::of_code(d), pos + 8))
}

/// Encode-decode round trip for the stream meta codec: absorbing the bytes
/// that `stream_meta_emit` appends yields the original meta, for every
/// representable meta.
pub proof fn lemma_stream_meta_bytes_round_trip(m: StreamMeta)
    requires
        stream_meta_valid(m),
    ensures
        stream_meta_of_code(u64_of_be(be8(stream_meta_code(m)))) == m,
{
    lemma_be8_round(stream_meta_code(m));
    crate::types::lemma_stream_meta_code_round_trip(m);
}

/// Encode-decode round trip for the stream kind codec: every kind survives
/// its 2-byte encoding, `Unknown` included.
pub proof fn lemma_stream_kind_bytes_round_trip(k: StreamKind)
    ensures
        stream_kind_of_code(u16_of_be(be2(stream_kind_code(k)))) == k,
{
    lemma_be2_round(stream_kind_code(k));
    crate::types::lemma_stream_kind_code_round_trip(k);
}

} // verus!
