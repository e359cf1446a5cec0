//! Wire-level reader for the gossip envelope: base-128 variable-width
//! integers and the tag/wire-type field framing that the envelope is built
//! from.  Parsed fields carry spans (index ranges) into the input buffer,
//! so nothing is copied while scanning.

use vstd::prelude::*;

verus! {

/// A range of the input buffer: the bytes at `start..end`.
#[derive(Clone, Copy, PartialEq, Eq, Structural, Debug)]
pub struct Span {
    pub start: usize,
    pub end: usize,
}

impl Span {
    /// The bytes this span selects.
    pub open spec fn select(&self, s: Seq<u8>) -> Seq<u8> {
        s.subrange(self.start as int, self.end as int)
    }

    /// Whether the span lies inside a buffer of length `n`.
    pub open spec fn inside(&self, n: int) -> bool {
        self.start <= self.end <= n
    }

    /// How many bytes the span selects.
    pub fn len(&self) -> (r: usize)
        requires
            self.start <= self.end,
        ensures
            r == self.end - self.start,
    {
        self.end - self.start
    }
}

/// One decoded field value: an integer, a span of payload bytes, or one of
/// the two fixed-width words (kept only so they can be skipped).
#[derive(Clone, Copy, PartialEq, Eq, Structural, Debug)]
pub enum FieldVal {
    Varint(u64),
    Len(Span),
    Word64,
    Word32,
}

/// Base-128 integer at `i`, at most `limit` more bytes allowed: the raw
/// (unbounded) value and the position after it.  Low groups come first; a
/// missing terminator, or running past the buffer or the 10-byte cap,
/// fails.
pub open spec fn spec_varint_raw(s: Seq<u8>, i: int, limit: int) -> Option<(int, int)>
    decreases limit,
{
    if limit <= 0 || !(0 <= i < s.len()) {
        None
    } else if s[i] < 0x80 {
        Some((s[i] as int, i + 1))
    } else {
        match spec_varint_raw(s, i + 1, limit - 1) {
            None => None,
            Some((v, n)) => Some(((s[i] - 0x80) + 128 * v, n)),
        }
    }
}

/// Base-128 integer at `i`, fitting a 64-bit word; over-long or
/// over-large encodings fail.
pub open spec fn spec_varint(s: Seq<u8>, i: int) -> Option<(u64, int)> {
    match spec_varint_raw(s, i, 10) {
        None => None,
        Some((v, n)) => if v <= u64::MAX {
            Some((v as u64, n))
        } else {
            None
        },
    }
}

/// A raw varint value is never negative and its end stays past its start.
proof fn lemma_varint_raw_bounds(s: Seq<u8>, i: int, limit: int)
    requires
        spec_varint_raw(s, i, limit) is Some,
    ensures
        spec_varint_raw(s, i, limit).unwrap().0 >= 0,
        i < spec_varint_raw(s, i, limit).unwrap().1 <= s.len(),
    decreases limit,
{
    if !(limit <= 0 || !(0 <= i < s.len())) && s[i] >= 0x80 {
        lemma_varint_raw_bounds(s, i + 1, limit - 1);
    }
}

/// Read one base-128 integer.  `depth` groups were already consumed by the
/// callers above; the public entry starts at depth 0.
fn read_varint_from(s: &[u8], i: usize, limit: u8) -> (r: Option<(u64, usize)>)
    ensures
        r is Some <==> spec_varint_limited(s@, i as int, limit as int) is Some,
        r matches Some((v, n)) ==> spec_varint_limited(s@, i as int, limit as int) == Some(
            (v, n as int),
        ),
    decreases limit,
{
    if limit == 0 || i >= s.len() {
        return None;
    }
    let b = s[i];
    if b < 0x80 {
        return Some((b as u64, i + 1));
    }
    match read_varint_from(s, i + 1, limit - 1) {
        None => None,
        Some((v, n)) => {
            proof {
                lemma_varint_raw_bounds(s@, i as int + 1, limit as int - 1);
            }
            let low = (b - 0x80) as u64;
            if v > (u64::MAX - low) / 128 {
                proof {
                    lemma_varint_raw_overflow(s@, i as int, limit as int, low as int, v as int);
                }
                None
            } else {
                proof {
                    lemma_varint_raw_fits(s@, i as int, limit as int, low as int, v as int);
                }
                Some((low + 128 * v, n))
            }
        },
    }
}

/// The 64-bit reading of a raw varint, provided it fits.
pub open spec fn spec_varint_limited(s: Seq<u8>, i: int, limit: int) -> Option<(u64, int)> {
    match spec_varint_raw(s, i, limit) {
        None => None,
        Some((v, n)) => if v <= u64::MAX {
            Some((v as u64, n))
        } else {
            None
        },
    }
}

/// When the tail value already overflows what remains of a 64-bit word,
/// the whole varint overflows.
proof fn lemma_varint_raw_overflow(s: Seq<u8>, i: int, limit: int, low: int, v: int)
    requires
        limit > 0,
        0 <= i < s.len(),
        s[i] >= 0x80,
        low == s[i] - 0x80,
        spec_varint_raw(s, i + 1, limit - 1) matches Some(p) && p.0 == v,
        v > (u64::MAX - low) / 128,
    ensures
        spec_varint_limited(s, i, limit) is None,
{
    assert(low + 128 * v > u64::MAX) by (nonlinear_arith)
        requires
            v > (u64::MAX - low) / 128,
            0 <= low < 128,
    ;
}

/// When the tail value fits, the whole varint fits and is the low group
/// plus 128 times the tail.
proof fn lemma_varint_raw_fits(s: Seq<u8>, i: int, limit: int, low: int, v: int)
    requires
        limit > 0,
        0 <= i < s.len(),
        s[i] >= 0x80,
        low == s[i] - 0x80,
        spec_varint_raw(s, i + 1, limit - 1) matches Some(p) && p.0 == v,
        0 <= v <= (u64::MAX - low) / 128,
    ensures
        spec_varint_limited(s, i, limit) matches Some(q) && q.0 == low + 128 * v
            && q.1 == spec_varint_raw(s, i + 1, limit - 1).unwrap().1,
        low + 128 * v <= u64::MAX,
{
    assert(low + 128 * v <= u64::MAX) by (nonlinear_arith)
        requires
            0 <= v <= (u64::MAX - low) / 128,
            0 <= low < 128,
    ;
}

/// Read one base-128 integer at `i`: the value and the position after it.
pub fn read_varint(s: &[u8], i: usize) -> (r: Option<(u64, usize)>)
    ensures
        r is Some <==> spec_varint(s@, i as int) is Some,
        r matches Some((v, n)) ==> spec_varint(s@, i as int) == Some((v, n as int)),
{
    read_varint_from(s, i, 10)
}

/// A parsed varint always advances the position and stays inside the
/// buffer.
pub proof fn lemma_varint_bounds(s: Seq<u8>, i: int)
    requires
        0 <= i,
        spec_varint(s, i) is Some,
    ensures
        i < spec_varint(s, i).unwrap().1 <= s.len(),
{
    lemma_varint_raw_bounds(s, i, 10);
}

/// One field at `i`: its tag, its value and the position after it.  Fails
/// on a bad key, a truncated value or the deprecated group markers.
pub open spec fn spec_next_field(s: Seq<u8>, i: int) -> Option<(u64, FieldVal, int)> {
    match spec_varint(s, i) {
        None => None,
        Some((key, p)) => {
            let tag = key / 8;
            let wire = key % 8;
            if wire == 0 {
                match spec_varint(s, p) {
                    None => None,
                    Some((v, n)) => Some((tag, FieldVal::Varint(v), n)),
                }
            } else if wire == 1 {
                if p + 8 <= s.len() {
                    Some((tag, FieldVal::Word64, p + 8))
                } else {
                    None
                }
            } else if wire == 2 {
                match spec_varint(s, p) {
                    None => None,
                    Some((l, q)) => if q + l <= s.len() {
                        Some(
                            (
                                tag,
                                FieldVal::Len(Span { start: q as usize, end: (q + l) as usize }),
                                q + l,
                            ),
                        )
                    } else {
                        None
                    },
                }
            } else if wire == 5 {
                if p + 4 <= s.len() {
                    Some((tag, FieldVal::Word32, p + 4))
                } else {
                    None
                }
            } else {
                None
            }
        },
    }
}

/// A parsed field always advances the position and stays inside the
/// buffer, and a payload span lies between the two positions.
pub proof fn lemma_next_field_bounds(s: Seq<u8>, i: int)
    requires
        0 <= i,
        s.len() <= usize::MAX,
        spec_next_field(s, i) is Some,
    ensures
        i < spec_next_field(s, i).unwrap().2 <= s.len(),
        spec_next_field(s, i).unwrap().1 matches FieldVal::Len(sp) ==> sp.inside(s.len() as int)
            && i < sp.start && sp.end == spec_next_field(s, i).unwrap().2,
{
    lemma_varint_raw_bounds(s, i, 10);
    let p = spec_varint(s, i).unwrap().1;
    let key = spec_varint(s, i).unwrap().0;
    if key % 8 == 0 {
        lemma_varint_raw_bounds(s, p, 10);
    } else if key % 8 == 2 {
        lemma_varint_raw_bounds(s, p, 10);
    }
}

/// Read one field at `i`.
pub fn next_field(s: &[u8], i: usize) -> (r: Option<(u64, FieldVal, usize)>)
    ensures
        r is Some <==> spec_next_field(s@, i as int) is Some,
        r matches Some((t, v, n)) ==> spec_next_field(s@, i as int) == Some((t, v, n as int)),
{
    match read_varint(s, i) {
        None => None,
        Some((key, p)) => {
            proof {
                lemma_varint_raw_bounds(s@, i as int, 10);
            }
            let tag = key / 8;
            let wire = key % 8;
            if wire == 0 {
                match read_varint(s, p) {
                    None => None,
                    Some((v, n)) => Some((tag, FieldVal::Varint(v), n)),
                }
            } else if wire == 1 {
                if s.len() >= 8 && p <= s.len() - 8 {
                    Some((tag, FieldVal::Word64, p + 8))
                } else {
                    None
                }
            } else if wire == 2 {
                match read_varint(s, p) {
                    None => None,
                    Some((l, q)) => {
                        proof {
                            lemma_varint_raw_bounds(s@, p as int, 10);
                        }
                        if l <= (s.len() - q) as u64 {
                            let e = q + (l as usize);
                            Some((tag, FieldVal::Len(Span { start: q, end: e }), e))
                        } else {
                            None
                        }
                    },
                }
            } else if wire == 5 {
                if s.len() >= 4 && p <= s.len() - 4 {
                    Some((tag, FieldVal::Word32, p + 4))
                } else {
                    None
                }
            } else {
                None
            }
        },
    }
}

} // verus!
