//! Hexadecimal text form of byte strings, as used for message identifiers
//! and content hashes.  The conversions are performed by the `hex` crate;
//! their exact meaning is stated here and proved to round-trip.

use vstd::prelude::*;

verus! {

/// The lowercase hex digit of a value below 16.
pub open spec fn hex_digit_lower(v: u8) -> char
    recommends
        v < 16,
{
    if v < 10 {
        ((v + 48) as u8) as char
    } else {
        ((v + 87) as u8) as char
    }
}

/// The value of one hex digit, upper or lower case; `None` for any other
/// character.
pub open spec fn hex_char_val(c: char) -> Option<u8> {
    let u = c as u32;
    if 48 <= u && u <= 57 {
        Some((u - 48) as u8)
    } else if 97 <= u && u <= 102 {
        Some((u - 87) as u8)
    } else if 65 <= u && u <= 70 {
        Some((u - 55) as u8)
    } else {
        None
    }
}

/// The lowercase hex text of a byte string: two digits for each byte, high
/// nibble first.
pub open spec fn hex_str_of(b: Seq<u8>) -> Seq<char> {
    Seq::new(
        b.len() * 2,
        |i: int|
            if i % 2 == 0 {
                hex_digit_lower(b[i / 2] >> 4)
            } else {
                hex_digit_lower((b[i / 2] & 0xf) as u8)
            },
    )
}

/// Whether every character of `s` is a hex digit.
pub open spec fn all_hex_digits(s: Seq<char>) -> bool {
    forall|i: int| 0 <= i < s.len() ==> #[trigger] hex_char_val(s[i]) is Some
}

/// The bytes denoted by a hex text: pairs of digits, high nibble first;
/// `None` on odd length or any non-digit.
pub open spec fn hex_parse(s: Seq<char>) -> Option<Seq<u8>> {
    if s.len() % 2 == 0 && all_hex_digits(s) {
        Some(
            Seq::new(
                s.len() / 2,
                |i: int|
                    ((hex_char_val(s[2 * i]).unwrap() << 4) | hex_char_val(
                        s[2 * i + 1],
                    ).unwrap()) as u8,
            ),
        )
    } else {
        None
    }
}

/// Reading a lowercase digit back gives the nibble it encodes.
proof fn lemma_hex_digit_round(v: u8)
    requires
        v < 16,
    ensures
        hex_char_val(hex_digit_lower(v)) == Some(v),
{
    if v < 10 {
        assert(((v + 48) as u8) as char as u32 == v + 48);
    } else {
        assert(((v + 87) as u8) as char as u32 == v + 87);
    }
}

/// Hex encoding round-trips: parsing the hex text of any byte string gives
/// back exactly those bytes.
pub proof fn lemma_hex_round_trip(b: Seq<u8>)
    ensures
        hex_parse(hex_str_of(b)) == Some(b),
{
    let s = hex_str_of(b);
    assert forall|i: int| 0 <= i < s.len() implies #[trigger] hex_char_val(s[i]) is Some by {
        let v = b[i / 2];
        assert((v >> 4) < 16) by (bit_vector);
        assert((v & 0xf) < 16) by (bit_vector);
        if i % 2 == 0 {
            lemma_hex_digit_round((v >> 4) as u8);
        } else {
            lemma_hex_digit_round((v & 0xf) as u8);
        }
    }
    let parsed = hex_parse(s).unwrap();
    assert forall|i: int| 0 <= i < b.len() implies parsed[i] == b[i] by {
        let v = b[i];
        assert((v >> 4) < 16) by (bit_vector);
        assert((v & 0xf) < 16) by (bit_vector);
        lemma_hex_digit_round((v >> 4) as u8);
        lemma_hex_digit_round((v & 0xf) as u8);
        assert(s[2 * i] == hex_digit_lower((v >> 4) as u8));
        assert(s[2 * i + 1] == hex_digit_lower((v & 0xf) as u8));
        assert((((v >> 4) as u8) << 4 | ((v & 0xf) as u8)) as u8 == v) by (bit_vector);
    }
    assert(parsed =~= b);
}

/// Relies on `hex::encode`: the result is two lowercase digits for each
/// input byte, high nibble first.
#[verifier::external_body]
pub fn hex_encode(data: &[u8]) -> (r: String)
    ensures
        r@ =~= hex_str_of(data@),
{
    hex::encode(data)
}

/// Relies on `hex::decode`: digit pairs of either case become bytes; odd
/// length or a non-digit character is rejected.
#[verifier::external_body]
pub fn hex_decode(s: &str) -> (r: Option<Vec<u8>>)
    ensures
        r is Some <==> hex_parse(s@) is Some,
        r matches Some(b) ==> hex_parse(s@) == Some(b@),
{
    hex::decode(s).ok()
}

} // verus!
