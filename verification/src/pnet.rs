//! Pre-shared-key layer: a stateless keystream transform over the whole
//! byte stream of a connection.  The transform never fails and keeps
//! lengths; a wrong key merely yields bytes that later layers reject.

use vstd::prelude::*;

verus! {

/// One byte of the transform.
pub open spec fn xor_byte(a: u8, b: u8) -> u8 {
    a ^ b
}

/// Apply the keystream to one chunk: the result has identical length and
/// is the byte-wise combination of chunk and keystream.
pub fn unscramble(bytes: &[u8], keystream: &[u8]) -> (r: Vec<u8>)
    requires
        keystream@.len() == bytes@.len(),
    ensures
        r@.len() == bytes@.len(),
        forall|i: int| 0 <= i < bytes@.len() ==> r@[i] == xor_byte(bytes@[i], keystream@[i]),
{
    let mut r: Vec<u8> = Vec::new();
    let n = bytes.len();
    for i in 0..n
        invariant
            n == bytes@.len() == keystream@.len(),
            r@.len() == i,
            forall|j: int| 0 <= j < i ==> r@[j] == xor_byte(bytes@[j], keystream@[j]),
    {
        r.push(bytes[i] ^ keystream[i]);
    }
    r
}

/// The transform is its own inverse: unscrambling twice with the same
/// keystream gives the original bytes back.
pub proof fn lemma_unscramble_involution(a: Seq<u8>, k: Seq<u8>, once: Seq<u8>, twice: Seq<u8>)
    requires
        k.len() == a.len(),
        once.len() == a.len(),
        twice.len() == a.len(),
        forall|i: int| 0 <= i < a.len() ==> once[i] == xor_byte(a[i], k[i]),
        forall|i: int| 0 <= i < a.len() ==> twice[i] == xor_byte(once[i], k[i]),
    ensures
        twice =~= a,
{
    assert forall|i: int| 0 <= i < a.len() implies twice[i] == a[i] by {
        let x = a[i];
        let y = k[i];
        assert((x ^ y) ^ y == x) by (bit_vector);
    }
}

} // verus!
