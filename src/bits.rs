//! Fixed-width bit-vectors (sync-committee participation bitmaps) in their SSZ form.
use vstd::prelude::*;

verus! {

/// Number of bytes that carry `n` bits.
pub open spec fn byte_len(n: int) -> int {
    (n + 7) / 8
}

/// Bit `i` of a little-endian packed byte string: bit `i % 8` of byte `i / 8`.
pub open spec fn bit_at(bytes: Seq<u8>, i: int) -> bool {
    (bytes[i / 8] >> ((i % 8) as u8)) & 1u8 == 1u8
}

/// Whether `bytes` is a canonical SSZ encoding of an `n`-bit vector:
/// exactly enough bytes, and every bit past the `n`th is clear.
pub open spec fn is_bitvector_encoding(n: int, bytes: Seq<u8>) -> bool {
    &&& n > 0
    &&& bytes.len() == byte_len(n)
    &&& forall|i: int| n <= i < 8 * bytes.len() ==> !#[trigger] bit_at(bytes, i)
}

/// Relies on `ssz_rs::Bitvector::<N>::deserialize`: it accepts exactly `(N + 7) / 8`
/// bytes whose bits past the `N`th are clear (and refuses `N == 0`), and sets bit `i`
/// from bit `i % 8` of byte `i / 8`.
#[verifier::external_body]
pub(crate) fn bitvector_from_bytes<const N: usize>(bytes: &Vec<u8>) -> (r: Option<Vec<bool>>)
    ensures
        r.is_some() <==> is_bitvector_encoding(N as int, bytes@),
        r matches Some(v) ==> v@.len() == N && forall|i: int|
            0 <= i < N ==> v@[i] == #[trigger] bit_at(bytes@, i),
{
    <ssz_rs::Bitvector<N> as ssz_rs::Deserialize>::deserialize(bytes.as_slice())
        .ok()
        .map(|b| b.iter().map(|x| *x).collect())
}

/// Relies on `ssz_rs::Bitvector::<N>::try_from(&[bool])` and `ssz_rs::serialize`:
/// one byte per eight bits, bit `i` stored as bit `i % 8` of byte `i / 8`, the
/// unused high bits of the last byte clear.
#[verifier::external_body]
pub(crate) fn bitvector_to_bytes<const N: usize>(bits: &Vec<bool>) -> (r: Vec<u8>)
    requires
        N > 0,
        bits@.len() == N,
    ensures
        is_bitvector_encoding(N as int, r@),
        forall|i: int| 0 <= i < N ==> #[trigger] bit_at(r@, i) == bits@[i],
{
    let v = ssz_rs::Bitvector::<N>::try_from(bits.as_slice()).unwrap();
    ssz_rs::serialize(&v).unwrap()
}

} // verus!
