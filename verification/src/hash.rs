//! The hash functions of the ciphersuite, each BLAKE2b-512 under a
//! personalization of its own.
use vstd::prelude::*;

use crate::bytes::le_value;
use crate::scalar::{modulus, reduce_wide, Scalar};

verus! {

/// The 64-byte BLAKE2b digest of `input` under the 16-byte personalization
/// `personal`, with no key and no salt.
pub uninterp spec fn blake2b_512(personal: Seq<u8>, input: Seq<u8>) -> Seq<u8>;

/// A digest read as a 512-bit little-endian number and reduced to a scalar.
pub open spec fn hash_to_scalar(personal: Seq<u8>, input: Seq<u8>) -> nat {
    le_value(blake2b_512(personal, input)) % modulus()
}

/// The personalization of `H1`: `FROST_RedPallasR`.
pub const H1_PERSONAL: [u8; 16] = [
    70, 82, 79, 83, 84, 95, 82, 101, 100, 80, 97, 108, 108, 97, 115, 82,
];

/// The personalization of `H2`, that of RedPallas signatures:
/// `Zcash_RedPallasH`.
pub const H2_PERSONAL: [u8; 16] = [
    90, 99, 97, 115, 104, 95, 82, 101, 100, 80, 97, 108, 108, 97, 115, 72,
];

/// The personalization of `H3`, the digest of a message:
/// `FROST_RedPallasD`.
pub const H3_PERSONAL: [u8; 16] = [
    70, 82, 79, 83, 84, 95, 82, 101, 100, 80, 97, 108, 108, 97, 115, 68,
];

/// The personalization of `H4`: `Zcash_RedPallasN`.
pub const H4_PERSONAL: [u8; 16] = [
    90, 99, 97, 115, 104, 95, 82, 101, 100, 80, 97, 108, 108, 97, 115, 78,
];

/// The personalization of `H5`, the digest of a list of commitments:
/// `FROST_RedPallasC`.
pub const H5_PERSONAL: [u8; 16] = [
    70, 82, 79, 83, 84, 95, 82, 101, 100, 80, 97, 108, 108, 97, 115, 67,
];

/// Hashes with `blake2b_simd`: 64 bytes of output under the given
/// personalization, over the whole input.
#[verifier::external_body]
fn digest(personal: &[u8; 16], input: &[u8]) -> (r: [u8; 64])
    ensures
        r@ == blake2b_512(personal@, input@),
{
    let mut state = blake2b_simd::Params::new().hash_length(64).personal(personal).to_state();
    *state.update(input).finalize().as_array()
}

/// The ciphersuite FROST(Pallas, BLAKE2b-512).
#[derive(Clone, Copy, Debug, PartialEq, Eq)]
pub struct PallasBlake2b512;

impl PallasBlake2b512 {
    /// Hash to a scalar under the personalization of `H1`.
    pub fn H1(m: &[u8]) -> (r: Scalar)
        ensures
            r.wf(),
            r@ == hash_to_scalar(H1_PERSONAL@, m@),
    {
        let wide = digest(&H1_PERSONAL, m);
        reduce_wide(&wide)
    }

    /// The challenge of a Schnorr signature: hash to a scalar under the
    /// personalization of RedPallas.
    pub fn H2(m: &[u8]) -> (r: Scalar)
        ensures
            r.wf(),
            r@ == hash_to_scalar(H2_PERSONAL@, m@),
    {
        let wide = digest(&H2_PERSONAL, m);
        reduce_wide(&wide)
    }

    /// The plain 64-byte digest under the personalization of `H3`, with no
    /// reduction.
    pub fn H3(m: &[u8]) -> (r: [u8; 64])
        ensures
            r@ == blake2b_512(H3_PERSONAL@, m@),
    {
        digest(&H3_PERSONAL, m)
    }

    /// Hash to a scalar under the personalization of `H4`.
    pub fn H4(m: &[u8]) -> (r: Scalar)
        ensures
            r.wf(),
            r@ == hash_to_scalar(H4_PERSONAL@, m@),
    {
        let wide = digest(&H4_PERSONAL, m);
        reduce_wide(&wide)
    }

    /// The plain 64-byte digest under the personalization of `H5`, with no
    /// reduction. Where the signing engine digests the message and the list
    /// of commitments apart, `H3` is for the message and this one for the
    /// list, so that neither digest can stand in for the other.
    pub fn H5(m: &[u8]) -> (r: [u8; 64])
        ensures
            r@ == blake2b_512(H5_PERSONAL@, m@),
    {
        digest(&H5_PERSONAL, m)
    }

    /// No two of the hash functions share a personalization.
    pub proof fn lemma_personalizations_distinct()
        ensures
            H1_PERSONAL@ != H2_PERSONAL@,
            H1_PERSONAL@ != H3_PERSONAL@,
            H1_PERSONAL@ != H4_PERSONAL@,
            H1_PERSONAL@ != H5_PERSONAL@,
            H2_PERSONAL@ != H3_PERSONAL@,
            H2_PERSONAL@ != H4_PERSONAL@,
            H2_PERSONAL@ != H5_PERSONAL@,
            H3_PERSONAL@ != H4_PERSONAL@,
            H3_PERSONAL@ != H5_PERSONAL@,
            H4_PERSONAL@ != H5_PERSONAL@,
    {
        assert(H1_PERSONAL@[0] != H2_PERSONAL@[0]);
        assert(H1_PERSONAL@[15] != H3_PERSONAL@[15]);
        assert(H1_PERSONAL@[0] != H4_PERSONAL@[0]);
        assert(H1_PERSONAL@[15] != H5_PERSONAL@[15]);
        assert(H2_PERSONAL@[0] != H3_PERSONAL@[0]);
        assert(H2_PERSONAL@[15] != H4_PERSONAL@[15]);
        assert(H2_PERSONAL@[0] != H5_PERSONAL@[0]);
        assert(H3_PERSONAL@[0] != H4_PERSONAL@[0]);
        assert(H3_PERSONAL@[15] != H5_PERSONAL@[15]);
        assert(H4_PERSONAL@[0] != H5_PERSONAL@[0]);
    }
}

} // verus!
