//! The scalar field of the Pallas curve.
use group::ff::{Field, FromUniformBytes, PrimeField};
use rand_core::{CryptoRng, RngCore};
use vstd::prelude::*;

use crate::bytes::{
    le_bytes, le_value, lemma_le_bytes_of_le_value, lemma_le_value_of_le_bytes,
    lemma_le_value_zeros, lemma_radix_pow_32, zeros,
};
use crate::error::Error;

verus! {

/// The order of the Pallas group, which is the modulus of its scalar field.
pub open spec fn modulus() -> nat {
    0x40000000000000000000000000000000224698fc0994a8dd8c46eb2100000001nat
}

/// The product of two scalars in the field.
pub open spec fn field_mul(a: nat, b: nat) -> nat {
    (a * b) % modulus()
}

/// An element of the scalar field, held as its canonical 32-byte
/// little-endian encoding. Its view is the number it stands for.
///
/// Scalars are secrets more often than not, so the type has no `==`:
/// compare with `ct_eq`, which takes the same time whatever it is given.
#[derive(Clone, Copy, Debug)]
pub struct Scalar {
    bytes: [u8; 32],
}

impl View for Scalar {
    type V = nat;

    closed spec fn view(&self) -> nat {
        le_value(self.bytes@)
    }
}

impl Scalar {
    /// The scalar is reduced: it lies below the modulus.
    pub open spec fn wf(&self) -> bool {
        self@ < modulus()
    }

    /// A scalar is determined by the number it stands for.
    pub proof fn lemma_equal_by_value(a: Scalar, b: Scalar)
        requires
            a@ == b@,
        ensures
            a == b,
    {
        lemma_le_bytes_of_le_value(a.bytes@);
        lemma_le_bytes_of_le_value(b.bytes@);
        assert(a.bytes@ == b.bytes@);
        assert(a.bytes =~= b.bytes);
    }

    /// Whether two scalars are equal, decided in constant time.
    pub fn ct_eq(&self, other: &Scalar) -> (r: bool)
        requires
            self.wf(),
            other.wf(),
        ensures
            r == (self@ == other@),
            r == (*self == *other),
    {
        proof {
            if self@ == other@ {
                Self::lemma_equal_by_value(*self, *other);
            }
        }
        constant_time_eq(self, other)
    }
}

/// Calls `Fq::from_repr` of pasta_curves. The contract claims that it
/// accepts exactly the strings that denote a number below the modulus, and
/// that the scalar it yields stands for that number.
#[verifier::external_body]
fn decode_canonical(buf: &[u8; 32]) -> (r: Option<Scalar>)
    ensures
        r is Some <==> le_value(buf@) < modulus(),
        r matches Some(s) ==> s@ == le_value(buf@),
{
    match Option::<pasta_curves::Fq>::from(pasta_curves::Fq::from_repr(*buf)) {
        Some(s) => Some(Scalar { bytes: s.to_repr() }),
        None => None,
    }
}

/// Calls `Fq::invert` of pasta_curves, which fails on zero only. The
/// contract claims that the product of the result and the argument is one.
#[verifier::external_body]
fn invert_nonzero(scalar: &Scalar) -> (r: Scalar)
    requires
        scalar.wf(),
        scalar@ != 0,
    ensures
        r.wf(),
        field_mul(r@, scalar@) == 1,
{
    let s = pasta_curves::Fq::from_repr(scalar.bytes).unwrap();
    Scalar { bytes: s.invert().unwrap().to_repr() }
}

/// Compares two scalars with the `==` of pasta_curves' `Fq`, which runs in
/// constant time. The contract claims that it holds exactly of equal
/// numbers.
#[verifier::external_body]
fn constant_time_eq(a: &Scalar, b: &Scalar) -> (r: bool)
    requires
        a.wf(),
        b.wf(),
    ensures
        r == (a@ == b@),
{
    pasta_curves::Fq::from_repr(a.bytes).unwrap() == pasta_curves::Fq::from_repr(b.bytes).unwrap()
}

/// Calls `Fq::random` of pasta_curves. The contract claims only that the
/// scalar drawn is reduced.
#[verifier::external_body]
fn sample<R: RngCore + CryptoRng>(rng: &mut R) -> (r: Scalar)
    ensures
        r.wf(),
{
    Scalar { bytes: pasta_curves::Fq::random(rng).to_repr() }
}

/// Calls `Fq::from_uniform_bytes` of pasta_curves. The contract claims that
/// the result is the 512-bit little-endian number reduced by the modulus.
#[verifier::external_body]
pub(crate) fn reduce_wide(bytes: &[u8; 64]) -> (r: Scalar)
    ensures
        r.wf(),
        r@ == le_value(bytes@) % modulus(),
{
    Scalar { bytes: pasta_curves::Fq::from_uniform_bytes(bytes).to_repr() }
}

/// The scalar field of the Pallas curve.
#[derive(Clone, Copy, Debug, PartialEq, Eq)]
pub struct PallasScalarField;

impl PallasScalarField {
    /// What `deserialize` makes of a byte string: the number it denotes if
    /// the string is the canonical encoding of a scalar.
    pub open spec fn decoding(buf: Seq<u8>) -> Result<nat, Error> {
        if buf.len() == 32 && le_value(buf) < modulus() {
            Ok(le_value(buf))
        } else {
            Err(Error::MalformedScalar)
        }
    }

    /// The canonical encoding of a number below the modulus.
    pub open spec fn encoding(value: nat) -> Seq<u8> {
        le_bytes(value, 32)
    }

    /// The additive identity.
    pub fn zero() -> (r: Scalar)
        ensures
            r.wf(),
            r@ == 0,
    {
        let r = Scalar { bytes: [0u8; 32] };
        proof {
            assert(r.bytes@ =~= zeros(32));
            lemma_le_value_zeros(32);
        }
        r
    }

    /// The multiplicative identity.
    pub fn one() -> (r: Scalar)
        ensures
            r.wf(),
            r@ == 1,
    {
        let mut bytes = [0u8; 32];
        bytes.set(0, 1);
        let r = Scalar { bytes };
        proof {
            assert(r.bytes@.drop_first() =~= zeros(31));
            lemma_le_value_zeros(31);
        }
        r
    }

    /// Whether the scalar is the additive identity, decided in constant
    /// time.
    pub fn is_zero(scalar: &Scalar) -> (r: bool)
        requires
            scalar.wf(),
        ensures
            r == (scalar@ == 0),
    {
        let zero = Self::zero();
        scalar.ct_eq(&zero)
    }

    /// The multiplicative inverse; zero has none.
    pub fn invert(scalar: &Scalar) -> (r: Result<Scalar, Error>)
        requires
            scalar.wf(),
        ensures
            scalar@ == 0 ==> r == Err::<Scalar, Error>(Error::InvalidZeroScalar),
            scalar@ != 0 ==> r is Ok,
            r matches Ok(inverse) ==> inverse.wf() && field_mul(inverse@, scalar@) == 1,
    {
        if Self::is_zero(scalar) {
            Err(Error::InvalidZeroScalar)
        } else {
            Ok(invert_nonzero(scalar))
        }
    }

    /// A scalar drawn from the given source of randomness.
    pub fn random<R: RngCore + CryptoRng>(rng: &mut R) -> (r: Scalar)
        ensures
            r.wf(),
    {
        sample(rng)
    }

    /// What `random_nonzero` does with one draw: a nonzero draw is taken,
    /// a zero draw is passed over (`None`) and another is drawn. The zero
    /// test takes constant time.
    pub fn nonzero_step(candidate: Scalar) -> (r: Option<Scalar>)
        requires
            candidate.wf(),
        ensures
            candidate@ != 0 ==> r == Some(candidate),
            candidate@ == 0 ==> r is None,
    {
        if Self::is_zero(&candidate) {
            None
        } else {
            Some(candidate)
        }
    }

    /// A nonzero scalar drawn from the given source: draws until
    /// `nonzero_step` takes a draw, and returns that draw. Zero draws are
    /// passed over, and nothing is drawn after the draw that is taken.
    ///
    /// The draws are counted down from `u64::MAX`, which no machine lives
    /// to see the end of. `InvalidZeroScalar` stands for that limit alone.
    pub fn random_nonzero<R: RngCore + CryptoRng>(rng: &mut R) -> (r: Result<Scalar, Error>)
        ensures
            r matches Ok(s) ==> s.wf() && s@ != 0,
            r is Err ==> r == Err::<Scalar, Error>(Error::InvalidZeroScalar),
    {
        let mut left: u64 = u64::MAX;
        while left > 0
            decreases left,
        {
            if let Some(scalar) = Self::nonzero_step(sample(rng)) {
                return Ok(scalar);
            }
            left = left - 1;
        }
        Err(Error::InvalidZeroScalar)
    }

    /// The canonical 32-byte little-endian encoding.
    pub fn serialize(scalar: &Scalar) -> (r: [u8; 32])
        ensures
            r@ == Self::encoding(scalar@),
    {
        proof {
            lemma_le_bytes_of_le_value(scalar.bytes@);
        }
        scalar.bytes
    }

    /// Reads a scalar from its canonical encoding. Strings that denote the
    /// modulus or more are refused.
    pub fn deserialize(buf: &[u8; 32]) -> (r: Result<Scalar, Error>)
        ensures
            match r {
                Ok(s) => s.wf() && Self::decoding(buf@) == Ok::<nat, Error>(s@),
                Err(e) => Self::decoding(buf@) == Err::<nat, Error>(e),
            },
    {
        match decode_canonical(buf) {
            Some(s) => Ok(s),
            None => Err(Error::MalformedScalar),
        }
    }

    /// Reading back what was written gives the scalar itself, and writing
    /// what was read gives the bytes themselves: decoding is stable under a
    /// round trip through the encoding.
    pub proof fn lemma_round_trip(buf: Seq<u8>)
        ensures
            Self::decoding(buf) matches Ok(value) ==> {
                &&& Self::encoding(value) == buf
                &&& Self::decoding(Self::encoding(value)) == Self::decoding(buf)
            },
    {
        if Self::decoding(buf) is Ok {
            lemma_le_bytes_of_le_value(buf);
        }
    }

    /// Every number below the modulus has an encoding that decodes to it.
    pub proof fn lemma_encoding_decodes(value: nat)
        requires
            value < modulus(),
        ensures
            Self::encoding(value).len() == 32,
            Self::decoding(Self::encoding(value)) == Ok::<nat, Error>(value),
    {
        lemma_radix_pow_32();
        crate::bytes::lemma_le_bytes_len(value, 32);
        lemma_le_value_of_le_bytes(value, 32);
    }

    /// Whatever does not decode is refused as a malformed scalar: the
    /// strings of another length, and those that denote the modulus or more.
    pub proof fn lemma_non_canonical_refused(buf: Seq<u8>)
        requires
            buf.len() != 32 || le_value(buf) >= modulus(),
        ensures
            Self::decoding(buf) == Err::<nat, Error>(Error::MalformedScalar),
    {
    }
}

} // verus!
