//! The Pallas group: its elements in their canonical compressed encoding.
use group::GroupEncoding;
use vstd::prelude::*;

use crate::bytes::{le_value, lemma_le_value_zeros, zeros};
use crate::error::Error;
use crate::scalar::{PallasScalarField, Scalar};

verus! {

/// The modulus of the base field of Pallas, in which the coordinates of a
/// point lie.
pub open spec fn base_modulus() -> nat {
    0x40000000000000000000000000000000224698fc094cf91b992d30ed00000001nat
}

/// The weight of the top bit of a 32-byte string, `2^255`: the bit that
/// holds the sign of `y`.
pub open spec fn sign_weight() -> nat {
    0x8000000000000000000000000000000000000000000000000000000000000000nat
}

/// The `x` coordinate in an encoding: the string without its top bit.
pub open spec fn encoded_x(bytes: Seq<u8>) -> nat {
    le_value(bytes) % sign_weight()
}

/// The sign in an encoding: the top bit of the string.
pub open spec fn encoded_sign(bytes: Seq<u8>) -> bool {
    le_value(bytes) >= sign_weight()
}

/// The square of `y` in the base field.
pub open spec fn square_of(y: nat) -> nat {
    (y * y) % base_modulus()
}

/// Whether `v` has a square root in the base field.
pub open spec fn is_square(v: nat) -> bool {
    exists|y: nat| y < base_modulus() && #[trigger] square_of(y) == v
}

/// The right-hand side of the curve equation `y^2 = x^3 + 5`.
pub open spec fn curve_rhs(x: nat) -> nat {
    (x * x * x + 5) % base_modulus()
}

/// Whether a byte string is the compressed encoding of an element: 32
/// bytes whose `x` is reduced, and which either are all zero, for the
/// identity, or hold the `x` of a point of the curve.
pub open spec fn is_point_encoding(bytes: Seq<u8>) -> bool {
    &&& bytes.len() == 32
    &&& encoded_x(bytes) < base_modulus()
    &&& ((encoded_x(bytes) == 0 && !encoded_sign(bytes)) || is_square(
        curve_rhs(encoded_x(bytes)),
    ))
}

/// The encoding of the basepoint that spend authorization signatures of
/// Orchard are made with.
pub const BASEPOINT: [u8; 32] = [
    99, 201, 117, 184, 132, 114, 26, 141, 12, 161, 112, 123, 227, 12, 127, 12,
    95, 68, 95, 62, 124, 24, 141, 59, 6, 214, 241, 40, 179, 35, 85, 183,
];

/// An element of the Pallas group, held as its canonical 32-byte encoding,
/// which is also its view.
#[derive(Clone, Copy, Debug, PartialEq, Eq)]
pub struct Element {
    bytes: [u8; 32],
}

impl View for Element {
    type V = Seq<u8>;

    closed spec fn view(&self) -> Seq<u8> {
        self.bytes@
    }
}

impl Element {
    /// The element is 32 bytes that decode to a point.
    pub open spec fn wf(&self) -> bool {
        &&& self@.len() == 32
        &&& is_point_encoding(self@)
    }

    /// An element is determined by its encoding.
    pub proof fn lemma_equal_by_encoding(a: Element, b: Element)
        requires
            a@ == b@,
        ensures
            a == b,
    {
        assert(a.bytes =~= b.bytes);
    }

    /// Whether two elements are the same. Elements are public, so the
    /// comparison stops at the first byte that differs.
    pub fn equals(&self, other: &Element) -> (r: bool)
        ensures
            r == (self@ == other@),
            r == (*self == *other),
    {
        proof {
            if self@ == other@ {
                Self::lemma_equal_by_encoding(*self, *other);
            }
        }
        let mut i: usize = 0;
        while i < 32
            invariant
                i <= 32,
                forall|j: int| 0 <= j < i ==> self.bytes@[j] == other.bytes@[j],
            decreases 32 - i,
        {
            if self.bytes[i] != other.bytes[i] {
                return false;
            }
            i = i + 1;
        }
        assert(self.bytes@ =~= other.bytes@);
        true
    }
}

/// Calls `Ep::from_bytes` of pasta_curves and says whether it yielded a
/// point. The contract claims what the function's source shows: it clears
/// the top bit as the sign, refuses an `x` that is not below the modulus of
/// the base field, takes zero without a sign for the identity, and else
/// asks for a square root of `x^3 + 5`.
#[verifier::external_body]
fn decodes_to_point(buf: &[u8; 32]) -> (r: bool)
    ensures
        r == is_point_encoding(buf@),
{
    bool::from(pasta_curves::Ep::from_bytes(buf).is_some())
}

/// The number that the encoding of the basepoint denotes.
proof fn lemma_basepoint_value()
    ensures
        le_value(BASEPOINT@)
            == 0xb75523b328f1d6063b8d187c3e5f445f0c7f0ce37b70a10c8d1a7284b875c963nat,
{
    reveal_with_fuel(le_value, 33);
}

/// The basepoint is a point of the curve: its `x` is reduced, and
/// `x^3 + 5` is the square of the `y` named here.
pub proof fn lemma_basepoint_decodes()
    ensures
        is_point_encoding(BASEPOINT@),
{
    lemma_basepoint_value();
    let x = 0x375523b328f1d6063b8d187c3e5f445f0c7f0ce37b70a10c8d1a7284b875c963nat;
    let y = 0x252fca8020e5992484ef43030129db04427d83fd49473b434c49f26b84f3c438nat;
    assert(encoded_x(BASEPOINT@) == x);
    assert(square_of(y) == curve_rhs(x));
    assert(y < base_modulus());
}

/// The Pallas group, whose order is prime.
#[derive(Clone, Copy, Debug, PartialEq, Eq)]
pub struct PallasGroup;

impl PallasGroup {
    /// What `deserialize` makes of a byte string: the string itself if it is
    /// the canonical encoding of an element.
    pub open spec fn decoding(buf: Seq<u8>) -> Result<Seq<u8>, Error> {
        if buf.len() == 32 && is_point_encoding(buf) {
            Ok(buf)
        } else {
            Err(Error::MalformedElement)
        }
    }

    /// The cofactor of the group in its curve, as a scalar: one, since every
    /// point of the curve is in the group.
    pub fn cofactor() -> (r: Scalar)
        ensures
            r.wf(),
            r@ == 1,
    {
        PallasScalarField::one()
    }

    /// The neutral element. Its encoding is 32 zero bytes.
    pub fn identity() -> (r: Element)
        ensures
            r.wf(),
            r@ == zeros(32),
    {
        let r = Element { bytes: [0u8; 32] };
        proof {
            assert(r.bytes@ =~= zeros(32));
            lemma_le_value_zeros(32);
        }
        r
    }

    /// The basepoint of the signature scheme: that of the spend
    /// authorization signatures of Orchard, not the generator that the
    /// curve library names.
    pub fn generator() -> (r: Element)
        ensures
            r.wf(),
            r@ == BASEPOINT@,
    {
        proof {
            lemma_basepoint_decodes();
        }
        Element { bytes: BASEPOINT }
    }

    /// The canonical 32-byte encoding of an element.
    pub fn serialize(element: &Element) -> (r: [u8; 32])
        ensures
            r@ == element@,
    {
        element.bytes
    }

    /// Reads an element from its canonical encoding. Strings that are not
    /// the canonical encoding of a point are refused: a coordinate that is
    /// not reduced, one that no point of the curve has, the identity with a
    /// sign.
    ///
    /// The identity decodes like any other element. It must never serve as
    /// a public key or as a commitment: whoever reads one of those refuses
    /// the identity itself.
    pub fn deserialize(buf: &[u8; 32]) -> (r: Result<Element, Error>)
        ensures
            match r {
                Ok(element) => element.wf() && Self::decoding(buf@) == Ok::<Seq<u8>, Error>(element@),
                Err(e) => Self::decoding(buf@) == Err::<Seq<u8>, Error>(e),
            },
    {
        if decodes_to_point(buf) {
            Ok(Element { bytes: *buf })
        } else {
            Err(Error::MalformedElement)
        }
    }

    /// Reading back the encoding of an element gives that encoding: a well
    /// formed element always decodes.
    pub proof fn lemma_round_trip(element: Element)
        requires
            element.wf(),
        ensures
            Self::decoding(element@) == Ok::<Seq<u8>, Error>(element@),
    {
    }

    /// Decoding is stable under a round trip: what decodes, decodes to
    /// itself.
    pub proof fn lemma_decoding_stable(buf: Seq<u8>)
        ensures
            Self::decoding(buf) matches Ok(encoding) ==> Self::decoding(encoding)
                == Self::decoding(buf),
    {
    }

    /// A string whose `x` is not reduced is refused, whatever point the
    /// reduced `x` would belong to.
    pub proof fn lemma_unreduced_coordinate_refused(buf: Seq<u8>)
        requires
            encoded_x(buf) >= base_modulus(),
        ensures
            Self::decoding(buf) == Err::<Seq<u8>, Error>(Error::MalformedElement),
    {
    }

    /// Whatever is not the canonical encoding of a point is refused as a
    /// malformed element.
    pub proof fn lemma_non_canonical_refused(buf: Seq<u8>)
        requires
            buf.len() != 32 || !is_point_encoding(buf),
        ensures
            Self::decoding(buf) == Err::<Seq<u8>, Error>(Error::MalformedElement),
    {
    }
}

} // verus!
