use vstd::prelude::*;

verus! {

/// Everything that can go wrong in this ciphersuite and in the signing
/// protocol built on it.
#[derive(Clone, Copy, Debug, PartialEq, Eq)]
pub enum Error {
    /// Inversion was asked of the additive identity; or the drawing of a
    /// nonzero scalar met nothing but zero, draw after draw, to the end of
    /// its count.
    InvalidZeroScalar,
    /// The bytes are not the canonical encoding of a scalar.
    MalformedScalar,
    /// The bytes are not the canonical encoding of a group element.
    MalformedElement,
    /// The threshold is zero, or it is one or above the number of signers
    /// where there are signers enough.
    InvalidThreshold,
    /// Fewer than two signers, under a threshold that is not zero.
    InvalidSignerCount,
    /// The nonces handed to the second round do not belong to the
    /// commitments of the signing package.
    NonceCommitmentMismatch,
    /// A signature share failed verification against its signer's public
    /// share.
    InvalidSignatureShare {
        /// The identifier of the signer whose share is invalid, in the
        /// canonical encoding of scalars.
        signer: [u8; 32],
    },
}

} // verus!
