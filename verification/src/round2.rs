//! What a signer checks before it answers a signing package.
use vstd::prelude::*;

use crate::error::Error;
use crate::group::Element;
use crate::scalar::Scalar;

verus! {

/// The public commitments that one signer published in the first round.
#[derive(Clone, Copy, Debug)]
pub struct SigningCommitments {
    /// The identifier of the signer.
    pub identifier: Scalar,
    /// The commitment to the hiding nonce.
    pub hiding: Element,
    /// The commitment to the binding nonce.
    pub binding: Element,
}

impl SigningCommitments {
    /// The identifier is a reduced scalar and both commitments decode.
    pub open spec fn wf(&self) -> bool {
        &&& self.identifier.wf()
        &&& self.hiding.wf()
        &&& self.binding.wf()
    }

    /// Whether the commitments are those of the same signer and commit to
    /// the same nonces.
    pub fn equals(&self, other: &SigningCommitments) -> (r: bool)
        requires
            self.wf(),
            other.wf(),
        ensures
            r == (*self == *other),
    {
        let same_signer = self.identifier.ct_eq(&other.identifier);
        let same_hiding = self.hiding.equals(&other.hiding);
        let same_binding = self.binding.equals(&other.binding);
        same_signer && same_hiding && same_binding
    }
}

/// Every entry of a signing package is well formed.
pub open spec fn package_wf(package: Seq<SigningCommitments>) -> bool {
    forall|i: int| 0 <= i < package.len() ==> (#[trigger] package[i]).wf()
}

/// Checks that a signing package holds the commitments that belong to the
/// signer's own nonces. The signer must not sign where its identifier is
/// absent from the package, nor where the package lists other commitments
/// under its identifier than the ones its nonces give.
pub fn check_commitments(package: &Vec<SigningCommitments>, own: &SigningCommitments) -> (r:
    Result<(), Error>)
    requires
        package_wf(package@),
        own.wf(),
    ensures
        package@.contains(*own) ==> r == Ok::<(), Error>(()),
        !package@.contains(*own) ==> r == Err::<(), Error>(Error::NonceCommitmentMismatch),
{
    let mut i: usize = 0;
    while i < package.len()
        invariant
            i <= package.len(),
            package_wf(package@),
            own.wf(),
            forall|j: int| 0 <= j < i ==> package@[j] != *own,
        decreases package.len() - i,
    {
        if package[i].equals(own) {
            return Ok(());
        }
        i = i + 1;
    }
    Err(Error::NonceCommitmentMismatch)
}

} // verus!
