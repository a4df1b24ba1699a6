//! Parameters of key generation by a trusted dealer.
use vstd::prelude::*;

use crate::error::Error;

verus! {

/// The least number of signers, and the least threshold, that the protocol
/// admits.
pub const MIN_SIGNERS: u8 = 2;

/// Whether a dealer can split a key among `num_signers` signers so that
/// `threshold` of them sign together.
pub open spec fn dealer_parameters_valid(num_signers: u8, threshold: u8) -> bool {
    MIN_SIGNERS <= threshold <= num_signers
}

/// Checks the parameters of key generation before any randomness is drawn.
///
/// A threshold of zero is a bad threshold whatever the signer count. With
/// fewer than two signers no threshold would do, so the signer count is
/// what is refused. With signers enough, a threshold of one or one above
/// the signer count is a bad threshold.
pub fn check_dealer_parameters(num_signers: u8, threshold: u8) -> (r: Result<(), Error>)
    ensures
        dealer_parameters_valid(num_signers, threshold) ==> r == Ok::<(), Error>(()),
        threshold == 0 ==> r == Err::<(), Error>(Error::InvalidThreshold),
        threshold >= 1 && num_signers < MIN_SIGNERS ==> r == Err::<(), Error>(
            Error::InvalidSignerCount,
        ),
        num_signers >= MIN_SIGNERS && (threshold == 1 || threshold > num_signers) ==> r == Err::<
            (),
            Error,
        >(Error::InvalidThreshold),
{
    if threshold == 0 {
        Err(Error::InvalidThreshold)
    } else if num_signers < MIN_SIGNERS {
        Err(Error::InvalidSignerCount)
    } else if threshold < MIN_SIGNERS || threshold > num_signers {
        Err(Error::InvalidThreshold)
    } else {
        Ok(())
    }
}

} // verus!
