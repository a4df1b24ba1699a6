use frost_redpallas::error::Error;
use frost_redpallas::group::{Element, PallasGroup};
use frost_redpallas::round2::{check_commitments, SigningCommitments};
use frost_redpallas::scalar::{PallasScalarField, Scalar};

fn identifier(index: u8) -> Scalar {
    let mut bytes = [0u8; 32];
    bytes[0] = index;
    PallasScalarField::deserialize(&bytes).unwrap()
}

fn point(x: u8) -> Element {
    let mut bytes = [0u8; 32];
    bytes[0] = x;
    PallasGroup::deserialize(&bytes).unwrap()
}

fn commitments(index: u8, hiding: u8, binding: u8) -> SigningCommitments {
    SigningCommitments {
        identifier: identifier(index),
        hiding: point(hiding),
        binding: point(binding),
    }
}

fn package() -> Vec<SigningCommitments> {
    vec![commitments(1, 1, 3), commitments(3, 4, 5), commitments(4, 6, 7)]
}

#[test]
fn own_commitments_in_the_package_are_accepted() {
    assert_eq!(check_commitments(&package(), &commitments(1, 1, 3)), Ok(()));
    assert_eq!(check_commitments(&package(), &commitments(3, 4, 5)), Ok(()));
    assert_eq!(check_commitments(&package(), &commitments(4, 6, 7)), Ok(()));
}

#[test]
fn absent_signer_is_refused() {
    assert_eq!(
        check_commitments(&package(), &commitments(2, 4, 5)),
        Err(Error::NonceCommitmentMismatch)
    );
}

#[test]
fn other_hiding_commitment_is_refused() {
    assert_eq!(
        check_commitments(&package(), &commitments(3, 11, 5)),
        Err(Error::NonceCommitmentMismatch)
    );
}

#[test]
fn other_binding_commitment_is_refused() {
    assert_eq!(
        check_commitments(&package(), &commitments(3, 4, 11)),
        Err(Error::NonceCommitmentMismatch)
    );
}

#[test]
fn commitments_of_another_signer_are_refused() {
    assert_eq!(
        check_commitments(&package(), &commitments(3, 1, 3)),
        Err(Error::NonceCommitmentMismatch)
    );
}

#[test]
fn swapped_commitments_are_refused() {
    assert_eq!(
        check_commitments(&package(), &commitments(3, 5, 4)),
        Err(Error::NonceCommitmentMismatch)
    );
}

#[test]
fn empty_package_holds_nobody() {
    assert_eq!(
        check_commitments(&Vec::new(), &commitments(1, 1, 3)),
        Err(Error::NonceCommitmentMismatch)
    );
}

#[test]
fn commitments_compare_field_by_field() {
    let own = commitments(3, 4, 5);
    assert!(own.equals(&commitments(3, 4, 5)));
    assert!(!own.equals(&commitments(4, 4, 5)));
    assert!(!own.equals(&commitments(3, 5, 5)));
    assert!(!own.equals(&commitments(3, 4, 4)));
}
