use frost_redpallas::error::Error;
use frost_redpallas::group::{Element, PallasGroup, BASEPOINT};
use frost_redpallas::scalar::PallasScalarField;
use group::{Group, GroupEncoding};
use pasta_curves::arithmetic::CurveExt;
use pasta_curves::pallas;
use rand_chacha::ChaCha20Rng;
use rand_core::{RngCore, SeedableRng};

const SPEND_AUTH_BASEPOINT: [u8; 32] = [
    99, 201, 117, 184, 132, 114, 26, 141, 12, 161, 112, 123, 227, 12, 127, 12, 95, 68, 95, 62, 124,
    24, 141, 59, 6, 214, 241, 40, 179, 35, 85, 183,
];

const BASE_FIELD_MODULUS: [u8; 32] = [
    1, 0, 0, 0, 237, 48, 45, 153, 27, 249, 76, 9, 252, 152, 70, 34, 0, 0, 0, 0, 0, 0, 0, 0, 0, 0,
    0, 0, 0, 0, 0, 64,
];

fn x_only(x: u8) -> [u8; 32] {
    let mut bytes = [0u8; 32];
    bytes[0] = x;
    bytes
}

fn element(bytes: [u8; 32]) -> Element {
    PallasGroup::deserialize(&bytes).unwrap()
}

#[test]
fn cofactor_is_one() {
    let cofactor = PallasGroup::cofactor();
    assert!(cofactor.ct_eq(&PallasScalarField::one()));
    assert_eq!(PallasScalarField::serialize(&cofactor), x_only(1));
}

#[test]
fn identity_is_all_zero_bytes() {
    let identity = PallasGroup::identity();
    assert_eq!(PallasGroup::serialize(&identity), [0u8; 32]);
    assert_eq!(pallas::Point::identity().to_bytes(), [0u8; 32]);
}

#[test]
fn identity_decodes() {
    let decoded = PallasGroup::deserialize(&[0u8; 32]).unwrap();
    assert_eq!(decoded, PallasGroup::identity());
    assert!(decoded.equals(&PallasGroup::identity()));
}

#[test]
fn generator_is_the_spend_authorization_basepoint() {
    let generator = PallasGroup::generator();
    assert_eq!(PallasGroup::serialize(&generator), SPEND_AUTH_BASEPOINT);
    assert_eq!(BASEPOINT, SPEND_AUTH_BASEPOINT);
    let hashed = pallas::Point::hash_to_curve("z.cash:Orchard")(b"G");
    assert_eq!(PallasGroup::serialize(&generator), hashed.to_bytes());
}

#[test]
fn generator_is_not_the_curve_library_generator() {
    let generator = PallasGroup::generator();
    assert_ne!(PallasGroup::serialize(&generator), pallas::Point::generator().to_bytes());
    assert_ne!(generator, PallasGroup::identity());
}

#[test]
fn generator_decodes() {
    let decoded = PallasGroup::deserialize(&BASEPOINT).unwrap();
    assert_eq!(decoded, PallasGroup::generator());
}

#[test]
fn deserialize_accepts_a_point_with_either_sign() {
    let even = element(x_only(1));
    let mut odd_bytes = x_only(1);
    odd_bytes[31] = 0x80;
    let odd = element(odd_bytes);
    assert_eq!(PallasGroup::serialize(&even), x_only(1));
    assert_eq!(PallasGroup::serialize(&odd), odd_bytes);
    assert!(!even.equals(&odd));
    assert_ne!(even, odd);
}

#[test]
fn element_off_the_curve_is_refused() {
    assert_eq!(PallasGroup::deserialize(&x_only(2)), Err(Error::MalformedElement));
    assert_eq!(PallasGroup::deserialize(&x_only(8)), Err(Error::MalformedElement));
}

#[test]
fn deserialize_refuses_the_identity_with_a_sign() {
    let mut bytes = [0u8; 32];
    bytes[31] = 0x80;
    assert_eq!(PallasGroup::deserialize(&bytes), Err(Error::MalformedElement));
}

#[test]
fn deserialize_refuses_an_unreduced_coordinate() {
    // One more than the modulus of the base field: the same point as x = 1
    // would be, were the coordinate reduced first.
    let mut bytes = BASE_FIELD_MODULUS;
    bytes[0] = 2;
    assert_eq!(PallasGroup::deserialize(&bytes), Err(Error::MalformedElement));
    assert_eq!(PallasGroup::deserialize(&BASE_FIELD_MODULUS), Err(Error::MalformedElement));
    assert_eq!(PallasGroup::deserialize(&[0xff; 32]), Err(Error::MalformedElement));
}

#[test]
fn element_decoding_agrees_with_the_curve_library() {
    let mut rng = ChaCha20Rng::seed_from_u64(29);
    let mut accepted = 0;
    let mut refused = 0;
    for _ in 0..400 {
        let mut bytes = [0u8; 32];
        rng.fill_bytes(&mut bytes);
        bytes[31] &= 0xbf;
        let expected: Option<pallas::Point> = pallas::Point::from_bytes(&bytes).into();
        match PallasGroup::deserialize(&bytes) {
            Ok(e) => {
                accepted += 1;
                assert_eq!(PallasGroup::serialize(&e), bytes);
                assert_eq!(expected.unwrap().to_bytes(), bytes);
            }
            Err(e) => {
                refused += 1;
                assert_eq!(e, Error::MalformedElement);
                assert!(expected.is_none());
            }
        }
    }
    assert!(accepted > 0);
    assert!(refused > 0);
}

#[test]
fn encoding_of_a_point_decodes_to_itself() {
    let mut rng = ChaCha20Rng::seed_from_u64(31);
    for _ in 0..50 {
        let bytes = pallas::Point::random(&mut rng).to_bytes();
        let e = element(bytes);
        let written = PallasGroup::serialize(&e);
        assert_eq!(written, bytes);
        assert_eq!(PallasGroup::deserialize(&written), Ok(e));
    }
}

#[test]
fn equals_compares_every_byte() {
    let a = element(x_only(1));
    let b = element(x_only(3));
    let mut last = x_only(1);
    last[31] = 0x80;
    assert!(a.equals(&element(x_only(1))));
    assert!(!a.equals(&b));
    assert!(!a.equals(&element(last)));
}
