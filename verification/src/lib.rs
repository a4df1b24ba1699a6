//! FROST threshold signatures over the Pallas curve with BLAKE2b-512:
//! the scalar field, the group and the hash suite that parameterise the
//! signing protocol, together with the check on key-generation parameters.
#![allow(non_snake_case)]

pub mod bytes;
pub mod error;
pub mod group;
pub mod hash;
pub mod keys;
pub mod round2;
pub mod scalar;
