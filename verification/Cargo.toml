[package]
name = "frost_redpallas"
version = "0.1.0"
edition = "2021"
publish = false

[dependencies]
blake2b_simd = "=1.0.5"
frost-core = "=0.1.0"
group = "=0.13.0"
pasta_curves = "=0.5.2"
rand_core = "=0.6.4"
# Not called from here. frost-core 0.1.0 derives Zeroize on types that are
# generic in the ciphersuite, and that compiles with these lines of zeroize
# only: with a later zeroize_derive the signing engine does not build.
zeroize = "=1.5.7"
zeroize_derive = "=1.3.3"

[dev-dependencies]
rand_chacha = "=0.3.1"
