//! Verification of BLS signatures over BLS12-381.
//!
//! The module `bls` has public keys in G1 (48 bytes compressed) and
//! signatures in G2 (96 bytes compressed), with the entry point of
//! `payload`; its items are also found at the crate's root. The module
//! `g2_keys` has the groups the other way round, and `layout` picks one of
//! the two by a value.
//!
//! The curve arithmetic is the `bls12_381` crate's. This library decodes and
//! validates the inputs, fixes the domain separation tag, builds the pairing
//! equation and frames the flat payload of the contract entry point.

pub mod curve;
pub mod bls;
pub mod g2_keys;
pub mod laws;
pub mod layout;
pub mod payload;

pub use bls::{
    check_bls_signature, verify_bls_signature, InvalidPublicKey, InvalidSignature, PublicKey,
    Signature, VerifyError,
};
pub use payload::{split_payload, BLSVerifier, Fields, PayloadError};
