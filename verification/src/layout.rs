//! The choice of which group holds the public keys, as a value.

use crate::bls;
use crate::bls::VerifyError;
use crate::g2_keys;
use crate::payload;
use crate::payload::PayloadError;
use vstd::prelude::*;

verus! {

/// Which group holds the public keys; the signatures are in the other.
#[derive(Debug, Copy, Clone, PartialEq, Eq)]
pub enum Layout {
    /// Keys of 48 bytes in G1, signatures of 96 bytes in G2; in a payload
    /// the signature comes first
    KeysInG1,
    /// Keys of 96 bytes in G2, signatures of 48 bytes in G1; in a payload
    /// the key comes first
    KeysInG2,
}

impl Layout {
    /// The length of an encoded public key.
    pub open spec fn spec_public_key_len(self) -> usize {
        match self {
            Layout::KeysInG1 => 48,
            Layout::KeysInG2 => 96,
        }
    }

    /// The length of an encoded signature.
    pub open spec fn spec_signature_len(self) -> usize {
        match self {
            Layout::KeysInG1 => 96,
            Layout::KeysInG2 => 48,
        }
    }

    /// What verification of `sig` on `msg` under `key` comes to.
    pub open spec fn outcome(self, sig: Seq<u8>, msg: Seq<u8>, key: Seq<u8>) -> Result<
        (),
        VerifyError,
    > {
        match self {
            Layout::KeysInG1 => bls::verification_outcome(sig, msg, key),
            Layout::KeysInG2 => g2_keys::verification_outcome(sig, msg, key),
        }
    }

    /// What the entry point says of a payload.
    pub open spec fn payload_outcome(self, data: Seq<u8>) -> Result<(), PayloadError> {
        match self {
            Layout::KeysInG1 => payload::payload_outcome(data),
            Layout::KeysInG2 => g2_keys::payload_outcome(data),
        }
    }

    /// The length of an encoded public key.
    pub fn public_key_len(&self) -> (len: usize)
        ensures
            len == self.spec_public_key_len(),
    {
        match self {
            Layout::KeysInG1 => bls::PublicKey::BYTES,
            Layout::KeysInG2 => g2_keys::PublicKey::BYTES,
        }
    }

    /// The length of an encoded signature.
    pub fn signature_len(&self) -> (len: usize)
        ensures
            len == self.spec_signature_len(),
    {
        match self {
            Layout::KeysInG1 => bls::Signature::BYTES,
            Layout::KeysInG2 => g2_keys::Signature::BYTES,
        }
    }

    /// Verify a BLS signature, and say what failed.
    pub fn check_bls_signature(&self, sig: &[u8], msg: &[u8], key: &[u8]) -> (r: Result<
        (),
        VerifyError,
    >)
        ensures
            r == self.outcome(sig@, msg@, key@),
    {
        match self {
            Layout::KeysInG1 => bls::check_bls_signature(sig, msg, key),
            Layout::KeysInG2 => g2_keys::check_bls_signature(sig, msg, key),
        }
    }

    /// Verifies the signature in a payload, and says what failed.
    pub fn check_payload(&self, data: &[u8]) -> (r: Result<(), PayloadError>)
        ensures
            r == self.payload_outcome(data@),
    {
        match self {
            Layout::KeysInG1 => payload::BLSVerifier.check(data),
            Layout::KeysInG2 => g2_keys::BLSVerifier.check(data),
        }
    }
}

} // verus!
