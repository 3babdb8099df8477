//! BLS signature verification with public keys in G1 and signatures in G2,
//! under the domain separation tag of the proof-of-possession scheme.

use crate::curve::{
    g1_decodes, g1_generator_encoding, g1_negation, g2_decodes, g2_hash,
    pairing_product_is_identity, pairing_product_is_one, to_array, G1Point, G2Point,
};
use vstd::prelude::*;
use vstd::string::StringSliceAdditionalSpecFns;

verus! {

/// The domain separation tag under which messages are hashed to G2.
pub open spec fn signature_domain() -> Seq<u8> {
    "BLS_SIG_BLS12381G2_XMD:SHA-256_SSWU_RO_POP_".spec_bytes()
}

/// The encoding of the G2 point that stands for `message` in the pairing
/// equation. It depends on the message alone.
pub open spec fn message_point(message: Seq<u8>) -> Seq<u8> {
    g2_hash(message, signature_domain())
}

/// The BLS equation `e(-g1, sig) * e(key, hashed) == 1` over the compressed
/// encodings of key, hashed message and signature, where `g1` is the fixed
/// generator of G1. It is the equation `e(g1, sig) == e(key, hashed)`.
pub open spec fn pairing_equation_holds(key: Seq<u8>, hashed: Seq<u8>, sig: Seq<u8>) -> bool {
    pairing_product_is_one(g1_negation(g1_generator_encoding()), sig, key, hashed)
}

/// Why `bytes` is no public key, or `None` if it is one.
pub open spec fn public_key_fault(bytes: Seq<u8>) -> Option<InvalidPublicKey> {
    if bytes.len() != 48 {
        Some(InvalidPublicKey::WrongLength)
    } else if !g1_decodes(bytes) {
        Some(InvalidPublicKey::InvalidPoint)
    } else {
        None
    }
}

/// Why `bytes` is no signature, or `None` if it is one.
pub open spec fn signature_fault(bytes: Seq<u8>) -> Option<InvalidSignature> {
    if bytes.len() != 96 {
        Some(InvalidSignature::WrongLength)
    } else if !g2_decodes(bytes) {
        Some(InvalidSignature::InvalidPoint)
    } else {
        None
    }
}

/// What verification of `sig` on `msg` under `key` comes to. The signature
/// is decoded first, then the key; the pairing equation is evaluated only
/// on two decoded points.
pub open spec fn verification_outcome(sig: Seq<u8>, msg: Seq<u8>, key: Seq<u8>) -> Result<
    (),
    VerifyError,
> {
    if let Some(e) = signature_fault(sig) {
        Err(VerifyError::Signature(e))
    } else if let Some(e) = public_key_fault(key) {
        Err(VerifyError::PublicKey(e))
    } else if !pairing_equation_holds(key, message_point(msg), sig) {
        Err(VerifyError::Mismatch)
    } else {
        Ok(())
    }
}

/// The domain separation tag under which messages are hashed to G2, the
/// one that Ethereum mainnet uses.
pub fn signature_domain_tag() -> (tag: &'static [u8])
    ensures
        tag@ == signature_domain(),
{
    "BLS_SIG_BLS12381G2_XMD:SHA-256_SSWU_RO_POP_".as_bytes()
}

/// Hashes a message to the G2 point that a signature on it is paired
/// against. Every message, the empty one too, has a point.
pub fn hash_to_g2(msg: &[u8]) -> (h: G2Point)
    ensures
        h@ == message_point(msg@),
{
    G2Point::hash_to_curve(msg, signature_domain_tag())
}

/// A BLS12-381 public key usable for signature verification
#[derive(Copy, Clone, Debug, PartialEq, Eq)]
pub struct PublicKey {
    pk: G1Point,
}

/// An error indicating an encoded public key was not valid
#[derive(Debug, Copy, Clone, Eq, PartialEq)]
pub enum InvalidPublicKey {
    /// The public key encoding was not the correct length
    WrongLength,
    /// The public key was not a valid BLS12-381 G1 point
    InvalidPoint,
}

impl View for PublicKey {
    type V = Seq<u8>;

    /// The compressed encoding of the key's point.
    closed spec fn view(&self) -> Seq<u8> {
        self.pk@
    }
}

impl PublicKey {
    /// The length of the binary encoding of this type
    pub const BYTES: usize = 48;

    /// The key that is the point `pk`.
    pub fn new(pk: G1Point) -> (key: Self)
        ensures
            key@ == pk@,
    {
        Self { pk }
    }

    /// The key that a decoded point stands for; no point, no key.
    pub fn from_decoded(point: Option<G1Point>) -> (r: Result<Self, InvalidPublicKey>)
        ensures
            match r {
                Ok(key) => point.is_some() && key@ == point.unwrap()@,
                Err(e) => point.is_none() && e == InvalidPublicKey::InvalidPoint,
            },
    {
        match point {
            Some(pk) => Ok(Self::new(pk)),
            None => Err(InvalidPublicKey::InvalidPoint),
        }
    }

    /// Deserialize a BLS12-381 public key
    ///
    /// Succeeds exactly on 48 bytes that are the compressed encoding of a
    /// point of G1. Another length is `WrongLength`, whatever the bytes.
    pub fn deserialize(bytes: &[u8]) -> (r: Result<Self, InvalidPublicKey>)
        ensures
            match r {
                Ok(key) => public_key_fault(bytes@).is_none() && key@ == bytes@,
                Err(e) => public_key_fault(bytes@) == Some(e),
            },
    {
        match to_array::<48>(bytes) {
            None => Err(InvalidPublicKey::WrongLength),
            Some(b) => Self::from_decoded(G1Point::from_compressed(&b)),
        }
    }

    /// Evaluates the pairing equation for this key, a hashed message and a
    /// signature: `e(-g1, signature) * e(key, message_point) == 1`.
    pub fn verify_point(&self, message_point: &G2Point, signature: &Signature) -> (valid: bool)
        ensures
            valid == pairing_equation_holds(self@, message_point@, signature@),
    {
        let g1_gen = G1Point::generator().neg();
        pairing_product_is_identity(&g1_gen, &signature.sig, &self.pk, message_point)
    }

    /// Verify a BLS signature
    pub fn verify(&self, message: &[u8], signature: &Signature) -> (r: Result<(), ()>)
        ensures
            r.is_ok() == pairing_equation_holds(self@, message_point(message@), signature@),
    {
        let msg = hash_to_g2(message);
        if self.verify_point(&msg, signature) {
            Ok(())
        } else {
            Err(())
        }
    }

    /// The compressed encoding of the key.
    pub fn serialize(&self) -> (bytes: [u8; 48])
        ensures
            bytes@ == self@,
            public_key_fault(bytes@).is_none(),
    {
        self.pk.to_compressed()
    }
}

/// An error indicating a signature could not be deserialized
#[derive(Debug, Copy, Clone, Eq, PartialEq)]
pub enum InvalidSignature {
    /// The signature encoding is the wrong length
    WrongLength,
    /// The signature encoding is not a valid BLS12-381 G2 point
    InvalidPoint,
}

/// A type expressing a BLS12-381 signature
#[derive(Copy, Clone, Debug, Eq, PartialEq)]
pub struct Signature {
    sig: G2Point,
}

impl View for Signature {
    type V = Seq<u8>;

    /// The compressed encoding of the signature's point.
    closed spec fn view(&self) -> Seq<u8> {
        self.sig@
    }
}

impl Signature {
    /// The length of the binary encoding of this type
    pub const BYTES: usize = 96;

    /// The signature that is the point `sig`.
    pub fn new(sig: G2Point) -> (signature: Self)
        ensures
            signature@ == sig@,
    {
        Self { sig }
    }

    /// The signature that a decoded point stands for; no point, no
    /// signature.
    pub fn from_decoded(point: Option<G2Point>) -> (r: Result<Self, InvalidSignature>)
        ensures
            match r {
                Ok(signature) => point.is_some() && signature@ == point.unwrap()@,
                Err(e) => point.is_none() && e == InvalidSignature::InvalidPoint,
            },
    {
        match point {
            Some(sig) => Ok(Self::new(sig)),
            None => Err(InvalidSignature::InvalidPoint),
        }
    }

    /// Deserialize a BLS signature
    ///
    /// Succeeds exactly on 96 bytes that are the compressed encoding of a
    /// point of G2. Another length is `WrongLength`, whatever the bytes.
    pub fn deserialize(bytes: &[u8]) -> (r: Result<Self, InvalidSignature>)
        ensures
            match r {
                Ok(signature) => signature_fault(bytes@).is_none() && signature@ == bytes@,
                Err(e) => signature_fault(bytes@) == Some(e),
            },
    {
        match to_array::<96>(bytes) {
            None => Err(InvalidSignature::WrongLength),
            Some(b) => Self::from_decoded(G2Point::from_compressed(&b)),
        }
    }

    /// The compressed encoding of the signature.
    pub fn serialize(&self) -> (bytes: [u8; 96])
        ensures
            bytes@ == self@,
            signature_fault(bytes@).is_none(),
    {
        self.sig.to_compressed()
    }
}

/// Why a signature was not accepted.
#[derive(Debug, Copy, Clone, Eq, PartialEq)]
pub enum VerifyError {
    /// The signature bytes are no signature
    Signature(InvalidSignature),
    /// The key bytes are no public key
    PublicKey(InvalidPublicKey),
    /// Key and signature decode, but the pairing equation does not hold
    Mismatch,
}

/// Verify a BLS signature, and say what failed
///
/// The signature must be exactly 96 bytes (compressed G2 element)
/// The key must be exactly 48 bytes (compressed G1 element)
pub fn check_bls_signature(sig: &[u8], msg: &[u8], key: &[u8]) -> (r: Result<(), VerifyError>)
    ensures
        r == verification_outcome(sig@, msg@, key@),
{
    let sig = match Signature::deserialize(sig) {
        Ok(s) => s,
        Err(e) => {
            return Err(VerifyError::Signature(e));
        },
    };
    let pk = match PublicKey::deserialize(key) {
        Ok(k) => k,
        Err(e) => {
            return Err(VerifyError::PublicKey(e));
        },
    };
    match pk.verify(msg, &sig) {
        Ok(()) => Ok(()),
        Err(()) => Err(VerifyError::Mismatch),
    }
}

/// Verify a BLS signature
///
/// The signature must be exactly 96 bytes (compressed G2 element)
/// The key must be exactly 48 bytes (compressed G1 element)
///
/// Every failure, of decoding or of the equation, is the one `Err(())`.
pub fn verify_bls_signature(sig: &[u8], msg: &[u8], key: &[u8]) -> (r: Result<(), ()>)
    ensures
        r.is_ok() == verification_outcome(sig@, msg@, key@).is_ok(),
{
    match check_bls_signature(sig, msg, key) {
        Ok(()) => Ok(()),
        Err(_) => Err(()),
    }
}

} // verus!
