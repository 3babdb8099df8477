//! BLS signature verification with the groups the other way round: public
//! keys in G2 (96 bytes compressed), signatures in G1 (48 bytes
//! compressed), messages hashed to G1 under the tag of the basic scheme.
//!
//! The shape is that of the module `bls`; the two do not accept each
//! other's keys and signatures.

use crate::bls::{InvalidPublicKey, InvalidSignature, VerifyError};
use crate::curve::{
    g1_decodes, g1_hash, g2_decodes, g2_generator_encoding, g2_negation,
    pairing_product_is_identity, pairing_product_is_one, to_array, G1Point, G2Point,
};
use crate::payload::{Fields, PayloadError};
use vstd::prelude::*;
use vstd::slice::slice_subrange;
use vstd::string::StringSliceAdditionalSpecFns;

verus! {

/// The domain separation tag under which messages are hashed to G1.
pub open spec fn signature_domain() -> Seq<u8> {
    "BLS_SIG_BLS12381G1_XMD:SHA-256_SSWU_RO_NUL_".spec_bytes()
}

/// The encoding of the G1 point that stands for `message` in the pairing
/// equation. It depends on the message alone.
pub open spec fn message_point(message: Seq<u8>) -> Seq<u8> {
    g1_hash(message, signature_domain())
}

/// The BLS equation `e(sig, -g2) * e(hashed, key) == 1` over the compressed
/// encodings of key, hashed message and signature, where `g2` is the fixed
/// generator of G2. It is the equation `e(sig, g2) == e(hashed, key)`.
pub open spec fn pairing_equation_holds(key: Seq<u8>, hashed: Seq<u8>, sig: Seq<u8>) -> bool {
    pairing_product_is_one(sig, g2_negation(g2_generator_encoding()), hashed, key)
}

/// Why `bytes` is no public key, or `None` if it is one.
pub open spec fn public_key_fault(bytes: Seq<u8>) -> Option<InvalidPublicKey> {
    if bytes.len() != 96 {
        Some(InvalidPublicKey::WrongLength)
    } else if !g2_decodes(bytes) {
        Some(InvalidPublicKey::InvalidPoint)
    } else {
        None
    }
}

/// Why `bytes` is no signature, or `None` if it is one.
pub open spec fn signature_fault(bytes: Seq<u8>) -> Option<InvalidSignature> {
    if bytes.len() != 48 {
        Some(InvalidSignature::WrongLength)
    } else if !g1_decodes(bytes) {
        Some(InvalidSignature::InvalidPoint)
    } else {
        None
    }
}

/// What verification of `sig` on `msg` under `key` comes to. The signature
/// is decoded first, then the key; the pairing equation is evaluated only
/// on two decoded points.
pub open spec fn verification_outcome(sig: Seq<u8>, msg: Seq<u8>, key: Seq<u8>) -> Result<
    (),
    VerifyError,
> {
    if let Some(e) = signature_fault(sig) {
        Err(VerifyError::Signature(e))
    } else if let Some(e) = public_key_fault(key) {
        Err(VerifyError::PublicKey(e))
    } else if !pairing_equation_holds(key, message_point(msg), sig) {
        Err(VerifyError::Mismatch)
    } else {
        Ok(())
    }
}

/// The domain separation tag under which messages are hashed to G1.
pub fn signature_domain_tag() -> (tag: &'static [u8])
    ensures
        tag@ == signature_domain(),
{
    "BLS_SIG_BLS12381G1_XMD:SHA-256_SSWU_RO_NUL_".as_bytes()
}

/// Hashes a message to the G1 point that a signature on it is paired
/// against. Every message, the empty one too, has a point.
pub fn hash_to_g1(msg: &[u8]) -> (h: G1Point)
    ensures
        h@ == message_point(msg@),
{
    G1Point::hash_to_curve(msg, signature_domain_tag())
}

/// A BLS12-381 public key in G2, usable for signature verification
#[derive(Copy, Clone, Debug, PartialEq, Eq)]
pub struct PublicKey {
    pk: G2Point,
}

impl View for PublicKey {
    type V = Seq<u8>;

    /// The compressed encoding of the key's point.
    closed spec fn view(&self) -> Seq<u8> {
        self.pk@
    }
}

impl PublicKey {
    /// The length of the binary encoding of this type
    pub const BYTES: usize = 96;

    /// The key that is the point `pk`.
    pub fn new(pk: G2Point) -> (key: Self)
        ensures
            key@ == pk@,
    {
        Self { pk }
    }

    /// The key that a decoded point stands for; no point, no key.
    pub fn from_decoded(point: Option<G2Point>) -> (r: Result<Self, InvalidPublicKey>)
        ensures
            match r {
                Ok(key) => point.is_some() && key@ == point.unwrap()@,
                Err(e) => point.is_none() && e == InvalidPublicKey::InvalidPoint,
            },
    {
        match point {
            Some(pk) => Ok(Self::new(pk)),
            None => Err(InvalidPublicKey::InvalidPoint),
        }
    }

    /// Deserialize a BLS12-381 public key
    ///
    /// Succeeds exactly on 96 bytes that are the compressed encoding of a
    /// point of G2. Another length is `WrongLength`, whatever the bytes.
    pub fn deserialize(bytes: &[u8]) -> (r: Result<Self, InvalidPublicKey>)
        ensures
            match r {
                Ok(key) => public_key_fault(bytes@).is_none() && key@ == bytes@,
                Err(e) => public_key_fault(bytes@) == Some(e),
            },
    {
        match to_array::<96>(bytes) {
            None => Err(InvalidPublicKey::WrongLength),
            Some(b) => Self::from_decoded(G2Point::from_compressed(&b)),
        }
    }

    /// Evaluates the pairing equation for this key, a hashed message and a
    /// signature: `e(signature, -g2) * e(message_point, key) == 1`.
    pub fn verify_point(&self, message_point: &G1Point, signature: &Signature) -> (valid: bool)
        ensures
            valid == pairing_equation_holds(self@, message_point@, signature@),
    {
        let g2_gen = G2Point::generator().neg();
        pairing_product_is_identity(&signature.sig, &g2_gen, message_point, &self.pk)
    }

    /// Verify a BLS signature
    pub fn verify(&self, message: &[u8], signature: &Signature) -> (r: Result<(), ()>)
        ensures
            r.is_ok() == pairing_equation_holds(self@, message_point(message@), signature@),
    {
        let msg = hash_to_g1(message);
        if self.verify_point(&msg, signature) {
            Ok(())
        } else {
            Err(())
        }
    }

    /// The compressed encoding of the key.
    pub fn serialize(&self) -> (bytes: [u8; 96])
        ensures
            bytes@ == self@,
            public_key_fault(bytes@).is_none(),
    {
        self.pk.to_compressed()
    }
}

/// A type expressing a BLS12-381 signature in G1
#[derive(Copy, Clone, Debug, Eq, PartialEq)]
pub struct Signature {
    sig: G1Point,
}

impl View for Signature {
    type V = Seq<u8>;

    /// The compressed encoding of the signature's point.
    closed spec fn view(&self) -> Seq<u8> {
        self.sig@
    }
}

impl Signature {
    /// The length of the binary encoding of this type
    pub const BYTES: usize = 48;

    /// The signature that is the point `sig`.
    pub fn new(sig: G1Point) -> (signature: Self)
        ensures
            signature@ == sig@,
    {
        Self { sig }
    }

    /// The signature that a decoded point stands for; no point, no
    /// signature.
    pub fn from_decoded(point: Option<G1Point>) -> (r: Result<Self, InvalidSignature>)
        ensures
            match r {
                Ok(signature) => point.is_some() && signature@ == point.unwrap()@,
                Err(e) => point.is_none() && e == InvalidSignature::InvalidPoint,
            },
    {
        match point {
            Some(sig) => Ok(Self::new(sig)),
            None => Err(InvalidSignature::InvalidPoint),
        }
    }

    /// Deserialize a BLS signature
    ///
    /// Succeeds exactly on 48 bytes that are the compressed encoding of a
    /// point of G1. Another length is `WrongLength`, whatever the bytes.
    pub fn deserialize(bytes: &[u8]) -> (r: Result<Self, InvalidSignature>)
        ensures
            match r {
                Ok(signature) => signature_fault(bytes@).is_none() && signature@ == bytes@,
                Err(e) => signature_fault(bytes@) == Some(e),
            },
    {
        match to_array::<48>(bytes) {
            None => Err(InvalidSignature::WrongLength),
            Some(b) => Self::from_decoded(G1Point::from_compressed(&b)),
        }
    }

    /// The compressed encoding of the signature.
    pub fn serialize(&self) -> (bytes: [u8; 48])
        ensures
            bytes@ == self@,
            signature_fault(bytes@).is_none(),
    {
        self.sig.to_compressed()
    }
}

/// Verify a BLS signature, and say what failed
///
/// The signature must be exactly 48 bytes (compressed G1 element)
/// The key must be exactly 96 bytes (compressed G2 element)
pub fn check_bls_signature(sig: &[u8], msg: &[u8], key: &[u8]) -> (r: Result<(), VerifyError>)
    ensures
        r == verification_outcome(sig@, msg@, key@),
{
    let sig = match Signature::deserialize(sig) {
        Ok(s) => s,
        Err(e) => {
            return Err(VerifyError::Signature(e));
        },
    };
    let pk = match PublicKey::deserialize(key) {
        Ok(k) => k,
        Err(e) => {
            return Err(VerifyError::PublicKey(e));
        },
    };
    match pk.verify(msg, &sig) {
        Ok(()) => Ok(()),
        Err(()) => Err(VerifyError::Mismatch),
    }
}

/// Verify a BLS signature
///
/// The signature must be exactly 48 bytes (compressed G1 element)
/// The key must be exactly 96 bytes (compressed G2 element)
///
/// Every failure, of decoding or of the equation, is the one `Err(())`.
pub fn verify_bls_signature(sig: &[u8], msg: &[u8], key: &[u8]) -> (r: Result<(), ()>)
    ensures
        r.is_ok() == verification_outcome(sig@, msg@, key@).is_ok(),
{
    match check_bls_signature(sig, msg, key) {
        Ok(()) => Ok(()),
        Err(_) => Err(()),
    }
}

/// Length of the public key field, which comes first.
pub const PUBKEY_LEN: usize = 96;

/// Length of the signature field, which follows the public key.
pub const SIG_LEN: usize = 48;

/// Whether `data` is long enough to hold both fixed fields. What is left
/// after them is the message, which may be empty.
pub open spec fn has_fields(data: Seq<u8>) -> bool {
    data.len() >= PUBKEY_LEN + SIG_LEN
}

/// The first 96 bytes of the payload.
pub open spec fn public_key_field(data: Seq<u8>) -> Seq<u8>
    recommends
        has_fields(data),
{
    data.subrange(0, PUBKEY_LEN as int)
}

/// The 48 bytes that follow the public key.
pub open spec fn signature_field(data: Seq<u8>) -> Seq<u8>
    recommends
        has_fields(data),
{
    data.subrange(PUBKEY_LEN as int, PUBKEY_LEN + SIG_LEN)
}

/// Everything after the two fixed fields.
pub open spec fn message_field(data: Seq<u8>) -> Seq<u8>
    recommends
        has_fields(data),
{
    data.subrange(PUBKEY_LEN + SIG_LEN, data.len() as int)
}

/// What the entry point says of a payload: a payload too short for its
/// fixed fields is refused before anything is decoded, any other is
/// verified field by field.
pub open spec fn payload_outcome(data: Seq<u8>) -> Result<(), PayloadError> {
    if !has_fields(data) {
        Err(PayloadError::Truncated)
    } else {
        match verification_outcome(
            signature_field(data),
            message_field(data),
            public_key_field(data),
        ) {
            Ok(()) => Ok(()),
            Err(e) => Err(PayloadError::Rejected(e)),
        }
    }
}

/// Cuts a payload into its fields, if it is long enough to hold the two
/// fixed ones.
pub fn split_payload<'a>(data: &'a [u8]) -> (fields: Option<Fields<'a>>)
    ensures
        fields.is_some() == has_fields(data@),
        fields.is_some() ==> {
            &&& fields.unwrap().pubkey@ == public_key_field(data@)
            &&& fields.unwrap().sig@ == signature_field(data@)
            &&& fields.unwrap().msg@ == message_field(data@)
        },
{
    if data.len() < PUBKEY_LEN + SIG_LEN {
        return None;
    }
    let pubkey = slice_subrange(data, 0, PUBKEY_LEN);
    let sig = slice_subrange(data, PUBKEY_LEN, PUBKEY_LEN + SIG_LEN);
    let msg = slice_subrange(data, PUBKEY_LEN + SIG_LEN, data.len());
    Some(Fields { sig, pubkey, msg })
}

/// The contract's entry point for keys in G2.
#[derive(Debug, Copy, Clone, Default)]
pub struct BLSVerifier;

impl BLSVerifier {
    /// Verifies the signature in a payload, and says what failed.
    pub fn check(&self, data: &[u8]) -> (r: Result<(), PayloadError>)
        ensures
            r == payload_outcome(data@),
    {
        match split_payload(data) {
            None => Err(PayloadError::Truncated),
            Some(fields) => match check_bls_signature(fields.sig, fields.msg, fields.pubkey) {
                Ok(()) => Ok(()),
                Err(e) => Err(PayloadError::Rejected(e)),
            },
        }
    }

    /// Verifies the signature in a payload laid out as public key,
    /// signature, message. An accepted signature gives `Ok(())`; anything
    /// else, a short payload too, gives the single byte 1.
    pub fn verify_bls_signature(&self, data: &[u8]) -> (r: Result<(), Vec<u8>>)
        ensures
            r.is_ok() == payload_outcome(data@).is_ok(),
            r.is_err() ==> r.unwrap_err()@ == seq![1u8],
    {
        match self.check(data) {
            Ok(()) => Ok(()),
            Err(_) => Err(vec![1u8]),
        }
    }
}

} // verus!
