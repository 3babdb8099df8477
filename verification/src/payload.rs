//! The flat payload of the contract entry point: the signature, the public
//! key and the signed message in one byte string, in that order.

use crate::bls::{check_bls_signature, verification_outcome, VerifyError};
use vstd::prelude::*;
use vstd::slice::{slice_subrange, slice_to_vec};
use vstd::string::StringSliceAdditionalSpecFns;

verus! {

/// Length of the signature field, which comes first.
pub const SIG_LEN: usize = 96;

/// Length of the public key field, which follows the signature.
pub const PUBKEY_LEN: usize = 48;

/// Whether `data` is long enough to hold both fixed fields. What is left
/// after them is the message, which may be empty.
pub open spec fn has_fields(data: Seq<u8>) -> bool {
    data.len() >= SIG_LEN + PUBKEY_LEN
}

/// The first 96 bytes of the payload.
pub open spec fn signature_field(data: Seq<u8>) -> Seq<u8>
    recommends
        has_fields(data),
{
    data.subrange(0, SIG_LEN as int)
}

/// The 48 bytes that follow the signature.
pub open spec fn public_key_field(data: Seq<u8>) -> Seq<u8>
    recommends
        has_fields(data),
{
    data.subrange(SIG_LEN as int, SIG_LEN + PUBKEY_LEN)
}

/// Everything after the two fixed fields.
pub open spec fn message_field(data: Seq<u8>) -> Seq<u8>
    recommends
        has_fields(data),
{
    data.subrange(SIG_LEN + PUBKEY_LEN, data.len() as int)
}

/// What the entry point says of a payload: a payload too short for its
/// fixed fields is refused before anything is decoded, any other is
/// verified field by field.
pub open spec fn payload_outcome(data: Seq<u8>) -> Result<(), PayloadError> {
    if !has_fields(data) {
        Err(PayloadError::Truncated)
    } else {
        match verification_outcome(
            signature_field(data),
            message_field(data),
            public_key_field(data),
        ) {
            Ok(()) => Ok(()),
            Err(e) => Err(PayloadError::Rejected(e)),
        }
    }
}

/// Why a payload was refused.
#[derive(Debug, Copy, Clone, Eq, PartialEq)]
pub enum PayloadError {
    /// The payload is shorter than signature and public key together
    Truncated,
    /// The fields were found, and the signature was not accepted
    Rejected(VerifyError),
}

impl PayloadError {
    /// The bytes that the caller of the entry point gets for this error.
    pub open spec fn spec_message(self) -> Seq<u8> {
        match self {
            PayloadError::Truncated => "data does not include signed message".spec_bytes(),
            PayloadError::Rejected(_) => "sig failed to verify".spec_bytes(),
        }
    }

    /// The bytes that the caller of the entry point gets for this error.
    /// They tell a short payload from a refused signature, and no more.
    pub fn message(&self) -> (text: Vec<u8>)
        ensures
            text@ == self.spec_message(),
    {
        match self {
            PayloadError::Truncated => slice_to_vec(
                "data does not include signed message".as_bytes(),
            ),
            PayloadError::Rejected(_) => slice_to_vec("sig failed to verify".as_bytes()),
        }
    }
}

/// The three fields of a payload: signature, public key, message.
pub struct Fields<'a> {
    pub sig: &'a [u8],
    pub pubkey: &'a [u8],
    pub msg: &'a [u8],
}

/// Cuts a payload into its fields, if it is long enough to hold the two
/// fixed ones.
pub fn split_payload<'a>(data: &'a [u8]) -> (fields: Option<Fields<'a>>)
    ensures
        fields.is_some() == has_fields(data@),
        fields.is_some() ==> {
            &&& fields.unwrap().sig@ == signature_field(data@)
            &&& fields.unwrap().pubkey@ == public_key_field(data@)
            &&& fields.unwrap().msg@ == message_field(data@)
        },
{
    if data.len() < SIG_LEN + PUBKEY_LEN {
        return None;
    }
    let sig = slice_subrange(data, 0, SIG_LEN);
    let pubkey = slice_subrange(data, SIG_LEN, SIG_LEN + PUBKEY_LEN);
    let msg = slice_subrange(data, SIG_LEN + PUBKEY_LEN, data.len());
    Some(Fields { sig, pubkey, msg })
}

/// The contract's entry point.
#[derive(Debug, Copy, Clone, Default)]
pub struct BLSVerifier;

impl BLSVerifier {
    /// Verifies the signature in a payload, and says what failed.
    pub fn check(&self, data: &[u8]) -> (r: Result<(), PayloadError>)
        ensures
            r == payload_outcome(data@),
    {
        match split_payload(data) {
            None => Err(PayloadError::Truncated),
            Some(fields) => match check_bls_signature(fields.sig, fields.msg, fields.pubkey) {
                Ok(()) => Ok(()),
                Err(e) => Err(PayloadError::Rejected(e)),
            },
        }
    }

    /// Verifies the signature in a payload laid out as signature, public
    /// key, message. An accepted signature gives `Ok(())`; anything else
    /// gives the error's message as bytes.
    pub fn verify_bls_signature(&self, data: &[u8]) -> (r: Result<(), Vec<u8>>)
        ensures
            match r {
                Ok(()) => payload_outcome(data@).is_ok(),
                Err(text) => payload_outcome(data@).is_err() && text@
                    == payload_outcome(data@).unwrap_err().spec_message(),
            },
    {
        match self.check(data) {
            Ok(()) => Ok(()),
            Err(e) => Err(e.message()),
        }
    }
}

} // verus!
