//! What holds of verification whatever the bytes are.

use crate::bls;
use crate::bls::{InvalidPublicKey, InvalidSignature, VerifyError};
use crate::curve::{g1_decodes, g2_decodes};
use crate::g2_keys;
use crate::layout::Layout;
use crate::payload;
use crate::payload::PayloadError;
use vstd::prelude::*;

verus! {

/// The point that a message is hashed to depends on the message's bytes
/// alone: two messages of the same bytes have the same point, in both
/// groups.
pub proof fn lemma_message_point_is_determined(m1: Seq<u8>, m2: Seq<u8>)
    requires
        m1.len() == m2.len(),
        forall|i: int| 0 <= i < m1.len() ==> m1[i] == m2[i],
    ensures
        bls::message_point(m1) == bls::message_point(m2),
        g2_keys::message_point(m1) == g2_keys::message_point(m2),
{
    assert(m1 =~= m2);
}

/// Bytes of another length than the encoding's are `WrongLength`, for keys
/// and signatures of both layouts, and never `InvalidPoint`.
pub proof fn lemma_wrong_length_is_reported(bytes: Seq<u8>)
    ensures
        bytes.len() != 48 ==> bls::public_key_fault(bytes) == Some(InvalidPublicKey::WrongLength),
        bytes.len() != 96 ==> bls::signature_fault(bytes) == Some(InvalidSignature::WrongLength),
        bytes.len() != 96 ==> g2_keys::public_key_fault(bytes) == Some(
            InvalidPublicKey::WrongLength,
        ),
        bytes.len() != 48 ==> g2_keys::signature_fault(bytes) == Some(
            InvalidSignature::WrongLength,
        ),
{
}

/// Bytes of the encoding's length that do not decode to a point of the
/// group are `InvalidPoint`, and bytes that do decode are accepted.
pub proof fn lemma_invalid_point_is_reported(bytes: Seq<u8>)
    ensures
        bytes.len() == 48 ==> bls::public_key_fault(bytes) == (if g1_decodes(bytes) {
            None
        } else {
            Some(InvalidPublicKey::InvalidPoint)
        }),
        bytes.len() == 96 ==> bls::signature_fault(bytes) == (if g2_decodes(bytes) {
            None
        } else {
            Some(InvalidSignature::InvalidPoint)
        }),
        bytes.len() == 96 ==> g2_keys::public_key_fault(bytes) == (if g2_decodes(bytes) {
            None
        } else {
            Some(InvalidPublicKey::InvalidPoint)
        }),
        bytes.len() == 48 ==> g2_keys::signature_fault(bytes) == (if g1_decodes(bytes) {
            None
        } else {
            Some(InvalidSignature::InvalidPoint)
        }),
{
}

/// A signature is accepted exactly when signature and key decode and the
/// pairing equation holds of them and the hashed message.
pub proof fn lemma_accepted_iff_decoded_and_paired(sig: Seq<u8>, msg: Seq<u8>, key: Seq<u8>)
    ensures
        bls::verification_outcome(sig, msg, key).is_ok() <==> {
            &&& bls::signature_fault(sig).is_none()
            &&& bls::public_key_fault(key).is_none()
            &&& bls::pairing_equation_holds(key, bls::message_point(msg), sig)
        },
        g2_keys::verification_outcome(sig, msg, key).is_ok() <==> {
            &&& g2_keys::signature_fault(sig).is_none()
            &&& g2_keys::public_key_fault(key).is_none()
            &&& g2_keys::pairing_equation_holds(key, g2_keys::message_point(msg), sig)
        },
{
}

/// Signature and key that one layout accepts, on any message, the other
/// layout refuses for the signature's length; so no triple is accepted by
/// both.
pub proof fn lemma_layouts_exclude_each_other(sig: Seq<u8>, msg: Seq<u8>, key: Seq<u8>)
    ensures
        !(Layout::KeysInG1.outcome(sig, msg, key).is_ok() && Layout::KeysInG2.outcome(
            sig,
            msg,
            key,
        ).is_ok()),
        g2_keys::verification_outcome(sig, msg, key).is_ok() ==> bls::verification_outcome(
            sig,
            msg,
            key,
        ) == Err::<(), VerifyError>(VerifyError::Signature(InvalidSignature::WrongLength)),
        bls::verification_outcome(sig, msg, key).is_ok() ==> g2_keys::verification_outcome(
            sig,
            msg,
            key,
        ) == Err::<(), VerifyError>(VerifyError::Signature(InvalidSignature::WrongLength)),
{
}

/// The payload made of a 96-byte signature, a 48-byte key and a message is
/// accepted exactly when the signature is, of that message under that key,
/// and a refusal carries the same reason.
pub proof fn lemma_payload_of_fields(sig: Seq<u8>, key: Seq<u8>, msg: Seq<u8>)
    requires
        sig.len() == 96,
        key.len() == 48,
    ensures
        payload::payload_outcome(sig + key + msg) == (match bls::verification_outcome(
            sig,
            msg,
            key,
        ) {
            Ok(()) => Ok::<(), PayloadError>(()),
            Err(e) => Err(PayloadError::Rejected(e)),
        }),
{
    let data = sig + key + msg;
    assert(payload::signature_field(data) =~= sig);
    assert(payload::public_key_field(data) =~= key);
    assert(payload::message_field(data) =~= msg);
}

/// The payload made of a 96-byte key in G2, a 48-byte signature and a
/// message is accepted exactly when the signature is, of that message
/// under that key, and a refusal carries the same reason.
pub proof fn lemma_key_first_payload_of_fields(key: Seq<u8>, sig: Seq<u8>, msg: Seq<u8>)
    requires
        key.len() == 96,
        sig.len() == 48,
    ensures
        g2_keys::payload_outcome(key + sig + msg) == (match g2_keys::verification_outcome(
            sig,
            msg,
            key,
        ) {
            Ok(()) => Ok::<(), PayloadError>(()),
            Err(e) => Err(PayloadError::Rejected(e)),
        }),
{
    let data = key + sig + msg;
    assert(g2_keys::public_key_field(data) =~= key);
    assert(g2_keys::signature_field(data) =~= sig);
    assert(g2_keys::message_field(data) =~= msg);
}

/// A payload shorter than its two fixed fields is refused as truncated,
/// whatever it holds, in both layouts.
pub proof fn lemma_short_payload_is_truncated(data: Seq<u8>)
    requires
        data.len() < 144,
    ensures
        payload::payload_outcome(data) == Err::<(), PayloadError>(PayloadError::Truncated),
        g2_keys::payload_outcome(data) == Err::<(), PayloadError>(PayloadError::Truncated),
{
}

} // verus!
