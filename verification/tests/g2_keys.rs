use bls12_381::hash_to_curve::{ExpandMsgXmd, HashToCurve};
use bls12_381::{G1Affine, G1Projective, G2Affine, G2Projective, Scalar};
use bls_verifier::bls::{InvalidPublicKey, InvalidSignature, VerifyError};
use bls_verifier::curve::{pairing_product_is_identity, G1Point, G2Point};
use bls_verifier::g2_keys::{
    check_bls_signature, hash_to_g1, split_payload, verify_bls_signature, BLSVerifier, PublicKey,
    Signature, PUBKEY_LEN, SIG_LEN,
};
use bls_verifier::layout::Layout;
use bls_verifier::payload::PayloadError;
use core::ops::Neg;

const G1_DST: &[u8] = b"BLS_SIG_BLS12381G1_XMD:SHA-256_SSWU_RO_NUL_";

fn g1_hash(msg: &[u8]) -> G1Projective {
    <G1Projective as HashToCurve<ExpandMsgXmd<sha2::Sha256>>>::hash_to_curve(msg, G1_DST)
}

fn g2_key_of(secret: u64) -> [u8; 96] {
    G2Affine::from(G2Projective::generator() * Scalar::from(secret)).to_compressed()
}

fn g1_sign(secret: u64, msg: &[u8]) -> [u8; 48] {
    G1Affine::from(g1_hash(msg) * Scalar::from(secret)).to_compressed()
}

fn key_first_payload(secret: u64, msg: &[u8]) -> Vec<u8> {
    let mut data = Vec::new();
    data.extend_from_slice(&g2_key_of(secret));
    data.extend_from_slice(&g1_sign(secret, msg));
    data.extend_from_slice(msg);
    data
}

#[test]
fn g1_signature_by_the_matching_secret_verifies() {
    let messages: [&[u8]; 4] = [b"foobar", b"a", b"\x00\x01\x02", &[0xffu8; 200]];
    for secret in [1u64, 2, 12345, u64::MAX] {
        for msg in messages {
            let key = g2_key_of(secret);
            let sig = g1_sign(secret, msg);
            assert_eq!(verify_bls_signature(&sig, msg, &key), Ok(()));
            assert_eq!(check_bls_signature(&sig, msg, &key), Ok(()));
        }
    }
}

#[test]
fn g1_signature_on_the_empty_message_verifies() {
    let key = g2_key_of(77);
    let sig = g1_sign(77, b"");
    assert_eq!(verify_bls_signature(&sig, b"", &key), Ok(()));
    assert_eq!(verify_bls_signature(&sig, b"\x00", &key), Err(()));
}

#[test]
fn g1_signature_with_last_byte_flipped_fails() {
    let key = g2_key_of(6);
    let mut sig = g1_sign(6, b"foobar");
    assert_eq!(verify_bls_signature(&sig, b"foobar", &key), Ok(()));
    sig[47] ^= 0xff;
    assert_eq!(verify_bls_signature(&sig, b"foobar", &key), Err(()));
}

#[test]
fn g1_signature_tampering_is_rejected() {
    let msg = b"tamper".to_vec();
    let key = g2_key_of(9).to_vec();
    let sig = g1_sign(9, &msg).to_vec();
    for bit in 0..8 {
        let mut m = msg.clone();
        m[0] ^= 1 << bit;
        assert_eq!(verify_bls_signature(&sig, &m, &key), Err(()));
    }
    for i in [0usize, 20, 47] {
        let mut s = sig.clone();
        s[i] ^= 1;
        assert_eq!(verify_bls_signature(&s, &msg, &key), Err(()));
    }
    for i in [0usize, 50, 95] {
        let mut k = key.clone();
        k[i] ^= 1;
        assert_eq!(verify_bls_signature(&sig, &msg, &k), Err(()));
    }
    assert_eq!(
        check_bls_signature(&sig, &msg, &g2_key_of(10)),
        Err(VerifyError::Mismatch)
    );
}

#[test]
fn g2_key_of_wrong_length_is_wrong_length() {
    let key = g2_key_of(3);
    let mut long = key.to_vec();
    long.push(0);
    assert_eq!(
        PublicKey::deserialize(&key[..95]),
        Err(InvalidPublicKey::WrongLength)
    );
    assert_eq!(
        PublicKey::deserialize(&long),
        Err(InvalidPublicKey::WrongLength)
    );
    assert_eq!(
        PublicKey::deserialize(&[0u8; 48]),
        Err(InvalidPublicKey::WrongLength)
    );
    assert_eq!(
        Signature::deserialize(&[0u8; 47]),
        Err(InvalidSignature::WrongLength)
    );
    assert_eq!(
        Signature::deserialize(&[0u8; 49]),
        Err(InvalidSignature::WrongLength)
    );
    assert_eq!(
        Signature::deserialize(&[0u8; 96]),
        Err(InvalidSignature::WrongLength)
    );
}

#[test]
fn g2_key_bytes_that_are_no_point_are_invalid_point() {
    assert_eq!(
        PublicKey::deserialize(&[0u8; 96]),
        Err(InvalidPublicKey::InvalidPoint)
    );
    assert_eq!(
        PublicKey::deserialize(&[0xffu8; 96]),
        Err(InvalidPublicKey::InvalidPoint)
    );
    assert_eq!(
        Signature::deserialize(&[0u8; 48]),
        Err(InvalidSignature::InvalidPoint)
    );
    assert_eq!(
        Signature::deserialize(&[0xffu8; 48]),
        Err(InvalidSignature::InvalidPoint)
    );
}

#[test]
fn g2_keys_keep_their_encoding() {
    let key = g2_key_of(11);
    let sig = g1_sign(11, b"m");
    assert_eq!(PublicKey::deserialize(&key).unwrap().serialize(), key);
    assert_eq!(Signature::deserialize(&sig).unwrap().serialize(), sig);
    assert_eq!(PublicKey::BYTES, 96);
    assert_eq!(Signature::BYTES, 48);
    assert_eq!(
        PublicKey::from_decoded(G2Point::from_compressed(&key)),
        PublicKey::deserialize(&key)
    );
    assert_eq!(
        PublicKey::from_decoded(None),
        Err(InvalidPublicKey::InvalidPoint)
    );
    assert_eq!(
        Signature::from_decoded(G1Point::from_compressed(&sig)),
        Signature::deserialize(&sig)
    );
    assert_eq!(
        Signature::from_decoded(None),
        Err(InvalidSignature::InvalidPoint)
    );
    assert_eq!(
        PublicKey::new(G2Point::from_compressed(&key).unwrap()).serialize(),
        key
    );
    assert_eq!(
        Signature::new(G1Point::from_compressed(&sig).unwrap()).serialize(),
        sig
    );
}

#[test]
fn g1_hash_is_that_of_the_suite_and_the_same_each_time() {
    for msg in [&b""[..], b"foobar", b"abcdef0123456789"] {
        let expected = G1Affine::from(g1_hash(msg)).to_compressed();
        assert_eq!(hash_to_g1(msg).to_compressed(), expected);
        assert_eq!(hash_to_g1(msg), hash_to_g1(msg));
        assert_eq!(G1Point::hash_to_curve(msg, G1_DST), hash_to_g1(msg));
    }
    assert_ne!(hash_to_g1(b"a"), hash_to_g1(b"b"));
    assert_ne!(G1Point::hash_to_curve(b"a", b"other tag"), hash_to_g1(b"a"));
}

#[test]
fn g2_generator_and_negation_are_the_curve_crates() {
    let g = G2Point::generator();
    assert_eq!(g.to_compressed(), G2Affine::generator().to_compressed());
    assert_eq!(g.to_compressed()[0], 0x93);
    assert_eq!(g.to_compressed()[95], 0xb8);
    assert_eq!(
        g.neg().to_compressed(),
        G2Affine::generator().neg().to_compressed()
    );
    assert_ne!(g.neg(), g);
    assert_eq!(g.neg().neg(), g);
    let h = hash_to_g1(b"h");
    assert!(pairing_product_is_identity(&h, &g, &h, &g.neg()));
    assert!(!pairing_product_is_identity(&h, &g, &h, &g));
}

#[test]
fn g2_key_verify_takes_the_hashed_message() {
    let key = PublicKey::deserialize(&g2_key_of(21)).unwrap();
    let sig = Signature::deserialize(&g1_sign(21, b"hello")).unwrap();
    assert!(key.verify_point(&hash_to_g1(b"hello"), &sig));
    assert!(!key.verify_point(&hash_to_g1(b"hullo"), &sig));
    assert_eq!(key.verify(b"hello", &sig), Ok(()));
    assert_eq!(key.verify(b"hullo", &sig), Err(()));
}

#[test]
fn layouts_do_not_accept_each_other() {
    let msg = b"foobar";
    // key in G2, signature in G1
    let key = g2_key_of(5);
    let sig = g1_sign(5, msg);
    assert_eq!(verify_bls_signature(&sig, msg, &key), Ok(()));
    assert_eq!(
        bls_verifier::bls::check_bls_signature(&sig, msg, &key),
        Err(VerifyError::Signature(InvalidSignature::WrongLength))
    );
    // key in G1, signature in G2
    let key = G1Affine::from(G1Projective::generator() * Scalar::from(5u64)).to_compressed();
    let h = <G2Projective as HashToCurve<ExpandMsgXmd<sha2::Sha256>>>::hash_to_curve(
        msg,
        b"BLS_SIG_BLS12381G2_XMD:SHA-256_SSWU_RO_POP_",
    );
    let sig = G2Affine::from(h * Scalar::from(5u64)).to_compressed();
    assert_eq!(bls_verifier::bls::verify_bls_signature(&sig, msg, &key), Ok(()));
    assert_eq!(
        check_bls_signature(&sig, msg, &key),
        Err(VerifyError::Signature(InvalidSignature::WrongLength))
    );
    assert_eq!(verify_bls_signature(&sig, msg, &key), Err(()));
}

#[test]
fn key_first_payload_is_cut_into_key_signature_message() {
    assert_eq!(PUBKEY_LEN, 96);
    assert_eq!(SIG_LEN, 48);
    let data: Vec<u8> = (0..150u8).collect();
    let fields = split_payload(&data).unwrap();
    assert_eq!(fields.pubkey, &data[..96]);
    assert_eq!(fields.sig, &data[96..144]);
    assert_eq!(fields.msg, &data[144..]);
    assert!(split_payload(&data[..143]).is_none());
    assert!(split_payload(&data[..144]).unwrap().msg.is_empty());
}

#[test]
fn key_first_payload_is_accepted() {
    let data = key_first_payload(42, b"foobar");
    assert_eq!(BLSVerifier.verify_bls_signature(&data), Ok(()));
    assert_eq!(BLSVerifier.check(&data), Ok(()));
    let data = key_first_payload(42, b"");
    assert_eq!(BLSVerifier.verify_bls_signature(&data), Ok(()));
}

#[test]
fn key_first_payload_failures_are_the_byte_one() {
    let mut data = key_first_payload(42, b"foobar");
    assert_eq!(
        BLSVerifier.verify_bls_signature(&data[..143]),
        Err(vec![1u8])
    );
    assert_eq!(BLSVerifier.verify_bls_signature(&[]), Err(vec![1u8]));
    assert_eq!(BLSVerifier.check(&data[..20]), Err(PayloadError::Truncated));
    let last = data.len() - 1;
    data[last] ^= 1;
    assert_eq!(BLSVerifier.verify_bls_signature(&data), Err(vec![1u8]));
    assert_eq!(
        BLSVerifier.check(&data),
        Err(PayloadError::Rejected(VerifyError::Mismatch))
    );
    data[0] = 0;
    assert_eq!(
        BLSVerifier.check(&data),
        Err(PayloadError::Rejected(VerifyError::PublicKey(
            InvalidPublicKey::InvalidPoint
        )))
    );
}

#[test]
fn layout_picks_lengths_and_verifier() {
    assert_eq!(Layout::KeysInG1.public_key_len(), 48);
    assert_eq!(Layout::KeysInG1.signature_len(), 96);
    assert_eq!(Layout::KeysInG2.public_key_len(), 96);
    assert_eq!(Layout::KeysInG2.signature_len(), 48);
    let key = g2_key_of(5);
    let sig = g1_sign(5, b"m");
    assert_eq!(Layout::KeysInG2.check_bls_signature(&sig, b"m", &key), Ok(()));
    assert_eq!(
        Layout::KeysInG1.check_bls_signature(&sig, b"m", &key),
        Err(VerifyError::Signature(InvalidSignature::WrongLength))
    );
    let data = key_first_payload(5, b"m");
    assert_eq!(Layout::KeysInG2.check_payload(&data), Ok(()));
    assert!(Layout::KeysInG1.check_payload(&data).is_err());
    assert_eq!(
        Layout::KeysInG1.check_payload(&data[..143]),
        Err(PayloadError::Truncated)
    );
    assert_eq!(
        Layout::KeysInG2.check_payload(&data[..143]),
        Err(PayloadError::Truncated)
    );
}
