//! Points of the two source groups of BLS12-381, held by their compressed
//! encodings, and the operations on them that the `bls12_381` crate performs.
//!
//! A `G1Point` or `G2Point` always holds an encoding that the crate decodes
//! to a point on the curve and in the prime-order subgroup. What the crate
//! computes is named by the uninterpreted functions below; nothing here says
//! how.

use bls12_381::hash_to_curve::{ExpandMsgXmd, HashToCurve};
use bls12_381::{multi_miller_loop, G1Affine, G1Projective, G2Affine, G2Prepared, G2Projective};
use core::ops::Neg;
use pairing::group::{Curve, Group};
use vstd::prelude::*;

verus! {

/// Whether `G1Affine::from_compressed` accepts these 48 bytes: they are the
/// compressed encoding of a point on the curve and in the subgroup G1.
pub uninterp spec fn g1_decodes(bytes: Seq<u8>) -> bool;

/// Whether `G2Affine::from_compressed` accepts these 96 bytes: they are the
/// compressed encoding of a point on the twist and in the subgroup G2.
pub uninterp spec fn g2_decodes(bytes: Seq<u8>) -> bool;

/// The compressed encoding of the negation of the G1 point that `point`
/// encodes.
pub uninterp spec fn g1_negation(point: Seq<u8>) -> Seq<u8>;

/// The compressed encoding of the negation of the G2 point that `point`
/// encodes.
pub uninterp spec fn g2_negation(point: Seq<u8>) -> Seq<u8>;

/// The compressed encoding of the G1 point that the hash-to-curve suite
/// BLS12381G1_XMD:SHA-256_SSWU_RO_ gives for `message` under the domain
/// separation tag `dst`.
pub uninterp spec fn g1_hash(message: Seq<u8>, dst: Seq<u8>) -> Seq<u8>;

/// The compressed encoding of the G2 point that the hash-to-curve suite
/// BLS12381G2_XMD:SHA-256_SSWU_RO_ gives for `message` under the domain
/// separation tag `dst`.
pub uninterp spec fn g2_hash(message: Seq<u8>, dst: Seq<u8>) -> Seq<u8>;

/// Whether `e(p1, q1) * e(p2, q2)` is the identity of the target group,
/// for the points that the four compressed encodings stand for.
pub uninterp spec fn pairing_product_is_one(
    p1: Seq<u8>,
    q1: Seq<u8>,
    p2: Seq<u8>,
    q2: Seq<u8>,
) -> bool;

/// The compressed encoding of the fixed generator of G1.
pub open spec fn g1_generator_encoding() -> Seq<u8> {
    seq![
        0x97u8, 0xf1, 0xd3, 0xa7, 0x31, 0x97, 0xd7, 0x94, 0x26, 0x95, 0x63, 0x8c,
        0x4f, 0xa9, 0xac, 0x0f, 0xc3, 0x68, 0x8c, 0x4f, 0x97, 0x74, 0xb9, 0x05,
        0xa1, 0x4e, 0x3a, 0x3f, 0x17, 0x1b, 0xac, 0x58, 0x6c, 0x55, 0xe8, 0x3f,
        0xf9, 0x7a, 0x1a, 0xef, 0xfb, 0x3a, 0xf0, 0x0a, 0xdb, 0x22, 0xc6, 0xbb,
    ]
}

/// The compressed encoding of the fixed generator of G2.
pub open spec fn g2_generator_encoding() -> Seq<u8> {
    seq![
        0x93u8, 0xe0, 0x2b, 0x60, 0x52, 0x71, 0x9f, 0x60, 0x7d, 0xac, 0xd3, 0xa0,
        0x88, 0x27, 0x4f, 0x65, 0x59, 0x6b, 0xd0, 0xd0, 0x99, 0x20, 0xb6, 0x1a,
        0xb5, 0xda, 0x61, 0xbb, 0xdc, 0x7f, 0x50, 0x49, 0x33, 0x4c, 0xf1, 0x12,
        0x13, 0x94, 0x5d, 0x57, 0xe5, 0xac, 0x7d, 0x05, 0x5d, 0x04, 0x2b, 0x7e,
        0x02, 0x4a, 0xa2, 0xb2, 0xf0, 0x8f, 0x0a, 0x91, 0x26, 0x08, 0x05, 0x27,
        0x2d, 0xc5, 0x10, 0x51, 0xc6, 0xe4, 0x7a, 0xd4, 0xfa, 0x40, 0x3b, 0x02,
        0xb4, 0x51, 0x0b, 0x64, 0x7a, 0xe3, 0xd1, 0x77, 0x0b, 0xac, 0x03, 0x26,
        0xa8, 0x05, 0xbb, 0xef, 0xd4, 0x80, 0x56, 0xc8, 0xc1, 0x21, 0xbd, 0xb8,
    ]
}

/// Calls `G1Affine::from_compressed` and reports whether it gave a point.
/// Trusted: the answer is what `g1_decodes` names.
#[verifier::external_body]
fn g1_from_compressed_ok(bytes: &[u8; 48]) -> (ok: bool)
    ensures
        ok == g1_decodes(bytes@),
{
    bool::from(G1Affine::from_compressed(bytes).is_some())
}

/// Calls `G2Affine::from_compressed` and reports whether it gave a point.
/// Trusted: the answer is what `g2_decodes` names.
#[verifier::external_body]
fn g2_from_compressed_ok(bytes: &[u8; 96]) -> (ok: bool)
    ensures
        ok == g2_decodes(bytes@),
{
    bool::from(G2Affine::from_compressed(bytes).is_some())
}

/// Calls `G1Affine::generator` and compresses the point. Trusted: the
/// encoding is the 48 bytes of `g1_generator_encoding`, and it decodes.
#[verifier::external_body]
fn g1_generator_compressed() -> (g: [u8; 48])
    ensures
        g@ == g1_generator_encoding(),
        g1_decodes(g@),
{
    G1Affine::generator().to_compressed()
}

/// Calls `Neg::neg` of `G1Affine` on the decoded point and compresses the
/// result. Trusted: the negation of a point of G1 is a point of G1, so its
/// encoding decodes.
#[verifier::external_body]
fn g1_neg_compressed(point: &[u8; 48]) -> (n: [u8; 48])
    requires
        g1_decodes(point@),
    ensures
        n@ == g1_negation(point@),
        g1_decodes(n@),
{
    G1Affine::from_compressed(point).unwrap().neg().to_compressed()
}

/// Calls `G2Affine::generator` and compresses the point. Trusted: the
/// encoding is the 96 bytes of `g2_generator_encoding`, and it decodes.
#[verifier::external_body]
fn g2_generator_compressed() -> (g: [u8; 96])
    ensures
        g@ == g2_generator_encoding(),
        g2_decodes(g@),
{
    G2Affine::generator().to_compressed()
}

/// Calls `Neg::neg` of `G2Affine` on the decoded point and compresses the
/// result. Trusted: the negation of a point of G2 is a point of G2, so its
/// encoding decodes.
#[verifier::external_body]
fn g2_neg_compressed(point: &[u8; 96]) -> (n: [u8; 96])
    requires
        g2_decodes(point@),
    ensures
        n@ == g2_negation(point@),
        g2_decodes(n@),
{
    G2Affine::from_compressed(point).unwrap().neg().to_compressed()
}

/// Calls `HashToCurve::hash_to_curve` of `G1Projective` with
/// `ExpandMsgXmd<Sha256>` and compresses the affine result. Trusted: the
/// result depends on the message and the tag alone, and it is a point of
/// G1, so its encoding decodes.
#[verifier::external_body]
fn g1_hash_compressed(message: &[u8], dst: &[u8]) -> (h: [u8; 48])
    ensures
        h@ == g1_hash(message@, dst@),
        g1_decodes(h@),
{
    <G1Projective as HashToCurve<ExpandMsgXmd<sha2::Sha256>>>::hash_to_curve(message, dst)
        .to_affine()
        .to_compressed()
}

/// Calls `HashToCurve::hash_to_curve` of `G2Projective` with
/// `ExpandMsgXmd<Sha256>` and compresses the affine result. Trusted: the
/// result depends on the message and the tag alone, and it is a point of
/// G2, so its encoding decodes.
#[verifier::external_body]
fn g2_hash_compressed(message: &[u8], dst: &[u8]) -> (h: [u8; 96])
    ensures
        h@ == g2_hash(message@, dst@),
        g2_decodes(h@),
{
    <G2Projective as HashToCurve<ExpandMsgXmd<sha2::Sha256>>>::hash_to_curve(message, dst)
        .to_affine()
        .to_compressed()
}

/// Calls `multi_miller_loop` on the two terms, then `final_exponentiation`
/// and `is_identity` on its result. Trusted: the answer is whether the
/// product of the two pairings is the identity of the target group.
#[verifier::external_body]
fn pairing_product_compressed(
    p1: &[u8; 48],
    q1: &[u8; 96],
    p2: &[u8; 48],
    q2: &[u8; 96],
) -> (one: bool)
    requires
        g1_decodes(p1@),
        g2_decodes(q1@),
        g1_decodes(p2@),
        g2_decodes(q2@),
    ensures
        one == pairing_product_is_one(p1@, q1@, p2@, q2@),
{
    let a1 = G1Affine::from_compressed(p1).unwrap();
    let b1 = G2Prepared::from(G2Affine::from_compressed(q1).unwrap());
    let a2 = G1Affine::from_compressed(p2).unwrap();
    let b2 = G2Prepared::from(G2Affine::from_compressed(q2).unwrap());
    let x = multi_miller_loop(&[(&a1, &b1), (&a2, &b2)]).final_exponentiation();
    bool::from(x.is_identity())
}

/// A point of G1, held by its compressed encoding.
#[derive(Clone, Copy, Debug, PartialEq, Eq)]
pub struct G1Point {
    bytes: [u8; 48],
}

/// A point of G2, held by its compressed encoding.
#[derive(Clone, Copy, Debug, PartialEq, Eq)]
pub struct G2Point {
    bytes: [u8; 96],
}

impl View for G1Point {
    type V = Seq<u8>;

    /// The 48 bytes of the compressed encoding.
    closed spec fn view(&self) -> Seq<u8> {
        self.bytes@
    }
}

impl View for G2Point {
    type V = Seq<u8>;

    /// The 96 bytes of the compressed encoding.
    closed spec fn view(&self) -> Seq<u8> {
        self.bytes@
    }
}

impl G1Point {
    #[verifier::type_invariant]
    spec fn decodes(self) -> bool {
        g1_decodes(self.bytes@)
    }

    /// Decodes a compressed point, with the curve and subgroup checks.
    pub fn from_compressed(bytes: &[u8; 48]) -> (point: Option<G1Point>)
        ensures
            point.is_some() == g1_decodes(bytes@),
            point.is_some() ==> point.unwrap()@ == bytes@,
    {
        if g1_from_compressed_ok(bytes) {
            Some(G1Point { bytes: *bytes })
        } else {
            None
        }
    }

    /// The fixed generator of G1.
    pub fn generator() -> (g: G1Point)
        ensures
            g@ == g1_generator_encoding(),
    {
        G1Point { bytes: g1_generator_compressed() }
    }

    /// The negation of this point.
    pub fn neg(&self) -> (n: G1Point)
        ensures
            n@ == g1_negation(self@),
    {
        proof {
            use_type_invariant(self);
        }
        G1Point { bytes: g1_neg_compressed(&self.bytes) }
    }

    /// Hashes a message to a point of G1 under a domain separation tag.
    /// Every message and every tag give a point.
    pub fn hash_to_curve(message: &[u8], dst: &[u8]) -> (h: G1Point)
        ensures
            h@ == g1_hash(message@, dst@),
    {
        G1Point { bytes: g1_hash_compressed(message, dst) }
    }

    /// The compressed encoding of this point.
    pub fn to_compressed(&self) -> (bytes: [u8; 48])
        ensures
            bytes@ == self@,
            g1_decodes(bytes@),
    {
        proof {
            use_type_invariant(self);
        }
        self.bytes
    }
}

impl G2Point {
    #[verifier::type_invariant]
    spec fn decodes(self) -> bool {
        g2_decodes(self.bytes@)
    }

    /// Decodes a compressed point, with the curve and subgroup checks.
    pub fn from_compressed(bytes: &[u8; 96]) -> (point: Option<G2Point>)
        ensures
            point.is_some() == g2_decodes(bytes@),
            point.is_some() ==> point.unwrap()@ == bytes@,
    {
        if g2_from_compressed_ok(bytes) {
            Some(G2Point { bytes: *bytes })
        } else {
            None
        }
    }

    /// The fixed generator of G2.
    pub fn generator() -> (g: G2Point)
        ensures
            g@ == g2_generator_encoding(),
    {
        G2Point { bytes: g2_generator_compressed() }
    }

    /// The negation of this point.
    pub fn neg(&self) -> (n: G2Point)
        ensures
            n@ == g2_negation(self@),
    {
        proof {
            use_type_invariant(self);
        }
        G2Point { bytes: g2_neg_compressed(&self.bytes) }
    }

    /// Hashes a message to a point of G2 under a domain separation tag.
    /// Every message and every tag give a point.
    pub fn hash_to_curve(message: &[u8], dst: &[u8]) -> (h: G2Point)
        ensures
            h@ == g2_hash(message@, dst@),
    {
        G2Point { bytes: g2_hash_compressed(message, dst) }
    }

    /// The compressed encoding of this point.
    pub fn to_compressed(&self) -> (bytes: [u8; 96])
        ensures
            bytes@ == self@,
            g2_decodes(bytes@),
    {
        proof {
            use_type_invariant(self);
        }
        self.bytes
    }
}

/// Whether `e(p1, q1) * e(p2, q2)` is the identity of the target group.
/// The two pairings share one final exponentiation.
pub fn pairing_product_is_identity(
    p1: &G1Point,
    q1: &G2Point,
    p2: &G1Point,
    q2: &G2Point,
) -> (one: bool)
    ensures
        one == pairing_product_is_one(p1@, q1@, p2@, q2@),
{
    proof {
        use_type_invariant(p1);
        use_type_invariant(q1);
        use_type_invariant(p2);
        use_type_invariant(q2);
    }
    pairing_product_compressed(&p1.bytes, &q1.bytes, &p2.bytes, &q2.bytes)
}

/// Copies a slice into an array of `N` bytes, if it has that length.
pub fn to_array<const N: usize>(bytes: &[u8]) -> (array: Option<[u8; N]>)
    ensures
        array.is_some() == (bytes@.len() == N),
        array.is_some() ==> array.unwrap()@ == bytes@,
{
    if bytes.len() != N {
        return None;
    }
    let mut array: [u8; N] = [0u8; N];
    let mut i: usize = 0;
    while i < N
        invariant
            bytes@.len() == N,
            i <= N,
            forall|j: int| 0 <= j < i ==> array@[j] == bytes@[j],
        decreases N - i,
    {
        array[i] = bytes[i];
        i += 1;
    }
    assert(array@ =~= bytes@);
    Some(array)
}

} // verus!
