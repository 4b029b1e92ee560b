//! BLS signatures (public keys in G1, signatures in G2) whose domain
//! separator is a machine id, so that a signature made for one machine does not
//! verify as made by another.
use crate::ids::MachineId;
use bls12_381::hash_to_curve::{ExpandMsgXmd, HashToCurve};
use bls12_381::{G1Affine, G2Affine, G2Projective, Scalar};
use vstd::prelude::*;

verus! {

/// Name for whether 32 bytes are the canonical little-endian encoding of a
/// scalar of BLS12-381.
pub uninterp spec fn canonical_scalar(bytes: Seq<u8>) -> bool;

/// Name for the scalar that 64 bytes reduce to, encoded.
pub uninterp spec fn wide_scalar(bytes: Seq<u8>) -> Seq<u8>;

/// Name for the compressed public key of a secret scalar.
pub uninterp spec fn public_key_of(secret: Seq<u8>) -> Seq<u8>;

/// Name for the compressed signature of `message` by `secret` with the domain
/// separator `dst`.
pub uninterp spec fn signature_of(secret: Seq<u8>, dst: Seq<u8>, message: Seq<u8>) -> Seq<u8>;

/// Name for whether `signature` verifies for `message`, `dst` and `public`.
pub uninterp spec fn signature_valid(public: Seq<u8>, dst: Seq<u8>, signature: Seq<u8>, message: Seq<u8>) -> bool;

/// Relies on `bls12_381::Scalar::from_bytes`: whether the bytes encode a scalar.
#[verifier::external_body]
fn is_scalar(bytes: &[u8; 32]) -> (r: bool)
    ensures
        r == canonical_scalar(bytes@),
{
    bool::from(Scalar::from_bytes(bytes).is_some())
}

/// Relies on `bls12_381::Scalar::from_bytes_wide`: reduces 64 bytes to a scalar,
/// returned in its canonical encoding (`Scalar::to_bytes`).
#[verifier::external_body]
fn reduce_wide(bytes: &[u8; 64]) -> (r: [u8; 32])
    ensures
        r@ == wide_scalar(bytes@),
        canonical_scalar(r@),
{
    Scalar::from_bytes_wide(bytes).to_bytes()
}

/// Relies on `bls12_381::G1Affine::generator` times the scalar: the public key,
/// compressed.
#[verifier::external_body]
fn derive_public_key(secret: &[u8; 32]) -> (r: [u8; 48])
    requires
        canonical_scalar(secret@),
    ensures
        r@ == public_key_of(secret@),
{
    let sk = Scalar::from_bytes(secret).unwrap();
    G1Affine::from(G1Affine::generator() * sk).to_compressed()
}

/// Relies on `bls12_381::hash_to_curve::HashToCurve::hash_to_curve` into G2 with
/// `ExpandMsgXmd<Sha256>`, times the scalar: the signature, compressed. By the
/// bilinearity of `bls12_381::pairing`, it verifies under the public key of the
/// same scalar.
#[verifier::external_body]
fn sign_message(secret: &[u8; 32], dst: &[u8; 32], message: &[u8]) -> (r: [u8; 96])
    requires
        canonical_scalar(secret@),
    ensures
        r@ == signature_of(secret@, dst@, message@),
        signature_valid(public_key_of(secret@), dst@, r@, message@),
{
    let sk = Scalar::from_bytes(secret).unwrap();
    let point = <G2Projective as HashToCurve<ExpandMsgXmd<sha2::Sha256>>>::hash_to_curve(message, dst);
    G2Affine::from(point * sk).to_compressed()
}

/// Relies on `bls12_381::pairing`: `e(public, H(message)) == e(g1, signature)`,
/// false when either point does not decode.
#[verifier::external_body]
fn check_signature(public: &[u8; 48], dst: &[u8; 32], signature: &[u8; 96], message: &[u8]) -> (r: bool)
    ensures
        r == signature_valid(public@, dst@, signature@, message@),
{
    let pk: Option<G1Affine> = G1Affine::from_compressed(public).into();
    let sig: Option<G2Affine> = G2Affine::from_compressed(signature).into();
    let point = <G2Projective as HashToCurve<ExpandMsgXmd<sha2::Sha256>>>::hash_to_curve(message, dst);
    match (pk, sig) {
        (Some(pk), Some(sig)) => {
            bls12_381::pairing(&pk, &G2Affine::from(point)) == bls12_381::pairing(&G1Affine::generator(), &sig)
        },
        _ => false,
    }
}

/// A compressed public key.
#[derive(Clone, Copy, Debug)]
pub struct PublicKey(pub [u8; 48]);

/// A compressed signature.
#[derive(Clone, Copy, Debug)]
pub struct Signature(pub [u8; 96]);

/// The host's signing key pair.
#[derive(Clone, Copy, Debug)]
pub struct KeyPair {
    secret: [u8; 32],
    public: [u8; 48],
}

impl KeyPair {
    /// The secret is a scalar and the public key is derived from it.
    pub closed spec fn wf(&self) -> bool {
        canonical_scalar(self.secret@) && self.public@ == public_key_of(self.secret@)
    }

    pub closed spec fn spec_secret(&self) -> Seq<u8> {
        self.secret@
    }

    pub closed spec fn spec_public(&self) -> Seq<u8> {
        self.public@
    }

    /// The key pair of a secret scalar, if the bytes encode one.
    pub fn new(secret: [u8; 32]) -> (r: Option<KeyPair>)
        ensures
            r is Some <==> canonical_scalar(secret@),
            r matches Some(kp) ==> kp.wf() && kp.spec_secret() == secret@,
    {
        if !is_scalar(&secret) {
            return None;
        }
        let public = derive_public_key(&secret);
        Some(KeyPair { secret, public })
    }

    /// A random key pair: `bytes` are 64 random bytes, reduced to the secret
    /// scalar.
    pub fn random(bytes: [u8; 64]) -> (r: KeyPair)
        ensures
            r.wf(),
            r.spec_secret() == wide_scalar(bytes@),
    {
        let secret = reduce_wide(&bytes);
        let public = derive_public_key(&secret);
        KeyPair { secret, public }
    }

    /// The public half.
    pub fn public_key(&self) -> (r: PublicKey)
        ensures
            r.0@ == self.spec_public(),
    {
        PublicKey(self.public)
    }

    /// The secret scalar, encoded.
    pub fn secret_key(&self) -> (r: [u8; 32])
        ensures
            r@ == self.spec_secret(),
    {
        self.secret
    }
}

/// Signs `message` as machine `machine_id`.
pub fn sign(keypair: KeyPair, machine_id: MachineId, message: &[u8]) -> (r: Signature)
    requires
        keypair.wf(),
    ensures
        r.0@ == signature_of(keypair.spec_secret(), machine_id.view(), message@),
        signature_valid(keypair.spec_public(), machine_id.view(), r.0@, message@),
{
    Signature(sign_message(&keypair.secret, &machine_id.0, message))
}

/// Whether `signature` is one of `message` made as machine `machine_id` by the
/// holder of `public_key`.
pub fn verify(public_key: PublicKey, machine_id: MachineId, signature: Signature, message: &[u8]) -> (r: bool)
    ensures
        r == signature_valid(public_key.0@, machine_id.view(), signature.0@, message@),
{
    check_signature(&public_key.0, &machine_id.0, &signature.0, message)
}

} // verus!
