//! Ed25519 primitives, named and wrapped.
//!
//! Key derivation, signing and verification are deterministic functions of
//! their byte inputs, so each outside call's result is given a name; the
//! wrappers also state the laws that tie them together: a derived public
//! key is a decodable curve point, a produced signature is well formed, and
//! a genuine signature verifies against the derived key.

use vstd::prelude::*;

verus! {

/// Whether 32 bytes decompress to an Edwards curve point, i.e. whether
/// `ed25519_dalek::PublicKey::from_bytes` accepts them.
pub uninterp spec fn ed25519_point_valid(b: Seq<u8>) -> bool;

/// The public key derived from a 32-byte secret seed.
pub uninterp spec fn ed25519_pubkey_of(seed: Seq<u8>) -> Seq<u8>;

/// The Ed25519 signature over a message's UTF-8 bytes, by the keypair
/// derived from a 32-byte secret seed.
pub uninterp spec fn ed25519_signature_of(seed: Seq<u8>, msg: Seq<char>) -> Seq<u8>;

/// Whether a signature verifies against a message and a public key.
pub uninterp spec fn ed25519_verifies(pk: Seq<u8>, msg: Seq<char>, sig: Seq<u8>) -> bool;

/// The shape `ed25519::Signature::from_bytes` accepts: 64 bytes whose
/// trailing scalar half is at least partially reduced (the three highest
/// bits of the last byte unset).
pub open spec fn signature_well_formed(b: Seq<u8>) -> bool {
    b.len() == 64 && b[63] & 0xE0 == 0
}

/// Relies on `ed25519_dalek::PublicKey::from(&SecretKey)` (with
/// `SecretKey::from_bytes` and `PublicKey::to_bytes` converting at either
/// end): derivation depends on the seed alone, and the derived key is a
/// valid 32-byte curve point.
#[verifier::external_body]
pub(crate) fn derive_public_key(seed: &Vec<u8>) -> (r: Vec<u8>)
    requires
        seed@.len() == 32,
    ensures
        r@ == ed25519_pubkey_of(seed@),
        r@.len() == 32,
        ed25519_point_valid(r@),
{
    let secret = ed25519_dalek::SecretKey::from_bytes(seed.as_slice()).unwrap();
    ed25519_dalek::PublicKey::from(&secret).to_bytes().to_vec()
}

/// Relies on `ed25519_dalek::Keypair::sign` (the keypair rebuilt from the
/// seed): the signature depends on the seed and message alone, is a well
/// formed 64-byte signature, and verifies against the derived public key.
#[verifier::external_body]
pub(crate) fn sign_with_seed(seed: &Vec<u8>, message: &str) -> (r: Vec<u8>)
    requires
        seed@.len() == 32,
    ensures
        r@ == ed25519_signature_of(seed@, message@),
        r@.len() == 64,
        signature_well_formed(r@),
        ed25519_verifies(ed25519_pubkey_of(seed@), message@, r@),
{
    let secret = ed25519_dalek::SecretKey::from_bytes(seed.as_slice()).unwrap();
    let public = ed25519_dalek::PublicKey::from(&secret);
    let keypair = ed25519_dalek::Keypair { secret, public };
    ed25519_dalek::Signer::sign(&keypair, message.as_bytes()).to_bytes().to_vec()
}

/// Relies on `ed25519_dalek::PublicKey::from_bytes`: on a 32-byte input it
/// succeeds exactly when the bytes decompress to a curve point.
#[verifier::external_body]
pub(crate) fn point_decompresses(b: &Vec<u8>) -> (r: bool)
    requires
        b@.len() == 32,
    ensures
        r == ed25519_point_valid(b@),
{
    ed25519_dalek::PublicKey::from_bytes(b.as_slice()).is_ok()
}

/// Relies on `ed25519_dalek::PublicKey::verify` (`PublicKey::from_bytes`
/// and `ed25519::Signature::try_from` reconstruct the parsed arguments,
/// which the preconditions make infallible): the outcome depends on the
/// key, message and signature alone.
#[verifier::external_body]
pub(crate) fn verify_signature(pk: &Vec<u8>, message: &str, sig: &Vec<u8>) -> (r: bool)
    requires
        pk@.len() == 32,
        ed25519_point_valid(pk@),
        signature_well_formed(sig@),
    ensures
        r == ed25519_verifies(pk@, message@, sig@),
{
    let public = ed25519_dalek::PublicKey::from_bytes(pk.as_slice()).unwrap();
    let signature = ed25519_dalek::Signature::try_from(sig.as_slice()).unwrap();
    ed25519_dalek::Verifier::verify(&public, message.as_bytes(), &signature).is_ok()
}

/// Relies on `solana_sdk::signer::keypair::Keypair::new`: a fresh random
/// keypair serialized as 64 bytes, the secret seed first, then the public
/// key derived from it.
#[verifier::external_body]
pub(crate) fn fresh_keypair_bytes() -> (r: Vec<u8>)
    ensures
        r@.len() == 64,
        r@.subrange(32, 64) == ed25519_pubkey_of(r@.subrange(0, 32)),
{
    solana_sdk::signer::keypair::Keypair::new().to_bytes().to_vec()
}

} // verus!
