//! What the engine takes from the runtime that hosts it: a hash function and
//! a signature scheme.

use vstd::prelude::*;
use crate::types::{AccountId, AppId, Signature};

verus! {

/// The runtime's choice of hash function and signature scheme.
///
/// The engine lays out the bytes that are hashed and signed; the runtime says
/// how. Both answers depend on the arguments alone: the two spec functions
/// name them, and every contract of the engine that speaks of an identifier
/// or of a signature's validity speaks of these names.
pub trait Trait {
    /// The 32 bytes that `hash` gives for `data`.
    spec fn hash_of(data: Seq<u8>) -> Seq<u8>;

    /// Whether `verify` takes `signature` for `signer`'s signature of `message`.
    spec fn signature_valid(signature: Seq<u8>, message: Seq<u8>, signer: Seq<u8>) -> bool;

    /// Hashes `data` into a session identifier.
    fn hash(data: &Vec<u8>) -> (digest: AppId)
        ensures
            digest@ == Self::hash_of(data@),
    ;

    /// Tells whether `signature` is `signer`'s signature of `message`.
    fn verify(signature: &Signature, message: &Vec<u8>, signer: &AccountId) -> (valid: bool)
        ensures
            valid == Self::signature_valid(signature@, message@, signer@),
    ;
}

/// The BLAKE2b digest of 32 bytes that `sp_runtime`'s `BlakeTwo256` gives for
/// `data`.
pub uninterp spec fn blake2_256(data: Seq<u8>) -> Seq<u8>;

/// Whether `sp_runtime`'s `Verify` takes the 64 bytes `signature` for a
/// Schnorr signature over Ristretto of `message` under the public key
/// `signer`.
pub uninterp spec fn sr25519_valid(signature: Seq<u8>, message: Seq<u8>, signer: Seq<u8>) -> bool;

/// `sp_runtime::traits::Hash::hash` of `BlakeTwo256`, which hands the bytes to
/// BLAKE2b with an output of 32 bytes and no key. The digest depends on the
/// bytes alone; the contract gives it its name.
#[verifier::external_body]
pub(crate) fn blake2_256_hash(data: &Vec<u8>) -> (digest: [u8; 32])
    ensures
        digest@ == blake2_256(data@),
{
    <sp_runtime::traits::BlakeTwo256 as sp_runtime::traits::Hash>::hash(
        data.as_slice(),
    ).to_fixed_bytes()
}

/// `sp_runtime::traits::Verify::verify` of `sp_core::sr25519::Signature`. A
/// signature has 64 bytes, so any other length is refused before the call;
/// for 64 bytes the answer is that of the call, which depends on the three
/// byte strings alone and gets its name here.
#[verifier::external_body]
pub(crate) fn sr25519_verify(signature: &Vec<u8>, message: &Vec<u8>, signer: &[u8; 32]) -> (valid:
    bool)
    ensures
        valid == (signature@.len() == 64 && sr25519_valid(signature@, message@, signer@)),
{
    match sp_core::sr25519::Signature::try_from(signature.as_slice()) {
        Ok(sig) => sp_runtime::traits::Verify::verify(
            &sig,
            message.as_slice(),
            &sp_core::sr25519::Public::from_raw(*signer),
        ),
        Err(_) => false,
    }
}

/// `sp_runtime::traits::AccountIdConversion::into_account` of a `ModuleId`,
/// into an identity of 32 bytes: the conversion encodes the type tag `modl`
/// and the eight bytes of the identifier, and reads the identity from these
/// twelve bytes followed by zero bytes.
#[verifier::external_body]
pub(crate) fn module_into_account(id: [u8; 8]) -> (account: [u8; 32])
    ensures
        account@ == seq![109u8, 111u8, 100u8, 108u8] + id@ + Seq::new(20, |i: int| 0u8),
{
    sp_runtime::traits::AccountIdConversion::<[u8; 32]>::into_account(&sp_runtime::ModuleId(id))
}

/// The runtime that identifies its accounts by sr25519 public keys and hashes
/// with BLAKE2b-256.
pub struct Sr25519Runtime;

impl Trait for Sr25519Runtime {
    open spec fn hash_of(data: Seq<u8>) -> Seq<u8> {
        blake2_256(data)
    }

    open spec fn signature_valid(signature: Seq<u8>, message: Seq<u8>, signer: Seq<u8>) -> bool {
        signature.len() == 64 && sr25519_valid(signature, message, signer)
    }

    fn hash(data: &Vec<u8>) -> (digest: AppId) {
        blake2_256_hash(data)
    }

    fn verify(signature: &Signature, message: &Vec<u8>, signer: &AccountId) -> (valid: bool) {
        sr25519_verify(signature, message, signer)
    }
}

} // verus!
