//! The one cryptographic primitive the core consumes: a 32-byte BLAKE2b
//! digest. The digest value itself is opaque to the proofs; everything the
//! contracts use is that it is a function of the input bytes alone and that
//! it is 32 bytes long.

use vstd::prelude::*;
use digest::Digest;
use tari_crypto::keys::SecretKey;
use tari_utilities::ByteArray;

verus! {

/// Abstract value of the 32-byte BLAKE2b digest of a byte string.
pub uninterp spec fn blake256_of(bytes: Seq<u8>) -> Seq<u8>;

/// Relies on `blake2::Blake2b<U32>` through `digest::Digest`: the digest is a
/// function of the input bytes alone, and `U32` fixes its length at 32 bytes.
#[verifier::external_body]
pub(crate) fn blake256(bytes: &Vec<u8>) -> (r: Vec<u8>)
    ensures
        r@ == blake256_of(bytes@),
        r@.len() == 32,
{
    let mut hasher = blake2::Blake2b::<digest::consts::U32>::new();
    hasher.update(bytes.as_slice());
    hasher.finalize().to_vec()
}

/// Relies on tari_crypto's `RistrettoSecretKey::random` driven by
/// `rand::rng()`: a freshly drawn secret scalar whose canonical encoding is
/// `KEY_LEN` = 32 bytes. Nothing is promised of the value itself.
#[verifier::external_body]
pub(crate) fn fresh_signing_secret() -> (r: Vec<u8>)
    ensures
        r@.len() == 32,
{
    let key = tari_crypto::ristretto::RistrettoSecretKey::random(&mut rand::rng());
    key.as_bytes().to_vec()
}

} // verus!
