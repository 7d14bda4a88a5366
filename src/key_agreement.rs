//! X25519 key-agreement key generation.
use vstd::prelude::*;

use vstd::utf8::encode_utf8;

use crate::codec::{decode_fixed, hex_encode, hex_text, lemma_hex_round_trip};
use crate::entropy::random_seed;
use crate::error::CryptoError;
use crate::keys::EddsaKeys;

verus! {

/// The X25519 public key of a 32-byte secret, clamped as the curve's scalar
/// rules ask and multiplied onto the base point.
pub uninterp spec fn x25519_public_of(secret: Seq<u8>) -> [u8; 32];

/// Relies on x25519_dalek: StaticSecret::from keeps the bytes, and
/// PublicKey::from derives the public point from them alone.
#[verifier::external_body]
fn x25519_derive_public(secret: &[u8; 32]) -> (r: [u8; 32])
    ensures
        r == x25519_public_of(secret@),
{
    let secret = x25519_dalek::StaticSecret::from(*secret);
    x25519_dalek::PublicKey::from(&secret).to_bytes()
}

/// Secret and public text that stand for one X25519 key pair: the lower-case
/// hex of a secret and of the public key derived from it.
pub open spec fn is_key_agreement_pair(secret_key: Seq<char>, public_key: Seq<char>) -> bool {
    exists|secret: Seq<u8>|
        #![trigger hex_text(secret)]
        secret.len() == 32 && secret_key == hex_text(secret) && public_key == hex_text(
            x25519_public_of(secret)@,
        )
}

/// The public text of a generated key-agreement pair is the public key
/// derived from the secret that its secret text decodes to, and both are 64
/// characters.
pub proof fn lemma_key_agreement_pair_derived(secret_key: Seq<char>, public_key: Seq<char>)
    requires
        is_key_agreement_pair(secret_key, public_key),
    ensures
        decode_fixed(encode_utf8(secret_key), 32, CryptoError::InvalidKeyLength) is Ok,
        public_key == hex_text(
            x25519_public_of(
                decode_fixed(encode_utf8(secret_key), 32, CryptoError::InvalidKeyLength)->Ok_0,
            )@,
        ),
        secret_key.len() == 64,
        public_key.len() == 64,
{
    let secret = choose|secret: Seq<u8>|
        #![trigger hex_text(secret)]
        secret.len() == 32 && secret_key == hex_text(secret) && public_key == hex_text(
            x25519_public_of(secret)@,
        );
    lemma_hex_round_trip(secret);
}

/// The X25519 key pair with this secret.
pub fn ecdh_keys_from_seed(seed: &[u8; 32]) -> (r: EddsaKeys)
    ensures
        r.secret_key@ == hex_text(seed@),
        r.public_key@ == hex_text(x25519_public_of(seed@)@),
        r.secret_key@.len() == 64,
        r.public_key@.len() == 64,
        is_key_agreement_pair(r.secret_key@, r.public_key@),
{
    let public = x25519_derive_public(seed);
    EddsaKeys { public_key: hex_encode(&public), secret_key: hex_encode(seed) }
}

/// A fresh X25519 key pair whose secret comes from the secure random source.
pub fn ecdh_keygen() -> (r: Result<EddsaKeys, CryptoError>)
    ensures
        r is Err ==> r == Err::<EddsaKeys, CryptoError>(CryptoError::EntropyUnavailable),
        r matches Ok(k) ==> {
            &&& is_key_agreement_pair(k.secret_key@, k.public_key@)
            &&& k.secret_key@.len() == 64
            &&& k.public_key@.len() == 64
        },
{
    let seed = random_seed()?;
    Ok(ecdh_keys_from_seed(&seed))
}

/// The hex text of the public key of a fresh, single-use X25519 secret.
pub fn ecdh() -> (r: Result<String, CryptoError>)
    ensures
        r is Err ==> r == Err::<String, CryptoError>(CryptoError::EntropyUnavailable),
        r matches Ok(p) ==> p@.len() == 64 && exists|secret: Seq<u8>|
            secret.len() == 32 && p@ == hex_text(#[trigger] x25519_public_of(secret)@),
{
    let seed = random_seed()?;
    Ok(ecdh_keys_from_seed(&seed).public_key)
}

} // verus!
