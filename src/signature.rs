//! Ed25519 key generation, signing and strict verification.
use vstd::prelude::*;
use vstd::utf8::encode_utf8;

use ed25519_dalek::Signer;

use crate::codec::{
    decode_fixed, decode_key, decode_signature, hex_encode, hex_text, lemma_hex_round_trip,
};
use crate::entropy::random_seed;
use crate::error::CryptoError;
use crate::keys::EddsaKeys;

verus! {

#[verifier::external_type_specification]
#[verifier::external_body]
pub struct ExSignatureError(ed25519_dalek::SignatureError);

/// The Ed25519 verifying key derived from a 32-byte seed.
pub uninterp spec fn ed25519_public_of(seed: Seq<u8>) -> [u8; 32];

/// The Ed25519 signature of `message` under the key with this seed.
pub uninterp spec fn ed25519_signature_of(seed: Seq<u8>, message: Seq<u8>) -> [u8; 64];

/// Whether 32 bytes are the compressed encoding of a curve point.
pub uninterp spec fn ed25519_key_decodes(public_key: Seq<u8>) -> bool;

/// Whether the point that 32 bytes encode has small order (a weak key).
pub uninterp spec fn ed25519_key_is_weak(public_key: Seq<u8>) -> bool;

/// Whether strict verification accepts `signature` of `message` under the
/// verifying key with these bytes.
pub uninterp spec fn ed25519_strict_accepts(
    public_key: Seq<u8>,
    message: Seq<u8>,
    signature: Seq<u8>,
) -> bool;

/// Relies on ed25519_dalek::SigningKey::from_bytes and its verifying_key:
/// the verifying key depends on the seed alone.
#[verifier::external_body]
fn ed25519_derive_public(seed: &[u8; 32]) -> (r: [u8; 32])
    ensures
        r == ed25519_public_of(seed@),
{
    ed25519_dalek::SigningKey::from_bytes(seed).verifying_key().to_bytes()
}

/// Relies on ed25519_dalek's Signer::sign for SigningKey: a deterministic
/// signature of the message bytes, with no randomness drawn.
#[verifier::external_body]
fn ed25519_sign(seed: &[u8; 32], message: &[u8]) -> (r: [u8; 64])
    ensures
        r == ed25519_signature_of(seed@, message@),
{
    ed25519_dalek::SigningKey::from_bytes(seed).sign(message).to_bytes()
}

/// Relies on ed25519_dalek::VerifyingKey::from_bytes, which fails exactly when
/// the bytes are no point encoding, and on VerifyingKey::is_weak, which tells
/// whether that point has small order from the bytes alone.
#[verifier::external_body]
fn ed25519_is_weak(public_key: &[u8; 32]) -> (r: Result<bool, ed25519_dalek::SignatureError>)
    ensures
        r is Ok <==> ed25519_key_decodes(public_key@),
        r matches Ok(w) ==> w == ed25519_key_is_weak(public_key@),
{
    Ok(ed25519_dalek::VerifyingKey::from_bytes(public_key)?.is_weak())
}

/// Relies on ed25519_dalek::VerifyingKey::from_bytes, which fails exactly when
/// the bytes are no point encoding, and on VerifyingKey::verify_strict, whose
/// verdict depends on the key, message and signature bytes alone.
#[verifier::external_body]
fn ed25519_verify_strict(public_key: &[u8; 32], message: &[u8], signature: &[u8; 64]) -> (r:
    Result<bool, ed25519_dalek::SignatureError>)
    ensures
        r is Ok <==> ed25519_key_decodes(public_key@),
        r matches Ok(v) ==> v == ed25519_strict_accepts(public_key@, message@, signature@),
{
    let key = ed25519_dalek::VerifyingKey::from_bytes(public_key)?;
    let signature = ed25519_dalek::Signature::from_bytes(signature);
    Ok(key.verify_strict(message, &signature).is_ok())
}

/// Secret and public text that stand for one Ed25519 key pair: the
/// lower-case hex of a seed and of the verifying key derived from it.
pub open spec fn is_signature_key_pair(secret_key: Seq<char>, public_key: Seq<char>) -> bool {
    exists|seed: Seq<u8>|
        #![trigger hex_text(seed)]
        seed.len() == 32 && secret_key == hex_text(seed) && public_key == hex_text(
            ed25519_public_of(seed)@,
        )
}

/// What signing `message` with the key text `secret_key` yields.
pub open spec fn sign_outcome(message: Seq<char>, secret_key: Seq<char>) -> Result<
    Seq<char>,
    CryptoError,
> {
    match decode_fixed(encode_utf8(secret_key), 32, CryptoError::InvalidKeyLength) {
        Ok(seed) => Ok(hex_text(ed25519_signature_of(seed, encode_utf8(message))@)),
        Err(e) => Err(e),
    }
}

/// What verifying `signature` of `message` under `public_key` yields: the
/// signature text is decoded first, then the key text, then the key point,
/// which must exist and must not have small order.
pub open spec fn verify_outcome(
    message: Seq<char>,
    signature: Seq<char>,
    public_key: Seq<char>,
) -> Result<bool, CryptoError> {
    match decode_fixed(encode_utf8(signature), 64, CryptoError::InvalidSignatureLength) {
        Err(e) => Err(e),
        Ok(sig) => match decode_fixed(encode_utf8(public_key), 32, CryptoError::InvalidKeyLength) {
            Err(e) => Err(e),
            Ok(pk) => if ed25519_key_decodes(pk) && !ed25519_key_is_weak(pk) {
                Ok(ed25519_strict_accepts(pk, encode_utf8(message), sig))
            } else {
                Err(CryptoError::InvalidPublicKey)
            },
        },
    }
}

/// Signing with the secret text of a generated pair and verifying the result
/// with its public text accepts the message, whenever the derived verifying
/// key is a point of large order and the scheme itself accepts its own
/// signature under it. The library's hex
/// round trip hands the verifier exactly the bytes that the signer produced.
pub proof fn lemma_sign_then_verify(message: Seq<char>, seed: Seq<u8>)
    requires
        seed.len() == 32,
        ed25519_key_decodes(ed25519_public_of(seed)@),
        !ed25519_key_is_weak(ed25519_public_of(seed)@),
        ed25519_strict_accepts(
            ed25519_public_of(seed)@,
            encode_utf8(message),
            ed25519_signature_of(seed, encode_utf8(message))@,
        ),
    ensures
        sign_outcome(message, hex_text(seed)) is Ok,
        verify_outcome(
            message,
            sign_outcome(message, hex_text(seed))->Ok_0,
            hex_text(ed25519_public_of(seed)@),
        ) == Ok::<bool, CryptoError>(true),
{
    let sig = ed25519_signature_of(seed, encode_utf8(message))@;
    lemma_hex_round_trip(seed);
    lemma_hex_round_trip(sig);
    lemma_hex_round_trip(ed25519_public_of(seed)@);
}

/// Signing is a function of its inputs: two calls with the same message and
/// the same key text give the same outcome, byte for byte.
pub proof fn lemma_sign_deterministic(
    message: Seq<char>,
    secret_key: Seq<char>,
    message_again: Seq<char>,
    secret_key_again: Seq<char>,
)
    requires
        message == message_again,
        secret_key == secret_key_again,
    ensures
        sign_outcome(message, secret_key) == sign_outcome(message_again, secret_key_again),
{
}

/// The public text of a generated signature pair is the verifying key derived
/// from the seed that its secret text decodes to, and both are 64 characters.
pub proof fn lemma_signature_pair_derived(secret_key: Seq<char>, public_key: Seq<char>)
    requires
        is_signature_key_pair(secret_key, public_key),
    ensures
        decode_fixed(encode_utf8(secret_key), 32, CryptoError::InvalidKeyLength) is Ok,
        public_key == hex_text(
            ed25519_public_of(
                decode_fixed(encode_utf8(secret_key), 32, CryptoError::InvalidKeyLength)->Ok_0,
            )@,
        ),
        secret_key.len() == 64,
        public_key.len() == 64,
{
    let seed = choose|seed: Seq<u8>|
        #![trigger hex_text(seed)]
        seed.len() == 32 && secret_key == hex_text(seed) && public_key == hex_text(
            ed25519_public_of(seed)@,
        );
    lemma_hex_round_trip(seed);
    assert(hex_text(ed25519_public_of(seed)@).len() == 2 * ed25519_public_of(seed)@.len());
}

/// The Ed25519 key pair whose signing key has this seed.
pub fn eddsa_keys_from_seed(seed: &[u8; 32]) -> (r: EddsaKeys)
    ensures
        r.secret_key@ == hex_text(seed@),
        r.public_key@ == hex_text(ed25519_public_of(seed@)@),
        r.secret_key@.len() == 64,
        r.public_key@.len() == 64,
        is_signature_key_pair(r.secret_key@, r.public_key@),
{
    let public = ed25519_derive_public(seed);
    let keys = EddsaKeys { public_key: hex_encode(&public), secret_key: hex_encode(seed) };
    assert(hex_text(seed@).len() == 64);
    keys
}

/// A fresh Ed25519 key pair whose seed comes from the secure random source.
pub fn eddsa_keygen() -> (r: Result<EddsaKeys, CryptoError>)
    ensures
        r is Err ==> r == Err::<EddsaKeys, CryptoError>(CryptoError::EntropyUnavailable),
        r matches Ok(k) ==> {
            &&& is_signature_key_pair(k.secret_key@, k.public_key@)
            &&& k.secret_key@.len() == 64
            &&& k.public_key@.len() == 64
        },
{
    let seed = random_seed()?;
    Ok(eddsa_keys_from_seed(&seed))
}

/// Signs the UTF-8 bytes of `signing_message` with the key whose seed is the
/// hex text `secret_key`, and returns the signature as hex text.
pub fn eddsa_sign_message(signing_message: &str, secret_key: &str) -> (r: Result<
    String,
    CryptoError,
>)
    ensures
        r is Ok <==> sign_outcome(signing_message@, secret_key@) is Ok,
        r matches Ok(s) ==> sign_outcome(signing_message@, secret_key@) == Ok::<
            Seq<char>,
            CryptoError,
        >(s@) && s@.len() == 128,
        r matches Err(e) ==> sign_outcome(signing_message@, secret_key@) == Err::<
            Seq<char>,
            CryptoError,
        >(e),
{
    let seed = decode_key(secret_key)?;
    let signature = ed25519_sign(&seed, signing_message.as_bytes());
    Ok(hex_encode(&signature))
}

/// Strictly verifies the hex text `signature` of the UTF-8 bytes of `message`
/// under the hex text `public_key`. Malformed text, keys that are no curve
/// point and keys of small order are errors; a well-formed signature that
/// does not verify is `false`.
pub fn eddsa_verify_signature(message: &str, signature: &str, public_key: &str) -> (r: Result<
    bool,
    CryptoError,
>)
    ensures
        r == verify_outcome(message@, signature@, public_key@),
{
    let sig = decode_signature(signature)?;
    let pk = decode_key(public_key)?;
    match ed25519_is_weak(&pk) {
        Ok(false) => {},
        _ => return Err(CryptoError::InvalidPublicKey),
    }
    match ed25519_verify_strict(&pk, message.as_bytes(), &sig) {
        Ok(valid) => Ok(valid),
        Err(_) => Err(CryptoError::InvalidPublicKey),
    }
}

} // verus!
