//! Key generation, signing and verification for Ed25519 and X25519, with
//! keys and signatures carried as lower-case hexadecimal text.
pub mod codec;
pub mod entropy;
pub mod error;
pub mod greeting;
pub mod key_agreement;
pub mod keys;
pub mod signature;

pub use codec::{decode_key, decode_signature};
pub use error::CryptoError;
pub use greeting::greet;
pub use key_agreement::{ecdh, ecdh_keygen, ecdh_keys_from_seed};
pub use keys::EddsaKeys;
pub use signature::{eddsa_keygen, eddsa_keys_from_seed, eddsa_sign_message, eddsa_verify_signature};
