//! The operating system's secure random source.
use vstd::prelude::*;

use rand_core::RngCore;

use crate::error::CryptoError;

verus! {

#[verifier::external_type_specification]
#[verifier::external_body]
pub struct ExRandError(rand_core::Error);

/// Relies on rand_core::OsRng::try_fill_bytes: it either fills the buffer
/// from the operating system's generator or reports that it could not.
/// Nothing is known of the bytes.
#[verifier::external_body]
fn os_fill_32() -> (r: Result<[u8; 32], rand_core::Error>) {
    let mut bytes = [0u8; 32];
    match rand_core::OsRng.try_fill_bytes(&mut bytes) {
        Ok(()) => Ok(bytes),
        Err(e) => Err(e),
    }
}

/// Draws 32 bytes from the secure random source; failure to obtain them is
/// `EntropyUnavailable`, and no weaker source is tried.
pub fn random_seed() -> (r: Result<[u8; 32], CryptoError>)
    ensures
        r is Err ==> r == Err::<[u8; 32], CryptoError>(CryptoError::EntropyUnavailable),
{
    match os_fill_32() {
        Ok(bytes) => Ok(bytes),
        Err(_) => Err(CryptoError::EntropyUnavailable),
    }
}

} // verus!
