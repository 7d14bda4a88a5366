use vstd::prelude::*;

verus! {

/// Why an operation produced no result.
#[derive(Debug, Clone, Copy, PartialEq, Eq, Structural)]
pub enum CryptoError {
    /// The secure random source could not supply bytes.
    EntropyUnavailable,
    /// Text that is not an even-length run of hexadecimal digits.
    InvalidEncoding,
    /// A key that does not decode to exactly 32 bytes.
    InvalidKeyLength,
    /// A signature that does not decode to exactly 64 bytes.
    InvalidSignatureLength,
    /// 32 bytes that are not the encoding of a curve point.
    InvalidPublicKey,
}

} // verus!
