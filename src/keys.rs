//! The key pair handed to callers.
use vstd::prelude::*;

verus! {

/// A key pair as hexadecimal text.
#[derive(Debug, Clone, PartialEq, Eq)]
pub struct EddsaKeys {
    pub public_key: String,
    pub secret_key: String,
}

} // verus!
