//! Error kinds of the core.
use vstd::prelude::*;

verus! {

/// What went wrong, with a human-readable detail.
#[derive(Debug)]
pub enum VeterError {
    /// A primitive failed, or an authentication tag did not match.
    Crypto(String),
    Database(String),
    Network(String),
    Serialization(String),
    /// Key generation or derivation failed.
    KeyManagement(String),
    /// A keyed-hash verification did not match.
    Authentication(String),
    /// The persistence collaborator failed.
    Storage(String),
    /// The input is malformed: wrong length, truncated.
    InvalidInput(String),
    Internal(String),
}

pub type Result<T> = core::result::Result<T, VeterError>;

} // verus!
