//! Veter core: the end-to-end encryption engine of the Veter messenger.
//!
//! Message and file content is turned into authenticated ciphertext bound to a
//! room, with one cryptographic session per room on the local device.
use vstd::prelude::*;

pub mod bytes;
pub mod crypto;
pub mod envelope;
pub mod error;
pub mod models;
pub mod networking;
pub mod primitives;
pub mod records;

pub use error::{Result, VeterError};

verus! {

/// Initialise the core engine. There is no global state to set up: every
/// manager is built explicitly from its own configuration.
pub fn init() -> (r: Result<()>)
    ensures
        r is Ok,
{
    Ok(())
}

/// Release the core engine's resources. Nothing is held globally.
pub fn cleanup() -> (r: Result<()>)
    ensures
        r is Ok,
{
    Ok(())
}

} // verus!
