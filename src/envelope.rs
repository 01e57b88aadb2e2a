//! Layout of sealed message and file envelopes.
//!
//! A message envelope is
//! `step (8) || nonce (12) || wrapped message key (48) || ciphertext and tag`,
//! where `step` is the ratchet step in little-endian order.
//! A file envelope is
//! `nonce (12) || wrapped file key (48) || ciphertext and tag`.
use vstd::prelude::*;

use crate::bytes::{append_bytes, copy_range};
use crate::error::{Result, VeterError};

verus! {

/// Length of the ratchet step that opens a message envelope.
pub const STEP_LEN: usize = 8;

/// Length of a symmetric key sealed with its 16-byte tag.
pub const WRAPPED_KEY_LEN: usize = 48;

/// Shortest message envelope: step, nonce, wrapped key and an empty
/// ciphertext's tag.
pub const MESSAGE_MIN_LEN: usize = 84;

/// Shortest file envelope: nonce, wrapped key and an empty ciphertext's tag.
pub const FILE_MIN_LEN: usize = 76;

/// The four regions of a message envelope.
pub struct MessageParts {
    pub step: Vec<u8>,
    pub nonce: Vec<u8>,
    pub wrapped_key: Vec<u8>,
    pub body: Vec<u8>,
}

/// The three regions of a file envelope.
pub struct FileParts {
    pub nonce: Vec<u8>,
    pub wrapped_key: Vec<u8>,
    pub body: Vec<u8>,
}

/// The step region of a message envelope.
pub open spec fn step_of(env: Seq<u8>) -> Seq<u8> {
    env.subrange(0, 8)
}

/// The nonce region of a message envelope.
pub open spec fn message_nonce_of(env: Seq<u8>) -> Seq<u8> {
    env.subrange(8, 20)
}

/// The wrapped-key region of a message envelope.
pub open spec fn message_wrapped_of(env: Seq<u8>) -> Seq<u8> {
    env.subrange(20, 68)
}

/// The ciphertext region of a message envelope.
pub open spec fn message_body_of(env: Seq<u8>) -> Seq<u8> {
    env.subrange(68, env.len() as int)
}

/// The nonce region of a file envelope.
pub open spec fn file_nonce_of(env: Seq<u8>) -> Seq<u8> {
    env.subrange(0, 12)
}

/// The wrapped-key region of a file envelope.
pub open spec fn file_wrapped_of(env: Seq<u8>) -> Seq<u8> {
    env.subrange(12, 60)
}

/// The ciphertext region of a file envelope.
pub open spec fn file_body_of(env: Seq<u8>) -> Seq<u8> {
    env.subrange(60, env.len() as int)
}

/// Lay out a message envelope from its regions.
pub fn frame_message(step: &[u8], nonce: &[u8], wrapped_key: &[u8], body: &[u8]) -> (r: Vec<u8>)
    ensures
        r@ == step@ + nonce@ + wrapped_key@ + body@,
{
    let mut r: Vec<u8> = Vec::new();
    append_bytes(&mut r, step);
    append_bytes(&mut r, nonce);
    append_bytes(&mut r, wrapped_key);
    append_bytes(&mut r, body);
    r
}

/// Take a message envelope apart; one shorter than `MESSAGE_MIN_LEN` is
/// malformed.
pub fn split_message(env: &[u8]) -> (r: Result<MessageParts>)
    ensures
        env@.len() < MESSAGE_MIN_LEN <==> r is Err,
        r is Err ==> r matches Err(VeterError::InvalidInput(_)),
        r matches Ok(p) ==> {
            &&& p.step@ == step_of(env@)
            &&& p.nonce@ == message_nonce_of(env@)
            &&& p.wrapped_key@ == message_wrapped_of(env@)
            &&& p.body@ == message_body_of(env@)
        },
{
    if env.len() < MESSAGE_MIN_LEN {
        return Err(VeterError::InvalidInput("message envelope is too short".to_owned()));
    }
    Ok(
        MessageParts {
            step: copy_range(env, 0, 8),
            nonce: copy_range(env, 8, 20),
            wrapped_key: copy_range(env, 20, 68),
            body: copy_range(env, 68, env.len()),
        },
    )
}

/// Lay out a file envelope from its regions.
pub fn frame_file(nonce: &[u8], wrapped_key: &[u8], body: &[u8]) -> (r: Vec<u8>)
    ensures
        r@ == nonce@ + wrapped_key@ + body@,
{
    let mut r: Vec<u8> = Vec::new();
    append_bytes(&mut r, nonce);
    append_bytes(&mut r, wrapped_key);
    append_bytes(&mut r, body);
    r
}

/// Take a file envelope apart; one shorter than `FILE_MIN_LEN` is malformed.
pub fn split_file(env: &[u8]) -> (r: Result<FileParts>)
    ensures
        env@.len() < FILE_MIN_LEN <==> r is Err,
        r is Err ==> r matches Err(VeterError::InvalidInput(_)),
        r matches Ok(p) ==> {
            &&& p.nonce@ == file_nonce_of(env@)
            &&& p.wrapped_key@ == file_wrapped_of(env@)
            &&& p.body@ == file_body_of(env@)
        },
{
    if env.len() < FILE_MIN_LEN {
        return Err(VeterError::InvalidInput("file envelope is too short".to_owned()));
    }
    Ok(
        FileParts {
            nonce: copy_range(env, 0, 12),
            wrapped_key: copy_range(env, 12, 60),
            body: copy_range(env, 60, env.len()),
        },
    )
}

} // verus!
