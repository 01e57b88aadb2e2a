//! The crypto manager: message and file ciphers, keyed-hash tags and the
//! per-room session store of the local device.
//!
//! Keys come from three separate derivation domains. A message key is fresh
//! and random, and travels wrapped under the chain key of its ratchet step,
//! which is derived from the room's session secret. A file key is fresh and
//! random, and travels wrapped under the room's file wrapping key, derived
//! from the session secret in a domain of its own. The keyed-hash key is
//! derived from the identity key.
use vstd::prelude::*;

use std::collections::HashMap;

use vstd::bytes::{spec_u128_to_le_bytes, spec_u64_to_le_bytes, u128_to_le_bytes, u64_to_le_bytes};

use crate::bytes::{append_bytes, bytes_equal, concat, copy_range};
use crate::envelope::{
    file_body_of, file_nonce_of, file_wrapped_of, frame_file, frame_message, message_body_of,
    message_nonce_of, message_wrapped_of, split_file, split_message, step_of, FILE_MIN_LEN,
    MESSAGE_MIN_LEN, WRAPPED_KEY_LEN,
};
use crate::error::{Result, VeterError};
use crate::models::{DeviceId, RoomId, Session, Timestamp};
use crate::primitives::{
    aes_gcm_decrypt, aes_gcm_encrypt, aes_gcm_seal, chacha_decrypt, chacha_encrypt, chacha_seal,
    hmac_sha256, hmac_sha256_tag, hmac_sha256_verify, random_bytes, AEAD_TAG_LEN,
    AES_GCM_MAX_LEN, CHACHA_MAX_LEN, KEY_LEN, NONCE_LEN,
};

verus! {

broadcast use vstd::std_specs::hash::group_hash_axioms;

/// Domain label of the message chain keys.
pub const MESSAGE_CHAIN_LABEL: u8 = 1;

/// Domain label of the file wrapping key.
pub const FILE_WRAP_LABEL: u8 = 2;

/// Domain label of the keyed-hash key.
pub const HMAC_KEY_LABEL: u8 = 3;

/// The keyed-hash key of a device, derived from its identity key.
pub open spec fn hmac_key_of(identity: Seq<u8>) -> Seq<u8> {
    hmac_sha256(identity, seq![HMAC_KEY_LABEL])
}

/// The key that wraps the file keys of a room, derived from its session
/// secret.
pub open spec fn file_wrap_key_of(secret: Seq<u8>) -> Seq<u8> {
    hmac_sha256(secret, seq![FILE_WRAP_LABEL])
}

/// The chain key of a ratchet step, derived from the session secret.
pub open spec fn chain_key(secret: Seq<u8>, step: Seq<u8>) -> Seq<u8> {
    hmac_sha256(secret, seq![MESSAGE_CHAIN_LABEL] + step)
}

/// The associated data of a message: its room and its ratchet step.
pub open spec fn message_aad(room: RoomId, step: Seq<u8>) -> Seq<u8> {
    spec_u128_to_le_bytes(room) + step
}

/// The keyed-hash tag of `data` for a device with this identity key.
pub open spec fn hmac_tag(identity: Seq<u8>, data: Seq<u8>) -> Seq<u8> {
    hmac_sha256(hmac_key_of(identity), data)
}

/// Whether `tag` authenticates `data` for a device with this identity key.
pub open spec fn hmac_accepts(identity: Seq<u8>, data: Seq<u8>, tag: Seq<u8>) -> bool {
    tag == hmac_tag(identity, data)
}

/// The envelope of `pt` at ratchet step `step`, sealed under the fresh
/// message key `mk` with `nonce`.
pub open spec fn message_envelope(
    secret: Seq<u8>,
    room: RoomId,
    step: Seq<u8>,
    nonce: Seq<u8>,
    mk: Seq<u8>,
    pt: Seq<u8>,
) -> Seq<u8> {
    let aad = message_aad(room, step);
    step + nonce + aes_gcm_seal(chain_key(secret, step), nonce, aad, mk) + aes_gcm_seal(
        mk,
        nonce,
        aad,
        pt,
    )
}

/// `env` is what sealing `pt` for `room` at ratchet step `index` of the
/// session secret `secret` gives, for some nonce and message key.
pub open spec fn message_sealed(
    secret: Seq<u8>,
    room: RoomId,
    index: u64,
    pt: Seq<u8>,
    env: Seq<u8>,
) -> bool {
    let step = spec_u64_to_le_bytes(index);
    exists|nonce: Seq<u8>, mk: Seq<u8>|
        {
            &&& nonce.len() == NONCE_LEN
            &&& mk.len() == KEY_LEN
            &&& pt.len() <= AES_GCM_MAX_LEN
            &&& #[trigger] message_envelope(secret, room, step, nonce, mk, pt) == env
            &&& aes_gcm_seal(chain_key(secret, step), nonce, message_aad(room, step), mk).len()
                == WRAPPED_KEY_LEN
            &&& aes_gcm_seal(mk, nonce, message_aad(room, step), pt).len() == pt.len()
                + AEAD_TAG_LEN
        }
}

/// `env` opens to `pt` for `room` under the session secret `secret`: its
/// wrapped key unwraps under the chain key of its step, and its body
/// authenticates and decrypts to `pt` under that key.
pub open spec fn message_opens_to(secret: Seq<u8>, room: RoomId, env: Seq<u8>, pt: Seq<u8>) -> bool {
    let step = step_of(env);
    let nonce = message_nonce_of(env);
    let aad = message_aad(room, step);
    &&& env.len() >= MESSAGE_MIN_LEN
    &&& pt.len() <= AES_GCM_MAX_LEN
    &&& exists|mk: Seq<u8>|
        {
            &&& mk.len() == KEY_LEN
            &&& #[trigger] aes_gcm_seal(chain_key(secret, step), nonce, aad, mk)
                == message_wrapped_of(env)
            &&& aes_gcm_seal(mk, nonce, aad, pt) == message_body_of(env)
        }
}

/// The envelope of the file content `pt`, sealed under the fresh file key
/// `fk` with `nonce`, the file key wrapped under `wrap_key`.
pub open spec fn file_envelope(wrap_key: Seq<u8>, nonce: Seq<u8>, fk: Seq<u8>, pt: Seq<u8>) -> Seq<u8> {
    nonce + chacha_seal(wrap_key, nonce, Seq::empty(), fk) + chacha_seal(fk, nonce, Seq::empty(), pt)
}

/// `env` is what sealing the file content `pt` with the file wrapping key
/// `wrap_key` gives, for some nonce and file key.
pub open spec fn file_sealed(wrap_key: Seq<u8>, pt: Seq<u8>, env: Seq<u8>) -> bool {
    exists|nonce: Seq<u8>, fk: Seq<u8>|
        {
            &&& nonce.len() == NONCE_LEN
            &&& fk.len() == KEY_LEN
            &&& pt.len() < CHACHA_MAX_LEN
            &&& #[trigger] file_envelope(wrap_key, nonce, fk, pt) == env
            &&& chacha_seal(wrap_key, nonce, Seq::empty(), fk).len() == WRAPPED_KEY_LEN
            &&& chacha_seal(fk, nonce, Seq::empty(), pt).len() == pt.len() + AEAD_TAG_LEN
        }
}

/// `env` opens to the file content `pt` under the file wrapping key
/// `wrap_key`.
pub open spec fn file_opens_to(wrap_key: Seq<u8>, env: Seq<u8>, pt: Seq<u8>) -> bool {
    let nonce = file_nonce_of(env);
    &&& env.len() >= FILE_MIN_LEN
    &&& pt.len() < CHACHA_MAX_LEN
    &&& exists|fk: Seq<u8>|
        {
            &&& fk.len() == KEY_LEN
            &&& #[trigger] chacha_seal(wrap_key, nonce, Seq::empty(), fk) == file_wrapped_of(env)
            &&& chacha_seal(fk, nonce, Seq::empty(), pt) == file_body_of(env)
        }
}

/// `new` is `old` moved one step along its ratchet.
pub open spec fn advanced(old: Session, new: Session) -> bool {
    &&& new.room_id == old.room_id
    &&& new.device_id == old.device_id
    &&& new.session_data@ == old.session_data@
    &&& new.created_at == old.created_at
    &&& new.next_index == old.next_index + 1
}

/// The chain key of a ratchet step.
fn derive_chain_key(secret: &[u8], step: &[u8]) -> (r: Vec<u8>)
    ensures
        r@ == chain_key(secret@, step@),
        r@.len() == KEY_LEN,
{
    let mut info: Vec<u8> = vec![MESSAGE_CHAIN_LABEL];
    assert(info@ == seq![MESSAGE_CHAIN_LABEL]);
    append_bytes(&mut info, step);
    hmac_sha256_tag(secret, info.as_slice())
}

/// The associated data of a message.
fn build_message_aad(room: RoomId, step: &[u8]) -> (r: Vec<u8>)
    ensures
        r@ == message_aad(room, step@),
{
    let room_bytes = u128_to_le_bytes(room);
    concat(room_bytes.as_slice(), step)
}

/// `env` is what `seal_file` gives for `pt` under the file wrapping key of
/// the session secret `secret`, for some nonce and file key.
pub open spec fn file_sealed_for(secret: Seq<u8>, pt: Seq<u8>, env: Seq<u8>) -> bool {
    file_sealed(file_wrap_key_of(secret), pt, env)
}

/// The one error that every authentication failure of a decryption gives,
/// whichever part failed.
pub open spec fn is_authentication_failure(e: VeterError) -> bool {
    e matches VeterError::Crypto(s) && s@ == "authentication failed"@
}

/// A session that would move a room's ratchet back: same secret as the
/// current one, at an earlier step.
pub open spec fn rolls_back(sessions: Map<RoomId, Session>, s: Session) -> bool {
    &&& sessions.contains_key(s.room_id)
    &&& sessions[s.room_id].session_data@ == s.session_data@
    &&& sessions[s.room_id].next_index > s.next_index
}

fn authentication_failure() -> (e: VeterError)
    ensures
        is_authentication_failure(e),
{
    VeterError::Crypto("authentication failed".to_owned())
}

/// The key that wraps the file keys of a room.
fn derive_file_wrap_key(secret: &[u8]) -> (r: Vec<u8>)
    ensures
        r@ == file_wrap_key_of(secret@),
        r@.len() == KEY_LEN,
{
    let label: Vec<u8> = vec![FILE_WRAP_LABEL];
    assert(label@ == seq![FILE_WRAP_LABEL]);
    hmac_sha256_tag(secret, label.as_slice())
}

/// Seal `content` for `room_id` at ratchet step `index` of the session
/// secret `secret`, under the message key `message_key` with `nonce`: the
/// message key is wrapped under the step's chain key, and the room and step
/// are bound as associated data.
pub fn seal_message(
    secret: &[u8],
    room_id: RoomId,
    index: u64,
    nonce: &[u8],
    message_key: &[u8],
    content: &[u8],
) -> (r: Result<Vec<u8>>)
    requires
        nonce@.len() == NONCE_LEN,
        message_key@.len() == KEY_LEN,
    ensures
        r is Ok <==> content@.len() <= AES_GCM_MAX_LEN,
        r is Err ==> (r matches Err(VeterError::Crypto(_))),
        r is Ok ==> r->Ok_0@ == message_envelope(
            secret@,
            room_id,
            spec_u64_to_le_bytes(index),
            nonce@,
            message_key@,
            content@,
        ),
        r is Ok ==> message_sealed(secret@, room_id, index, content@, r->Ok_0@),
{
    let step = u64_to_le_bytes(index);
    let chain = derive_chain_key(secret, step.as_slice());
    let aad = build_message_aad(room_id, step.as_slice());
    proof {
        vstd::bytes::lemma_auto_spec_u128_to_from_le_bytes();
    }
    let wrapped = match aes_gcm_encrypt(chain.as_slice(), nonce, aad.as_slice(), message_key) {
        Ok(c) => c,
        Err(_) => return Err(VeterError::Crypto("message encryption failed".to_owned())),
    };
    let body = match aes_gcm_encrypt(message_key, nonce, aad.as_slice(), content) {
        Ok(c) => c,
        Err(_) => return Err(VeterError::Crypto("message encryption failed".to_owned())),
    };
    let env = frame_message(step.as_slice(), nonce, wrapped.as_slice(), body.as_slice());
    proof {
        assert(message_envelope(secret@, room_id, step@, nonce@, message_key@, content@) == env@);
    }
    Ok(env)
}

/// Seal file content under the file key `file_key` with `nonce`; the file
/// key is wrapped under `wrap_key`.
pub fn seal_file(wrap_key: &[u8], nonce: &[u8], file_key: &[u8], content: &[u8]) -> (r: Result<
    Vec<u8>,
>)
    requires
        wrap_key@.len() == KEY_LEN,
        nonce@.len() == NONCE_LEN,
        file_key@.len() == KEY_LEN,
    ensures
        r is Ok <==> content@.len() < CHACHA_MAX_LEN,
        r is Err ==> (r matches Err(VeterError::Crypto(_))),
        r is Ok ==> r->Ok_0@ == file_envelope(wrap_key@, nonce@, file_key@, content@),
        r is Ok ==> file_sealed(wrap_key@, content@, r->Ok_0@),
{
    let no_aad: Vec<u8> = Vec::new();
    let wrapped = match chacha_encrypt(wrap_key, nonce, no_aad.as_slice(), file_key) {
        Ok(c) => c,
        Err(_) => return Err(VeterError::Crypto("file encryption failed".to_owned())),
    };
    let body = match chacha_encrypt(file_key, nonce, no_aad.as_slice(), content) {
        Ok(c) => c,
        Err(_) => return Err(VeterError::Crypto("file encryption failed".to_owned())),
    };
    let env = frame_file(nonce, wrapped.as_slice(), body.as_slice());
    proof {
        assert(no_aad@ == Seq::<u8>::empty());
        assert(file_envelope(wrap_key@, nonce@, file_key@, content@) == env@);
    }
    Ok(env)
}

/// Owns the device's identity key and device identifier, and the one current
/// session of each room.
pub struct CryptoManager {
    identity_key: Vec<u8>,
    device_id: DeviceId,
    hmac_key: Vec<u8>,
    sessions: HashMap<RoomId, Session>,
}

impl CryptoManager {
    /// The device's identity key.
    pub closed spec fn identity(&self) -> Seq<u8> {
        self.identity_key@
    }

    /// The device's identifier.
    pub closed spec fn device(&self) -> DeviceId {
        self.device_id
    }

    /// The current session of each room.
    pub closed spec fn sessions(&self) -> Map<RoomId, Session> {
        self.sessions@
    }

    /// The keyed-hash key matches the identity key, and each session belongs
    /// to its room and to this device.
    pub closed spec fn wf(&self) -> bool {
        &&& self.hmac_key@ == hmac_key_of(self.identity_key@)
        &&& forall|room: RoomId| #[trigger]
            self.sessions@.contains_key(room) ==> self.sessions@[room].room_id == room
                && self.sessions@[room].device_id == self.device_id
    }

    /// A manager for a device, with no session yet.
    pub fn new(identity_key: Vec<u8>, device_id: DeviceId) -> (r: Self)
        ensures
            r.wf(),
            r.identity() == identity_key@,
            r.device() == device_id,
            r.sessions() == Map::<RoomId, Session>::empty(),
    {
        let hmac_label: Vec<u8> = vec![HMAC_KEY_LABEL];
        assert(hmac_label@ == seq![HMAC_KEY_LABEL]);
        let hmac_key = hmac_sha256_tag(identity_key.as_slice(), hmac_label.as_slice());
        CryptoManager { identity_key, device_id, hmac_key, sessions: HashMap::new() }
    }

    /// A fresh identity key pair: a 32-byte private half and a 32-byte
    /// public half, each drawn from the operating system's generator.
    pub fn generate_identity_keypair() -> (r: Result<(Vec<u8>, Vec<u8>)>)
        ensures
            r matches Ok(pair) ==> pair.0@.len() == KEY_LEN && pair.1@.len() == KEY_LEN,
            r is Err ==> r matches Err(VeterError::KeyManagement(_)),
    {
        let private_key = match random_bytes(KEY_LEN) {
            Ok(k) => k,
            Err(_) => return Err(VeterError::KeyManagement("randomness is unavailable".to_owned())),
        };
        let public_key = match random_bytes(KEY_LEN) {
            Ok(k) => k,
            Err(_) => return Err(VeterError::KeyManagement("randomness is unavailable".to_owned())),
        };
        Ok((private_key, public_key))
    }

    /// Install a new session for `room_id` from the shared secret
    /// `session_data` at time `now`, replacing any earlier one: its ratchet
    /// starts at step zero.
    pub fn init_session(&mut self, room_id: RoomId, session_data: Vec<u8>, now: Timestamp) -> (r:
        Result<()>)
        requires
            old(self).wf(),
        ensures
            r is Ok,
            final(self).wf(),
            final(self).identity() == old(self).identity(),
            final(self).device() == old(self).device(),
            final(self).sessions().contains_key(room_id),
            final(self).sessions() == old(self).sessions().insert(
                room_id,
                final(self).sessions()[room_id],
            ),
            final(self).sessions()[room_id].room_id == room_id,
            final(self).sessions()[room_id].device_id == old(self).device(),
            final(self).sessions()[room_id].session_data@ == session_data@,
            final(self).sessions()[room_id].next_index == 0,
            final(self).sessions()[room_id].created_at == now,
            final(self).sessions()[room_id].updated_at == now,
    {
        let session = Session {
            room_id,
            device_id: self.device_id,
            session_data,
            next_index: 0,
            created_at: now,
            updated_at: now,
        };
        self.sessions.insert(room_id, session);
        Ok(())
    }

    /// Reinstall a session read back from durable storage, with its ratchet
    /// step, replacing any session of its room. A session of another device
    /// is rejected, and so is one that would move the room's current ratchet
    /// back to an earlier step.
    pub fn restore_session(&mut self, session: Session) -> (r: Result<()>)
        requires
            old(self).wf(),
        ensures
            final(self).wf(),
            final(self).identity() == old(self).identity(),
            final(self).device() == old(self).device(),
            session.device_id == old(self).device() && !rolls_back(old(self).sessions(), session)
                ==> r is Ok && final(self).sessions() == old(self).sessions().insert(
                session.room_id,
                session,
            ),
            session.device_id != old(self).device() || rolls_back(old(self).sessions(), session)
                ==> (r matches Err(VeterError::InvalidInput(_))) && final(self).sessions() == old(
                self,
            ).sessions(),
    {
        if session.device_id != self.device_id {
            return Err(VeterError::InvalidInput("session belongs to another device".to_owned()));
        }
        let room_id = session.room_id;
        let behind = match self.sessions.get(&room_id) {
            None => false,
            Some(current) => bytes_equal(
                current.session_data.as_slice(),
                session.session_data.as_slice(),
            ) && current.next_index > session.next_index,
        };
        if behind {
            return Err(
                VeterError::InvalidInput("session would move the ratchet back".to_owned()),
            );
        }
        self.sessions.insert(room_id, session);
        Ok(())
    }

    /// The current session of `room_id`, if there is one.
    pub fn get_session(&self, room_id: RoomId) -> (r: Option<&Session>)
        ensures
            match r {
                Some(s) => self.sessions().contains_key(room_id) && *s == self.sessions()[room_id],
                None => !self.sessions().contains_key(room_id),
            },
    {
        self.sessions.get(&room_id)
    }

    /// The 32-byte keyed-hash tag of `data` under this device's keyed-hash
    /// key.
    pub fn generate_hmac(&self, data: &[u8]) -> (r: Result<Vec<u8>>)
        requires
            self.wf(),
        ensures
            r matches Ok(tag) && tag@ == hmac_tag(self.identity(), data@),
            r matches Ok(tag) && tag@.len() == KEY_LEN,
    {
        Ok(hmac_sha256_tag(self.hmac_key.as_slice(), data))
    }

    /// Whether `mac` is the keyed-hash tag of `data` under this device's
    /// keyed-hash key, compared in constant time. A tag of any length other
    /// than 32 bytes is refused.
    pub fn verify_hmac(&self, data: &[u8], mac: &[u8]) -> (r: Result<bool>)
        requires
            self.wf(),
        ensures
            r matches Ok(ok) && ok == hmac_accepts(self.identity(), data@, mac@),
            mac@.len() != KEY_LEN ==> r == Ok::<bool, VeterError>(false),
    {
        Ok(hmac_sha256_verify(self.hmac_key.as_slice(), data, mac))
    }

    /// Seal `content` for `room_id` at the next step of the room's ratchet,
    /// at time `now`.
    ///
    /// A fresh message key and a fresh nonce are drawn and handed to
    /// `seal_message`; the session moves one step along.
    pub fn encrypt_message(&mut self, content: &[u8], room_id: RoomId, now: Timestamp) -> (r:
        Result<Vec<u8>>)
        requires
            old(self).wf(),
        ensures
            final(self).wf(),
            final(self).identity() == old(self).identity(),
            final(self).device() == old(self).device(),
            !old(self).sessions().contains_key(room_id) ==> (r matches Err(
                VeterError::InvalidInput(_),
            )),
            r is Err ==> final(self).sessions() == old(self).sessions(),
            old(self).sessions().contains_key(room_id) ==> {
                let s = old(self).sessions()[room_id];
                &&& s.next_index == u64::MAX ==> (r matches Err(VeterError::KeyManagement(_)))
                &&& s.next_index < u64::MAX && content@.len() > AES_GCM_MAX_LEN ==> r is Err
                &&& (r matches Err(VeterError::Crypto(_))) ==> content@.len() > AES_GCM_MAX_LEN
                &&& r is Err ==> ((r matches Err(VeterError::KeyManagement(_))) || (r matches Err(
                    VeterError::Crypto(_),
                )))
                &&& r is Ok ==> {
                    &&& message_sealed(s.session_data@, room_id, s.next_index, content@, r->Ok_0@)
                    &&& final(self).sessions().contains_key(room_id)
                    &&& advanced(s, final(self).sessions()[room_id])
                    &&& final(self).sessions()[room_id].updated_at == now
                    &&& final(self).sessions() == old(self).sessions().insert(
                        room_id,
                        final(self).sessions()[room_id],
                    )
                }
            },
    {
        let (secret, index, device_id, created_at) = match self.sessions.get(&room_id) {
            None => return Err(VeterError::InvalidInput("no session for this room".to_owned())),
            Some(s) => (
                copy_range(s.session_data.as_slice(), 0, s.session_data.len()),
                s.next_index,
                s.device_id,
                s.created_at,
            ),
        };
        proof {
            let s = old(self).sessions()[room_id];
            assert(s.session_data@.subrange(0, s.session_data@.len() as int) == s.session_data@);
        }
        if index == u64::MAX {
            return Err(
                VeterError::KeyManagement("the ratchet of this session is exhausted".to_owned()),
            );
        }
        let nonce = match random_bytes(NONCE_LEN) {
            Ok(n) => n,
            Err(_) => return Err(VeterError::KeyManagement("randomness is unavailable".to_owned())),
        };
        let message_key = match random_bytes(KEY_LEN) {
            Ok(k) => k,
            Err(_) => return Err(VeterError::KeyManagement("randomness is unavailable".to_owned())),
        };
        let env = match seal_message(
            secret.as_slice(),
            room_id,
            index,
            nonce.as_slice(),
            message_key.as_slice(),
            content,
        ) {
            Ok(e) => e,
            Err(e) => return Err(e),
        };
        let updated = Session {
            room_id,
            device_id,
            session_data: secret,
            next_index: index + 1,
            created_at,
            updated_at: now,
        };
        self.sessions.insert(room_id, updated);
        Ok(env)
    }

    /// Open an envelope that `encrypt_message` sealed for `room_id`, with the
    /// chain key of the step that the envelope names.
    ///
    /// Every authentication failure, of the wrapped key or of the body, gives
    /// one and the same error.
    pub fn decrypt_message(&self, encrypted: &[u8], room_id: RoomId) -> (r: Result<Vec<u8>>)
        requires
            self.wf(),
        ensures
            !self.sessions().contains_key(room_id) ==> (r matches Err(VeterError::InvalidInput(_))),
            self.sessions().contains_key(room_id) ==> {
                let secret = self.sessions()[room_id].session_data@;
                &&& encrypted@.len() < MESSAGE_MIN_LEN ==> (r matches Err(
                    VeterError::InvalidInput(_),
                ))
                &&& r is Ok ==> message_opens_to(secret, room_id, encrypted@, r->Ok_0@)
                &&& forall|p: Seq<u8>| #[trigger]
                    message_opens_to(secret, room_id, encrypted@, p) ==> r is Ok && r->Ok_0@ == p
                &&& encrypted@.len() >= MESSAGE_MIN_LEN && r is Err ==> is_authentication_failure(
                    r->Err_0,
                )
            },
    {
        let session = match self.sessions.get(&room_id) {
            None => return Err(VeterError::InvalidInput("no session for this room".to_owned())),
            Some(s) => s,
        };
        let parts = match split_message(encrypted) {
            Ok(p) => p,
            Err(e) => return Err(e),
        };
        let chain = derive_chain_key(session.session_data.as_slice(), parts.step.as_slice());
        let aad = build_message_aad(room_id, parts.step.as_slice());
        proof {
            vstd::bytes::lemma_auto_spec_u128_to_from_le_bytes();
            assert(aad@.len() == 16 + 8);
        }
        let message_key = match aes_gcm_decrypt(
            chain.as_slice(),
            parts.nonce.as_slice(),
            aad.as_slice(),
            parts.wrapped_key.as_slice(),
        ) {
            Ok(k) => k,
            Err(_) => return Err(authentication_failure()),
        };
        if message_key.len() != KEY_LEN {
            return Err(authentication_failure());
        }
        let plaintext = match aes_gcm_decrypt(
            message_key.as_slice(),
            parts.nonce.as_slice(),
            aad.as_slice(),
            parts.body.as_slice(),
        ) {
            Ok(p) => p,
            Err(_) => return Err(authentication_failure()),
        };
        if plaintext.len() as u64 > AES_GCM_MAX_LEN {
            return Err(authentication_failure());
        }
        Ok(plaintext)
    }

    /// Seal file content for `room_id`: a fresh file key and a fresh nonce
    /// are drawn and handed to `seal_file`, the file key wrapped under the
    /// room's file wrapping key, which any device of the room can derive.
    pub fn encrypt_file(&self, content: &[u8], room_id: RoomId) -> (r: Result<Vec<u8>>)
        requires
            self.wf(),
        ensures
            !self.sessions().contains_key(room_id) ==> (r matches Err(VeterError::InvalidInput(_))),
            self.sessions().contains_key(room_id) ==> {
                let secret = self.sessions()[room_id].session_data@;
                &&& r is Ok ==> file_sealed_for(secret, content@, r->Ok_0@)
                &&& content@.len() >= CHACHA_MAX_LEN ==> r is Err
                &&& (r matches Err(VeterError::Crypto(_))) ==> content@.len() >= CHACHA_MAX_LEN
                &&& r is Err ==> ((r matches Err(VeterError::KeyManagement(_))) || (r matches Err(
                    VeterError::Crypto(_),
                )))
            },
    {
        let session = match self.sessions.get(&room_id) {
            None => return Err(VeterError::InvalidInput("no session for this room".to_owned())),
            Some(s) => s,
        };
        let wrap_key = derive_file_wrap_key(session.session_data.as_slice());
        let nonce = match random_bytes(NONCE_LEN) {
            Ok(n) => n,
            Err(_) => return Err(VeterError::KeyManagement("randomness is unavailable".to_owned())),
        };
        let file_key = match random_bytes(KEY_LEN) {
            Ok(k) => k,
            Err(_) => return Err(VeterError::KeyManagement("randomness is unavailable".to_owned())),
        };
        seal_file(wrap_key.as_slice(), nonce.as_slice(), file_key.as_slice(), content)
    }

    /// Open a file envelope that `encrypt_file` sealed for `room_id`.
    ///
    /// Every authentication failure, of the wrapped key or of the body, gives
    /// one and the same error.
    pub fn decrypt_file(&self, encrypted: &[u8], room_id: RoomId) -> (r: Result<Vec<u8>>)
        requires
            self.wf(),
        ensures
            !self.sessions().contains_key(room_id) ==> (r matches Err(VeterError::InvalidInput(_))),
            self.sessions().contains_key(room_id) ==> {
                let wrap_key = file_wrap_key_of(self.sessions()[room_id].session_data@);
                &&& encrypted@.len() < FILE_MIN_LEN ==> (r matches Err(VeterError::InvalidInput(_)))
                &&& r is Ok ==> file_opens_to(wrap_key, encrypted@, r->Ok_0@)
                &&& forall|p: Seq<u8>| #[trigger]
                    file_opens_to(wrap_key, encrypted@, p) ==> r is Ok && r->Ok_0@ == p
                &&& encrypted@.len() >= FILE_MIN_LEN && r is Err ==> is_authentication_failure(
                    r->Err_0,
                )
            },
    {
        let session = match self.sessions.get(&room_id) {
            None => return Err(VeterError::InvalidInput("no session for this room".to_owned())),
            Some(s) => s,
        };
        let parts = match split_file(encrypted) {
            Ok(p) => p,
            Err(e) => return Err(e),
        };
        let wrap_key = derive_file_wrap_key(session.session_data.as_slice());
        let no_aad: Vec<u8> = Vec::new();
        proof {
            assert(no_aad@ == Seq::<u8>::empty());
        }
        let file_key = match chacha_decrypt(
            wrap_key.as_slice(),
            parts.nonce.as_slice(),
            no_aad.as_slice(),
            parts.wrapped_key.as_slice(),
        ) {
            Ok(k) => k,
            Err(_) => return Err(authentication_failure()),
        };
        if file_key.len() != KEY_LEN {
            return Err(authentication_failure());
        }
        let plaintext = match chacha_decrypt(
            file_key.as_slice(),
            parts.nonce.as_slice(),
            no_aad.as_slice(),
            parts.body.as_slice(),
        ) {
            Ok(p) => p,
            Err(_) => return Err(authentication_failure()),
        };
        if plaintext.len() as u64 >= CHACHA_MAX_LEN {
            return Err(authentication_failure());
        }
        Ok(plaintext)
    }
}

/// A message envelope sealed for a room at any ratchet step opens, under the
/// same session secret, to exactly the plaintext that was sealed.
pub proof fn lemma_message_round_trip(
    secret: Seq<u8>,
    room: RoomId,
    index: u64,
    pt: Seq<u8>,
    env: Seq<u8>,
)
    requires
        message_sealed(secret, room, index, pt, env),
    ensures
        message_opens_to(secret, room, env, pt),
{
    let step = spec_u64_to_le_bytes(index);
    let (nonce, mk) = choose|nonce: Seq<u8>, mk: Seq<u8>|
        {
            &&& nonce.len() == NONCE_LEN
            &&& mk.len() == KEY_LEN
            &&& pt.len() <= AES_GCM_MAX_LEN
            &&& #[trigger] message_envelope(secret, room, step, nonce, mk, pt) == env
            &&& aes_gcm_seal(chain_key(secret, step), nonce, message_aad(room, step), mk).len()
                == WRAPPED_KEY_LEN
            &&& aes_gcm_seal(mk, nonce, message_aad(room, step), pt).len() == pt.len()
                + AEAD_TAG_LEN
        };
    vstd::bytes::lemma_auto_spec_u64_to_from_le_bytes();
    assert(step.len() == 8);
    let aad = message_aad(room, step);
    let wrapped = aes_gcm_seal(chain_key(secret, step), nonce, aad, mk);
    let body = aes_gcm_seal(mk, nonce, aad, pt);
    assert(env == step + nonce + wrapped + body);
    assert(step_of(env) == step);
    assert(message_nonce_of(env) == nonce);
    assert(message_wrapped_of(env) == wrapped);
    assert(message_body_of(env) == body);
}

/// Two envelopes sealed at different steps of a ratchet differ, whatever
/// they hold: each one carries its own step.
pub proof fn lemma_distinct_steps_give_distinct_envelopes(
    secret: Seq<u8>,
    room: RoomId,
    i1: u64,
    i2: u64,
    pt1: Seq<u8>,
    pt2: Seq<u8>,
    env1: Seq<u8>,
    env2: Seq<u8>,
)
    requires
        message_sealed(secret, room, i1, pt1, env1),
        message_sealed(secret, room, i2, pt2, env2),
        i1 != i2,
    ensures
        env1 != env2,
{
    vstd::bytes::lemma_auto_spec_u64_to_from_le_bytes();
    let s1 = spec_u64_to_le_bytes(i1);
    let s2 = spec_u64_to_le_bytes(i2);
    let (n1, k1) = choose|nonce: Seq<u8>, mk: Seq<u8>|
        #[trigger] message_envelope(secret, room, s1, nonce, mk, pt1) == env1;
    let (n2, k2) = choose|nonce: Seq<u8>, mk: Seq<u8>|
        #[trigger] message_envelope(secret, room, s2, nonce, mk, pt2) == env2;
    assert(step_of(env1) == s1);
    assert(step_of(env2) == s2);
    assert(vstd::bytes::spec_u64_from_le_bytes(s1) != vstd::bytes::spec_u64_from_le_bytes(s2));
}

/// A file envelope opens, under the same file wrapping key, to exactly the
/// content that was sealed, the empty content included.
pub proof fn lemma_file_round_trip(wrap_key: Seq<u8>, pt: Seq<u8>, env: Seq<u8>)
    requires
        file_sealed(wrap_key, pt, env),
    ensures
        file_opens_to(wrap_key, env, pt),
{
    let (nonce, fk) = choose|nonce: Seq<u8>, fk: Seq<u8>|
        {
            &&& nonce.len() == NONCE_LEN
            &&& fk.len() == KEY_LEN
            &&& pt.len() < CHACHA_MAX_LEN
            &&& #[trigger] file_envelope(wrap_key, nonce, fk, pt) == env
            &&& chacha_seal(wrap_key, nonce, Seq::empty(), fk).len() == WRAPPED_KEY_LEN
            &&& chacha_seal(fk, nonce, Seq::empty(), pt).len() == pt.len() + AEAD_TAG_LEN
        };
    let wrapped = chacha_seal(wrap_key, nonce, Seq::empty(), fk);
    let body = chacha_seal(fk, nonce, Seq::empty(), pt);
    assert(env == nonce + wrapped + body);
    assert(file_nonce_of(env) == nonce);
    assert(file_wrapped_of(env) == wrapped);
    assert(file_body_of(env) == body);
}

/// The keyed-hash tag of any data verifies against that data, and any other
/// tag does not.
pub proof fn lemma_hmac_accepts_exactly_its_tag(identity: Seq<u8>, data: Seq<u8>, tag: Seq<u8>)
    ensures
        hmac_accepts(identity, data, hmac_tag(identity, data)),
        tag != hmac_tag(identity, data) ==> !hmac_accepts(identity, data, tag),
{
}

} // verus!
