//! The data model: identifiers, users, rooms, messages, key material and
//! sessions.
//!
//! Identifiers are 128-bit values and timestamps are milliseconds since the
//! Unix epoch.
use vstd::prelude::*;

verus! {

/// Unique identifier of a device.
pub type DeviceId = u128;

/// Unique identifier of a user.
pub type UserId = u128;

/// Unique identifier of a room (a conversation).
pub type RoomId = u128;

/// Unique identifier of a message.
pub type MessageId = u128;

/// Milliseconds since the Unix epoch.
pub type Timestamp = i64;

/// A device of a user, with the public half of its identity key.
#[derive(Debug, Clone)]
pub struct Device {
    pub id: DeviceId,
    pub user_id: UserId,
    pub name: String,
    pub platform: Platform,
    pub public_key: Vec<u8>,
    pub created_at: Timestamp,
    pub last_seen: Timestamp,
}

/// The platform a device runs on.
#[derive(Debug, Clone, Copy, PartialEq, Eq, Structural)]
pub enum Platform {
    Ios,
    Android,
    Macos,
    Windows,
    Linux,
    Web,
}

/// A user profile.
#[derive(Debug, Clone)]
pub struct User {
    pub id: UserId,
    pub username: String,
    pub display_name: String,
    pub avatar_url: Option<String>,
    pub created_at: Timestamp,
}

/// A room: a conversation between its members.
#[derive(Debug, Clone)]
pub struct Room {
    pub id: RoomId,
    pub name: String,
    pub description: Option<String>,
    pub room_type: RoomType,
    pub members: Vec<UserId>,
    pub created_at: Timestamp,
    pub updated_at: Timestamp,
}

/// The kind of a room.
#[derive(Debug, Clone, Copy, PartialEq, Eq, Structural)]
pub enum RoomType {
    /// A one-to-one conversation.
    Direct,
    /// A group conversation.
    Group,
    /// A broadcast channel.
    Channel,
}

/// A plaintext message as the application sees it.
#[derive(Debug, Clone)]
pub struct Message {
    pub id: MessageId,
    pub room_id: RoomId,
    pub sender_id: UserId,
    pub sender_device_id: DeviceId,
    pub content: MessageContent,
    pub created_at: Timestamp,
    pub edited_at: Option<Timestamp>,
    pub reply_to: Option<MessageId>,
}

/// What a message says.
#[derive(Debug, Clone)]
pub enum MessageContent {
    Text(String),
    File { name: String, mime_type: String, size: u64, url: String },
    Image { url: String, width: u32, height: u32 },
    Reaction { emoji: String, target_message_id: MessageId },
    /// A message of the system (a user joined, and the like).
    System(String),
}

/// An encrypted message as it travels: its payload is a sealed envelope.
#[derive(Debug, Clone)]
pub struct EncryptedMessage {
    pub id: MessageId,
    pub room_id: RoomId,
    pub sender_device_id: DeviceId,
    pub payload: Vec<u8>,
    pub timestamp: Timestamp,
}

/// Key material that a device publishes so that others can open sessions
/// with it. Each one-time prekey is handed out at most once.
#[derive(Debug, Clone)]
pub struct KeyMaterial {
    pub identity_key: Vec<u8>,
    pub signed_prekey: Vec<u8>,
    pub one_time_prekeys: Vec<Vec<u8>>,
}

impl KeyMaterial {
    /// Consume one one-time prekey: it leaves the available set and is
    /// returned to the caller, or `None` when none is left.
    pub fn take_one_time_prekey(&mut self) -> (r: Option<Vec<u8>>)
        ensures
            final(self).identity_key == old(self).identity_key,
            final(self).signed_prekey == old(self).signed_prekey,
            old(self).one_time_prekeys@.len() == 0 ==> r is None && final(self).one_time_prekeys@
                == old(self).one_time_prekeys@,
            old(self).one_time_prekeys@.len() > 0 ==> r == Some(old(self).one_time_prekeys@.last())
                && final(self).one_time_prekeys@ == old(self).one_time_prekeys@.drop_last(),
    {
        self.one_time_prekeys.pop()
    }
}

/// The cryptographic state of one room on the local device.
///
/// `session_data` is the shared secret that keys the room's message ratchet;
/// `next_index` is the step of the ratchet that the next outbound message
/// uses.
#[derive(Debug)]
pub struct Session {
    pub room_id: RoomId,
    pub device_id: DeviceId,
    pub session_data: Vec<u8>,
    pub next_index: u64,
    pub created_at: Timestamp,
    pub updated_at: Timestamp,
}

} // verus!
