//! Decoding of the records that the persistence collaborator hands back.
//!
//! A stored record holds identifiers as hyphenated text and timestamps as
//! RFC 3339 text. The collaborator reads the columns; these functions turn
//! them into the library's values, and fail with `Database` on any column
//! that does not parse.
use vstd::prelude::*;

use crate::error::{Result, VeterError};
use crate::models::{Message, MessageContent, Session, Timestamp, User};

verus! {

/// The error that `uuid` reports on text that is not an identifier.
#[verifier::external_type_specification]
#[verifier::external_body]
pub struct ExUuidError(uuid::Error);

/// The error that `chrono` reports on text that is not a timestamp.
#[verifier::external_type_specification]
#[verifier::external_body]
pub struct ExChronoParseError(chrono::ParseError);

/// The 128-bit value of an identifier written as text, or `None` when the
/// text is not one.
pub uninterp spec fn uuid_value(s: Seq<char>) -> Option<u128>;

/// The milliseconds since the Unix epoch of an RFC 3339 timestamp, or `None`
/// when the text is not one.
pub uninterp spec fn rfc3339_millis(s: Seq<char>) -> Option<i64>;

/// Relies on `uuid::Uuid::parse_str` and `Uuid::as_u128`: the identifier's
/// 128 bits, or the parse error.
#[verifier::external_body]
fn parse_uuid(s: &str) -> (r: core::result::Result<u128, uuid::Error>)
    ensures
        match r {
            Ok(v) => uuid_value(s@) == Some(v),
            Err(_) => uuid_value(s@) is None,
        },
{
    match uuid::Uuid::parse_str(s) {
        Ok(u) => Ok(u.as_u128()),
        Err(e) => Err(e),
    }
}

/// Relies on `chrono::DateTime::parse_from_rfc3339` and `timestamp_millis`:
/// the instant in milliseconds since the Unix epoch, or the parse error.
#[verifier::external_body]
fn parse_rfc3339(s: &str) -> (r: core::result::Result<i64, chrono::ParseError>)
    ensures
        match r {
            Ok(v) => rfc3339_millis(s@) == Some(v),
            Err(_) => rfc3339_millis(s@) is None,
        },
{
    match chrono::DateTime::parse_from_rfc3339(s) {
        Ok(d) => Ok(d.timestamp_millis()),
        Err(e) => Err(e),
    }
}

/// Decode a stored identifier.
pub fn parse_id(s: &str) -> (r: Result<u128>)
    ensures
        match uuid_value(s@) {
            Some(v) => r matches Ok(x) && x == v,
            None => r matches Err(VeterError::Database(_)),
        },
{
    match parse_uuid(s) {
        Ok(v) => Ok(v),
        Err(_) => Err(VeterError::Database("invalid identifier".to_owned())),
    }
}

/// Decode a stored timestamp.
pub fn parse_timestamp(s: &str) -> (r: Result<Timestamp>)
    ensures
        match rfc3339_millis(s@) {
            Some(v) => r matches Ok(x) && x == v,
            None => r matches Err(VeterError::Database(_)),
        },
{
    match parse_rfc3339(s) {
        Ok(v) => Ok(v),
        Err(_) => Err(VeterError::Database("invalid timestamp".to_owned())),
    }
}

/// Decode an optional stored identifier: absent stays absent.
pub fn parse_optional_id(s: &Option<String>) -> (r: Result<Option<u128>>)
    ensures
        match s {
            None => r matches Ok(x) && x is None,
            Some(t) => match uuid_value(t@) {
                Some(v) => r matches Ok(x) && x == Some(v),
                None => r matches Err(VeterError::Database(_)),
            },
        },
{
    match s {
        None => Ok(None),
        Some(t) => match parse_id(t.as_str()) {
            Ok(v) => Ok(Some(v)),
            Err(e) => Err(e),
        },
    }
}

/// Decode an optional stored timestamp: absent stays absent.
pub fn parse_optional_timestamp(s: &Option<String>) -> (r: Result<Option<Timestamp>>)
    ensures
        match s {
            None => r matches Ok(x) && x is None,
            Some(t) => match rfc3339_millis(t@) {
                Some(v) => r matches Ok(x) && x == Some(v),
                None => r matches Err(VeterError::Database(_)),
            },
        },
{
    match s {
        None => Ok(None),
        Some(t) => match parse_timestamp(t.as_str()) {
            Ok(v) => Ok(Some(v)),
            Err(e) => Err(e),
        },
    }
}

/// Decode a stored session record.
pub fn session_from_record(
    room_id: &str,
    device_id: &str,
    session_data: Vec<u8>,
    next_index: u64,
    created_at: &str,
    updated_at: &str,
) -> (r: Result<Session>)
    ensures
        r is Ok <==> (uuid_value(room_id@) is Some && uuid_value(device_id@) is Some
            && rfc3339_millis(created_at@) is Some && rfc3339_millis(updated_at@) is Some),
        r is Err ==> (r matches Err(VeterError::Database(_))),
        r is Ok ==> {
            let s = r->Ok_0;
            &&& uuid_value(room_id@) == Some(s.room_id)
            &&& uuid_value(device_id@) == Some(s.device_id)
            &&& s.session_data@ == session_data@
            &&& s.next_index == next_index
            &&& rfc3339_millis(created_at@) == Some(s.created_at)
            &&& rfc3339_millis(updated_at@) == Some(s.updated_at)
        },
{
    let room_id = match parse_id(room_id) {
        Ok(v) => v,
        Err(e) => return Err(e),
    };
    let device_id = match parse_id(device_id) {
        Ok(v) => v,
        Err(e) => return Err(e),
    };
    let created_at = match parse_timestamp(created_at) {
        Ok(v) => v,
        Err(e) => return Err(e),
    };
    let updated_at = match parse_timestamp(updated_at) {
        Ok(v) => v,
        Err(e) => return Err(e),
    };
    Ok(Session { room_id, device_id, session_data, next_index, created_at, updated_at })
}

/// Decode a stored user record.
pub fn user_from_record(
    id: &str,
    username: String,
    display_name: String,
    avatar_url: Option<String>,
    created_at: &str,
) -> (r: Result<User>)
    ensures
        r is Ok <==> (uuid_value(id@) is Some && rfc3339_millis(created_at@) is Some),
        r is Err ==> (r matches Err(VeterError::Database(_))),
        r is Ok ==> {
            let u = r->Ok_0;
            &&& uuid_value(id@) == Some(u.id)
            &&& u.username@ == username@
            &&& u.display_name@ == display_name@
            &&& u.avatar_url == avatar_url
            &&& rfc3339_millis(created_at@) == Some(u.created_at)
        },
{
    let id = match parse_id(id) {
        Ok(v) => v,
        Err(e) => return Err(e),
    };
    let created_at = match parse_timestamp(created_at) {
        Ok(v) => v,
        Err(e) => return Err(e),
    };
    Ok(User { id, username, display_name, avatar_url, created_at })
}

/// The text columns of a stored message record, the decoded content aside.
pub struct MessageRecord {
    pub id: String,
    pub room_id: String,
    pub sender_id: String,
    pub sender_device_id: String,
    pub created_at: String,
    pub edited_at: Option<String>,
    pub reply_to: Option<String>,
}

/// Every column of the record parses.
pub open spec fn message_record_parses(rec: MessageRecord) -> bool {
    &&& uuid_value(rec.id@) is Some
    &&& uuid_value(rec.room_id@) is Some
    &&& uuid_value(rec.sender_id@) is Some
    &&& uuid_value(rec.sender_device_id@) is Some
    &&& rfc3339_millis(rec.created_at@) is Some
    &&& (rec.edited_at matches Some(t) ==> rfc3339_millis(t@) is Some)
    &&& (rec.reply_to matches Some(t) ==> uuid_value(t@) is Some)
}

/// Decode a stored message record whose content column has been decoded.
pub fn message_from_record(rec: &MessageRecord, content: MessageContent) -> (r: Result<Message>)
    ensures
        r is Ok <==> message_record_parses(*rec),
        r is Err ==> (r matches Err(VeterError::Database(_))),
        r is Ok ==> {
            let m = r->Ok_0;
            &&& uuid_value(rec.id@) == Some(m.id)
            &&& uuid_value(rec.room_id@) == Some(m.room_id)
            &&& uuid_value(rec.sender_id@) == Some(m.sender_id)
            &&& uuid_value(rec.sender_device_id@) == Some(m.sender_device_id)
            &&& m.content == content
            &&& rfc3339_millis(rec.created_at@) == Some(m.created_at)
            &&& match rec.edited_at {
                None => m.edited_at is None,
                Some(t) => rfc3339_millis(t@) == m.edited_at,
            }
            &&& match rec.reply_to {
                None => m.reply_to is None,
                Some(t) => uuid_value(t@) == m.reply_to,
            }
        },
{
    let id = match parse_id(rec.id.as_str()) {
        Ok(v) => v,
        Err(e) => return Err(e),
    };
    let room_id = match parse_id(rec.room_id.as_str()) {
        Ok(v) => v,
        Err(e) => return Err(e),
    };
    let sender_id = match parse_id(rec.sender_id.as_str()) {
        Ok(v) => v,
        Err(e) => return Err(e),
    };
    let sender_device_id = match parse_id(rec.sender_device_id.as_str()) {
        Ok(v) => v,
        Err(e) => return Err(e),
    };
    let created_at = match parse_timestamp(rec.created_at.as_str()) {
        Ok(v) => v,
        Err(e) => return Err(e),
    };
    let edited_at = match parse_optional_timestamp(&rec.edited_at) {
        Ok(v) => v,
        Err(e) => return Err(e),
    };
    let reply_to = match parse_optional_id(&rec.reply_to) {
        Ok(v) => v,
        Err(e) => return Err(e),
    };
    Ok(
        Message {
            id,
            room_id,
            sender_id,
            sender_device_id,
            content,
            created_at,
            edited_at,
            reply_to,
        },
    )
}

} // verus!
