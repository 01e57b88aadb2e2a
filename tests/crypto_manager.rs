use hmac::{Hmac, Mac};
use sha2::Sha256;
use veter_core::crypto::{seal_file, seal_message, CryptoManager};
use veter_core::envelope::{FILE_MIN_LEN, MESSAGE_MIN_LEN};
use veter_core::VeterError;

const ROOM: u128 = 0x1111_2222_3333_4444_5555_6666_7777_8888;
const OTHER_ROOM: u128 = 42;
const DEVICE: u128 = 7;
const NOW: i64 = 1_700_000_000_000;

fn manager_with_session() -> CryptoManager {
    let mut m = CryptoManager::new(vec![9u8; 32], DEVICE);
    m.init_session(ROOM, vec![5u8; 32], NOW).unwrap();
    m
}

fn hmac_of(key: &[u8], data: &[u8]) -> Vec<u8> {
    let mut mac = <Hmac<Sha256> as Mac>::new_from_slice(key).unwrap();
    mac.update(data);
    mac.finalize().into_bytes().to_vec()
}

#[test]
fn message_round_trip() {
    let mut m = manager_with_session();
    let env = m.encrypt_message(b"hello, room", ROOM, NOW).unwrap();
    assert_eq!(m.decrypt_message(&env, ROOM).unwrap(), b"hello, room".to_vec());
}

#[test]
fn message_round_trip_of_empty_and_long_content() {
    let mut m = manager_with_session();
    let empty = m.encrypt_message(b"", ROOM, NOW).unwrap();
    assert_eq!(empty.len(), MESSAGE_MIN_LEN);
    assert_eq!(m.decrypt_message(&empty, ROOM).unwrap(), Vec::<u8>::new());
    let long: Vec<u8> = (0..5000u32).map(|i| (i % 251) as u8).collect();
    let env = m.encrypt_message(&long, ROOM, NOW).unwrap();
    assert_eq!(env.len(), MESSAGE_MIN_LEN + long.len());
    assert_eq!(m.decrypt_message(&env, ROOM).unwrap(), long);
}

#[test]
fn messages_decrypt_out_of_order() {
    let mut m = manager_with_session();
    let first = m.encrypt_message(b"first", ROOM, NOW).unwrap();
    let second = m.encrypt_message(b"second", ROOM, NOW).unwrap();
    assert_eq!(m.decrypt_message(&second, ROOM).unwrap(), b"second".to_vec());
    assert_eq!(m.decrypt_message(&first, ROOM).unwrap(), b"first".to_vec());
}

#[test]
fn ciphertext_does_not_hold_the_plaintext() {
    let mut m = manager_with_session();
    let content = b"a secret that must not appear in clear";
    let env = m.encrypt_message(content, ROOM, NOW).unwrap();
    let body = &env[MESSAGE_MIN_LEN - 16..env.len() - 16];
    assert_ne!(body, &content[..]);
    assert!(!env.windows(content.len()).any(|w| w == &content[..]));
}

#[test]
fn flipped_bits_are_rejected_with_crypto_error() {
    let mut m = manager_with_session();
    let env = m.encrypt_message(b"do not tamper", ROOM, NOW).unwrap();
    for byte in 8..env.len() {
        for bit in [0u8, 3, 7] {
            let mut bad = env.clone();
            bad[byte] ^= 1 << bit;
            let r = m.decrypt_message(&bad, ROOM);
            assert!(matches!(r, Err(VeterError::Crypto(_))), "byte {} bit {}", byte, bit);
        }
    }
}

#[test]
fn flipped_step_is_rejected_with_crypto_error() {
    let mut m = manager_with_session();
    let env = m.encrypt_message(b"step bound", ROOM, NOW).unwrap();
    let mut bad = env.clone();
    bad[0] ^= 1;
    assert!(matches!(m.decrypt_message(&bad, ROOM), Err(VeterError::Crypto(_))));
}

#[test]
fn identical_plaintexts_give_distinct_envelopes() {
    let mut m = manager_with_session();
    let a = m.encrypt_message(b"same", ROOM, NOW).unwrap();
    let b = m.encrypt_message(b"same", ROOM, NOW).unwrap();
    assert_ne!(a, b);
    assert_ne!(a[..8], b[..8]);
}

#[test]
fn encrypt_advances_the_ratchet() {
    let mut m = manager_with_session();
    assert_eq!(m.get_session(ROOM).unwrap().next_index, 0);
    m.encrypt_message(b"one", ROOM, NOW).unwrap();
    m.encrypt_message(b"two", ROOM, NOW).unwrap();
    let s = m.get_session(ROOM).unwrap();
    assert_eq!(s.next_index, 2);
    assert_eq!(s.session_data, vec![5u8; 32]);
    assert_eq!(s.room_id, ROOM);
    assert_eq!(s.device_id, DEVICE);
}

#[test]
fn no_session_is_invalid_input() {
    let mut m = CryptoManager::new(vec![9u8; 32], DEVICE);
    assert!(matches!(m.encrypt_message(b"x", ROOM, NOW), Err(VeterError::InvalidInput(_))));
    assert!(matches!(m.decrypt_message(&[0u8; 100], ROOM), Err(VeterError::InvalidInput(_))));
    assert!(m.get_session(ROOM).is_none());
}

#[test]
fn envelope_of_another_room_is_rejected() {
    let mut m = manager_with_session();
    m.init_session(OTHER_ROOM, vec![5u8; 32], NOW).unwrap();
    let env = m.encrypt_message(b"for room one", ROOM, NOW).unwrap();
    assert!(matches!(m.decrypt_message(&env, OTHER_ROOM), Err(VeterError::Crypto(_))));
}

#[test]
fn short_message_envelope_is_invalid_input() {
    let m = manager_with_session();
    for len in [0usize, 1, 20, 44, MESSAGE_MIN_LEN - 1] {
        let r = m.decrypt_message(&vec![0u8; len], ROOM);
        assert!(matches!(r, Err(VeterError::InvalidInput(_))), "length {}", len);
    }
    let r = m.decrypt_message(&vec![0u8; MESSAGE_MIN_LEN], ROOM);
    assert!(matches!(r, Err(VeterError::Crypto(_))));
}

#[test]
fn superseded_session_cannot_open_old_messages() {
    let mut m = manager_with_session();
    let env = m.encrypt_message(b"under the first secret", ROOM, NOW).unwrap();
    m.init_session(ROOM, vec![6u8; 32], NOW).unwrap();
    let s = m.get_session(ROOM).unwrap();
    assert_eq!(s.session_data, vec![6u8; 32]);
    assert_eq!(s.next_index, 0);
    assert!(matches!(m.decrypt_message(&env, ROOM), Err(VeterError::Crypto(_))));
    let fresh = m.encrypt_message(b"under the second", ROOM, NOW).unwrap();
    assert_eq!(m.decrypt_message(&fresh, ROOM).unwrap(), b"under the second".to_vec());
}

#[test]
fn init_session_replaces_and_keeps_one_per_room() {
    let mut m = CryptoManager::new(vec![1u8; 16], DEVICE);
    assert!(m.init_session(ROOM, vec![1, 2, 3], NOW).is_ok());
    assert!(m.init_session(ROOM, vec![4, 5], NOW).is_ok());
    let s = m.get_session(ROOM).unwrap();
    assert_eq!(s.session_data, vec![4, 5]);
    assert_eq!(s.created_at, s.updated_at);
    assert!(m.get_session(OTHER_ROOM).is_none());
}

#[test]
fn hmac_verifies_its_own_tag() {
    let m = CryptoManager::new(vec![9u8; 32], DEVICE);
    let tag = m.generate_hmac(b"key bundle").unwrap();
    assert_eq!(tag.len(), 32);
    assert!(m.verify_hmac(b"key bundle", &tag).unwrap());
}

#[test]
fn hmac_rejects_altered_data_or_tag() {
    let m = CryptoManager::new(vec![9u8; 32], DEVICE);
    let tag = m.generate_hmac(b"key bundle").unwrap();
    assert!(!m.verify_hmac(b"key bundlf", &tag).unwrap());
    let mut bad = tag.clone();
    bad[31] ^= 0x80;
    assert!(!m.verify_hmac(b"key bundle", &bad).unwrap());
    assert!(!m.verify_hmac(b"key bundle", &tag[..31]).unwrap());
    assert_eq!(m.verify_hmac(b"key bundle", &[]).unwrap(), false);
    assert_eq!(m.verify_hmac(b"key bundle", &[0u8; 64]).unwrap(), false);
}

#[test]
fn hmac_key_is_derived_from_the_identity_key() {
    let identity = vec![9u8; 32];
    let m = CryptoManager::new(identity.clone(), DEVICE);
    let hmac_key = hmac_of(&identity, &[3u8]);
    let expected = hmac_of(&hmac_key, b"data");
    assert_eq!(m.generate_hmac(b"data").unwrap(), expected);
    assert_ne!(m.generate_hmac(b"data").unwrap(), hmac_of(&identity, b"data"));
}

#[test]
fn hmac_depends_on_the_identity_key() {
    let a = CryptoManager::new(vec![1u8; 32], DEVICE);
    let b = CryptoManager::new(vec![2u8; 32], DEVICE);
    let tag = a.generate_hmac(b"data").unwrap();
    assert!(!b.verify_hmac(b"data", &tag).unwrap());
}

#[test]
fn file_round_trip() {
    let m = manager_with_session();
    let content: Vec<u8> = (0..10_000u32).map(|i| (i * 7 % 256) as u8).collect();
    let env = m.encrypt_file(&content, ROOM).unwrap();
    assert_eq!(env.len(), FILE_MIN_LEN + content.len());
    assert_ne!(&env[60..env.len() - 16], &content[..]);
    assert_eq!(m.decrypt_file(&env, ROOM).unwrap(), content);
}

#[test]
fn file_round_trip_of_empty_content() {
    let m = manager_with_session();
    let env = m.encrypt_file(&[], ROOM).unwrap();
    assert_eq!(env.len(), FILE_MIN_LEN);
    assert_eq!(m.decrypt_file(&env, ROOM).unwrap(), Vec::<u8>::new());
}

#[test]
fn file_opens_on_another_device_of_the_room() {
    let sender = manager_with_session();
    let env = sender.encrypt_file(b"shared file", ROOM).unwrap();
    let mut receiver = CryptoManager::new(vec![1u8; 32], DEVICE + 1);
    receiver.init_session(ROOM, vec![5u8; 32], NOW).unwrap();
    assert_eq!(receiver.decrypt_file(&env, ROOM).unwrap(), b"shared file".to_vec());
}

#[test]
fn file_key_is_not_carried_in_clear() {
    let m = manager_with_session();
    let env = m.encrypt_file(b"file", ROOM).unwrap();
    let mut other = CryptoManager::new(vec![9u8; 32], DEVICE);
    other.init_session(ROOM, vec![6u8; 32], NOW).unwrap();
    assert!(matches!(other.decrypt_file(&env, ROOM), Err(VeterError::Crypto(_))));
}

#[test]
fn file_without_session_is_invalid_input() {
    let m = CryptoManager::new(vec![9u8; 32], DEVICE);
    assert!(matches!(m.encrypt_file(b"x", ROOM), Err(VeterError::InvalidInput(_))));
    assert!(matches!(m.decrypt_file(&[0u8; 100], ROOM), Err(VeterError::InvalidInput(_))));
}

#[test]
fn tampered_file_is_rejected_with_crypto_error() {
    let m = manager_with_session();
    let env = m.encrypt_file(b"file content", ROOM).unwrap();
    for byte in 0..env.len() {
        let mut bad = env.clone();
        bad[byte] ^= 0x10;
        assert!(matches!(m.decrypt_file(&bad, ROOM), Err(VeterError::Crypto(_))), "byte {}", byte);
    }
}

#[test]
fn short_file_envelope_is_invalid_input() {
    let m = manager_with_session();
    for len in [0usize, 12, 44, FILE_MIN_LEN - 1] {
        let r = m.decrypt_file(&vec![0u8; len], ROOM);
        assert!(matches!(r, Err(VeterError::InvalidInput(_))), "length {}", len);
    }
}

#[test]
fn authentication_failures_give_one_error() {
    let mut m = manager_with_session();
    let env = m.encrypt_message(b"uniform", ROOM, NOW).unwrap();
    let mut corrupted = env.clone();
    let last = corrupted.len() - 1;
    corrupted[last] ^= 1;
    let mut other = CryptoManager::new(vec![9u8; 32], DEVICE);
    other.init_session(ROOM, vec![6u8; 32], NOW).unwrap();
    let foreign = other.encrypt_message(b"uniform", ROOM, NOW).unwrap();
    let e1 = m.decrypt_message(&corrupted, ROOM).unwrap_err();
    let e2 = m.decrypt_message(&foreign, ROOM).unwrap_err();
    match (e1, e2) {
        (VeterError::Crypto(a), VeterError::Crypto(b)) => assert_eq!(a, b),
        other => panic!("unexpected errors {:?}", other),
    }
    let file = m.encrypt_file(b"f", ROOM).unwrap();
    let mut bad_file = file.clone();
    bad_file[20] ^= 1;
    let e3 = m.decrypt_file(&bad_file, ROOM).unwrap_err();
    assert!(matches!(e3, VeterError::Crypto(ref s) if s == "authentication failed"));
}

#[test]
fn seal_message_lays_out_the_given_values() {
    let nonce = [3u8; 12];
    let key = [4u8; 32];
    let a = seal_message(&[5u8; 32], ROOM, 9, &nonce, &key, b"body").unwrap();
    let b = seal_message(&[5u8; 32], ROOM, 9, &nonce, &key, b"body").unwrap();
    assert_eq!(a, b);
    assert_eq!(a.len(), MESSAGE_MIN_LEN + 4);
    assert_eq!(a[..8], 9u64.to_le_bytes());
    assert_eq!(a[8..20], nonce);
    assert!(!a.windows(4).any(|w| w == b"body"));
    let mut m = manager_with_session();
    for _ in 0..9 {
        m.encrypt_message(b"", ROOM, NOW).unwrap();
    }
    assert_eq!(m.decrypt_message(&a, ROOM).unwrap(), b"body".to_vec());
}

#[test]
fn seal_file_lays_out_the_given_values() {
    let nonce = [7u8; 12];
    let a = seal_file(&[1u8; 32], &nonce, &[2u8; 32], b"data").unwrap();
    assert_eq!(a, seal_file(&[1u8; 32], &nonce, &[2u8; 32], b"data").unwrap());
    assert_eq!(a.len(), FILE_MIN_LEN + 4);
    assert_eq!(a[..12], nonce);
    assert_ne!(a, seal_file(&[1u8; 32], &nonce, &[3u8; 32], b"data").unwrap());
}

#[test]
fn identity_keypair_has_two_fresh_halves() {
    let (private_key, public_key) = CryptoManager::generate_identity_keypair().unwrap();
    assert_eq!(private_key.len(), 32);
    assert_eq!(public_key.len(), 32);
    let (other_private, _) = CryptoManager::generate_identity_keypair().unwrap();
    assert_ne!(private_key, other_private);
}

#[test]
fn restored_session_keeps_its_ratchet_step() {
    let mut sender = manager_with_session();
    sender.encrypt_message(b"skip", ROOM, NOW).unwrap();
    let stored = sender.get_session(ROOM).unwrap();
    let copy = veter_core::models::Session {
        room_id: stored.room_id,
        device_id: stored.device_id,
        session_data: stored.session_data.clone(),
        next_index: stored.next_index,
        created_at: stored.created_at,
        updated_at: stored.updated_at,
    };
    let mut restarted = CryptoManager::new(vec![9u8; 32], DEVICE);
    restarted.restore_session(copy).unwrap();
    assert_eq!(restarted.get_session(ROOM).unwrap().next_index, 1);
    let env = restarted.encrypt_message(b"after restart", ROOM, NOW).unwrap();
    assert_eq!(env[..8], 1u64.to_le_bytes());
    assert_eq!(sender.decrypt_message(&env, ROOM).unwrap(), b"after restart".to_vec());
}

#[test]
fn session_of_another_device_is_not_restored() {
    let mut m = CryptoManager::new(vec![9u8; 32], DEVICE);
    let foreign = veter_core::models::Session {
        room_id: ROOM,
        device_id: DEVICE + 1,
        session_data: vec![1],
        next_index: 0,
        created_at: 0,
        updated_at: 0,
    };
    assert!(matches!(m.restore_session(foreign), Err(VeterError::InvalidInput(_))));
    assert!(m.get_session(ROOM).is_none());
}

#[test]
fn restore_refuses_to_move_the_ratchet_back() {
    let mut m = manager_with_session();
    m.encrypt_message(b"one", ROOM, NOW).unwrap();
    m.encrypt_message(b"two", ROOM, NOW).unwrap();
    let stale = veter_core::models::Session {
        room_id: ROOM,
        device_id: DEVICE,
        session_data: vec![5u8; 32],
        next_index: 1,
        created_at: NOW,
        updated_at: NOW,
    };
    assert!(matches!(m.restore_session(stale), Err(VeterError::InvalidInput(_))));
    assert_eq!(m.get_session(ROOM).unwrap().next_index, 2);
    let fresh_secret = veter_core::models::Session {
        room_id: ROOM,
        device_id: DEVICE,
        session_data: vec![6u8; 32],
        next_index: 0,
        created_at: NOW,
        updated_at: NOW,
    };
    assert!(m.restore_session(fresh_secret).is_ok());
    assert_eq!(m.get_session(ROOM).unwrap().session_data, vec![6u8; 32]);
}

#[test]
fn session_times_come_from_the_caller() {
    let mut m = CryptoManager::new(vec![9u8; 32], DEVICE);
    m.init_session(ROOM, vec![1], 10).unwrap();
    m.encrypt_message(b"x", ROOM, 25).unwrap();
    let s = m.get_session(ROOM).unwrap();
    assert_eq!(s.created_at, 10);
    assert_eq!(s.updated_at, 25);
}
