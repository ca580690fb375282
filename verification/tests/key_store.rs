use base64ct::Encoding;
use etsi014_client::c::{KeyBytesBorrow, KeyBytesProtected, KeyState};
use etsi014_client::error::ErrorType;
use etsi014_client::etsi014_client::key_container_to_vector;
use etsi014_client::json::key_and_id::KeyAndId;
use etsi014_client::json::key_container::KeyContainer;
use etsi014_client::SecretBytes;

fn secret(bytes: &[u8]) -> SecretBytes {
    let mut data = bytes.to_vec();
    SecretBytes::take(&mut data)
}

fn entry(key_id: &str, key: &str) -> KeyAndId {
    KeyAndId { key_id: key_id.to_string(), key: key.to_string() }
}

fn bytes_of(key: &SecretBytes) -> Vec<u8> {
    key.read(|bytes| bytes.to_vec())
}

#[test]
fn taking_bytes_wipes_where_they_were() {
    let mut data = vec![1u8, 2, 3, 4];
    let key = SecretBytes::take(&mut data);
    assert_eq!(data, vec![0, 0, 0, 0]);
    assert_eq!(key.len(), 4);
    assert_eq!(bytes_of(&key), vec![1, 2, 3, 4]);
}

#[test]
fn taking_no_bytes_gives_an_empty_key() {
    let mut data: Vec<u8> = vec![];
    let key = SecretBytes::take(&mut data);
    assert_eq!(key.len(), 0);
    assert_eq!(bytes_of(&key), Vec::<u8>::new());
}

#[test]
fn reading_hands_on_what_the_reader_returns() {
    let key = secret(&[7, 8, 9]);
    assert_eq!(key.read(|bytes| bytes.len()), 3);
    assert_eq!(key.read(|bytes| bytes.iter().map(|b| *b as u32).sum::<u32>()), 24);
    assert_eq!(key.read(|bytes| bytes[0]), 7);
}

#[test]
fn hex_writes_two_lower_case_digits_for_each_byte() {
    let hex = secret(&[0x00, 0xff, 0x1a, 0x09, 0xa0]).to_hex().unwrap();
    assert_eq!(hex.len(), 10);
    assert_eq!(bytes_of(&hex), b"00ff1a09a0".to_vec());
    let none = secret(&[]).to_hex().unwrap();
    assert_eq!(none.len(), 0);
}

#[test]
fn a_key_does_not_print_its_bytes() {
    let text = format!("{:?}", secret(&[0x41, 0x42, 0x43]));
    assert!(!text.contains("65"));
    assert!(!text.contains("ABC"));
}

#[test]
fn container_is_decoded_entry_for_entry() {
    let kc = KeyContainer { keys: vec![entry("id-1", "aGVsbG8="), entry("id-2", "AQID")] };
    let keys = key_container_to_vector(kc).unwrap();
    assert_eq!(keys.len(), 2);
    assert_eq!(keys[0].0, "id-1");
    assert_eq!(keys[0].1.len(), 5);
    assert_eq!(bytes_of(&keys[0].1), b"hello".to_vec());
    assert_eq!(keys[1].0, "id-2");
    assert_eq!(bytes_of(&keys[1].1), vec![1, 2, 3]);
}

#[test]
fn decoded_key_has_exactly_the_decoded_size() {
    let kc = KeyContainer { keys: vec![entry("a", "QQ=="), entry("b", "QUI="), entry("c", "")] };
    let keys = key_container_to_vector(kc).unwrap();
    assert_eq!(keys[0].1.len(), 1);
    assert_eq!(bytes_of(&keys[0].1), vec![0x41]);
    assert_eq!(keys[1].1.len(), 2);
    assert_eq!(bytes_of(&keys[1].1), vec![0x41, 0x42]);
    assert_eq!(keys[2].1.len(), 0);
}

#[test]
fn empty_container_gives_no_keys() {
    assert_eq!(key_container_to_vector(KeyContainer { keys: vec![] }).unwrap().len(), 0);
}

#[test]
fn corrupted_payload_is_refused_by_the_name_of_its_key() {
    let kc = KeyContainer {
        keys: vec![entry("good", "AAAA"), entry("broken", "AA*A"), entry("later", "%%%%")],
    };
    let e = key_container_to_vector(kc).unwrap_err();
    assert_eq!(e.kind, ErrorType::InvalidResponse);
    assert_eq!(e.msg, "Error decoding base64 for uuid broken");
    assert_eq!(e.source, None);
}

#[test]
fn payload_without_padding_is_refused() {
    let e = key_container_to_vector(KeyContainer { keys: vec![entry("k", "QQ")] }).unwrap_err();
    assert_eq!(e.kind, ErrorType::InvalidResponse);
    assert_eq!(e.msg, "Error decoding base64 for uuid k");
    let e = key_container_to_vector(KeyContainer { keys: vec![entry("k", "QUJD=")] }).unwrap_err();
    assert_eq!(e.msg, "Error decoding base64 for uuid k");
}

#[test]
fn base64_round_trip_gives_the_bytes_back() {
    let samples: [&[u8]; 6] =
        [b"", b"\0", b"ab", b"abc", b"\xff\xfe\xfd\xfc", b"the quick brown fox jumps over the lazy dog"];
    for sample in samples {
        let text = base64ct::Base64::encode_string(sample);
        let keys = key_container_to_vector(KeyContainer { keys: vec![entry("k", &text)] }).unwrap();
        assert_eq!(keys.len(), 1);
        assert_eq!(keys[0].1.len(), sample.len());
        assert_eq!(bytes_of(&keys[0].1), sample.to_vec());
    }
}

#[test]
fn base64_round_trip_of_every_byte_value() {
    let all: Vec<u8> = (0..=255u8).collect();
    let text = base64ct::Base64::encode_string(&all);
    let keys = key_container_to_vector(KeyContainer { keys: vec![entry("k", &text)] }).unwrap();
    assert_eq!(bytes_of(&keys[0].1), all);
}

#[test]
fn a_new_entry_is_protected_and_holds_its_key() {
    let e = KeyBytesProtected::new(secret(&[1, 2]), 1);
    assert_eq!(e.current_state(), KeyState::Protected);
    assert_eq!(bytes_of(&e.into_key().unwrap()), vec![1, 2]);
}

#[test]
fn one_cycle_of_borrow_and_return() {
    let mut e = KeyBytesProtected::new(secret(&[5, 6, 7]), 1);
    let mut token = e.unprotect();
    assert!(token.is_some());
    assert_eq!(e.current_state(), KeyState::Borrowed);
    let read = e.borrowed_key(token.as_ref().unwrap()).map(bytes_of);
    assert_eq!(read, Some(vec![5, 6, 7]));
    e.protect(&mut token);
    assert!(token.is_none());
    assert_eq!(e.current_state(), KeyState::Protected);
    e.free();
    assert_eq!(e.current_state(), KeyState::Freed);
    assert!(e.into_key().is_none());
}

#[test]
fn no_second_borrow_while_one_is_open() {
    let mut e = KeyBytesProtected::new(secret(&[5]), 1);
    let mut first = e.unprotect();
    assert!(first.is_some());
    assert!(e.unprotect().is_none());
    assert_eq!(e.current_state(), KeyState::Borrowed);
    e.protect(&mut first);
    assert!(e.unprotect().is_some());
}

#[test]
fn protect_twice_is_protect_once() {
    let mut e = KeyBytesProtected::new(secret(&[5]), 1);
    let mut token = e.unprotect();
    e.protect(&mut token);
    e.protect(&mut token);
    assert!(token.is_none());
    assert_eq!(e.current_state(), KeyState::Protected);
    let mut nothing: Option<KeyBytesBorrow> = None;
    e.protect(&mut nothing);
    assert_eq!(e.current_state(), KeyState::Protected);
}

#[test]
fn protect_without_a_token_ends_no_borrow() {
    let mut e = KeyBytesProtected::new(secret(&[5]), 1);
    let token = e.unprotect();
    let mut nothing: Option<KeyBytesBorrow> = None;
    e.protect(&mut nothing);
    assert_eq!(e.current_state(), KeyState::Borrowed);
    assert!(e.borrowed_key(token.as_ref().unwrap()).is_some());
}

#[test]
fn free_twice_is_free_once() {
    let mut e = KeyBytesProtected::new(secret(&[5]), 1);
    e.free();
    e.free();
    assert_eq!(e.current_state(), KeyState::Freed);
}

#[test]
fn nothing_happens_to_a_released_entry() {
    let mut e = KeyBytesProtected::new(secret(&[5]), 1);
    e.free();
    let mut token = e.unprotect();
    assert!(token.is_none());
    assert_eq!(e.current_state(), KeyState::Freed);
    e.protect(&mut token);
    assert_eq!(e.current_state(), KeyState::Freed);
}

#[test]
fn a_borrow_is_useless_after_release() {
    let mut e = KeyBytesProtected::new(secret(&[5]), 1);
    let mut token = e.unprotect();
    e.free();
    assert_eq!(e.current_state(), KeyState::Freed);
    assert!(e.borrowed_key(token.as_ref().unwrap()).is_none());
    e.protect(&mut token);
    assert!(token.is_none());
    assert_eq!(e.current_state(), KeyState::Freed);
}

#[test]
fn no_key_without_an_open_borrow() {
    let mut e = KeyBytesProtected::new(secret(&[5]), 1);
    let mut token = e.unprotect();
    let kept = e.unprotect();
    assert!(kept.is_none());
    e.protect(&mut token);
    let mut other = KeyBytesProtected::new(secret(&[6]), 2);
    let foreign = other.unprotect().unwrap();
    assert!(e.borrowed_key(&foreign).is_none());
}

#[test]
fn the_token_of_another_entry_opens_and_ends_nothing() {
    let mut e = KeyBytesProtected::new(secret(&[5]), 1);
    let mut other = KeyBytesProtected::new(secret(&[6]), 2);
    let own = e.unprotect().unwrap();
    let mut foreign = other.unprotect();
    assert_eq!(own.entry_id(), 1);
    assert_eq!(e.entry_id(), 1);
    assert_eq!(foreign.as_ref().unwrap().entry_id(), 2);
    assert!(e.borrowed_key(foreign.as_ref().unwrap()).is_none());
    assert!(e.borrowed_key_mut(foreign.as_ref().unwrap()).is_none());
    e.protect(&mut foreign);
    assert!(foreign.is_some());
    assert_eq!(e.current_state(), KeyState::Borrowed);
    assert_eq!(e.borrowed_key(&own).map(bytes_of), Some(vec![5]));
    other.protect(&mut foreign);
    assert!(foreign.is_none());
    assert_eq!(other.current_state(), KeyState::Protected);
    let mut own = Some(own);
    e.protect(&mut own);
    assert!(own.is_none());
    assert_eq!(e.current_state(), KeyState::Protected);
}
