use base64::Engine;
use magnet::cipher::UnwrapOutcome;
use magnet::keys::MasterKeyResolver;
use magnet::keys::ResolveError;

#[test]
fn missing_encrypted_key_field_is_no_key_not_error() {
    assert_eq!(MasterKeyResolver::key_blob_from_text(r#"{"os_crypt":{}}"#), Ok(None));
    assert_eq!(MasterKeyResolver::key_blob_from_text(r#"{}"#), Ok(None));
    assert_eq!(
        MasterKeyResolver::key_blob_from_text(r#"{"os_crypt":{"encrypted_key":42}}"#),
        Ok(None)
    );
}

#[test]
fn unparsable_state_is_an_error() {
    assert_eq!(
        MasterKeyResolver::key_blob_from_text("not json at all"),
        Err(ResolveError::StateNotJson)
    );
}

#[test]
fn bad_base64_is_an_error() {
    let text = r#"{"os_crypt":{"encrypted_key":"@@not-base64@@"}}"#;
    assert_eq!(MasterKeyResolver::key_blob_from_text(text), Err(ResolveError::KeyNotBase64));
}

#[test]
fn wrapped_key_is_decoded_and_marker_stripped() {
    let mut wrapped = b"DPAPI".to_vec();
    wrapped.extend_from_slice(&[1, 2, 3, 4]);
    let b64 = base64::engine::general_purpose::STANDARD.encode(&wrapped);
    let text = format!(r#"{{"os_crypt":{{"encrypted_key":"{}"}}}}"#, b64);
    assert_eq!(MasterKeyResolver::key_blob_from_text(&text), Ok(Some(vec![1, 2, 3, 4])));
}

#[test]
fn unmarked_key_is_kept_whole() {
    let b64 = base64::engine::general_purpose::STANDARD.encode([9u8, 8, 7]);
    let text = format!(r#"{{"os_crypt":{{"encrypted_key":"{}"}}}}"#, b64);
    assert_eq!(MasterKeyResolver::key_blob_from_text(&text), Ok(Some(vec![9, 8, 7])));
}

#[test]
fn candidates_walk_up_five_parents() {
    let store = "C:\\Users\\u\\AppData\\Local\\Google\\Chrome\\User Data\\Default\\Login Data";
    let c = MasterKeyResolver::local_state_candidates(store);
    assert_eq!(c.len(), 5);
    assert_eq!(c[0], "C:\\Users\\u\\AppData\\Local\\Google\\Chrome\\User Data\\Default\\Local State");
    assert_eq!(c[1], "C:\\Users\\u\\AppData\\Local\\Google\\Chrome\\User Data\\Local State");
    assert_eq!(c[2], "C:\\Users\\u\\AppData\\Local\\Google\\Chrome\\Local State");
}

#[test]
fn candidates_stop_at_the_root() {
    let c = MasterKeyResolver::local_state_candidates("a\\b");
    assert_eq!(c, vec!["a\\Local State".to_string()]);
    assert_eq!(MasterKeyResolver::local_state_candidates("plain").len(), 0);
}

#[test]
fn master_key_fails_open() {
    assert_eq!(
        MasterKeyResolver::master_key_from_unwrap(UnwrapOutcome::Plain(vec![1u8; 32])),
        Some(vec![1u8; 32])
    );
    assert_eq!(MasterKeyResolver::master_key_from_unwrap(UnwrapOutcome::Plain(Vec::new())), None);
    assert_eq!(MasterKeyResolver::master_key_from_unwrap(UnwrapOutcome::Refused), None);
    assert_eq!(MasterKeyResolver::master_key_from_unwrap(UnwrapOutcome::Faulted), None);
}

#[test]
fn master_key_must_have_exactly_32_bytes() {
    // An unwrap of any other size is no key: the store falls back to legacy
    // decryption rather than carrying a malformed master key.
    assert_eq!(MasterKeyResolver::master_key_from_unwrap(UnwrapOutcome::Plain(vec![7u8; 1])), None);
    assert_eq!(MasterKeyResolver::master_key_from_unwrap(UnwrapOutcome::Plain(vec![7u8; 31])), None);
    assert_eq!(MasterKeyResolver::master_key_from_unwrap(UnwrapOutcome::Plain(vec![7u8; 33])), None);
    assert_eq!(
        MasterKeyResolver::master_key_from_unwrap(UnwrapOutcome::Plain(vec![7u8; 32])),
        Some(vec![7u8; 32])
    );
}
