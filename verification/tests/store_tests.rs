use aes_gcm::aead::Aead;
use aes_gcm::KeyInit;
use magnet::cipher::UnwrapOutcome;
use magnet::store::ChromiumStoreReader;
use magnet::store::EncryptedRecord;
use magnet::store::SchemeTag;

fn sealed_blob(key: &[u8; 32], nonce: &[u8; 12], pt: &[u8]) -> Vec<u8> {
    let cipher = aes_gcm::Aes256Gcm::new_from_slice(key).unwrap();
    let nonce_arr = aes_gcm::Nonce::try_from(&nonce[..]).unwrap();
    let ct = cipher.encrypt(&nonce_arr, pt).unwrap();
    let mut raw = b"v10".to_vec();
    raw.extend_from_slice(&nonce[..]);
    raw.extend_from_slice(&ct);
    raw
}

fn record(origin: &str, user: &str, raw: Vec<u8>) -> EncryptedRecord {
    EncryptedRecord { origin: origin.to_string(), username: user.to_string(), raw }
}

#[test]
fn corrupted_row_yields_placeholder_and_one_error() {
    let key = [42u8; 32];
    let key_vec: Vec<u8> = key.to_vec();
    let mut corrupt = sealed_blob(&key, &[1u8; 12], b"pw-b");
    let last = corrupt.len() - 1;
    corrupt[last] ^= 0xFF;
    let rows = vec![
        record("https://a.example", "alice", sealed_blob(&key, &[0u8; 12], b"pw-a")),
        record("https://b.example", "bob", corrupt),
        record("https://c.example", "carol", sealed_blob(&key, &[2u8; 12], b"pw-c")),
    ];
    let outcomes = vec![UnwrapOutcome::Refused, UnwrapOutcome::Refused, UnwrapOutcome::Refused];
    let (entries, errors) = ChromiumStoreReader::read_rows(&rows, Some(&key_vec), &outcomes);

    // No record dropped: one entry per row, in order, row 1 a placeholder.
    assert_eq!(entries.len(), 3);
    assert_eq!(entries[0].origin, "https://a.example");
    assert_eq!(entries[0].secret, Some("pw-a".to_string()));
    assert_eq!(entries[1].username, "bob");
    assert_eq!(entries[1].secret, None);
    assert_eq!(entries[2].secret, Some("pw-c".to_string()));

    // Exactly one error, and it names the corrupted row.
    assert_eq!(errors, vec!["Decrypt failure for https://b.example".to_string()]);
}

#[test]
fn records_carry_their_scheme_tag() {
    let tagged = record("a", "b", b"v10............................".to_vec());
    assert_eq!(tagged.scheme_tag(), SchemeTag::Aead);
    let v11 = record("a", "b", b"v11............................".to_vec());
    assert_eq!(v11.scheme_tag(), SchemeTag::Aead);
    let legacy = record("a", "b", b"v12 or anything else".to_vec());
    assert_eq!(legacy.scheme_tag(), SchemeTag::Legacy);
    assert_eq!(record("a", "b", Vec::new()).scheme_tag(), SchemeTag::Legacy);
}

#[test]
fn keyless_store_falls_back_to_platform_outcomes() {
    let rows = vec![
        record("https://old.example", "dora", b"legacy-bytes".to_vec()),
        record("https://older.example", "evan", b"legacy-too".to_vec()),
    ];
    let outcomes = vec![
        UnwrapOutcome::Plain(b"old secret".to_vec()),
        UnwrapOutcome::Refused,
    ];
    let (entries, errors) = ChromiumStoreReader::read_rows(&rows, None, &outcomes);
    assert_eq!(entries.len(), 2);
    assert_eq!(entries[0].secret, Some("old secret".to_string()));
    assert_eq!(entries[1].secret, None);
    assert!(errors.is_empty());
}

#[test]
fn every_row_failing_still_returns_every_row() {
    let rows = vec![
        record("u1", "n1", b"v10".to_vec().into_iter().chain([0u8; 20]).collect()),
        record("u2", "n2", b"v10".to_vec().into_iter().chain([1u8; 20]).collect()),
    ];
    let outcomes = vec![UnwrapOutcome::Faulted, UnwrapOutcome::Faulted];
    // AEAD-tagged rows without a key: KeyMissing on each.
    let (entries, errors) = ChromiumStoreReader::read_rows(&rows, None, &outcomes);
    assert_eq!(entries.len(), 2);
    assert!(entries.iter().all(|e| e.secret.is_none()));
    assert_eq!(
        errors,
        vec!["Decrypt failure for u1".to_string(), "Decrypt failure for u2".to_string()]
    );
}
