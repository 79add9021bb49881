use aes_gcm::aead::Aead;
use aes_gcm::KeyInit;
use magnet::cipher::BlobCipher;
use magnet::cipher::DecryptError;
use magnet::cipher::UnwrapOutcome;

fn encrypt_v10(key: &[u8; 32], nonce: &[u8; 12], pt: &[u8]) -> Vec<u8> {
    let cipher = aes_gcm::Aes256Gcm::new_from_slice(key).unwrap();
    let nonce_arr = aes_gcm::Nonce::try_from(&nonce[..]).unwrap();
    let ct = cipher.encrypt(&nonce_arr, pt).unwrap();
    let mut raw = b"v10".to_vec();
    raw.extend_from_slice(&nonce[..]);
    raw.extend_from_slice(&ct);
    raw
}

#[test]
fn known_vector_round_trips() {
    let key = [7u8; 32];
    let nonce = [1u8; 12];
    let raw = encrypt_v10(&key, &nonce, b"hunter2 password");
    let key_vec: Vec<u8> = key.to_vec();
    let r = BlobCipher::decrypt_tagged(&raw, Some(&key_vec));
    assert_eq!(r, Ok(Some("hunter2 password".to_string())));
}

#[test]
fn flipping_any_tag_byte_fails_authentication() {
    let key = [9u8; 32];
    let nonce = [2u8; 12];
    let raw = encrypt_v10(&key, &nonce, b"secret");
    let key_vec: Vec<u8> = key.to_vec();
    // The trailing 16 bytes are the authentication tag.
    for i in raw.len() - 16..raw.len() {
        let mut tampered = raw.clone();
        tampered[i] ^= 0x01;
        let r = BlobCipher::decrypt_tagged(&tampered, Some(&key_vec));
        assert_eq!(r, Err(DecryptError::AuthenticationFailed));
    }
}

#[test]
fn v11_envelope_decrypts_too() {
    let key = [3u8; 32];
    let nonce = [4u8; 12];
    let mut raw = encrypt_v10(&key, &nonce, b"x");
    raw[2] = b'1'; // the marker becomes "v11"; nonce and ciphertext are unchanged
    let key_vec: Vec<u8> = key.to_vec();
    let r = BlobCipher::decrypt_tagged(&raw, Some(&key_vec));
    assert_eq!(r, Ok(Some("x".to_string())));
}

#[test]
fn short_tagged_blob_is_absent_not_error() {
    let key_vec: Vec<u8> = vec![0u8; 32];
    // A v10 marker with fewer than 12 trailing bytes: no room for a nonce.
    for extra in 0..12 {
        let mut raw = b"v10".to_vec();
        raw.extend(std::iter::repeat(0xAAu8).take(extra));
        assert_eq!(BlobCipher::decrypt_tagged(&raw, Some(&key_vec)), Ok(None));
        assert_eq!(BlobCipher::decrypt_tagged(&raw, None), Ok(None));
        let outcome = UnwrapOutcome::Faulted;
        assert_eq!(BlobCipher::decrypt(&raw, None, &outcome), Ok(None));
    }
}

#[test]
fn missing_key_is_key_missing() {
    let raw = b"v10AAAAAAAAAAAABBBBBBBBBBBBBBBBBBBB".to_vec();
    assert_eq!(BlobCipher::decrypt_tagged(&raw, None), Err(DecryptError::KeyMissing));
}

#[test]
fn wrong_key_length_is_key_length_invalid() {
    let raw = b"v10AAAAAAAAAAAABBBBBBBBBBBBBBBBBBBB".to_vec();
    let short_key: Vec<u8> = vec![1u8; 16];
    assert_eq!(
        BlobCipher::decrypt_tagged(&raw, Some(&short_key)),
        Err(DecryptError::KeyLengthInvalid)
    );
}

#[test]
fn legacy_blob_follows_platform_outcome() {
    let raw = b"not tagged".to_vec();
    let plain = UnwrapOutcome::Plain(b"legacy secret".to_vec());
    assert_eq!(BlobCipher::decrypt(&raw, None, &plain), Ok(Some("legacy secret".to_string())));
    let empty = UnwrapOutcome::Plain(Vec::new());
    assert_eq!(BlobCipher::decrypt(&raw, None, &empty), Ok(None));
    let refused = UnwrapOutcome::Refused;
    assert_eq!(BlobCipher::decrypt(&raw, None, &refused), Ok(None));
    let faulted = UnwrapOutcome::Faulted;
    assert_eq!(BlobCipher::decrypt(&raw, None, &faulted), Err(DecryptError::PlatformUnwrapFailed));
}

#[test]
fn repeated_decryption_is_identical() {
    let key = [5u8; 32];
    let nonce = [6u8; 12];
    let raw = encrypt_v10(&key, &nonce, b"same in, same out");
    let key_vec: Vec<u8> = key.to_vec();
    let first = BlobCipher::decrypt(&raw, Some(&key_vec), &UnwrapOutcome::Refused);
    let second = BlobCipher::decrypt(&raw, Some(&key_vec), &UnwrapOutcome::Refused);
    assert_eq!(first, second);
    // For a tagged blob the platform outcome plays no part at all.
    let third = BlobCipher::decrypt(&raw, Some(&key_vec), &UnwrapOutcome::Faulted);
    assert_eq!(first, third);
    // The input blob is untouched.
    let again = encrypt_v10(&key, &nonce, b"same in, same out");
    assert_eq!(raw, again);
}
