use base64::Engine;
use the_handler::crypto::{checked_decrypt, decrypt, encrypt, seal_token, EncryptionError};

fn key() -> Vec<u8> {
    (0u8..32).collect()
}

#[test]
fn test_encrypt() {
    let result = encrypt(&key(), "secret");
    assert!(result.is_ok());
}

#[test]
fn test_decrypt() {
    let encrypted = encrypt(&key(), "secret").unwrap();
    let result = decrypt(&key(), &encrypted);
    assert!(result.is_ok());
    assert_eq!(result.unwrap(), "secret");
}

#[test]
fn sealing_is_nonce_then_ciphertext_in_base64() {
    let nonce = [7u8; 12];
    let sealed = seal_token(&key(), &nonce, "token").unwrap();
    // 12 nonce bytes + 5 plaintext bytes + 16 tag bytes = 33 bytes = 44 base64 chars
    assert_eq!(sealed.len(), 44);
    assert!(sealed.starts_with("BwcHBwcHBwcHBwcH"));
    assert_eq!(seal_token(&key(), &nonce, "token").unwrap(), sealed);
    assert_eq!(decrypt(&key(), &sealed), Ok("token".to_string()));
}

#[test]
fn fresh_nonces_differ() {
    let a = encrypt(&key(), "same").unwrap();
    let b = encrypt(&key(), "same").unwrap();
    assert_ne!(a, b);
    assert_eq!(decrypt(&key(), &a).unwrap(), "same");
    assert_eq!(decrypt(&key(), &b).unwrap(), "same");
}

#[test]
fn empty_and_unicode_tokens_round_trip() {
    for t in ["", "refresh/токен/🔑"] {
        let sealed = encrypt(&key(), t).unwrap();
        assert_eq!(decrypt(&key(), &sealed).unwrap(), t);
    }
}

#[test]
fn not_base64_is_a_decode_error() {
    assert_eq!(decrypt(&key(), "not base64!"), Err(EncryptionError::Decode));
}

#[test]
fn wrong_key_is_a_decrypt_error() {
    let sealed = encrypt(&key(), "secret").unwrap();
    let other: Vec<u8> = vec![1u8; 32];
    assert_eq!(decrypt(&other, &sealed), Err(EncryptionError::Decrypt));
}

#[test]
fn tampered_token_is_a_decrypt_error() {
    let nonce = [0u8; 12];
    let sealed = seal_token(&key(), &nonce, "secret").unwrap();
    let mut chars: Vec<char> = sealed.chars().collect();
    let i = 20;
    chars[i] = if chars[i] == 'A' { 'B' } else { 'A' };
    let tampered: String = chars.into_iter().collect();
    assert_eq!(decrypt(&key(), &tampered), Err(EncryptionError::Decrypt));
}

#[test]
fn short_token_is_refused_before_decrypting() {
    // "AAAA" decodes to 3 bytes, fewer than a nonce
    assert_eq!(checked_decrypt(&key(), "AAAA"), None);
    let sealed = encrypt(&key(), "x").unwrap();
    assert_eq!(checked_decrypt(&key(), &sealed), Some(Ok("x".to_string())));
    assert_eq!(checked_decrypt(&key(), "%%%"), Some(Err(EncryptionError::Decode)));
}

#[test]
fn sealed_token_is_nonce_ciphertext_and_tag() {
    let sealed = encrypt(&key(), "secret").unwrap();
    let bytes = base64::engine::general_purpose::STANDARD.decode(&sealed).unwrap();
    assert_eq!(bytes.len(), 12 + 6 + 16);
}
