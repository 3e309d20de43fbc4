use clippy_core::encrypt::{
    encrypt_bytes_field, encrypt_clipboard, encrypt_text_field, looks_like_encrypted_data,
    ClipboardContent, EncryptionError, FieldUpdate, KeyStore,
};
use ring::aead::{Aad, LessSafeKey, Nonce, UnboundKey, AES_256_GCM};

fn key_for(password: &str) -> [u8; 32] {
    let d = ring::digest::digest(&ring::digest::SHA256, password.as_bytes());
    let mut k = [0u8; 32];
    k.copy_from_slice(d.as_ref());
    k
}

fn open(key: &[u8; 32], stored: &[u8]) -> Vec<u8> {
    let k = LessSafeKey::new(UnboundKey::new(&AES_256_GCM, key).unwrap());
    let mut nonce = [0u8; 12];
    nonce.copy_from_slice(&stored[..12]);
    let mut body = stored[12..].to_vec();
    let plain = k
        .open_in_place(Nonce::assume_unique_for_key(nonce), Aad::empty(), &mut body)
        .unwrap();
    plain.to_vec()
}

fn store_with(password: &str) -> KeyStore {
    let mut s = KeyStore::new();
    s.set_encryption_key(password);
    s
}

#[test]
fn looks_like_encrypted_data_needs_nonce_and_tag() {
    assert!(!looks_like_encrypted_data(&[]));
    assert!(!looks_like_encrypted_data(&[0u8; 27]));
    assert!(looks_like_encrypted_data(&[0u8; 28]));
    assert!(!looks_like_encrypted_data(&[0u8; 29]));
    assert!(!looks_like_encrypted_data(&[0u8; 43]));
    assert!(looks_like_encrypted_data(&[0u8; 44]));
    assert!(looks_like_encrypted_data(&[0u8; 60]));
}

#[test]
fn key_is_unset_until_a_password_is_given() {
    let mut s = KeyStore::new();
    assert!(!s.is_key_set());
    s.set_encryption_key("hunter2");
    assert!(s.is_key_set());
}

#[test]
fn encrypt_without_key_fails_with_no_key() {
    let s = KeyStore::new();
    assert_eq!(s.encrypt_data(b"hello"), Err(EncryptionError::NoKey));
}

#[test]
fn encrypt_data_seals_under_the_password_digest() {
    let s = store_with("correct horse");
    let data = b"some clipboard text";
    let out = s.encrypt_data(data).unwrap();
    assert_eq!(out.len(), 12 + data.len() + 16);
    assert_eq!(open(&key_for("correct horse"), &out), data.to_vec());
}

#[test]
fn encrypt_data_uses_fresh_nonces() {
    let s = store_with("pw");
    let a = s.encrypt_data(b"same").unwrap();
    let b = s.encrypt_data(b"same").unwrap();
    assert_ne!(a, b);
    assert_eq!(open(&key_for("pw"), &a), b"same".to_vec());
    assert_eq!(open(&key_for("pw"), &b), b"same".to_vec());
}

#[test]
fn encrypted_block_aligned_data_looks_encrypted() {
    let s = store_with("pw");
    let out = s.encrypt_data(&[7u8; 32]).unwrap();
    assert!(looks_like_encrypted_data(&out));
    let out = s.encrypt_data(&[7u8; 5]).unwrap();
    assert!(!looks_like_encrypted_data(&out));
    let out = s.encrypt_data(&[]).unwrap();
    assert_eq!(out.len(), 28);
    assert!(looks_like_encrypted_data(&out));
}

#[test]
fn changing_the_password_changes_the_key() {
    let mut s = store_with("first");
    s.set_encryption_key("second");
    let out = s.encrypt_data(b"x").unwrap();
    assert_eq!(open(&key_for("second"), &out), b"x".to_vec());
}

#[test]
fn already_encrypted_field_is_skipped() {
    let s = store_with("pw");
    assert_eq!(encrypt_bytes_field(&s, &[1u8; 28]), Ok(None));
    let none = KeyStore::new();
    assert_eq!(encrypt_bytes_field(&none, &[1u8; 44]), Ok(None));
    assert_eq!(encrypt_bytes_field(&none, &[1u8; 3]), Err(EncryptionError::NoKey));
}

#[test]
fn text_field_keeps_only_valid_utf8() {
    let s = store_with("pw");
    let r = encrypt_text_field(&s, "plain text").unwrap().unwrap();
    // Encrypted bytes are random; they read back as text only when they
    // happen to be UTF-8, else the field becomes empty.
    assert!(r.is_empty() || r.len() == 12 + "plain text".len() + 16);
}

#[test]
fn clipboard_without_key_reports_no_key_and_writes_nothing() {
    let s = KeyStore::new();
    let c = ClipboardContent {
        text: Some("hi".to_string()),
        html: None,
        rtf: None,
        image: Some(vec![1, 2, 3]),
    };
    let pass = encrypt_clipboard(&s, &c);
    assert!(pass.updates.is_empty());
    assert_eq!(pass.outcome, Err(EncryptionError::NoKey));
}

#[test]
fn clipboard_encrypts_pending_fields_in_order() {
    let s = store_with("pw");
    let image = vec![9u8; 16];
    let c = ClipboardContent {
        text: Some("hello".to_string()),
        html: Some("x".repeat(28)),
        rtf: Some("{\\rtf1}".to_string()),
        image: Some(image.clone()),
    };
    let pass = encrypt_clipboard(&s, &c);
    assert_eq!(pass.outcome, Ok(()));
    assert_eq!(pass.updates.len(), 3);
    assert!(matches!(pass.updates[0], FieldUpdate::Text(_)));
    assert!(matches!(pass.updates[1], FieldUpdate::Rtf(_)));
    match &pass.updates[2] {
        FieldUpdate::Image(v) => {
            assert_eq!(open(&key_for("pw"), v), image);
            assert!(looks_like_encrypted_data(v));
        }
        other => panic!("unexpected update {:?}", other),
    }
}

#[test]
fn clipboard_already_encrypted_is_left_alone() {
    let s = store_with("pw");
    let c = ClipboardContent {
        text: Some("y".repeat(44)),
        html: None,
        rtf: None,
        image: Some(vec![0u8; 60]),
    };
    let pass = encrypt_clipboard(&s, &c);
    assert!(pass.updates.is_empty());
    assert_eq!(pass.outcome, Ok(()));
    let empty = ClipboardContent { text: None, html: None, rtf: None, image: None };
    let pass = encrypt_clipboard(&KeyStore::new(), &empty);
    assert!(pass.updates.is_empty());
    assert_eq!(pass.outcome, Ok(()));
}

#[test]
fn seal_with_nonce_is_exact() {
    let key = key_for("pw");
    let nonce = [3u8; 12];
    let out = clippy_core::encrypt::seal_with_nonce(&key, nonce, b"abc").unwrap();
    let k = LessSafeKey::new(UnboundKey::new(&AES_256_GCM, &key).unwrap());
    let mut expected = b"abc".to_vec();
    k.seal_in_place_append_tag(Nonce::assume_unique_for_key(nonce), Aad::empty(), &mut expected)
        .unwrap();
    let mut full = nonce.to_vec();
    full.extend_from_slice(&expected);
    assert_eq!(out, full);
    assert_eq!(out.len(), 12 + 3 + 16);
    assert_eq!(open(&key, &out), b"abc".to_vec());
}
