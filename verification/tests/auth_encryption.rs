use rand::rngs::OsRng;
use zk_token_sdk::encryption::auth_encryption::{AeCiphertext, AeKey};

fn key_from_bytes(bytes: [u8; 16]) -> AeKey {
    AeKey::from_json(format!("{:?}", bytes).as_bytes()).unwrap()
}

#[test]
fn test_aes_encrypt_decrypt_correctness() {
    let key = AeKey::random(&mut OsRng);
    let amount = 55;

    let ct = key.encrypt(amount);
    let decrypted_amount = ct.decrypt(&key).unwrap();

    assert_eq!(amount, decrypted_amount);
}

#[test]
fn test_encrypt_decrypt_boundary_amounts() {
    let key = AeKey::random(&mut OsRng);
    for amount in [0_u64, 1, 55, u64::MAX - 1, u64::MAX] {
        let ct = key.encrypt(amount);
        assert_eq!(key.decrypt(&ct), Some(amount));
        assert_eq!(ct.decrypt(&key), Some(amount));
    }
}

#[test]
fn test_encrypt_with_nonce_known_answer() {
    // RFC 8452, appendix C.1: plaintext 0100000000000000
    let mut key_bytes = [0_u8; 16];
    key_bytes[0] = 1;
    let key = key_from_bytes(key_bytes);
    let mut nonce = [0_u8; 12];
    nonce[0] = 3;

    let ct = key.encrypt_with_nonce(nonce, 1);

    assert_eq!(ct.nonce, nonce);
    assert_eq!(
        ct.ciphertext,
        [
            0xb5, 0xd8, 0x39, 0x33, 0x0a, 0xc7, 0xb7, 0x86, 0x57, 0x87, 0x82, 0xff, 0xf6, 0x01,
            0x3b, 0x81, 0x5b, 0x28, 0x7c, 0x22, 0x49, 0x3a, 0x36, 0x4c,
        ]
    );
    assert_eq!(key.decrypt(&ct), Some(1));
}

#[test]
fn test_encrypt_with_nonce_is_a_function_of_its_arguments() {
    let key = key_from_bytes([9; 16]);
    let first = key.encrypt_with_nonce([4; 12], 1_000_000);
    let second = key.encrypt_with_nonce([4; 12], 1_000_000);
    assert_eq!(first.to_bytes(), second.to_bytes());

    let other_nonce = key.encrypt_with_nonce([5; 12], 1_000_000);
    assert_ne!(first.ciphertext, other_nonce.ciphertext);
    let other_amount = key.encrypt_with_nonce([4; 12], 1_000_001);
    assert_ne!(first.ciphertext, other_amount.ciphertext);
}

#[test]
fn test_encrypt_draws_a_fresh_nonce() {
    let key = AeKey::random(&mut OsRng);
    let first = key.encrypt(77);
    let second = key.encrypt(77);
    assert_ne!(first.nonce, second.nonce);
    assert_ne!(first.to_bytes(), second.to_bytes());
    assert_eq!(key.decrypt(&first), Some(77));
    assert_eq!(key.decrypt(&second), Some(77));
}

#[test]
fn test_decrypt_under_another_key_fails() {
    let key = key_from_bytes([1; 16]);
    let other = key_from_bytes([2; 16]);
    let ct = key.encrypt(55);
    assert_eq!(other.decrypt(&ct), None);
    assert_eq!(ct.decrypt(&other), None);
    assert_eq!(key.decrypt(&ct), Some(55));
}

#[test]
fn test_decrypt_of_altered_ciphertext_fails() {
    let key = AeKey::random(&mut OsRng);
    let ct = key.encrypt(55);

    for position in 0..24 {
        let mut altered = ct;
        altered.ciphertext[position] ^= 1;
        assert_eq!(key.decrypt(&altered), None);
    }
    for position in 0..12 {
        let mut altered = ct;
        altered.nonce[position] ^= 0x80;
        assert_eq!(key.decrypt(&altered), None);
    }
    assert_eq!(key.decrypt(&AeCiphertext::default()), None);
}

#[test]
fn test_random_keys_differ() {
    let first = AeKey::random(&mut OsRng);
    let second = AeKey::random(&mut OsRng);
    assert_ne!(first.to_json(), second.to_json());
}

#[test]
fn test_ciphertext_to_bytes_layout() {
    let mut nonce = [0_u8; 12];
    let mut ciphertext = [0_u8; 24];
    for i in 0..12 {
        nonce[i] = i as u8;
    }
    for i in 0..24 {
        ciphertext[i] = 100 + i as u8;
    }
    let ct = AeCiphertext { nonce, ciphertext };

    let bytes = ct.to_bytes();

    assert_eq!(bytes.len(), 36);
    assert_eq!(&bytes[..12], &nonce[..]);
    assert_eq!(&bytes[12..], &ciphertext[..]);
    assert_eq!(bytes[11], 11);
    assert_eq!(bytes[12], 100);
    assert_eq!(bytes[35], 123);
}

#[test]
fn test_ciphertext_from_bytes_inverts_to_bytes() {
    let key = AeKey::random(&mut OsRng);
    let ct = key.encrypt(123_456_789);

    let read = AeCiphertext::from_bytes(&ct.to_bytes()).unwrap();

    assert_eq!(read.nonce, ct.nonce);
    assert_eq!(read.ciphertext, ct.ciphertext);
    assert_eq!(read.decrypt(&key), Some(123_456_789));

    let bytes: Vec<u8> = (0..36).collect();
    let parsed = AeCiphertext::from_bytes(&bytes).unwrap();
    assert_eq!(parsed.nonce, [0, 1, 2, 3, 4, 5, 6, 7, 8, 9, 10, 11]);
    assert_eq!(parsed.ciphertext[0], 12);
    assert_eq!(parsed.ciphertext[23], 35);
    assert_eq!(parsed.to_bytes().to_vec(), bytes);
}

#[test]
fn test_ciphertext_from_bytes_rejects_other_lengths() {
    for len in [0_usize, 1, 12, 24, 35, 37, 48, 72] {
        assert!(AeCiphertext::from_bytes(&vec![0_u8; len]).is_none());
    }
    assert!(AeCiphertext::from_bytes(&[0_u8; 36]).is_some());
}

#[test]
fn test_ciphertext_default_is_all_zero() {
    let ct = AeCiphertext::default();
    assert_eq!(ct.nonce, [0; 12]);
    assert_eq!(ct.ciphertext, [0; 24]);
    assert_eq!(ct.to_bytes(), [0; 36]);
}

#[test]
fn test_ciphertext_to_string_is_base64() {
    let bytes: Vec<u8> = (0..36).collect();
    let ct = AeCiphertext::from_bytes(&bytes).unwrap();
    assert_eq!(ct.to_string(), "AAECAwQFBgcICQoLDA0ODxAREhMUFRYXGBkaGxwdHh8gISIj");

    assert_eq!(
        AeCiphertext::default().to_string(),
        "AAAAAAAAAAAAAAAAAAAAAAAAAAAAAAAAAAAAAAAAAAAAAAAA"
    );
    let ones = AeCiphertext { nonce: [255; 12], ciphertext: [255; 24] };
    assert_eq!(ones.to_string(), "////////////////////////////////////////////////");
}
