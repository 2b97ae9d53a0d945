use aes_gcm::aead::Aead;
use aes_gcm::{Aes256Gcm, KeyInit, Nonce};
use hardware_password_manager::aes::{
    decrypt_password, encrypt_password, seal_password, CryptoError, MAX_PASSWORD_LEN,
    MIN_PACKET_LEN, NONCE_LEN, TAG_LEN,
};

fn packet_from(bytes: &[u8]) -> heapless::Vec<u8, 128> {
    heapless::Vec::from_slice(bytes).unwrap()
}

#[test]
fn encrypted_password_decrypts_back() {
    let mut packet = encrypt_password("EmbeddedRust").unwrap();
    let plain = decrypt_password(&mut packet).unwrap();
    assert_eq!(plain, b"EmbeddedRust");
}

#[test]
fn packet_is_nonce_ciphertext_and_tag() {
    let packet = encrypt_password("EmbeddedRust").unwrap();
    assert_eq!(packet.len(), "EmbeddedRust".len() + MIN_PACKET_LEN);
    assert_eq!(MIN_PACKET_LEN, NONCE_LEN + TAG_LEN);
    // the encrypted part differs from the password itself
    assert_ne!(&packet[NONCE_LEN..NONCE_LEN + 12], b"EmbeddedRust");
}

#[test]
fn sealing_matches_aes_256_gcm_with_the_vault_key() {
    let nonce = [7u8; 12];
    let packet = seal_password(&nonce, "hunter2").unwrap();
    let cipher = Aes256Gcm::new(&[100u8; 32].into());
    let expected = cipher
        .encrypt(Nonce::from_slice(&nonce), b"hunter2".as_ref())
        .unwrap();
    assert_eq!(&packet[..NONCE_LEN], &nonce[..]);
    assert_eq!(&packet[NONCE_LEN..], &expected[..]);
}

#[test]
fn sealing_is_deterministic_for_a_nonce() {
    let nonce = [1u8, 2, 3, 4, 5, 6, 7, 8, 9, 10, 11, 12];
    let a = seal_password(&nonce, "secret").unwrap();
    let b = seal_password(&nonce, "secret").unwrap();
    assert_eq!(a, b);
    let c = seal_password(&[0u8; 12], "secret").unwrap();
    assert_ne!(a, c);
}

#[test]
fn fresh_nonces_differ() {
    let mut a = encrypt_password("same").unwrap();
    let mut b = encrypt_password("same").unwrap();
    assert_ne!(&a[..NONCE_LEN], &b[..NONCE_LEN]);
    assert_eq!(decrypt_password(&mut a).unwrap(), b"same");
    assert_eq!(decrypt_password(&mut b).unwrap(), b"same");
}

#[test]
fn empty_password_round_trips() {
    let mut packet = encrypt_password("").unwrap();
    assert_eq!(packet.len(), MIN_PACKET_LEN);
    assert!(decrypt_password(&mut packet).unwrap().is_empty());
}

#[test]
fn longest_password_round_trips() {
    let password = "x".repeat(MAX_PASSWORD_LEN);
    let mut packet = encrypt_password(&password).unwrap();
    assert_eq!(packet.len(), 128);
    assert_eq!(decrypt_password(&mut packet).unwrap(), password.as_bytes());
}

#[test]
fn non_ascii_password_round_trips() {
    let mut packet = encrypt_password("Grüße€").unwrap();
    assert_eq!(packet.len(), "Grüße€".len() + MIN_PACKET_LEN);
    assert_eq!(decrypt_password(&mut packet).unwrap(), "Grüße€".as_bytes());
}

#[test]
fn short_packet_is_rejected() {
    let mut packet = packet_from(&[0u8; 27]);
    assert_eq!(decrypt_password(&mut packet), Err(CryptoError::PacketTooShort));
    let mut empty = packet_from(&[]);
    assert_eq!(decrypt_password(&mut empty), Err(CryptoError::PacketTooShort));
}

#[test]
fn tampered_ciphertext_is_rejected() {
    let packet = encrypt_password("EmbeddedRust").unwrap();
    let mut bytes = packet.to_vec();
    bytes[NONCE_LEN] ^= 0x01;
    assert_eq!(
        decrypt_password(&mut packet_from(&bytes)),
        Err(CryptoError::AuthenticationFailed)
    );
}

#[test]
fn tampered_tag_and_nonce_are_rejected() {
    let packet = encrypt_password("EmbeddedRust").unwrap();
    let mut bad_tag = packet.to_vec();
    let last = bad_tag.len() - 1;
    bad_tag[last] ^= 0x80;
    assert_eq!(
        decrypt_password(&mut packet_from(&bad_tag)),
        Err(CryptoError::AuthenticationFailed)
    );
    let mut bad_nonce = packet.to_vec();
    bad_nonce[0] ^= 0xff;
    assert_eq!(
        decrypt_password(&mut packet_from(&bad_nonce)),
        Err(CryptoError::AuthenticationFailed)
    );
}

#[test]
fn bare_nonce_and_tag_of_zeros_are_rejected() {
    let mut packet = packet_from(&[0u8; 28]);
    assert_eq!(
        decrypt_password(&mut packet),
        Err(CryptoError::AuthenticationFailed)
    );
}

#[test]
fn decryption_happens_in_place() {
    let nonce = [9u8; 12];
    let mut packet = seal_password(&nonce, "EmbeddedRust").unwrap();
    let original = packet.clone();
    let plain = decrypt_password(&mut packet).unwrap().to_vec();
    assert_eq!(plain, b"EmbeddedRust".to_vec());
    assert_eq!(plain.len(), original.len() - MIN_PACKET_LEN);
    assert_eq!(packet.len(), original.len());
    assert_eq!(&packet[..NONCE_LEN], &original[..NONCE_LEN]);
    assert_eq!(&packet[NONCE_LEN..NONCE_LEN + 12], b"EmbeddedRust");
    assert_eq!(&packet[NONCE_LEN + 12..], &original[NONCE_LEN + 12..]);
}

#[test]
fn failed_decryption_leaves_packet_alone() {
    let mut packet = encrypt_password("EmbeddedRust").unwrap();
    packet[15] ^= 0x01;
    let before = packet.clone();
    assert_eq!(
        decrypt_password(&mut packet),
        Err(CryptoError::AuthenticationFailed)
    );
    assert_eq!(packet, before);
}
