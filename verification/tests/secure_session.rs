use drriga_agent::secure_session::{SecureSession, SessionError};
use rand_core::OsRng;
use x25519_dalek::{EphemeralSecret, PublicKey};

const EXPECTED_PACKET: [u8; 63] = [
    0, 0, 0, 0, 0, 0, 0, 1, 141, 221, 122, 210, 227, 161, 162, 244, 147, 245, 12, 5, 39, 132, 56,
    48, 115, 78, 237, 53, 231, 2, 5, 88, 212, 97, 128, 67, 58, 226, 140, 184, 166, 102, 9, 194,
    220, 92, 204, 226, 91, 205, 108, 176, 243, 130, 28, 34, 139, 45, 16, 141, 197, 164, 61,
];

fn fixed_session() -> SecureSession {
    SecureSession::from_key_agreement([1u8; 32], &[2u8; 32], [3u8; 32]).unwrap()
}

#[test]
fn handshake_and_roundtrip() {
    let server_secret = EphemeralSecret::random_from_rng(OsRng);
    let server_public = PublicKey::from(&server_secret);

    let mut client = SecureSession::negotiate(server_public.as_bytes()).unwrap();

    let packet = client.encrypt_heartbeat("OK").unwrap();
    assert!(packet.len() > 8);
}

#[test]
fn replay_is_rejected() {
    let server_secret = EphemeralSecret::random_from_rng(OsRng);
    let server_public = PublicKey::from(&server_secret);
    let mut session = SecureSession::negotiate(server_public.as_bytes()).unwrap();

    assert!(session.verify_sequence(1));
    session.recv_sequence = 5;
    assert!(!session.verify_sequence(5));
    assert!(!session.verify_sequence(3));
    assert!(session.verify_sequence(6));
}

#[test]
fn both_sides_of_a_real_handshake_share_the_key() {
    let server_secret = EphemeralSecret::random_from_rng(OsRng);
    let server_public = PublicKey::from(&server_secret);
    let mut client = SecureSession::negotiate(server_public.as_bytes()).unwrap();

    let client_public = client.client_public_key();
    let shared = server_secret.diffie_hellman(&PublicKey::from(client_public));
    let mut server =
        SecureSession::from_key_agreement(client_public, server_public.as_bytes(), shared.to_bytes())
            .unwrap();

    let packet = client.encrypt_heartbeat_at("OK", 42).unwrap();
    let plaintext = server.decrypt_and_verify(&packet).unwrap();
    assert_eq!(plaintext, br#"{"status":"OK","seq":1,"ts":42}"#.to_vec());
    assert_eq!(server.recv_sequence, 1);
}

#[test]
fn negotiate_refuses_all_zero_server_key() {
    match SecureSession::negotiate(&[0u8; 32]) {
        Err(e) => assert_eq!(e, SessionError::KeyDerivationFailed),
        Ok(_) => panic!("an all-zero public key gives an all-zero shared secret"),
    }
}

#[test]
fn all_zero_shared_secret_is_refused() {
    assert!(matches!(
        SecureSession::from_key_agreement([1u8; 32], &[2u8; 32], [0u8; 32]),
        Err(SessionError::KeyDerivationFailed)
    ));
}

#[test]
fn heartbeat_packet_matches_known_answer() {
    let mut session = fixed_session();
    let packet = session.encrypt_heartbeat_at("OK", 1700000000).unwrap();
    assert_eq!(packet, EXPECTED_PACKET.to_vec());
}

#[test]
fn heartbeat_sequence_numbers_increase() {
    let mut session = fixed_session();
    let first = session.encrypt_heartbeat_at("OK", 7).unwrap();
    let second = session.encrypt_heartbeat_at("OK", 7).unwrap();
    assert_eq!(&first[..8], &[0, 0, 0, 0, 0, 0, 0, 1]);
    assert_eq!(&second[..8], &[0, 0, 0, 0, 0, 0, 0, 2]);
    assert_ne!(first[8..], second[8..]);
}

#[test]
fn peer_with_same_key_opens_heartbeat() {
    let mut sender = fixed_session();
    let mut receiver = fixed_session();
    let packet = sender.encrypt_heartbeat_at("DEGRADED", 1234).unwrap();
    let plaintext = receiver.decrypt_and_verify(&packet).unwrap();
    assert_eq!(plaintext, br#"{"status":"DEGRADED","seq":1,"ts":1234}"#.to_vec());
    assert_eq!(receiver.recv_sequence, 1);
}

#[test]
fn known_packet_decrypts() {
    let mut receiver = fixed_session();
    let plaintext = receiver.decrypt_and_verify(&EXPECTED_PACKET).unwrap();
    assert_eq!(plaintext, br#"{"status":"OK","seq":1,"ts":1700000000}"#.to_vec());
}

#[test]
fn accepted_packet_is_rejected_when_replayed() {
    let mut receiver = fixed_session();
    assert!(receiver.decrypt_and_verify(&EXPECTED_PACKET).is_ok());
    assert_eq!(
        receiver.decrypt_and_verify(&EXPECTED_PACKET),
        Err(SessionError::ReplayDetected)
    );
    assert_eq!(receiver.recv_sequence, 1);
}

#[test]
fn tampered_packet_fails_and_keeps_window() {
    let mut receiver = fixed_session();
    let mut tampered = EXPECTED_PACKET.to_vec();
    tampered[20] ^= 1;
    assert_eq!(receiver.decrypt_and_verify(&tampered), Err(SessionError::DecryptionFailed));
    assert_eq!(receiver.recv_sequence, 0);
    assert!(receiver.decrypt_and_verify(&EXPECTED_PACKET).is_ok());
}

#[test]
fn changed_sequence_header_fails_authentication() {
    let mut receiver = fixed_session();
    let mut moved = EXPECTED_PACKET.to_vec();
    moved[7] = 2;
    assert_eq!(receiver.decrypt_and_verify(&moved), Err(SessionError::DecryptionFailed));
}

#[test]
fn session_with_other_key_cannot_open() {
    let mut receiver =
        SecureSession::from_key_agreement([1u8; 32], &[2u8; 32], [4u8; 32]).unwrap();
    assert_eq!(
        receiver.decrypt_and_verify(&EXPECTED_PACKET),
        Err(SessionError::DecryptionFailed)
    );
}

#[test]
fn short_packet_is_invalid_sequence() {
    let mut receiver = fixed_session();
    assert_eq!(
        receiver.decrypt_and_verify(&[0, 0, 0, 1]),
        Err(SessionError::InvalidSequence)
    );
}

#[test]
fn old_sequence_number_is_replay() {
    let mut receiver = fixed_session();
    receiver.recv_sequence = 1;
    assert_eq!(
        receiver.decrypt_and_verify(&EXPECTED_PACKET),
        Err(SessionError::ReplayDetected)
    );
}

#[test]
fn client_public_key_is_kept() {
    let session = fixed_session();
    assert_eq!(session.client_public_key(), [1u8; 32]);
}

#[test]
fn errors_describe_their_variant() {
    assert_eq!(SessionError::ReplayDetected.describe(), "ReplayDetected");
    assert_eq!(SessionError::KeyDerivationFailed.describe(), "KeyDerivationFailed");
}

#[test]
fn nonce_is_four_zero_bytes_then_sequence() {
    assert_eq!(
        SecureSession::seq_to_nonce(0x0102_0304_0506_0708),
        [0, 0, 0, 0, 1, 2, 3, 4, 5, 6, 7, 8]
    );
    assert_ne!(SecureSession::seq_to_nonce(1), SecureSession::seq_to_nonce(2));
}

#[test]
fn heartbeat_packet_length_is_header_plaintext_and_tag() {
    let mut session = fixed_session();
    let packet = session.encrypt_heartbeat_at("OK", 42).unwrap();
    let plaintext_len = br#"{"status":"OK","seq":1,"ts":42}"#.len();
    assert_eq!(packet.len(), 8 + plaintext_len + 16);
}

#[test]
fn replay_is_rejected_after_other_traffic() {
    let mut sender = fixed_session();
    let mut receiver = fixed_session();
    let first = sender.encrypt_heartbeat_at("OK", 1).unwrap();
    let second = sender.encrypt_heartbeat_at("OK", 2).unwrap();
    assert!(receiver.decrypt_and_verify(&first).is_ok());
    assert!(receiver.encrypt_heartbeat_at("OK", 3).is_ok());
    assert!(receiver.decrypt_and_verify(&second).is_ok());
    assert_eq!(receiver.decrypt_and_verify(&first), Err(SessionError::ReplayDetected));
    assert_eq!(receiver.decrypt_and_verify(&second), Err(SessionError::ReplayDetected));
}
