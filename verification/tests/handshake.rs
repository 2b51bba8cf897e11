//! End-to-end tests of the ECIES handshake engine: round trips, sizes,
//! tamper detection, and the error taxonomy.

use ecies_handshake::api::{open_message, public_key_from_secret, round_trip, seal_message};
use ecies_handshake::ecies::EllipticCurveIES;
use ecies_handshake::errors::Error;

fn key_a() -> Vec<u8> {
    vec![0x01u8; 32]
}

fn key_b() -> Vec<u8> {
    vec![0x02u8; 32]
}

#[test]
fn round_trip_recovers_plaintext() {
    let msg = b"attack at dawn".to_vec();
    let out = round_trip(key_a(), key_b(), msg.clone()).unwrap();
    assert_eq!(out, msg);
}

#[test]
fn round_trip_empty_plaintext() {
    let out = round_trip(key_a(), key_b(), Vec::new()).unwrap();
    assert_eq!(out, Vec::<u8>::new());
}

#[test]
fn seal_then_open_matches_and_consumes_whole_frame() {
    let msg = b"framed payload bytes".to_vec();
    let b_pub = public_key_from_secret(&key_b()).unwrap();
    let frame = seal_message(key_a(), b_pub, msg.clone()).unwrap();
    assert_eq!(frame.len(), 115 + msg.len());
    let mut read: u16 = 0;
    let out = open_message(key_b(), frame.as_slice(), &mut read).unwrap();
    assert_eq!(out, msg);
    assert_eq!(read as usize, frame.len());
    let payload_size = u16::from_be_bytes([frame[0], frame[1]]);
    assert_eq!(read, payload_size + 2);
}

#[test]
fn example_end_to_end_sizes() {
    let b_pub = public_key_from_secret(&key_b()).unwrap();
    let msg = vec![0xABu8; 10];
    let frame = seal_message(key_a(), b_pub, msg).unwrap();
    assert_eq!(frame.len(), 125);
    assert_eq!(frame[0], 0x00);
    assert_eq!(frame[1], 0x7B);
}

#[test]
fn ciphertext_region_is_not_plaintext() {
    let b_pub = public_key_from_secret(&key_b()).unwrap();
    let msg = vec![0x00u8; 16];
    let frame = seal_message(key_a(), b_pub, msg.clone()).unwrap();
    assert_ne!(&frame[83..99], msg.as_slice());
}

#[test]
fn tamper_any_bit_in_ciphertext_or_tag_fails_with_invalid_tag() {
    let msg = b"ten bytes!".to_vec();
    let b_pub = public_key_from_secret(&key_b()).unwrap();
    let frame = seal_message(key_a(), b_pub, msg).unwrap();
    assert_eq!(frame.len(), 125);
    for idx in 83..frame.len() {
        for bit in 0..8 {
            let mut bad = frame.clone();
            bad[idx] ^= 1u8 << bit;
            let before = bad.clone();
            let mut read: u16 = 0;
            let out = open_message(key_b(), bad.as_slice(), &mut read);
            assert!(matches!(out, Err(Error::InvalidTag(_))));
            assert_eq!(bad, before);
        }
    }
}

#[test]
fn garbled_ephemeral_key_fails_with_invalid_public_key() {
    let msg = b"some payload".to_vec();
    let b_pub = public_key_from_secret(&key_b()).unwrap();
    let mut frame = seal_message(key_a(), b_pub, msg).unwrap();
    for i in 2..67 {
        frame[i] = 0xFF;
    }
    let mut read: u16 = 0;
    let out = open_message(key_b(), frame.as_slice(), &mut read);
    assert!(matches!(out, Err(Error::InvalidPublicKey)));
}

#[test]
fn short_buffer_fails_with_decoder_error() {
    let mut read: u16 = 0;
    let out = open_message(key_b(), &[0x00], &mut read);
    assert!(matches!(out, Err(Error::Decoder)));
    let out = open_message(key_b(), &[0x00, 0x70, 0x01, 0x02], &mut read);
    assert!(matches!(out, Err(Error::Decoder)));
}

#[test]
fn invalid_keys_are_rejected() {
    assert!(matches!(
        public_key_from_secret(&vec![0u8; 32]),
        Err(Error::InvalidPublicKey)
    ));
    assert!(matches!(
        public_key_from_secret(&vec![1u8; 31]),
        Err(Error::InvalidPublicKey)
    ));
    let out = EllipticCurveIES::try_new(vec![0u8; 32], vec![4u8; 65]);
    assert!(matches!(out, Err(Error::InvalidPublicKey)));
}

#[test]
fn engine_decrypt_captures_auth_response() {
    let msg = b"auth ack".to_vec();
    let b_pub = public_key_from_secret(&key_b()).unwrap();
    let a_engine = EllipticCurveIES::try_new(key_a(), b_pub).unwrap();
    let mut frame: Vec<u8> = Vec::new();
    let written = a_engine.encrypt_data(msg.clone(), &mut frame).unwrap();
    assert_eq!(written, frame.len());

    let a_pub = public_key_from_secret(&key_a()).unwrap();
    let mut b_engine = EllipticCurveIES::try_new(key_b(), a_pub).unwrap();
    let mut read: u16 = 0;
    let out = b_engine.decrypt_data(frame.as_slice(), &mut read).unwrap();
    assert_eq!(out, msg);
    assert_eq!(read as usize, frame.len());
    assert_eq!(b_engine.auth_response, Some(frame.clone()));
}

#[test]
fn engine_fields_are_well_formed() {
    let b_pub = public_key_from_secret(&key_b()).unwrap();
    let engine = EllipticCurveIES::try_new(key_a(), b_pub.clone()).unwrap();
    assert_eq!(engine.private_key, key_a());
    assert_eq!(engine.remote_public_key, b_pub);
    assert_eq!(engine.public_key, public_key_from_secret(&key_a()).unwrap());
    assert_eq!(engine.public_key[0], 4u8);
    assert_eq!(engine.nonce.len(), 32);
    assert_eq!(engine.shared_key.len(), 32);
    assert_eq!(engine.private_ephemeral_key.len(), 32);
    assert!(engine.auth.is_none());
    assert!(engine.auth_response.is_none());
}

#[test]
fn encrypt_reports_bytes_written_not_buffer_total() {
    let msg = b"appended after a prefix".to_vec();
    let b_pub = public_key_from_secret(&key_b()).unwrap();
    let engine = EllipticCurveIES::try_new(key_a(), b_pub).unwrap();
    let mut out = vec![0xEEu8; 7];
    let written = engine.encrypt_data(msg.clone(), &mut out).unwrap();
    assert_eq!(written, 115 + msg.len());
    assert_eq!(out.len(), 7 + written);
}

#[test]
fn two_seals_of_one_message_differ() {
    let b_pub = public_key_from_secret(&key_b()).unwrap();
    let msg = b"deterministic?".to_vec();
    let f1 = seal_message(key_a(), b_pub.clone(), msg.clone()).unwrap();
    let f2 = seal_message(key_a(), b_pub, msg).unwrap();
    assert_ne!(f1, f2);
}
