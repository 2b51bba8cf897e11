//! Tests of the structured message codecs: exact encodings, round trips,
//! and decode failures that must be typed errors, never panics.

use ecies_handshake::api::public_key_from_secret;
use ecies_handshake::constants::{PROTOCOL_VERSION, ZERO_HEADER};
use ecies_handshake::errors::Error;
use ecies_handshake::messages::{Capability, Disconnect, Hello};

fn node_id() -> Vec<u8> {
    public_key_from_secret(&vec![0x03u8; 32]).unwrap()
}

#[test]
fn constants_hold_their_published_values() {
    assert_eq!(PROTOCOL_VERSION, 5);
    assert_eq!(ZERO_HEADER, [0xC2, 0x80, 0x80]);
}

#[test]
fn capability_exact_encoding() {
    let cap = Capability { name: "a".to_string(), version: 1 };
    let mut out: Vec<u8> = Vec::new();
    cap.rlp_append(&mut out);
    assert_eq!(out, vec![0xC2, 0x61, 0x01]);
}

#[test]
fn capability_round_trip() {
    let cap = Capability { name: "eth".to_string(), version: 66 };
    let mut out: Vec<u8> = Vec::new();
    cap.rlp_append(&mut out);
    let back = Capability::decode(out.as_slice()).unwrap();
    assert_eq!(back.name, "eth");
    assert_eq!(back.version, 66);
}

#[test]
fn disconnect_exact_encoding_and_round_trip() {
    let d = Disconnect { reason: 3 };
    let mut out: Vec<u8> = Vec::new();
    d.rlp_append(&mut out);
    assert_eq!(out, vec![0xC1, 0x03]);
    let back = Disconnect::decode(out.as_slice()).unwrap();
    assert_eq!(back.reason, 3);
}

#[test]
fn disconnect_decode_rejects_garbage() {
    assert!(matches!(
        Disconnect::decode(&[0x82, 0x01, 0x02]),
        Err(Error::Decoder)
    ));
    assert!(matches!(Disconnect::decode(&[]), Err(Error::Decoder)));
}

#[test]
fn disconnect_decode_rejects_wrong_arity() {
    let mut s = rlp::RlpStream::new_list(2);
    s.append(&3usize);
    s.append(&4usize);
    let two_items = s.out().to_vec();
    assert!(matches!(
        Disconnect::decode(two_items.as_slice()),
        Err(Error::Decoder)
    ));
}

#[test]
fn capability_decode_rejects_wrong_arity() {
    let d = Disconnect { reason: 3 };
    let mut one_item: Vec<u8> = Vec::new();
    d.rlp_append(&mut one_item);
    assert!(matches!(
        Capability::decode(one_item.as_slice()),
        Err(Error::Decoder)
    ));
    assert!(matches!(Capability::decode(&[]), Err(Error::Decoder)));
}

#[test]
fn hello_decode_rejects_wrong_arity() {
    let mut s = rlp::RlpStream::new_list(6);
    s.append(&5usize);
    s.append(&"client".to_string());
    s.begin_list(0);
    s.append(&30303u16);
    s.append(&vec![0x11u8; 64]);
    s.append(&1usize);
    let six_items = s.out().to_vec();
    assert!(matches!(
        Hello::decode(six_items.as_slice()),
        Err(Error::Decoder)
    ));

    let d = Disconnect { reason: 2 };
    let mut one_item: Vec<u8> = Vec::new();
    d.rlp_append(&mut one_item);
    assert!(matches!(
        Hello::decode(one_item.as_slice()),
        Err(Error::Decoder)
    ));
}

#[test]
fn hello_round_trip_with_capabilities() {
    let hello = Hello {
        protocol_version: PROTOCOL_VERSION,
        client_version: "test-client/1.0".to_string(),
        capabilities: vec![
            Capability { name: "eth".to_string(), version: 66 },
            Capability { name: "snap".to_string(), version: 1 },
        ],
        port: 30303,
        id: node_id(),
    };
    let mut out: Vec<u8> = Vec::new();
    hello.rlp_append(&mut out);
    let back = Hello::decode(out.as_slice()).unwrap();
    assert_eq!(back.protocol_version, hello.protocol_version);
    assert_eq!(back.client_version, hello.client_version);
    assert_eq!(back.capabilities.len(), 2);
    assert_eq!(back.capabilities[0].name, "eth");
    assert_eq!(back.capabilities[0].version, 66);
    assert_eq!(back.capabilities[1].name, "snap");
    assert_eq!(back.capabilities[1].version, 1);
    assert_eq!(back.port, 30303);
    assert_eq!(back.id, hello.id);
}

#[test]
fn hello_round_trip_with_empty_capability_list() {
    let hello = Hello {
        protocol_version: PROTOCOL_VERSION,
        client_version: String::new(),
        capabilities: Vec::new(),
        port: 0,
        id: node_id(),
    };
    let mut out: Vec<u8> = Vec::new();
    hello.rlp_append(&mut out);
    let back = Hello::decode(out.as_slice()).unwrap();
    assert_eq!(back.capabilities.len(), 0);
    assert_eq!(back.port, 0);
    assert_eq!(back.id, hello.id);
}

#[test]
fn hello_decode_rejects_short_node_id() {
    let mut s = rlp::RlpStream::new_list(5);
    s.append(&5usize);
    s.append(&"client".to_string());
    s.begin_list(0);
    s.append(&30303u16);
    let short_id = vec![0x11u8; 63];
    s.append(&short_id);
    let bytes = s.out().to_vec();
    assert!(matches!(
        Hello::decode(bytes.as_slice()),
        Err(Error::InvalidPublicKey)
    ));
}

#[test]
fn hello_decode_rejects_node_id_off_the_curve() {
    let mut s = rlp::RlpStream::new_list(5);
    s.append(&5usize);
    s.append(&"client".to_string());
    s.begin_list(0);
    s.append(&30303u16);
    let bogus_id = vec![0xFFu8; 64];
    s.append(&bogus_id);
    let bytes = s.out().to_vec();
    assert!(matches!(
        Hello::decode(bytes.as_slice()),
        Err(Error::InvalidPublicKey)
    ));
}

#[test]
fn hello_decode_rejects_non_list_input() {
    assert!(matches!(
        Hello::decode(&[0x83, 0x61, 0x62, 0x63]),
        Err(Error::Decoder)
    ));
    assert!(matches!(Hello::decode(&[]), Err(Error::Decoder)));
}
