//! Tests of the live-channel state: running MAC determinism, per-direction
//! isolation, and the monotone stream-cipher counter.

use ecies_handshake::cipher::CipherState;
use ecies_handshake::mac::HashMac;
use ecies_handshake::secrets::Secrets;

fn make_secrets() -> Secrets {
    Secrets {
        aes_secret: vec![0x0Au8; 32],
        mac_secret: vec![0x0Bu8; 32],
        shared_secret: vec![0x0Cu8; 32],
        ingress_mac: HashMac::new(vec![0x0Bu8; 32], vec![0x01u8; 16]),
        egress_mac: HashMac::new(vec![0x0Bu8; 32], vec![0x01u8; 16]),
        ingress_aes: CipherState::new(vec![0x0Au8; 32], vec![0x02u8; 16]),
        egress_aes: CipherState::new(vec![0x0Au8; 32], vec![0x02u8; 16]),
    }
}

#[test]
fn running_mac_is_deterministic() {
    let mut m1 = HashMac::new(vec![0x0Bu8; 32], vec![0x01u8; 16]);
    let mut m2 = HashMac::new(vec![0x0Bu8; 32], vec![0x01u8; 16]);
    let block = vec![0x55u8; 16];
    m1.update(&block);
    m2.update(&block);
    assert_eq!(m1.digest(), m2.digest());
    m1.update(&block);
    m2.update(&block);
    assert_eq!(m1.digest(), m2.digest());
}

#[test]
fn running_mac_update_changes_digest() {
    let mut m = HashMac::new(vec![0x0Bu8; 32], vec![0x01u8; 16]);
    let before = m.digest();
    m.update(&vec![0x55u8; 16]);
    assert_ne!(m.digest(), before);
    assert_eq!(m.digest().len(), 16);
}

#[test]
fn directional_isolation_of_macs() {
    let mut s = make_secrets();
    let ingress_before = s.ingress_mac.digest();
    let block = vec![0x77u8; 16];
    s.update_egress_mac(&block);
    s.update_egress_mac(&block);
    assert_eq!(s.ingress_mac.digest(), ingress_before);
    assert_ne!(s.egress_mac.digest(), ingress_before);
}

#[test]
fn directional_isolation_of_ciphers() {
    let mut s = make_secrets();
    let mut outbound = vec![0x10u8; 24];
    s.apply_egress_cipher(&mut outbound);
    assert_eq!(s.egress_aes.processed, 24);
    assert_eq!(s.ingress_aes.processed, 0);

    let mut inbound = vec![0x10u8; 24];
    s.apply_ingress_cipher(&mut inbound);
    assert_eq!(outbound, inbound);
}

#[test]
fn cipher_round_trips_with_a_fresh_state() {
    let key = vec![0x0Au8; 32];
    let iv = vec![0x02u8; 16];
    let msg = b"stream cipher round trip".to_vec();
    let mut enc = CipherState::new(key.clone(), iv.clone());
    let mut data = msg.clone();
    enc.apply_keystream(&mut data);
    assert_ne!(data, msg);
    let mut dec = CipherState::new(key, iv);
    dec.apply_keystream(&mut data);
    assert_eq!(data, msg);
    assert_eq!(enc.processed, msg.len() as u64);
    assert_eq!(dec.processed, msg.len() as u64);
}

#[test]
fn cipher_counter_is_monotone_across_frames() {
    let key = vec![0x0Au8; 32];
    let iv = vec![0x02u8; 16];
    let mut split = CipherState::new(key.clone(), iv.clone());
    let mut first = b"hello".to_vec();
    let mut second = b"world".to_vec();
    split.apply_keystream(&mut first);
    split.apply_keystream(&mut second);
    assert_eq!(split.processed, 10);

    let mut whole = CipherState::new(key, iv);
    let mut all = b"helloworld".to_vec();
    whole.apply_keystream(&mut all);
    let mut joined = first.clone();
    joined.extend_from_slice(&second);
    assert_eq!(all, joined);
}
