//! Whole-message entry points that validate key material themselves, and the
//! laws that tie encryption and decryption together.

use vstd::prelude::*;

use crate::bytes_util::be16_val;
use crate::crypto;
use crate::crypto::{is_valid_privkey, is_valid_pubkey, pubkey_of};
use crate::ecies::{decrypt_model, encrypt_post, DecryptOutcome, EllipticCurveIES};
use crate::errors::Error;

verus! {

/// Derives the 65-byte uncompressed public key of a secret key, checking the
/// secret key first: succeeds exactly when the key is a valid 32-byte
/// scalar.
pub fn public_key_from_secret(private_key: &Vec<u8>) -> (r: Result<Vec<u8>, Error>)
    ensures
        r is Ok <==> private_key@.len() == 32 && is_valid_privkey(private_key@),
        r matches Ok(pk) ==> pk@ == pubkey_of(private_key@) && pk@.len() == 65
            && is_valid_pubkey(pk@),
        r matches Err(e) ==> e is InvalidPublicKey,
{
    if private_key.len() != 32 || !crypto::check_secret_key(private_key.as_slice()) {
        return Err(Error::InvalidPublicKey);
    }
    Ok(crypto::secp_public_key(private_key))
}

/// A frame sealed to `remote_pub`: it satisfies `encrypt_post` for some
/// fresh ephemeral key and IV, starting from an empty output buffer.
pub open spec fn seal_post(remote_pub: Seq<u8>, pt: Seq<u8>, frame: Seq<u8>) -> bool {
    exists|eph: Seq<u8>, iv: Seq<u8>| encrypt_post(remote_pub, eph, iv, pt, Seq::empty(), frame)
}

/// Encrypts one message to a peer: checks the keys, builds a fresh engine,
/// and returns the complete wire frame. Succeeds exactly when the keys are
/// valid, and then the frame satisfies the same promise as `encrypt_data`.
pub fn seal_message(private_key: Vec<u8>, remote_public_key: Vec<u8>, plaintext: Vec<u8>) -> (r:
    Result<Vec<u8>, Error>)
    requires
        plaintext@.len() + 115 <= 65535,
    ensures
        r is Ok <==> private_key@.len() == 32 && is_valid_privkey(private_key@)
            && remote_public_key@.len() == 65 && is_valid_pubkey(remote_public_key@),
        r matches Ok(frame) ==> seal_post(remote_public_key@, plaintext@, frame@),
        r matches Err(e) ==> e is InvalidPublicKey,
{
    let ghost pt = plaintext@;
    let engine = match EllipticCurveIES::try_new(private_key, remote_public_key) {
        Ok(e) => e,
        Err(e) => {
            return Err(e);
        },
    };
    let mut frame: Vec<u8> = Vec::new();
    proof {
        assert(frame@ =~= Seq::<u8>::empty());
    }
    let ghost out0 = frame@;
    match engine.encrypt_data(plaintext, &mut frame) {
        Ok(_) => {
            proof {
                let (eph, iv) = choose|eph: Seq<u8>, iv: Seq<u8>|
                    encrypt_post(engine.remote_public_key@, eph, iv, pt, out0, frame@);
                assert(encrypt_post(remote_public_key@, eph, iv, pt, Seq::empty(), frame@));
                assert(seal_post(remote_public_key@, pt, frame@));
            }
            Ok(frame)
        },
        Err(e) => Err(e),
    }
}

/// Decrypts one frame with a secret key alone: checks the key, builds a
/// fresh engine, and mirrors `decrypt_data`, reporting the consumed length
/// in `read_bytes`.
pub fn open_message(private_key: Vec<u8>, data: &[u8], read_bytes: &mut u16) -> (r: Result<
    Vec<u8>,
    Error,
>)
    ensures
        !(private_key@.len() == 32 && is_valid_privkey(private_key@)) ==> (r matches Err(e)
            && e is InvalidPublicKey && *final(read_bytes) == *old(read_bytes)),
        private_key@.len() == 32 && is_valid_privkey(private_key@) ==> match decrypt_model(
            private_key@,
            data@,
        ) {
            DecryptOutcome::Malformed => r matches Err(e) && e is Decoder && *final(read_bytes)
                == *old(read_bytes),
            DecryptOutcome::BadKey => r matches Err(e) && e is InvalidPublicKey,
            DecryptOutcome::TagMismatch { expected } => r matches Err(e) && (e matches
                Error::InvalidTag(t) && t@ == expected),
            DecryptOutcome::Plain { plaintext } => r matches Ok(p) && p@ == plaintext,
        },
        private_key@.len() == 32 && is_valid_privkey(private_key@) && !(decrypt_model(
            private_key@,
            data@,
        ) is Malformed) ==> *final(read_bytes) == be16_val(data@[0], data@[1]) + 2,
{
    let own_public = match public_key_from_secret(&private_key) {
        Ok(p) => p,
        Err(e) => {
            return Err(e);
        },
    };
    let mut engine = EllipticCurveIES::new(private_key, own_public);
    engine.decrypt_data(data, read_bytes)
}

/// The round-trip law: for every plaintext and every pair of valid secret
/// keys, a message sealed by the sender to the receiver's public key opens,
/// under the receiver's secret key, to exactly the original plaintext.
pub fn round_trip(
    sender_private_key: Vec<u8>,
    receiver_private_key: Vec<u8>,
    plaintext: Vec<u8>,
) -> (r: Result<Vec<u8>, Error>)
    requires
        plaintext@.len() + 115 <= 65535,
    ensures
        sender_private_key@.len() == 32 && is_valid_privkey(sender_private_key@)
            && receiver_private_key@.len() == 32 && is_valid_privkey(receiver_private_key@)
            ==> (r matches Ok(p) && p@ == plaintext@),
        r matches Err(e) ==> e is InvalidPublicKey,
{
    let receiver_public = match public_key_from_secret(&receiver_private_key) {
        Ok(p) => p,
        Err(e) => {
            return Err(e);
        },
    };
    let ghost pt = plaintext@;
    let frame = match seal_message(sender_private_key, receiver_public, plaintext) {
        Ok(f) => f,
        Err(e) => {
            return Err(e);
        },
    };
    proof {
        let (eph, iv) = choose|eph: Seq<u8>, iv: Seq<u8>|
            encrypt_post(receiver_public@, eph, iv, pt, Seq::empty(), frame@);
        assert(frame@ =~= crate::ecies::enc_frame(receiver_public@, eph, iv, pt));
        assert(decrypt_model(receiver_private_key@, frame@) == (DecryptOutcome::Plain {
            plaintext: pt,
        }));
    }
    let mut read: u16 = 0;
    let out = open_message(receiver_private_key, frame.as_slice(), &mut read);
    match out {
        Ok(p) => Ok(p),
        Err(_) => Err(Error::InvalidPublicKey),
    }
}

} // verus!
