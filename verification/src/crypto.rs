//! Named results and trusted wrappers for the cryptographic primitives the
//! handshake is built on: secp256k1 key handling and ECDH, the concatenation
//! KDF, SHA-256, HMAC-SHA256 and AES in CTR and single-block form.
//!
//! Each `uninterp spec fn` names the result of exactly one outside function;
//! each wrapper makes that call and states over the name what the outside
//! crate's source shows. Everything that combines these primitives is
//! verified code elsewhere in the crate.

use vstd::prelude::*;
use secp256k1::rand::RngCore;
use sha2::Digest;
use hmac::Mac;
use aes::cipher::{BlockEncrypt, KeyInit, KeyIvInit, StreamCipher, StreamCipherSeek};

verus! {

/// The 65-byte uncompressed SEC1 serialization of the public key that
/// belongs to the given 32-byte secret key.
pub uninterp spec fn pubkey_of(privkey: Seq<u8>) -> Seq<u8>;

/// Whether the given bytes parse as a secp256k1 public key.
pub uninterp spec fn is_valid_pubkey(bytes: Seq<u8>) -> bool;

/// Whether the given bytes parse as a secp256k1 secret key.
pub uninterp spec fn is_valid_privkey(bytes: Seq<u8>) -> bool;

/// The first 32 bytes (the x coordinate) of the ECDH shared point between a
/// serialized public key and a secret key.
pub uninterp spec fn ecdh(pubkey: Seq<u8>, privkey: Seq<u8>) -> Seq<u8>;

/// The 32 bytes that the concatenation KDF (SHA-256, empty context) derives
/// from a shared secret.
pub uninterp spec fn kdf(secret: Seq<u8>) -> Seq<u8>;

/// The SHA-256 digest of the given bytes.
pub uninterp spec fn sha256_of(data: Seq<u8>) -> Seq<u8>;

/// The HMAC-SHA256 tag of `data` under `key`.
pub uninterp spec fn hmac_sha256(key: Seq<u8>, data: Seq<u8>) -> Seq<u8>;

/// The AES-128-CTR keystream application (64-bit big-endian counter) to
/// `data` under `key` and `iv`, starting at position zero.
pub uninterp spec fn aes128_ctr(key: Seq<u8>, iv: Seq<u8>, data: Seq<u8>) -> Seq<u8>;

/// The AES-256-CTR keystream application (64-bit big-endian counter) to
/// `data` under `key` and `iv`, starting `pos` bytes into the keystream.
pub uninterp spec fn aes256_ctr_at(key: Seq<u8>, iv: Seq<u8>, pos: int, data: Seq<u8>) -> Seq<u8>;

/// The AES-256 encryption of a single 16-byte block under a 32-byte key.
pub uninterp spec fn aes256_block(key: Seq<u8>, block: Seq<u8>) -> Seq<u8>;

/// Relies on secp256k1::SecretKey::new: a freshly generated key is a valid
/// 32-byte secret key. Nothing more is stated: the value is random.
#[verifier::external_body]
pub(crate) fn random_secret_key() -> (r: Vec<u8>)
    ensures
        r@.len() == 32,
        is_valid_privkey(r@),
{
    let key = secp256k1::SecretKey::new(&mut secp256k1::rand::thread_rng());
    key.secret_bytes().to_vec()
}

/// Relies on rand::RngCore::fill_bytes (through secp256k1's re-export): the
/// buffer is filled from a cryptographically secure source. Only the length
/// is stated: the contents are random.
#[verifier::external_body]
pub(crate) fn random_bytes(n: usize) -> (r: Vec<u8>)
    ensures
        r@.len() == n,
{
    let mut buf = vec![0u8; n];
    secp256k1::rand::thread_rng().fill_bytes(&mut buf);
    buf
}

/// Relies on secp256k1::PublicKey::from_secret_key and
/// serialize_uncompressed: the public key of a valid secret key serializes
/// to 65 bytes led by the SEC1 uncompressed marker 0x04, and those bytes
/// parse back as a valid public key.
#[verifier::external_body]
pub(crate) fn secp_public_key(privkey: &Vec<u8>) -> (r: Vec<u8>)
    requires
        privkey@.len() == 32,
        is_valid_privkey(privkey@),
    ensures
        r@ == pubkey_of(privkey@),
        r@.len() == 65,
        r@[0] == 4u8,
        is_valid_pubkey(r@),
{
    let sk = secp256k1::SecretKey::from_slice(privkey).unwrap();
    let pk = secp256k1::PublicKey::from_secret_key(secp256k1::SECP256K1, &sk);
    pk.serialize_uncompressed().to_vec()
}

/// Relies on secp256k1::PublicKey::from_slice: reports whether the bytes
/// parse as a public key.
#[verifier::external_body]
pub(crate) fn check_public_key(bytes: &[u8]) -> (r: bool)
    ensures
        r == is_valid_pubkey(bytes@),
{
    secp256k1::PublicKey::from_slice(bytes).is_ok()
}

/// Relies on secp256k1::SecretKey::from_slice: reports whether the bytes
/// parse as a secret key.
#[verifier::external_body]
pub(crate) fn check_secret_key(bytes: &[u8]) -> (r: bool)
    ensures
        r == is_valid_privkey(bytes@),
{
    secp256k1::SecretKey::from_slice(bytes).is_ok()
}

/// Relies on secp256k1::ecdh::shared_secret_point: the shared point depends
/// only on the public key and the secret key, and agreement holds — when the
/// public key is the key of some secret key `x`, the same point comes from
/// the other pairing, as the crate's own documentation demonstrates.
#[verifier::external_body]
pub(crate) fn ecdh_shared_secret(pubkey: &Vec<u8>, privkey: &Vec<u8>) -> (r: Vec<u8>)
    requires
        is_valid_pubkey(pubkey@),
        privkey@.len() == 32,
        is_valid_privkey(privkey@),
    ensures
        r@ == ecdh(pubkey@, privkey@),
        r@.len() == 32,
        forall|x: Seq<u8>| pubkey@ == pubkey_of(x) ==> r@ == ecdh(pubkey_of(privkey@), x),
{
    let point = secp256k1::PublicKey::from_slice(pubkey).unwrap();
    let scalar = secp256k1::SecretKey::from_slice(privkey).unwrap();
    let xy = secp256k1::ecdh::shared_secret_point(&point, &scalar);
    xy[..32].to_vec()
}

/// Relies on concat_kdf::derive_key_into with SHA-256 and empty context: it
/// fills the 32-byte output as a function of the secret alone, and cannot
/// fail for a non-empty secret and a 32-byte output.
#[verifier::external_body]
pub(crate) fn kdf_derive(secret: &Vec<u8>) -> (r: Vec<u8>)
    requires
        secret@.len() == 32,
    ensures
        r@ == kdf(secret@),
        r@.len() == 32,
{
    let mut key = [0u8; 32];
    concat_kdf::derive_key_into::<sha2::Sha256>(secret, &[], &mut key).unwrap();
    key.to_vec()
}

/// Relies on sha2::Sha256::digest: a 32-byte digest of the input alone.
#[verifier::external_body]
pub(crate) fn sha256(data: &[u8]) -> (r: Vec<u8>)
    ensures
        r@ == sha256_of(data@),
        r@.len() == 32,
{
    sha2::Sha256::digest(data).to_vec()
}

/// Relies on hmac::Hmac with sha2::Sha256 (new_from_slice, update,
/// finalize): a 32-byte tag of the key and message alone; new_from_slice
/// accepts keys of any length.
#[verifier::external_body]
pub(crate) fn hmac_sha256_tag(key: &Vec<u8>, data: &Vec<u8>) -> (r: Vec<u8>)
    ensures
        r@ == hmac_sha256(key@, data@),
        r@.len() == 32,
{
    let mut mac = <hmac::Hmac<sha2::Sha256> as hmac::Mac>::new_from_slice(key).unwrap();
    mac.update(data);
    mac.finalize().into_bytes().to_vec()
}

/// Relies on ctr::Ctr64BE with aes::Aes128 (new, apply_keystream): XORs the
/// data with the keystream of the key and IV, so the length is kept and a
/// second application under the same key and IV restores the input.
#[verifier::external_body]
pub(crate) fn aes128_ctr_apply(key: &Vec<u8>, iv: &Vec<u8>, data: &mut Vec<u8>)
    requires
        key@.len() == 16,
        iv@.len() == 16,
    ensures
        final(data)@.len() == old(data)@.len(),
        final(data)@ == aes128_ctr(key@, iv@, old(data)@),
        aes128_ctr(key@, iv@, final(data)@) == old(data)@,
{
    let mut cipher = ctr::Ctr64BE::<aes::Aes128>::new(key.as_slice().into(), iv.as_slice().into());
    cipher.apply_keystream(data.as_mut_slice());
}

/// Relies on ctr::Ctr64BE with aes::Aes256 (new, seek, apply_keystream):
/// XORs the data with the keystream of the key and IV starting at byte
/// position `pos`, so the length is kept and a second application at the
/// same position restores the input.
#[verifier::external_body]
pub(crate) fn aes256_ctr_apply_at(key: &Vec<u8>, iv: &Vec<u8>, pos: u64, data: &mut Vec<u8>)
    requires
        key@.len() == 32,
        iv@.len() == 16,
        pos + old(data)@.len() <= u64::MAX,
    ensures
        final(data)@.len() == old(data)@.len(),
        final(data)@ == aes256_ctr_at(key@, iv@, pos as int, old(data)@),
        aes256_ctr_at(key@, iv@, pos as int, final(data)@) == old(data)@,
{
    let mut cipher = ctr::Ctr64BE::<aes::Aes256>::new(key.as_slice().into(), iv.as_slice().into());
    cipher.seek(pos);
    cipher.apply_keystream(data.as_mut_slice());
}

/// Relies on aes::Aes256 (new, encrypt_block): encrypts one 16-byte block
/// under a 32-byte key, a function of key and block alone.
#[verifier::external_body]
pub(crate) fn aes256_encrypt_block(key: &Vec<u8>, block: &Vec<u8>) -> (r: Vec<u8>)
    requires
        key@.len() == 32,
        block@.len() == 16,
    ensures
        r@ == aes256_block(key@, block@),
        r@.len() == 16,
{
    let cipher = <aes::Aes256 as KeyInit>::new(key.as_slice().into());
    let mut buf = aes::Block::clone_from_slice(block);
    cipher.encrypt_block(&mut buf);
    buf.to_vec()
}

} // verus!
