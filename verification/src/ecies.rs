//! The ECIES handshake engine: authenticated encryption and decryption of
//! the auth / auth-ack wire messages.
//!
//! Wire frame layout, offsets in bytes:
//! `0..2` big-endian payload size (excluding these two bytes), `2..67` the
//! sender's ephemeral public key (uncompressed SEC1), `67..83` the IV,
//! `83..` the ciphertext, and the last 32 bytes of the payload the
//! HMAC-SHA256 tag over IV, ciphertext and size field.

use vstd::prelude::*;

use crate::bytes_util::{append_slice, be16_val, be2, bytes_eq, sub_vec, u16_be_bytes, u16_from_be};
use crate::crypto;
use crate::crypto::{
    aes128_ctr, ecdh, hmac_sha256, is_valid_privkey, is_valid_pubkey, kdf, pubkey_of, sha256_of,
};
use crate::errors::Error;

verus! {

/// The 16-byte stream-cipher key: the first half of the KDF output.
pub open spec fn enc_key_of(shared: Seq<u8>) -> Seq<u8> {
    kdf(shared).subrange(0, 16)
}

/// The 32-byte MAC key: the SHA-256 digest of the second half of the KDF
/// output.
pub open spec fn mac_key_of(shared: Seq<u8>) -> Seq<u8> {
    sha256_of(kdf(shared).subrange(16, 32))
}

/// The exact bytes of the encrypted frame built from a remote public key, an
/// ephemeral secret key, an IV and a plaintext.
pub open spec fn enc_frame(remote_pub: Seq<u8>, eph_priv: Seq<u8>, iv: Seq<u8>, pt: Seq<u8>) -> Seq<u8> {
    let shared = ecdh(remote_pub, eph_priv);
    let ct = aes128_ctr(enc_key_of(shared), iv, pt);
    let size = be2(113 + pt.len() as int);
    size + pubkey_of(eph_priv) + iv + ct + hmac_sha256(mac_key_of(shared), iv + ct + size)
}

/// What decrypting a buffer under a given private key yields.
pub ghost enum DecryptOutcome {
    /// The buffer is too short, or its size field does not describe a
    /// consumable payload.
    Malformed,
    /// The 65 bytes in the ephemeral-key position are not a curve point.
    BadKey,
    /// The received tag differs from the tag computed over the buffer.
    TagMismatch { expected: Seq<u8> },
    /// The tag matched and the ciphertext decrypts to this plaintext.
    Plain { plaintext: Seq<u8> },
}

/// The complete mathematical model of `decrypt_data`: every decryption
/// outcome as a function of the local private key and the input bytes.
pub open spec fn decrypt_model(privkey: Seq<u8>, data: Seq<u8>) -> DecryptOutcome {
    if data.len() < 2 {
        DecryptOutcome::Malformed
    } else {
        let ps = be16_val(data[0], data[1]);
        if ps < 113 || ps > 65533 || ps + 2 > data.len() {
            DecryptOutcome::Malformed
        } else {
            let eph_pub = data.subrange(2, 67);
            if !is_valid_pubkey(eph_pub) {
                DecryptOutcome::BadKey
            } else {
                let iv = data.subrange(67, 83);
                let ct = data.subrange(83, ps - 30);
                let tag = data.subrange(ps - 30, ps + 2);
                let shared = ecdh(eph_pub, privkey);
                let expected = hmac_sha256(mac_key_of(shared), iv + ct + be2(ps));
                if tag != expected {
                    DecryptOutcome::TagMismatch { expected }
                } else {
                    DecryptOutcome::Plain { plaintext: aes128_ctr(enc_key_of(shared), iv, ct) }
                }
            }
        }
    }
}

/// Everything `encrypt_data` promises of the frame it appends: the frame is
/// `enc_frame` of some fresh ephemeral key and IV, its length is the
/// plaintext length plus 115 bytes of framing, and — the round-trip law —
/// decrypting it under the private key of the configured remote public key
/// yields exactly the plaintext.
pub open spec fn encrypt_post(
    remote_pub: Seq<u8>,
    eph_priv: Seq<u8>,
    iv: Seq<u8>,
    pt: Seq<u8>,
    out_old: Seq<u8>,
    out_new: Seq<u8>,
) -> bool {
    let frame = enc_frame(remote_pub, eph_priv, iv, pt);
    &&& pt.len() + 115 <= 65535
    &&& eph_priv.len() == 32 && is_valid_privkey(eph_priv)
    &&& iv.len() == 16
    &&& out_new == out_old + frame
    &&& frame.len() == 115 + pt.len()
    &&& frame.subrange(0, 2) == be2(113 + pt.len() as int)
    &&& forall|x: Seq<u8>|
        remote_pub == pubkey_of(x) ==> decrypt_model(x, frame) == (DecryptOutcome::Plain {
            plaintext: pt,
        })
}

/// The ECIES handshake engine for one connection attempt: the local static
/// key pair, the handshake's own ephemeral key and nonce, the peer's static
/// public key, and the captured wire bytes of the two handshake messages.
pub struct EllipticCurveIES {
    /// The local long-term 32-byte secret key.
    pub private_key: Vec<u8>,
    /// The handshake's own single-use 32-byte ephemeral secret key.
    pub private_ephemeral_key: Vec<u8>,
    /// The 65-byte uncompressed public key of `private_key`.
    pub public_key: Vec<u8>,
    /// The peer's 65-byte uncompressed static public key.
    pub remote_public_key: Vec<u8>,
    /// ECDH of the local static secret key and the remote static public key.
    pub shared_key: Vec<u8>,
    /// The 32-byte random nonce generated for this attempt.
    pub nonce: Vec<u8>,
    /// The raw bytes of the auth message, once sent or received.
    pub auth: Option<Vec<u8>>,
    /// The raw bytes of the auth-ack message, once received.
    pub auth_response: Option<Vec<u8>>,
}

impl EllipticCurveIES {
    /// The engine's invariant: key material has the right lengths and
    /// parses, and the derived fields are what the constructor computed.
    pub open spec fn wf(self) -> bool {
        &&& self.private_key@.len() == 32
        &&& is_valid_privkey(self.private_key@)
        &&& self.private_ephemeral_key@.len() == 32
        &&& is_valid_privkey(self.private_ephemeral_key@)
        &&& self.remote_public_key@.len() == 65
        &&& is_valid_pubkey(self.remote_public_key@)
        &&& self.public_key@ == pubkey_of(self.private_key@)
        &&& self.shared_key@ == ecdh(self.remote_public_key@, self.private_key@)
        &&& self.nonce@.len() == 32
    }

    /// Builds an engine from a valid local secret key and remote public key:
    /// generates the ephemeral key and nonce, derives the local public key
    /// and the static shared secret.
    pub fn new(private_key: Vec<u8>, remote_public_key: Vec<u8>) -> (r: Self)
        requires
            private_key@.len() == 32,
            is_valid_privkey(private_key@),
            remote_public_key@.len() == 65,
            is_valid_pubkey(remote_public_key@),
        ensures
            r.wf(),
            r.private_key@ == private_key@,
            r.remote_public_key@ == remote_public_key@,
            r.auth is None,
            r.auth_response is None,
    {
        let private_ephemeral_key = crypto::random_secret_key();
        let public_key = crypto::secp_public_key(&private_key);
        let shared_key = crypto::ecdh_shared_secret(&remote_public_key, &private_key);
        let nonce = crypto::random_bytes(32);
        EllipticCurveIES {
            private_key,
            private_ephemeral_key,
            public_key,
            remote_public_key,
            shared_key,
            nonce,
            auth: None,
            auth_response: None,
        }
    }

    /// Builds an engine after checking the key material, instead of asking
    /// the caller to have checked it: succeeds exactly when the secret key
    /// and the 65-byte remote public key are valid.
    pub fn try_new(private_key: Vec<u8>, remote_public_key: Vec<u8>) -> (r: Result<Self, Error>)
        ensures
            r is Ok <==> private_key@.len() == 32 && is_valid_privkey(private_key@)
                && remote_public_key@.len() == 65 && is_valid_pubkey(remote_public_key@),
            r matches Ok(e) ==> e.wf() && e.private_key@ == private_key@
                && e.remote_public_key@ == remote_public_key@ && e.auth is None
                && e.auth_response is None,
            r matches Err(e) ==> e is InvalidPublicKey,
    {
        if private_key.len() != 32 || !crypto::check_secret_key(private_key.as_slice()) {
            return Err(Error::InvalidPublicKey);
        }
        if remote_public_key.len() != 65 || !crypto::check_public_key(remote_public_key.as_slice()) {
            return Err(Error::InvalidPublicKey);
        }
        Ok(Self::new(private_key, remote_public_key))
    }

    /// Encrypts a plaintext into a fresh ECIES frame appended to `data_out`
    /// and returns the byte length written: the 115 framing bytes plus the
    /// plaintext length. The frame carries a fresh single-use ephemeral
    /// public key, a fresh IV, the CTR-encrypted plaintext, and a tag
    /// binding IV, ciphertext and size field.
    pub fn encrypt_data(&self, data_in: Vec<u8>, data_out: &mut Vec<u8>) -> (r: Result<usize, Error>)
        requires
            self.wf(),
            data_in@.len() + 115 <= 65535,
            old(data_out)@.len() + 115 + data_in@.len() <= usize::MAX,
        ensures
            r matches Ok(n) && n == 115 + data_in@.len(),
            exists|eph: Seq<u8>, iv: Seq<u8>|
                encrypt_post(
                    self.remote_public_key@,
                    eph,
                    iv,
                    data_in@,
                    old(data_out)@,
                    final(data_out)@,
                ),
    {
        let ghost pt0 = data_in@;
        let written: usize = 115 + data_in.len();
        let eph = crypto::random_secret_key();
        let shared = crypto::ecdh_shared_secret(&self.remote_public_key, &eph);
        let key = crypto::kdf_derive(&shared);
        let iv = crypto::random_bytes(16);
        let enc_key = sub_vec(key.as_slice(), 0, 16);
        let mac_seed = sub_vec(key.as_slice(), 16, 32);
        let mac_key = crypto::sha256(mac_seed.as_slice());
        let total_size: u16 = 113 + (data_in.len() as u16);
        let size_bytes = u16_be_bytes(total_size);
        proof {
            lemma_be2_round_trip(total_size as int);
        }
        let mut encrypted = data_in;
        crypto::aes128_ctr_apply(&enc_key, &iv, &mut encrypted);
        let mut mac_data: Vec<u8> = Vec::new();
        append_slice(&mut mac_data, iv.as_slice());
        append_slice(&mut mac_data, encrypted.as_slice());
        append_slice(&mut mac_data, size_bytes.as_slice());
        let tag = crypto::hmac_sha256_tag(&mac_key, &mac_data);
        let eph_pub = crypto::secp_public_key(&eph);

        let ghost frame = enc_frame(self.remote_public_key@, eph@, iv@, pt0);

        append_slice(data_out, size_bytes.as_slice());
        append_slice(data_out, eph_pub.as_slice());
        append_slice(data_out, iv.as_slice());
        append_slice(data_out, encrypted.as_slice());
        append_slice(data_out, tag.as_slice());

        proof {
            let pt = pt0;
            let shared_s = ecdh(self.remote_public_key@, eph@);
            assert(enc_key@ == enc_key_of(shared_s));
            assert(mac_key@ == mac_key_of(shared_s));
            assert(mac_data@ == iv@ + encrypted@ + be2(113 + pt.len() as int));
            assert(frame =~= size_bytes@ + eph_pub@ + iv@ + encrypted@ + tag@);
            assert(data_out@ =~= old(data_out)@ + frame);
            assert(frame.subrange(0, 2) =~= be2(113 + pt.len() as int));
            assert forall|x: Seq<u8>| self.remote_public_key@ == pubkey_of(x) implies
                decrypt_model(x, frame) == (DecryptOutcome::Plain { plaintext: pt }) by {
                lemma_frame_decrypts(self.remote_public_key@, eph@, iv@, pt, x, shared_s, encrypted@, tag@);
            }
            assert(encrypt_post(self.remote_public_key@, eph@, iv@, pt, old(data_out)@, data_out@));
        }
        Ok(written)
    }

    /// Decrypts one ECIES frame from the head of `data_in`, reporting in
    /// `read_bytes` how many bytes the frame occupied and capturing the
    /// consumed bytes as the received auth-ack payload. The tag is checked
    /// before anything is decrypted; on a mismatch the error carries the
    /// locally computed tag and no plaintext is produced.
    pub fn decrypt_data(&mut self, data_in: &[u8], read_bytes: &mut u16) -> (r: Result<Vec<u8>, Error>)
        requires
            old(self).wf(),
        ensures
            final(self).wf(),
            final(self).private_key == old(self).private_key,
            final(self).private_ephemeral_key == old(self).private_ephemeral_key,
            final(self).public_key == old(self).public_key,
            final(self).remote_public_key == old(self).remote_public_key,
            final(self).shared_key == old(self).shared_key,
            final(self).nonce == old(self).nonce,
            final(self).auth == old(self).auth,
            match decrypt_model(old(self).private_key@, data_in@) {
                DecryptOutcome::Malformed => r matches Err(e) && e is Decoder
                    && *final(read_bytes) == *old(read_bytes)
                    && final(self).auth_response == old(self).auth_response,
                DecryptOutcome::BadKey => r matches Err(e) && e is InvalidPublicKey,
                DecryptOutcome::TagMismatch { expected } => r matches Err(e)
                    && (e matches Error::InvalidTag(t) && t@ == expected),
                DecryptOutcome::Plain { plaintext } => r matches Ok(p) && p@ == plaintext,
            },
            !(decrypt_model(old(self).private_key@, data_in@) is Malformed) ==> {
                let ps = be16_val(data_in@[0], data_in@[1]);
                &&& *final(read_bytes) == ps + 2
                &&& final(self).auth_response matches Some(c) && c@ == data_in@.subrange(0, ps + 2)
            },
    {
        if data_in.len() < 2 {
            return Err(Error::Decoder);
        }
        let payload_size: u16 = u16_from_be(data_in[0], data_in[1]);
        let ps = payload_size as usize;
        if payload_size < 113 || payload_size > 65533 || ps + 2 > data_in.len() {
            return Err(Error::Decoder);
        }
        *read_bytes = payload_size + 2;
        self.auth_response = Some(sub_vec(data_in, 0, ps + 2));
        let eph_pub = sub_vec(data_in, 2, 67);
        if !crypto::check_public_key(eph_pub.as_slice()) {
            return Err(Error::InvalidPublicKey);
        }
        let iv = sub_vec(data_in, 67, 83);
        let ct = sub_vec(data_in, 83, ps - 30);
        let tag = sub_vec(data_in, ps - 30, ps + 2);
        let shared = crypto::ecdh_shared_secret(&eph_pub, &self.private_key);
        let key = crypto::kdf_derive(&shared);
        let enc_key = sub_vec(key.as_slice(), 0, 16);
        let mac_seed = sub_vec(key.as_slice(), 16, 32);
        let mac_key = crypto::sha256(mac_seed.as_slice());
        let size_bytes = u16_be_bytes(payload_size);
        let mut mac_data: Vec<u8> = Vec::new();
        append_slice(&mut mac_data, iv.as_slice());
        append_slice(&mut mac_data, ct.as_slice());
        append_slice(&mut mac_data, size_bytes.as_slice());
        let expected = crypto::hmac_sha256_tag(&mac_key, &mac_data);
        proof {
            assert(mac_data@ =~= iv@ + ct@ + be2(payload_size as int));
        }
        if !bytes_eq(tag.as_slice(), expected.as_slice()) {
            return Err(Error::InvalidTag(expected));
        }
        let mut plain = ct;
        crypto::aes128_ctr_apply(&enc_key, &iv, &mut plain);
        Ok(plain)
    }
}

/// Size consistency: a frame that satisfies the encryption promise is
/// exactly 115 bytes of framing plus the plaintext, and the size its first
/// two bytes announce, plus the two bytes of the size field itself, is the
/// whole frame — what a decrypting peer reports as consumed equals what the
/// encrypting peer wrote.
pub proof fn lemma_size_consistency(
    remote_pub: Seq<u8>,
    eph: Seq<u8>,
    iv: Seq<u8>,
    pt: Seq<u8>,
    frame: Seq<u8>,
)
    requires
        encrypt_post(remote_pub, eph, iv, pt, Seq::empty(), frame),
    ensures
        frame.len() == 115 + pt.len(),
        be16_val(frame[0], frame[1]) + 2 == frame.len(),
{
    assert(frame =~= enc_frame(remote_pub, eph, iv, pt));
    lemma_be2_round_trip(113 + pt.len() as int);
    assert(frame[0] == frame.subrange(0, 2)[0]);
    assert(frame[1] == frame.subrange(0, 2)[1]);
}

/// Two buffers that agree on everything up to the tag region of the first
/// one's frame — size field, ephemeral key, IV and ciphertext — and differ
/// somewhere in the 32 tag bytes.
pub open spec fn same_but_tag(good: Seq<u8>, bad: Seq<u8>) -> bool {
    let ps = be16_val(good[0], good[1]);
    &&& bad.len() == good.len()
    &&& bad.subrange(0, ps - 30) == good.subrange(0, ps - 30)
    &&& bad.subrange(ps - 30, ps + 2) != good.subrange(ps - 30, ps + 2)
}

/// Tamper detection: take a frame that decrypts, and any buffer that keeps
/// its size field, ephemeral key, IV and ciphertext but differs in the tag
/// region. Decrypting the altered buffer fails with a tag mismatch — no
/// plaintext is ever produced from it.
pub proof fn lemma_tag_tamper_detected(privkey: Seq<u8>, good: Seq<u8>, bad: Seq<u8>)
    requires
        decrypt_model(privkey, good) is Plain,
        same_but_tag(good, bad),
    ensures
        decrypt_model(privkey, bad) is TagMismatch,
{
    let ps = be16_val(good[0], good[1]);
    assert(good.len() >= 2 && 113 <= ps <= 65533 && ps + 2 <= good.len());
    assert forall|i: int| 0 <= i < ps - 30 implies bad[i] == good[i] by {
        assert(bad.subrange(0, ps - 30)[i] == good.subrange(0, ps - 30)[i]);
    }
    assert(bad[0] == good[0] && bad[1] == good[1]);
    assert(be16_val(bad[0], bad[1]) == ps);
    assert(bad.subrange(2, 67) =~= good.subrange(2, 67));
    assert(bad.subrange(67, 83) =~= good.subrange(67, 83));
    assert(bad.subrange(83, ps - 30) =~= good.subrange(83, ps - 30));
    assert(bad.subrange(ps - 30, ps + 2) != good.subrange(ps - 30, ps + 2));
}

/// Reading back the two big-endian bytes of a 16-bit value gives the value.
proof fn lemma_be2_round_trip(n: int)
    requires
        0 <= n <= 65535,
    ensures
        be16_val(be2(n)[0], be2(n)[1]) == n,
{
    assert((n / 256) % 256 * 256 + n % 256 == n) by (nonlinear_arith)
        requires 0 <= n <= 65535;
}

/// A frame built by `enc_frame` for a remote public key decrypts, under the
/// private key of that public key, to the plaintext it was built from.
proof fn lemma_frame_decrypts(
    remote_pub: Seq<u8>,
    eph: Seq<u8>,
    iv: Seq<u8>,
    pt: Seq<u8>,
    x: Seq<u8>,
    shared: Seq<u8>,
    ct: Seq<u8>,
    tag: Seq<u8>,
)
    requires
        remote_pub == pubkey_of(x),
        shared == ecdh(remote_pub, eph),
        shared == ecdh(pubkey_of(eph), x),
        ct == aes128_ctr(enc_key_of(shared), iv, pt),
        aes128_ctr(enc_key_of(shared), iv, ct) == pt,
        tag == hmac_sha256(mac_key_of(shared), iv + ct + be2(113 + pt.len() as int)),
        tag.len() == 32,
        iv.len() == 16,
        ct.len() == pt.len(),
        pubkey_of(eph).len() == 65,
        is_valid_pubkey(pubkey_of(eph)),
        pt.len() + 115 <= 65535,
    ensures
        decrypt_model(x, enc_frame(remote_pub, eph, iv, pt)) == (DecryptOutcome::Plain {
            plaintext: pt,
        }),
{
    let frame = enc_frame(remote_pub, eph, iv, pt);
    let size = be2(113 + pt.len() as int);
    assert(frame =~= size + pubkey_of(eph) + iv + ct + tag);
    assert(frame.len() == 115 + pt.len());
    lemma_be2_round_trip(113 + pt.len() as int);
    assert(frame[0] == size[0] && frame[1] == size[1]);
    let ps = be16_val(frame[0], frame[1]);
    assert(ps == 113 + pt.len());
    assert(frame.subrange(2, 67) =~= pubkey_of(eph));
    assert(frame.subrange(67, 83) =~= iv);
    assert(frame.subrange(83, ps - 30) =~= ct);
    assert(frame.subrange(ps - 30, ps + 2) =~= tag);
}

} // verus!
