//! The running authentication-tag state kept per traffic direction once the
//! channel is live: a block-cipher-encrypted running digest that absorbs one
//! 16-byte block per update and exposes the current tag.

use vstd::prelude::*;

use crate::bytes_util::{xor_bytes, xor_seq};
use crate::crypto;
use crate::crypto::aes256_block;

verus! {

/// One update step of the running digest: the absorbed block is XORed into
/// the current digest and the result encrypted under the MAC secret.
pub open spec fn mac_step(secret: Seq<u8>, digest: Seq<u8>, block: Seq<u8>) -> Seq<u8> {
    aes256_block(secret, xor_seq(digest, block))
}

/// The digest after absorbing a whole sequence of blocks in order.
pub open spec fn mac_absorb_all(secret: Seq<u8>, digest: Seq<u8>, blocks: Seq<Seq<u8>>) -> Seq<u8>
    decreases blocks.len(),
{
    if blocks.len() == 0 {
        digest
    } else {
        mac_absorb_all(secret, mac_step(secret, digest, blocks[0]), blocks.skip(1))
    }
}

/// A running MAC for one direction of one connection. Two instances — one
/// per direction — never share state: each owns its secret and digest.
pub struct HashMac {
    /// The 32-byte MAC secret the digest is keyed with.
    pub secret: Vec<u8>,
    /// The current 16-byte digest value.
    pub current: Vec<u8>,
}

impl HashMac {
    /// The state's invariant: a 32-byte secret and a 16-byte digest.
    pub open spec fn wf(self) -> bool {
        self.secret@.len() == 32 && self.current@.len() == 16
    }

    /// Starts a running MAC from a MAC secret and a 16-byte initial seed
    /// derived from the handshake nonces.
    pub fn new(secret: Vec<u8>, seed: Vec<u8>) -> (r: Self)
        requires
            secret@.len() == 32,
            seed@.len() == 16,
        ensures
            r.wf(),
            r.secret@ == secret@,
            r.current@ == seed@,
    {
        HashMac { secret, current: seed }
    }

    /// Absorbs one 16-byte block: the digest becomes the block-cipher
    /// encryption, under the MAC secret, of the block XORed into the old
    /// digest. Deterministic: the same update sequence from the same seed
    /// always yields the same digest.
    pub fn update(&mut self, block: &Vec<u8>)
        requires
            old(self).wf(),
            block@.len() == 16,
        ensures
            final(self).wf(),
            final(self).secret@ == old(self).secret@,
            final(self).current@ == mac_step(old(self).secret@, old(self).current@, block@),
    {
        let mixed = xor_bytes(&self.current, block);
        self.current = crypto::aes256_encrypt_block(&self.secret, &mixed);
    }

    /// The current 16-byte tag.
    pub fn digest(&self) -> (r: Vec<u8>)
        ensures
            r@ == self.current@,
    {
        let mut out: Vec<u8> = Vec::new();
        let mut i: usize = 0;
        while i < self.current.len()
            invariant
                i <= self.current@.len(),
                out@ == self.current@.subrange(0, i as int),
            decreases self.current@.len() - i,
        {
            out.push(self.current[i]);
            i = i + 1;
            assert(out@ =~= self.current@.subrange(0, i as int));
        }
        assert(out@ =~= self.current@);
        out
    }
}

/// Determinism of the running MAC: two states with the same secret and the
/// same digest yield the same digest again after absorbing the same blocks.
pub proof fn lemma_mac_deterministic(a: HashMac, b: HashMac, blocks: Seq<Seq<u8>>)
    requires
        a.secret@ == b.secret@,
        a.current@ == b.current@,
    ensures
        mac_absorb_all(a.secret@, a.current@, blocks) == mac_absorb_all(
            b.secret@,
            b.current@,
            blocks,
        ),
{
}

} // verus!
