//! The per-direction stream-cipher state used for framed traffic after the
//! handshake: AES-256-CTR with a monotone byte counter that is never reset.

use vstd::prelude::*;

use crate::crypto;
use crate::crypto::aes256_ctr_at;

verus! {

/// One direction's stream cipher: key, IV and the number of keystream bytes
/// already consumed. The counter only ever grows, so no keystream byte is
/// reused across frames.
pub struct CipherState {
    /// The 32-byte cipher key.
    pub key: Vec<u8>,
    /// The 16-byte initial counter block.
    pub iv: Vec<u8>,
    /// How many keystream bytes have been consumed so far.
    pub processed: u64,
}

impl CipherState {
    /// The state's invariant: a 32-byte key and a 16-byte IV.
    pub open spec fn wf(self) -> bool {
        self.key@.len() == 32 && self.iv@.len() == 16
    }

    /// Starts a fresh cipher direction at keystream position zero.
    pub fn new(key: Vec<u8>, iv: Vec<u8>) -> (r: Self)
        requires
            key@.len() == 32,
            iv@.len() == 16,
        ensures
            r.wf(),
            r.key@ == key@,
            r.iv@ == iv@,
            r.processed == 0,
    {
        CipherState { key, iv, processed: 0 }
    }

    /// Applies the keystream to one frame's bytes in place, continuing where
    /// the previous frame stopped, and advances the counter by exactly the
    /// frame length: the counter is monotone and never reset.
    pub fn apply_keystream(&mut self, data: &mut Vec<u8>)
        requires
            old(self).wf(),
            old(self).processed + old(data)@.len() <= u64::MAX,
        ensures
            final(self).wf(),
            final(self).key@ == old(self).key@,
            final(self).iv@ == old(self).iv@,
            final(self).processed == old(self).processed + old(data)@.len(),
            final(data)@ == aes256_ctr_at(
                old(self).key@,
                old(self).iv@,
                old(self).processed as int,
                old(data)@,
            ),
            final(data)@.len() == old(data)@.len(),
    {
        crypto::aes256_ctr_apply_at(&self.key, &self.iv, self.processed, data);
        self.processed = self.processed + data.len() as u64;
    }
}

} // verus!
