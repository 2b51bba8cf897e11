//! The handshake's output: the channel's derived key material and the two
//! independent per-direction MAC and cipher states.

use vstd::prelude::*;

use crate::cipher::CipherState;
use crate::crypto::aes256_ctr_at;
use crate::mac::{mac_step, HashMac};

verus! {

/// The live key material of one established channel. The ingress and egress
/// pairs are independent state objects: nothing ever moves state from one
/// direction to the other.
pub struct Secrets {
    /// The 32-byte derived cipher secret.
    pub aes_secret: Vec<u8>,
    /// The 32-byte derived MAC secret.
    pub mac_secret: Vec<u8>,
    /// The 32-byte derived shared secret.
    pub shared_secret: Vec<u8>,
    /// The running MAC for inbound frames.
    pub ingress_mac: HashMac,
    /// The running MAC for outbound frames.
    pub egress_mac: HashMac,
    /// The stream cipher for inbound frames.
    pub ingress_aes: CipherState,
    /// The stream cipher for outbound frames.
    pub egress_aes: CipherState,
}

impl Secrets {
    /// The invariant of the channel state: every piece of key material has
    /// its required length.
    pub open spec fn wf(self) -> bool {
        &&& self.aes_secret@.len() == 32
        &&& self.mac_secret@.len() == 32
        &&& self.shared_secret@.len() == 32
        &&& self.ingress_mac.wf()
        &&& self.egress_mac.wf()
        &&& self.ingress_aes.wf()
        &&& self.egress_aes.wf()
    }

    /// Absorbs one outbound ciphertext block into the egress MAC.
    /// Directional isolation: the ingress MAC and both ciphers are exactly
    /// what they were before.
    pub fn update_egress_mac(&mut self, block: &Vec<u8>)
        requires
            old(self).wf(),
            block@.len() == 16,
        ensures
            final(self).wf(),
            final(self).egress_mac.current@ == mac_step(
                old(self).egress_mac.secret@,
                old(self).egress_mac.current@,
                block@,
            ),
            final(self).egress_mac.secret@ == old(self).egress_mac.secret@,
            final(self).ingress_mac == old(self).ingress_mac,
            final(self).ingress_aes == old(self).ingress_aes,
            final(self).egress_aes == old(self).egress_aes,
            final(self).aes_secret == old(self).aes_secret,
            final(self).mac_secret == old(self).mac_secret,
            final(self).shared_secret == old(self).shared_secret,
    {
        self.egress_mac.update(block);
    }

    /// Absorbs one inbound ciphertext block into the ingress MAC.
    /// Directional isolation: the egress MAC and both ciphers are exactly
    /// what they were before.
    pub fn update_ingress_mac(&mut self, block: &Vec<u8>)
        requires
            old(self).wf(),
            block@.len() == 16,
        ensures
            final(self).wf(),
            final(self).ingress_mac.current@ == mac_step(
                old(self).ingress_mac.secret@,
                old(self).ingress_mac.current@,
                block@,
            ),
            final(self).ingress_mac.secret@ == old(self).ingress_mac.secret@,
            final(self).egress_mac == old(self).egress_mac,
            final(self).ingress_aes == old(self).ingress_aes,
            final(self).egress_aes == old(self).egress_aes,
            final(self).aes_secret == old(self).aes_secret,
            final(self).mac_secret == old(self).mac_secret,
            final(self).shared_secret == old(self).shared_secret,
    {
        self.ingress_mac.update(block);
    }

    /// Encrypts one outbound frame in place with the egress cipher.
    /// Directional isolation: the ingress cipher and both MACs are exactly
    /// what they were before.
    pub fn apply_egress_cipher(&mut self, data: &mut Vec<u8>)
        requires
            old(self).wf(),
            old(self).egress_aes.processed + old(data)@.len() <= u64::MAX,
        ensures
            final(self).wf(),
            final(data)@ == aes256_ctr_at(
                old(self).egress_aes.key@,
                old(self).egress_aes.iv@,
                old(self).egress_aes.processed as int,
                old(data)@,
            ),
            final(self).egress_aes.processed == old(self).egress_aes.processed + old(data)@.len(),
            final(self).egress_aes.key@ == old(self).egress_aes.key@,
            final(self).egress_aes.iv@ == old(self).egress_aes.iv@,
            final(self).ingress_aes == old(self).ingress_aes,
            final(self).ingress_mac == old(self).ingress_mac,
            final(self).egress_mac == old(self).egress_mac,
    {
        self.egress_aes.apply_keystream(data);
    }

    /// Decrypts one inbound frame in place with the ingress cipher.
    /// Directional isolation: the egress cipher and both MACs are exactly
    /// what they were before.
    pub fn apply_ingress_cipher(&mut self, data: &mut Vec<u8>)
        requires
            old(self).wf(),
            old(self).ingress_aes.processed + old(data)@.len() <= u64::MAX,
        ensures
            final(self).wf(),
            final(data)@ == aes256_ctr_at(
                old(self).ingress_aes.key@,
                old(self).ingress_aes.iv@,
                old(self).ingress_aes.processed as int,
                old(data)@,
            ),
            final(self).ingress_aes.processed == old(self).ingress_aes.processed + old(data)@.len(),
            final(self).ingress_aes.key@ == old(self).ingress_aes.key@,
            final(self).ingress_aes.iv@ == old(self).ingress_aes.iv@,
            final(self).egress_aes == old(self).egress_aes,
            final(self).ingress_mac == old(self).ingress_mac,
            final(self).egress_mac == old(self).egress_mac,
    {
        self.ingress_aes.apply_keystream(data);
    }
}

} // verus!
