//! The three handshake-payload messages and their codecs: the greeting, the
//! capability descriptor it carries, and the disconnect notice. Each is a
//! fixed-order encoded list; decoding never panics on malformed input.

use vstd::prelude::*;

use crate::bytes_util::{append_slice, sub_vec};
use crate::crypto;
use crate::crypto::is_valid_pubkey;
use crate::errors::Error;
use crate::rlp_codec;
use crate::rlp_codec::{
    cap_concat, caps_fit, fits_rlp_len, rlp_capability_enc, rlp_disconnect_enc, rlp_hello_enc,
    rlp_list_enc,
};

verus! {

/// One advertised capability: a protocol name and its version.
#[derive(Debug)]
pub struct Capability {
    /// The capability's protocol name.
    pub name: String,
    /// The capability's protocol version.
    pub version: usize,
}

/// The name/version pairs of a capability sequence, in order.
pub open spec fn caps_view(caps: Seq<Capability>) -> Seq<(Seq<char>, usize)> {
    caps.map(|i: int, c: Capability| (c.name@, c.version))
}

impl Capability {
    /// The exact bytes this capability encodes to.
    pub open spec fn wire(self) -> Seq<u8> {
        rlp_capability_enc(self.name@, self.version as int)
    }

    /// Appends this capability's encoding to `out`.
    pub fn rlp_append(&self, out: &mut Vec<u8>)
        ensures
            final(out)@ == old(out)@ + self.wire(),
    {
        let enc = rlp_codec::rlp_encode_capability(&self.name, self.version);
        append_slice(out, enc.as_slice());
    }

    /// Decodes one capability. On the exactly-encoded image of any
    /// capability this returns that capability; empty input, input that is
    /// no list, and a list of the wrong arity — a disconnect notice, say —
    /// are decoder errors, as is any other failure.
    pub fn decode(data: &[u8]) -> (r: Result<Capability, Error>)
        ensures
            forall|name: Seq<char>, version: int|
                data@ == rlp_capability_enc(name, version) && 0 <= version <= usize::MAX
                    && fits_rlp_len(name.len() as int) ==> (r matches Ok(c) && c.name@ == name
                    && c.version == version),
            forall|reason: int|
                data@ == rlp_disconnect_enc(reason) && 0 <= reason <= usize::MAX ==> (r matches
                    Err(e) && e is Decoder),
            data@.len() == 0 ==> (r matches Err(e) && e is Decoder),
            data@.len() > 0 && data@[0] < 0xC0 ==> (r matches Err(e) && e is Decoder),
            r matches Err(e) ==> e is Decoder,
    {
        let n = match rlp_codec::rlp_item_count(data) {
            Some(n) => n,
            None => {
                return Err(Error::Decoder);
            },
        };
        if n != 2 {
            return Err(Error::Decoder);
        }
        match rlp_codec::rlp_decode_capability(data) {
            Some((name, version)) => Ok(Capability { name, version }),
            None => Err(Error::Decoder),
        }
    }
}

/// The greeting exchanged right after the channel is secured: protocol
/// version, client identifier, capability preferences in order, listening
/// port, and the node's public key.
#[derive(Debug)]
pub struct Hello {
    /// The advertised protocol version.
    pub protocol_version: usize,
    /// The client identifier string.
    pub client_version: String,
    /// The advertised capabilities, in decreasing preference.
    pub capabilities: Vec<Capability>,
    /// The listening port.
    pub port: u16,
    /// The node's 65-byte uncompressed public key; the wire form carries the
    /// 64 bytes after the leading format marker.
    pub id: Vec<u8>,
}

impl Hello {
    /// The structural invariant of a greeting: a 65-byte id led by the SEC1
    /// uncompressed marker.
    pub open spec fn wf(self) -> bool {
        self.id@.len() == 65 && self.id@[0] == 4u8
    }

    /// The exact bytes this greeting encodes to.
    pub open spec fn wire(self) -> Seq<u8> {
        rlp_hello_enc(
            self.protocol_version as int,
            self.client_version@,
            cap_concat(caps_view(self.capabilities@)),
            self.port as int,
            self.id@.subrange(1, 65),
        )
    }

    /// Appends this greeting's encoding to `out`: the five fields in order,
    /// the capability list as a nested list, the id stripped of its marker.
    pub fn rlp_append(&self, out: &mut Vec<u8>)
        requires
            self.wf(),
        ensures
            final(out)@ == old(out)@ + self.wire(),
    {
        let ghost cv = caps_view(self.capabilities@);
        let mut payload: Vec<u8> = Vec::new();
        proof {
            assert(payload@ =~= cap_concat(cv.take(0)));
        }
        let mut i: usize = 0;
        while i < self.capabilities.len()
            invariant
                i <= self.capabilities@.len(),
                cv == caps_view(self.capabilities@),
                payload@ == cap_concat(cv.take(i as int)),
            decreases self.capabilities@.len() - i,
        {
            let cap = &self.capabilities[i];
            cap.rlp_append(&mut payload);
            proof {
                assert(cv.take(i + 1).drop_last() =~= cv.take(i as int));
                assert(cv.take(i + 1).last() == (cap.name@, cap.version));
                assert(payload@ == cap_concat(cv.take(i + 1)));
            }
            i = i + 1;
        }
        proof {
            assert(cv.take(self.capabilities@.len() as int) =~= cv);
        }
        let id64 = sub_vec(self.id.as_slice(), 1, 65);
        let enc = rlp_codec::rlp_encode_hello_parts(
            self.protocol_version,
            &self.client_version,
            &payload,
            self.capabilities.len(),
            self.port,
            &id64,
        );
        append_slice(out, enc.as_slice());
    }

    /// Decodes a greeting. Codec round trip: on the exactly-encoded image of
    /// any greeting whose 64-byte id completes to a valid public key, the
    /// decoded greeting carries exactly the encoded fields; an id of the
    /// wrong length or one that is no curve point is an `InvalidPublicKey`
    /// error, not a panic; empty input, input that is no list, and a list of
    /// the wrong arity — a disconnect notice, say — are decoder errors, as
    /// is every other failure.
    #[verifier::loop_isolation(false)]
    pub fn decode(data: &[u8]) -> (r: Result<Hello, Error>)
        ensures
            forall|pv: int, cv: Seq<char>, caps: Seq<(Seq<char>, usize)>, port: int, id64: Seq<u8>|
                data@ == rlp_hello_enc(pv, cv, cap_concat(caps), port, id64) && 0 <= pv
                    <= usize::MAX && 0 <= port <= 65535 && caps_fit(caps) && fits_rlp_len(
                    (cv.len() + cap_concat(caps).len() + id64.len()) as int,
                ) && id64.len() == 64 && is_valid_pubkey(seq![4u8] + id64) ==> (r matches Ok(h)
                    && h.protocol_version == pv && h.client_version@ == cv && caps_view(
                    h.capabilities@,
                ) == caps && h.port == port && h.id@ == seq![4u8] + id64),
            forall|pv: int, cv: Seq<char>, caps: Seq<(Seq<char>, usize)>, port: int, id64: Seq<u8>|
                data@ == rlp_hello_enc(pv, cv, cap_concat(caps), port, id64) && 0 <= pv
                    <= usize::MAX && 0 <= port <= 65535 && caps_fit(caps) && fits_rlp_len(
                    (cv.len() + cap_concat(caps).len() + id64.len()) as int,
                ) && id64.len() != 64 ==> (r matches Err(e) && e is InvalidPublicKey),
            forall|reason: int|
                data@ == rlp_disconnect_enc(reason) && 0 <= reason <= usize::MAX ==> (r matches
                    Err(e) && e is Decoder),
            data@.len() == 0 ==> (r matches Err(e) && e is Decoder),
            data@.len() > 0 && data@[0] < 0xC0 ==> (r matches Err(e) && e is Decoder),
            r matches Ok(h) ==> h.wf() && is_valid_pubkey(h.id@),
            r matches Err(e) ==> e is Decoder || e is InvalidPublicKey,
    {
        let n_fields = match rlp_codec::rlp_item_count(data) {
            Some(n) => n,
            None => {
                return Err(Error::Decoder);
            },
        };
        if n_fields != 5 {
            return Err(Error::Decoder);
        }
        let parts = match rlp_codec::rlp_decode_hello_parts(data) {
            Some(t) => t,
            None => {
                return Err(Error::Decoder);
            },
        };
        let (pv, cvs, caps_raw, port, id) = parts;
        let n = match rlp_codec::rlp_item_count(caps_raw.as_slice()) {
            Some(n) => n,
            None => {
                return Err(Error::Decoder);
            },
        };
        let mut capabilities: Vec<Capability> = Vec::new();
        let mut i: usize = 0;
        while i < n
            invariant
                i <= n,
                capabilities@.len() == i,
                forall|caps: Seq<(Seq<char>, usize)>|
                    caps_raw@ == rlp_list_enc(cap_concat(caps)) && caps_fit(caps) && caps.len()
                        == n ==> forall|j: int| 0 <= j < i ==> caps_view(capabilities@)[j]
                        == caps[j],
            decreases n - i,
        {
            let raw = match rlp_codec::rlp_cap_raw_at(caps_raw.as_slice(), i) {
                Some(v) => v,
                None => {
                    return Err(Error::Decoder);
                },
            };
            let cap = match Capability::decode(raw.as_slice()) {
                Ok(c) => c,
                Err(_) => {
                    return Err(Error::Decoder);
                },
            };
            capabilities.push(cap);
            i = i + 1;
        }
        if id.len() != 64 {
            return Err(Error::InvalidPublicKey);
        }
        let mut full: Vec<u8> = Vec::new();
        full.push(4u8);
        append_slice(&mut full, id.as_slice());
        proof {
            assert(full@ =~= seq![4u8] + id@);
        }
        if !crypto::check_public_key(full.as_slice()) {
            return Err(Error::InvalidPublicKey);
        }
        proof {
            assert forall|caps: Seq<(Seq<char>, usize)>|
                caps_raw@ == rlp_list_enc(cap_concat(caps)) && caps_fit(caps) && caps.len() == n
                    implies caps_view(capabilities@) == caps by {
                assert(caps_view(capabilities@).len() == n);
                assert(caps_view(capabilities@) =~= caps);
            }
        }
        Ok(Hello { protocol_version: pv, client_version: cvs, capabilities, port, id: full })
    }
}

/// A disconnect notice: the reason the peer is closing the channel.
#[derive(Debug)]
pub struct Disconnect {
    /// The numeric reason code.
    pub reason: usize,
}

impl Disconnect {
    /// The exact bytes this notice encodes to.
    pub open spec fn wire(self) -> Seq<u8> {
        rlp_disconnect_enc(self.reason as int)
    }

    /// Appends this notice's encoding to `out`.
    pub fn rlp_append(&self, out: &mut Vec<u8>)
        ensures
            final(out)@ == old(out)@ + self.wire(),
    {
        let enc = rlp_codec::rlp_encode_disconnect(self.reason);
        append_slice(out, enc.as_slice());
    }

    /// Decodes a disconnect notice. On the encoding of any notice this
    /// returns that notice; empty input, input that is no list, and a list
    /// of the wrong arity — a capability, say — are decoder errors, as is
    /// any other failure.
    pub fn decode(data: &[u8]) -> (r: Result<Disconnect, Error>)
        ensures
            forall|reason: int|
                data@ == rlp_disconnect_enc(reason) && 0 <= reason <= usize::MAX ==> (r matches Ok(
                    d,
                ) && d.reason == reason),
            forall|name: Seq<char>, version: int|
                data@ == rlp_capability_enc(name, version) && 0 <= version <= usize::MAX
                    && fits_rlp_len(name.len() as int) ==> (r matches Err(e) && e is Decoder),
            data@.len() == 0 ==> (r matches Err(e) && e is Decoder),
            data@.len() > 0 && data@[0] < 0xC0 ==> (r matches Err(e) && e is Decoder),
            r matches Err(e) ==> e is Decoder,
    {
        let n = match rlp_codec::rlp_item_count(data) {
            Some(n) => n,
            None => {
                return Err(Error::Decoder);
            },
        };
        if n != 1 {
            return Err(Error::Decoder);
        }
        match rlp_codec::rlp_decode_disconnect(data) {
            Some(reason) => Ok(Disconnect { reason }),
            None => Err(Error::Decoder),
        }
    }
}

} // verus!
