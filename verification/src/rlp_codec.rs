//! Named results and trusted wrappers for the structured list encoding the
//! handshake messages travel in (RLP). The crate composes whole messages out
//! of three named encodings — one capability, the five-field greeting, the
//! one-field disconnect — and reads them back field by field; the inverse
//! clauses state what the rlp crate's encode/decode pairs promise: decoding
//! an encoding gives back the encoded fields.

use vstd::prelude::*;

verus! {

/// The complete encoding of one capability: a two-element list of a string
/// and an unsigned integer.
pub uninterp spec fn rlp_capability_enc(name: Seq<char>, version: int) -> Seq<u8>;

/// The complete encoding of a greeting: a five-element list of the protocol
/// version, the client identifier, the capability list (given here as the
/// concatenation of its already-encoded elements), the port, and the 64
/// raw public-key bytes.
pub uninterp spec fn rlp_hello_enc(
    protocol_version: int,
    client_version: Seq<char>,
    caps_payload: Seq<u8>,
    port: int,
    id: Seq<u8>,
) -> Seq<u8>;

/// The complete encoding of a disconnect notice: a one-element list of the
/// reason code.
pub uninterp spec fn rlp_disconnect_enc(reason: int) -> Seq<u8>;

/// A list item wrapped around an already-encoded payload: the list header
/// followed by the payload bytes.
pub uninterp spec fn rlp_list_enc(payload: Seq<u8>) -> Seq<u8>;

/// Whether an item payload of this length is encoded with an exact header:
/// the stream writer truncates item lengths to 32 bits when it prepends a
/// header, so the inverse clauses below hold only of messages whose fields
/// stay below that bound (with room for the surrounding headers).
pub open spec fn fits_rlp_len(n: int) -> bool {
    n < 0xFFFFFF00
}

/// The concatenated encodings of a sequence of capabilities, in order.
pub open spec fn cap_concat(caps: Seq<(Seq<char>, usize)>) -> Seq<u8>
    decreases caps.len(),
{
    if caps.len() == 0 {
        Seq::empty()
    } else {
        cap_concat(caps.drop_last()) + rlp_capability_enc(
            caps.last().0,
            caps.last().1 as int,
        )
    }
}

/// Whether every capability name in the sequence, and the concatenation of
/// the encoded elements, stays within the exactly-encoded sizes.
pub open spec fn caps_fit(caps: Seq<(Seq<char>, usize)>) -> bool {
    &&& forall|j: int| 0 <= j < caps.len() ==> fits_rlp_len(caps[j].0.len() as int)
    &&& fits_rlp_len(cap_concat(caps).len() as int)
}

/// Relies on rlp::RlpStream (new_list, append, out): encodes one capability
/// as the two-element list of its name and version.
#[verifier::external_body]
pub(crate) fn rlp_encode_capability(name: &String, version: usize) -> (r: Vec<u8>)
    ensures
        r@ == rlp_capability_enc(name@, version as int),
{
    let mut s = rlp::RlpStream::new_list(2);
    s.append(name);
    s.append(&version);
    s.out().to_vec()
}

/// Relies on rlp::RlpStream (new_list, append, begin_list, append_raw, out):
/// encodes the five greeting fields, splicing the already-encoded capability
/// elements in as the third item; the bytes depend only on the five values.
#[verifier::external_body]
pub(crate) fn rlp_encode_hello_parts(
    protocol_version: usize,
    client_version: &String,
    caps_payload: &Vec<u8>,
    n_caps: usize,
    port: u16,
    id: &Vec<u8>,
) -> (r: Vec<u8>)
    requires
        n_caps == 0 ==> caps_payload@.len() == 0,
    ensures
        r@ == rlp_hello_enc(
            protocol_version as int,
            client_version@,
            caps_payload@,
            port as int,
            id@,
        ),
{
    let mut s = rlp::RlpStream::new_list(5);
    s.append(&protocol_version);
    s.append(client_version);
    s.begin_list(n_caps);
    s.append_raw(caps_payload.as_slice(), n_caps);
    s.append(&port);
    s.append(id);
    s.out().to_vec()
}

/// Relies on rlp::RlpStream (new_list, append, out): encodes a disconnect
/// notice as the one-element list of its reason code.
#[verifier::external_body]
pub(crate) fn rlp_encode_disconnect(reason: usize) -> (r: Vec<u8>)
    ensures
        r@ == rlp_disconnect_enc(reason as int),
{
    let mut s = rlp::RlpStream::new_list(1);
    s.append(&reason);
    s.out().to_vec()
}

/// Relies on rlp::Rlp (new, val_at, at, as_raw): reads the five greeting
/// fields back, the capability list as its raw sub-item bytes. Decoding is
/// the inverse of encoding on the exactly-encoded images: on the bytes that
/// `rlp_hello_enc` gives for in-range fields whose combined length gets
/// exact headers, every field comes back as it was encoded.
#[verifier::external_body]
pub(crate) fn rlp_decode_hello_parts(data: &[u8]) -> (r: Option<
    (usize, String, Vec<u8>, u16, Vec<u8>),
>)
    ensures
        forall|pv: int, cv: Seq<char>, capsp: Seq<u8>, port: int, id: Seq<u8>|
            data@ == rlp_hello_enc(pv, cv, capsp, port, id) && 0 <= pv <= usize::MAX && 0 <= port
                <= 65535 && fits_rlp_len((cv.len() + capsp.len() + id.len()) as int) ==> r is Some
                && (r->0).0 == pv && (r->0).1@ == cv && (r->0).2@ == rlp_list_enc(capsp)
                && (r->0).3 == port && (r->0).4@ == id,
{
    let rlp = rlp::Rlp::new(data);
    let pv = rlp.val_at::<usize>(0).ok()?;
    let cv = rlp.val_at::<String>(1).ok()?;
    let caps = rlp.at(2).ok()?.as_raw().to_vec();
    let port = rlp.val_at::<u16>(3).ok()?;
    let id = rlp.val_at::<Vec<u8>>(4).ok()?;
    Some((pv, cv, caps, port, id))
}

/// Relies on rlp::Rlp (new, item_count): empty input and input whose first
/// byte is below the list range are refused outright; on the exactly-encoded
/// message images the count is the number of fields that were encoded, since
/// RLP items are self-delimiting.
#[verifier::external_body]
pub(crate) fn rlp_item_count(data: &[u8]) -> (r: Option<usize>)
    ensures
        data@.len() == 0 ==> r is None,
        data@.len() > 0 && data@[0] < 0xC0 ==> r is None,
        forall|caps: Seq<(Seq<char>, usize)>|
            data@ == rlp_list_enc(cap_concat(caps)) && caps_fit(caps) ==> r is Some
                && r->0 == caps.len(),
        forall|pv: int, cv: Seq<char>, capsp: Seq<u8>, port: int, id: Seq<u8>|
            data@ == rlp_hello_enc(pv, cv, capsp, port, id) && 0 <= pv <= usize::MAX && 0 <= port
                <= 65535 && fits_rlp_len((cv.len() + capsp.len() + id.len()) as int) ==> r is Some
                && r->0 == 5,
        forall|name: Seq<char>, version: int|
            data@ == rlp_capability_enc(name, version) && 0 <= version <= usize::MAX
                && fits_rlp_len(name.len() as int) ==> r is Some && r->0 == 2,
        forall|reason: int|
            data@ == rlp_disconnect_enc(reason) && 0 <= reason <= usize::MAX ==> r is Some
                && r->0 == 1,
{
    rlp::Rlp::new(data).item_count().ok()
}

/// Relies on rlp::Rlp (new, at, as_raw): within the exactly-encoded images,
/// the raw bytes of element `i` of an encoded capability list are the
/// encoding of the capability that stood at position `i`.
#[verifier::external_body]
pub(crate) fn rlp_cap_raw_at(caps_raw: &[u8], i: usize) -> (r: Option<Vec<u8>>)
    ensures
        forall|caps: Seq<(Seq<char>, usize)>|
            caps_raw@ == rlp_list_enc(cap_concat(caps)) && caps_fit(caps) && i < caps.len()
                ==> r is Some
                && r->0@ == rlp_capability_enc(caps[i as int].0, caps[i as int].1 as int),
{
    Some(rlp::Rlp::new(caps_raw).at(i).ok()?.as_raw().to_vec())
}

/// Relies on rlp::Rlp (new, val_at): reads one capability's name and version
/// back; the inverse of `rlp_encode_capability` on its in-range,
/// exactly-encoded images.
#[verifier::external_body]
pub(crate) fn rlp_decode_capability(data: &[u8]) -> (r: Option<(String, usize)>)
    ensures
        forall|name: Seq<char>, version: int|
            data@ == rlp_capability_enc(name, version) && 0 <= version <= usize::MAX
                && fits_rlp_len(name.len() as int) ==> r is Some && (r->0).0@ == name
                && (r->0).1 == version,
{
    let rlp = rlp::Rlp::new(data);
    let name = rlp.val_at::<String>(0).ok()?;
    let version = rlp.val_at::<usize>(1).ok()?;
    Some((name, version))
}

/// Relies on rlp::Rlp (new, val_at): reads a disconnect reason back; the
/// inverse of `rlp_encode_disconnect` on its in-range images.
#[verifier::external_body]
pub(crate) fn rlp_decode_disconnect(data: &[u8]) -> (r: Option<usize>)
    ensures
        forall|reason: int|
            data@ == rlp_disconnect_enc(reason) && 0 <= reason <= usize::MAX
                ==> r is Some && r->0 == reason,
{
    rlp::Rlp::new(data).val_at::<usize>(0).ok()
}

} // verus!
