//! The failure taxonomy shared by every component of the crate.

use vstd::prelude::*;

verus! {

/// Every failure a handshake or codec operation can report. Nothing is
/// swallowed inside the crate: each fallible operation returns one of these,
/// and cryptographic verification failures are fatal to the connection
/// attempt that raised them.
#[derive(Debug)]
pub enum Error {
    /// The presented bytes do not form a valid curve point.
    InvalidPublicKey,
    /// The authentication tag of an encrypted message did not match; the
    /// carried bytes are the tag this side computed.
    InvalidTag(Vec<u8>),
    /// The running MAC of a live frame did not match; the carried bytes are
    /// the digest this side computed.
    InvalidMac(Vec<u8>),
    /// The expected authentication response never arrived.
    AuthResponse,
    /// A structured message could not be decoded.
    Decoder,
    /// A decoded message was semantically invalid.
    InvalidResponse,
    /// The transport closed mid-handshake.
    TcpConnectionClosed,
    /// An underlying transport error, propagated unchanged.
    IO,
}

} // verus!
