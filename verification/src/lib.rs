//! Cryptographic handshake and message-framing primitives for an encrypted
//! peer-to-peer transport: an ECIES-based authenticated key exchange together
//! with the message codecs and per-direction MAC/cipher state that bootstrap
//! a secure channel.

pub mod api;
pub mod bytes_util;
pub mod constants;
pub mod cipher;
pub mod crypto;
pub mod ecies;
pub mod errors;
pub mod mac;
pub mod messages;
pub mod rlp_codec;
pub mod secrets;
