//! Protocol-wide constants.

use vstd::prelude::*;

verus! {

/// The protocol version advertised in every greeting message.
pub const PROTOCOL_VERSION: usize = 5;

/// The fixed encoding of an empty frame-header list, used as the header of
/// zero-length frames by the framing layer above this crate.
pub const ZERO_HEADER: [u8; 3] = [194, 128, 128];

} // verus!
