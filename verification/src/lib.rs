//! Verified decision logic of the application Relay.

pub mod address;
pub mod bytes;
pub mod certificates;
pub mod clock;
pub mod enrollment;
pub mod error;
pub mod iroh_endpoint;
pub mod issuance;
pub mod listener;
pub mod manager;
pub mod material;
pub mod paths;
pub mod pki;
pub mod quic_server;
pub mod quic_wire;
pub mod random;
pub mod table;
pub mod text;

use text::is_session_text;
use vstd::prelude::*;

verus! {

/// Longest session name of the bootstrap wire.
pub const HDB1_MAX_SESSION_BYTES: usize = 64;

/// Longest signing request of the bootstrap wire.
pub const HDB1_MAX_CSR_BYTES: usize = 16384;

/// Tells whether a text is a normalized session name.
pub fn is_valid_hdb1_session(value: &str) -> (valid: bool)
    ensures
        valid == crate::text::session_text(value@),
{
    is_session_text(value)
}

} // verus!
