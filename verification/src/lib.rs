//! Peer-to-peer encrypted messaging substrate: self-certifying identities,
//! a length-prefixed wire frame, a trust-on-first-use registry and the
//! decision logic of the network and client actors.

use vstd::prelude::*;
use vstd::string::StringExecFns;

pub mod chat;
pub mod client;
pub mod domain;
pub mod error;
pub mod identity;
pub mod net;
pub mod text;
pub mod time;

verus! {

/// Protocol name carried by every frame header: the ASCII text `SREMP_DIRECT`.
pub const PROTOCOL_DIRECT_NAME: [u8; 12] = [83, 82, 69, 77, 80, 95, 68, 73, 82, 69, 67, 84];

/// Name and version of this library.
pub open spec fn version_text() -> Seq<char> {
    "sremp v0.1.0"@
}

/// Name and version of this library, as shown to the user.
pub fn version() -> (text: String)
    ensures
        text@ == version_text(),
{
    String::from_str("sremp v0.1.0")
}

} // verus!
