//! Wire-level building blocks: socket addresses, the version header and the
//! frame codec.

pub mod address;
pub mod frame;
pub mod handshake;
pub mod version_header;
