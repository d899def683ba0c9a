//! A verified concurrency and lifetime-management layer for a QUIC-like
//! transport: endpoint and connection actors over the `quinn-proto` protocol
//! engine, a background-poller decision procedure, and the boundary contract
//! (result codes, last-error slot, two-phase output buffers) through which a
//! host drives the transport.
pub mod boundary;
pub mod connection;
pub mod endpoint;
pub mod engine;
pub mod poller;

use vstd::prelude::*;

verus! {

/// Direction of a stream: bidirectional or unidirectional.
#[derive(Clone, Copy, PartialEq, Eq, Structural, Debug)]
pub enum StreamDir {
    Bi,
    Uni,
}

/// Decodes the boundary's byte encoding of a stream direction: zero means
/// bidirectional, anything else unidirectional.
pub fn dir_from_u8(dir: u8) -> (r: StreamDir)
    ensures
        r == (if dir == 0 { StreamDir::Bi } else { StreamDir::Uni }),
{
    if dir == 0 {
        StreamDir::Bi
    } else {
        StreamDir::Uni
    }
}

} // verus!
