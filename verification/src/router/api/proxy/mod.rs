//! WebSocket links to instances by token.

use vstd::prelude::*;

verus! {

/// Query of a link.
pub struct LinkRequest {
    pub port: u32,
}

/// The pod port a link forwards to: the requested port, truncated to 16 bits.
pub fn link_port(query: &LinkRequest) -> (p: u16)
    ensures
        p == query.port as u16,
{
    query.port as u16
}

} // verus!
