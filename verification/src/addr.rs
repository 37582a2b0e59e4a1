//! Network addresses of peers, as plain numbers.

use vstd::prelude::*;

verus! {

/// The address a connection comes from: an IP address and a port, and for
/// version 6 the flow label and the scope as well.
#[derive(Clone, Copy, Debug, PartialEq, Eq, Structural, Hash)]
pub enum PeerAddr {
    V4 { ip: u32, port: u16 },
    V6 { ip6: u128, port: u16, flowinfo: u32, scope_id: u32 },
}

} // verus!
