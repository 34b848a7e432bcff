use vstd::prelude::*;

verus! {

/// A transport peer identity: the (address, port) pair under which a
/// participant is known to the hub. The address is held as a plain integer
/// (an IPv6-sized value also covers IPv4), so endpoints compare by value.
#[derive(PartialEq, Eq, Structural, Clone, Copy, Debug)]
pub struct Endpoint {
    pub addr: u128,
    pub port: u16,
}

/// One registered stream peer: its endpoint together with an opaque
/// connection handle identifier. The handle number is chosen by the caller
/// that accepted the connection and maps back to the open stream there.
#[derive(PartialEq, Eq, Structural, Clone, Copy, Debug)]
pub struct Peer {
    pub endpoint: Endpoint,
    pub conn: u64,
}

} // verus!
