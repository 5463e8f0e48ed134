//! Remote endpoints as plain values.
use vstd::prelude::*;

verus! {

/// An IP address of either family.
#[derive(Debug, Clone, Copy)]
pub enum IpAddr {
    /// The four octets, most significant first.
    V4([u8; 4]),
    /// The eight 16-bit segments, most significant first.
    V6([u16; 8]),
}

/// A remote endpoint: an address and a port.
#[derive(Debug, Clone, Copy)]
pub struct SocketAddr {
    pub ip: IpAddr,
    pub port: u16,
}

impl SocketAddr {
    pub fn new(ip: IpAddr, port: u16) -> (a: SocketAddr)
        ensures
            a.ip == ip,
            a.port == port,
    {
        SocketAddr { ip, port }
    }
}

} // verus!
