//! Network addresses and destination names.
use vstd::prelude::*;

verus! {

/// An IP address: four bytes packed big-endian, or sixteen.
#[derive(Clone, Copy, Debug, PartialEq, Eq, Hash, Structural)]
pub enum IpAddr {
    V4(u32),
    V6(u128),
}

/// An IP address and a port.
#[derive(Clone, Copy, Debug, PartialEq, Eq, Hash, Structural)]
pub struct SocketAddr {
    pub ip: IpAddr,
    pub port: u16,
}

impl SocketAddr {
    /// Builds the address `ip:port`.
    pub fn new(ip: IpAddr, port: u16) -> (r: SocketAddr)
        ensures
            r.ip == ip,
            r.port == port,
    {
        SocketAddr { ip, port }
    }
}

/// The logical name of a destination: a DNS name and a port.
#[derive(Clone, Debug, PartialEq, Eq, Hash)]
pub struct DnsNameAndPort {
    pub host: String,
    pub port: u16,
}

} // verus!
