use vstd::prelude::*;

verus! {

/// An IP address: IPv4 as its 32-bit value, IPv6 as its 128-bit value.
#[derive(Clone, Copy, Debug, PartialEq, Eq, Structural)]
pub enum IpAddr {
    V4(u32),
    V6(u128),
}

/// A resolved socket address.
#[derive(Clone, Copy, Debug, PartialEq, Eq, Structural)]
pub struct SockAddr {
    pub ip: IpAddr,
    pub port: u16,
}

/// Where a plain stream socket lives: an IP socket address or a
/// Unix-domain socket path.
#[derive(Clone, Debug)]
pub enum CommonAddr {
    SocketAddr(SockAddr),
    UnixSocketPath(String),
}

/// The wildcard address of one family, with port 0.
pub open spec fn wildcard_of(v6: bool) -> SockAddr {
    if v6 {
        SockAddr { ip: IpAddr::V6(0), port: 0 }
    } else {
        SockAddr { ip: IpAddr::V4(0), port: 0 }
    }
}

impl SockAddr {
    /// The address-family flag of a resolved address.
    pub fn is_ipv6(&self) -> (r: bool)
        ensures
            r == (self.ip is V6),
    {
        match self.ip {
            IpAddr::V4(_) => false,
            IpAddr::V6(_) => true,
        }
    }
}

/// `0.0.0.0:0`
pub fn empty_sockaddr_v4() -> (r: SockAddr)
    ensures
        r == wildcard_of(false),
{
    SockAddr { ip: IpAddr::V4(0), port: 0 }
}

/// `[::]:0`
pub fn empty_sockaddr_v6() -> (r: SockAddr)
    ensures
        r == wildcard_of(true),
{
    SockAddr { ip: IpAddr::V6(0), port: 0 }
}

} // verus!
