use vstd::prelude::*;

verus! {

/// The value of two bytes read most significant first.
pub open spec fn be_u16(b: Seq<u8>) -> nat
    recommends
        b.len() == 2,
{
    (b[0] as nat) * 256 + (b[1] as nat)
}

/// The value of four bytes read most significant first.
pub open spec fn be_u32(b: Seq<u8>) -> nat
    recommends
        b.len() == 4,
{
    (((b[0] as nat) * 256 + (b[1] as nat)) * 256 + (b[2] as nat)) * 256 + (b[3] as nat)
}

/// An IPv4 socket address, both parts in host order.
///
/// The address `a.b.c.d` is held as `a * 2^24 + b * 2^16 + c * 2^8 + d`.
#[derive(Clone, Copy, Debug, PartialEq, Eq, Structural)]
pub struct Endpoint {
    pub ip: u32,
    pub port: u16,
}

/// `127.0.0.1`.
pub const LOOPBACK_IP: u32 = 0x7f00_0001;

/// `0.0.0.0`.
pub const UNSPECIFIED_IP: u32 = 0;

impl Endpoint {
    pub open spec fn spec_is_loopback(self) -> bool {
        self.ip / 0x0100_0000 == 127
    }

    /// The endpoint whose address and port arrive as bytes in network order,
    /// as the kernel fills a `sockaddr_in`.
    pub fn from_network_order(port: [u8; 2], addr: [u8; 4]) -> (r: Endpoint)
        ensures
            r.port == be_u16(port@),
            r.ip == be_u32(addr@),
    {
        let p: u16 = (port[0] as u16) * 256 + (port[1] as u16);
        let a: u32 = (((addr[0] as u32) * 256 + (addr[1] as u32)) * 256 + (addr[2] as u32)) * 256
            + (addr[3] as u32);
        Endpoint { ip: a, port: p }
    }

    /// The address as its four octets, most significant first.
    pub fn octets(&self) -> (r: [u8; 4])
        ensures
            be_u32(r@) == self.ip,
    {
        let a: u8 = (self.ip / 0x0100_0000) as u8;
        let b: u8 = ((self.ip / 0x0001_0000) % 256) as u8;
        let c: u8 = ((self.ip / 0x0000_0100) % 256) as u8;
        let d: u8 = (self.ip % 256) as u8;
        [a, b, c, d]
    }

    /// Whether the address lies in `127.0.0.0/8`.
    pub fn is_loopback(&self) -> (r: bool)
        ensures
            r == self.spec_is_loopback(),
    {
        self.ip / 0x0100_0000 == 127
    }
}

} // verus!
