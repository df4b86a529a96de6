//! Network addresses as plain values: what the handler compares and stores.

use vstd::prelude::*;

verus! {

/// An IP address by its bits, most significant octet first.
#[derive(Debug, Clone, Copy, PartialEq, Eq, Hash, Structural)]
pub enum IpAddress {
    V4(u32),
    V6(u128),
}

/// An IP address and a port: where a datagram or a connection came from.
#[derive(Debug, Clone, Copy, PartialEq, Eq, Hash, Structural)]
pub struct SocketAddress {
    pub ip: IpAddress,
    pub port: u16,
}

/// The bits of the IPv4 address `a.b.c.d`.
pub open spec fn v4_bits(a: u8, b: u8, c: u8, d: u8) -> int {
    a * 0x100_0000 + b * 0x1_0000 + c * 0x100 + d
}

impl IpAddress {
    /// The address is a loopback one: in `127.0.0.0/8`, or `::1`.
    pub open spec fn loopback(self) -> bool {
        match self {
            IpAddress::V4(bits) => 0x7f00_0000 <= bits <= 0x7fff_ffff,
            IpAddress::V6(bits) => bits == 1,
        }
    }

    /// The IPv4 address `a.b.c.d`.
    pub fn v4(a: u8, b: u8, c: u8, d: u8) -> (ip: IpAddress)
        ensures
            ip == IpAddress::V4(v4_bits(a, b, c, d) as u32),
            v4_bits(a, b, c, d) <= u32::MAX,
    {
        let bits: u32 = (a as u32) * 0x100_0000 + (b as u32) * 0x1_0000 + (c as u32) * 0x100 + (d as u32);
        IpAddress::V4(bits)
    }

    /// Whether the address is a loopback one.
    pub fn is_loopback(&self) -> (b: bool)
        ensures
            b == self.loopback(),
    {
        match self {
            IpAddress::V4(bits) => 0x7f00_0000 <= *bits && *bits <= 0x7fff_ffff,
            IpAddress::V6(bits) => *bits == 1,
        }
    }
}

impl SocketAddress {
    /// The address and port given.
    pub fn new(ip: IpAddress, port: u16) -> (r: SocketAddress)
        ensures
            r.ip == ip,
            r.port == port,
    {
        SocketAddress { ip, port }
    }

    /// `0.0.0.0:0`.
    pub open spec fn unspecified_spec() -> SocketAddress {
        SocketAddress { ip: IpAddress::V4(0), port: 0 }
    }

    /// `0.0.0.0:0`, which stands for "no address seen yet".
    pub fn unspecified() -> (r: SocketAddress)
        ensures
            r == Self::unspecified_spec(),
    {
        SocketAddress { ip: IpAddress::V4(0), port: 0 }
    }
}

/// A peer that was at `old` and now shows up at `new` has changed address in
/// the sense worth noting: the IP differs and the new one is not loopback.
pub open spec fn address_changed(old: SocketAddress, new: SocketAddress) -> bool {
    new.ip != old.ip && !new.ip.loopback()
}

/// Whether a move from `old` to `new` is an address change worth noting.
pub fn is_address_change(old: &SocketAddress, new: &SocketAddress) -> (b: bool)
    ensures
        b == address_changed(*old, *new),
{
    new.ip != old.ip && !new.ip.is_loopback()
}

} // verus!
