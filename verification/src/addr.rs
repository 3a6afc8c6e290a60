//! Plain-value models of network addresses.
//!
//! The provider never interprets an address: it carries addresses between the
//! operating system and its caller. They are modelled as plain values so that
//! contracts can state, value for value, that each one is carried unchanged.

use vstd::prelude::*;

verus! {

/// An IP address: the 32-bit space of version 4 or the 128-bit space of
/// version 6, stored as the numeric value of the address.
#[derive(Clone, Copy, Debug, PartialEq, Eq, Structural)]
pub struct IpAddress {
    /// `true` for a version-6 address, `false` for version 4.
    pub is_v6: bool,
    /// The address as an integer; a version-4 address uses the low 32 bits.
    pub bits: u128,
}

impl IpAddress {
    /// A version-4 address fits in 32 bits.
    pub open spec fn wf(self) -> bool {
        !self.is_v6 ==> self.bits < 0x1_0000_0000
    }
}

/// Builds the version-4 address `a.b.c.d`.
pub fn ipv4(a: u8, b: u8, c: u8, d: u8) -> (r: IpAddress)
    ensures
        r.wf(),
        !r.is_v6,
        r.bits == (a as u128) * 0x100_0000 + (b as u128) * 0x1_0000 + (c as u128) * 0x100
            + (d as u128),
{
    let bits: u32 = (a as u32) * 0x100_0000 + (b as u32) * 0x1_0000 + (c as u32) * 0x100
        + (d as u32);
    IpAddress { is_v6: false, bits: bits as u128 }
}

/// A socket address: an IP address paired with a port.
#[derive(Clone, Copy, Debug, PartialEq, Eq, Structural)]
pub struct SocketAddress {
    pub ip: IpAddress,
    pub port: u16,
}

impl SocketAddress {
    pub open spec fn wf(self) -> bool {
        self.ip.wf()
    }
}

/// A local interface address: an IP address together with the prefix length of
/// the network it belongs to, as interface notifications report it.
#[derive(Clone, Copy, Debug, PartialEq, Eq, Structural)]
pub struct InterfaceAddress {
    pub ip: IpAddress,
    pub prefix_len: u8,
}

impl InterfaceAddress {
    /// The prefix length cannot exceed the width of the address.
    pub open spec fn wf(self) -> bool {
        &&& self.ip.wf()
        &&& self.prefix_len <= (if self.ip.is_v6 { 128int } else { 32int })
    }
}

} // verus!
