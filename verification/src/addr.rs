//! Plain models of the network addresses the supervisor reasons about:
//! an IPv4 address, an IPv4 prefix range ("CIDR"), a socket endpoint and
//! the outcome of the outbound address probe.

use vstd::prelude::*;

verus! {

/// An IPv4 address, stored as its 32 network-order bits.
#[derive(Clone, Copy, Debug, PartialEq, Eq)]
pub struct Ipv4 {
    pub bits: u32,
}

impl Ipv4 {
    /// The address `o0.o1.o2.o3`.
    pub fn from_octets(o0: u8, o1: u8, o2: u8, o3: u8) -> (r: Ipv4)
        ensures
            r.bits == ((o0 as u32) << 24u32) | ((o1 as u32) << 16u32) | ((o2 as u32) << 8u32)
                | (o3 as u32),
    {
        Ipv4 {
            bits: ((o0 as u32) << 24u32) | ((o1 as u32) << 16u32) | ((o2 as u32) << 8u32)
                | (o3 as u32),
        }
    }
}

/// An IPv4 prefix range in CIDR form: the addresses whose topmost
/// `prefix` bits agree with `network`.
#[derive(Clone, Copy, Debug, PartialEq, Eq)]
pub struct Cidr {
    pub network: Ipv4,
    pub prefix: u8,
}

impl Cidr {
    /// A prefix length beyond 32 names no IPv4 range.
    pub open spec fn wf(self) -> bool {
        self.prefix <= 32
    }

    /// Whether `a` lies in the range: its topmost `prefix` bits agree
    /// with the range's network address.
    pub open spec fn contains_spec(self, a: Ipv4) -> bool {
        if self.prefix == 0 {
            true
        } else {
            (self.network.bits ^ a.bits) >> ((32 - self.prefix) as u32) == 0
        }
    }

    pub fn contains(&self, a: &Ipv4) -> (r: bool)
        requires
            self.wf(),
        ensures
            r == self.contains_spec(*a),
    {
        if self.prefix == 0 {
            true
        } else {
            (self.network.bits ^ a.bits) >> ((32 - self.prefix) as u32) == 0
        }
    }
}

/// A full-length prefix admits exactly one address: the network address
/// itself.
pub proof fn lemma_full_prefix_is_exact(c: Cidr, a: Ipv4)
    requires
        c.prefix == 32,
    ensures
        c.contains_spec(a) <==> c.network.bits == a.bits,
{
    let n = c.network.bits;
    let b = a.bits;
    assert((n ^ b) >> 0u32 == 0 <==> n == b) by (bit_vector);
}

/// Every range contains its own network address.
pub proof fn lemma_range_contains_network(c: Cidr)
    requires
        c.wf(),
    ensures
        c.contains_spec(c.network),
{
    let n = c.network.bits;
    let s = (32 - c.prefix) as u32;
    assert((n ^ n) >> s == 0) by (bit_vector);
}

/// A socket endpoint: an IPv4 address and a UDP or TCP port.
#[derive(Clone, Copy, Debug, PartialEq, Eq)]
pub struct Endpoint {
    pub ip: Ipv4,
    pub port: u16,
}

/// The listen configuration handed to the supervisor: the IPv4 endpoint
/// to advertise in the node's record, if one is declared, and the
/// optional trusted source range for automatic table admission.
/// Constructed once from input configuration; immutable.
#[derive(Clone, Copy, Debug, PartialEq, Eq)]
pub struct ListenConfig {
    pub endpoint: Option<Endpoint>,
    pub cidr: Option<Cidr>,
}

/// What the outbound reachability probe resolved the local address to.
/// Only the IPv4 case carries the address: the filter needs nothing of
/// an IPv6 address but the fact that it is not IPv4.
#[derive(Clone, Copy, Debug, PartialEq, Eq)]
pub enum ProbedAddr {
    V4(Ipv4),
    V6,
}

} // verus!
