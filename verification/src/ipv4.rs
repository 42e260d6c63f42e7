//! IPv4 addresses as four octets, with the address-class predicates of the detector.

use vstd::prelude::*;

verus! {

/// An IPv4 address `a.b.c.d`.
#[derive(Clone, Copy, Debug, PartialEq, Eq, Structural, Hash)]
pub struct Ipv4 {
    pub a: u8,
    pub b: u8,
    pub c: u8,
    pub d: u8,
}

/// The address as a 32-bit number in network (big-endian) order.
pub open spec fn ipv4_value(ip: Ipv4) -> nat {
    ip.a as nat * 16777216 + ip.b as nat * 65536 + ip.c as nat * 256 + ip.d as nat
}

/// The key under which per-source state is kept: the address as a 32-bit number.
pub open spec fn ip_key(ip: Ipv4) -> u32 {
    ipv4_value(ip) as u32
}

impl Ipv4 {
    /// Builds the address `a.b.c.d`.
    pub fn new(a: u8, b: u8, c: u8, d: u8) -> (ip: Ipv4)
        ensures
            ip == (Ipv4 { a, b, c, d }),
    {
        Ipv4 { a, b, c, d }
    }

    /// The four octets, most significant first.
    pub fn octets(&self) -> (o: [u8; 4])
        ensures
            o@ == seq![self.a, self.b, self.c, self.d],
    {
        [self.a, self.b, self.c, self.d]
    }

    /// The address as a number; two addresses compare as their numbers do.
    pub fn to_bits(&self) -> (v: u32)
        ensures
            v as nat == ipv4_value(*self),
            v == ip_key(*self),
    {
        let v: u32 = (self.a as u32) * 16777216 + (self.b as u32) * 65536 + (self.c as u32) * 256
            + (self.d as u32);
        v
    }
}

/// The private ranges of RFC 1918: 10.0.0.0/8, 172.16.0.0/12 and 192.168.0.0/16.
pub open spec fn spec_is_local_network(ip: Ipv4) -> bool {
    ip.a == 10 || (ip.a == 172 && 16 <= ip.b <= 31) || (ip.a == 192 && ip.b == 168)
}

/// Whether `ip` lies in one of the private ranges of RFC 1918.
pub fn is_local_network(ip: &Ipv4) -> (r: bool)
    ensures
        r == spec_is_local_network(*ip),
{
    let octets = ip.octets();
    octets[0] == 10 || (octets[0] == 172 && octets[1] >= 16 && octets[1] <= 31) || (octets[0]
        == 192 && octets[1] == 168)
}

/// The local services that are known by address: the router 192.168.1.1 and
/// the DNS server 192.168.1.2.
pub open spec fn spec_is_known_local_service(ip: Ipv4) -> bool {
    ip == Ipv4 { a: 192, b: 168, c: 1, d: 1 } || ip == Ipv4 { a: 192, b: 168, c: 1, d: 2 }
}

/// Whether `ip` is one of the known local services.
pub fn is_known_local_service(ip: &Ipv4) -> (r: bool)
    ensures
        r == spec_is_known_local_service(*ip),
{
    let known_services = [Ipv4::new(192, 168, 1, 1), Ipv4::new(192, 168, 1, 2)];
    let mut i: usize = 0;
    while i < 2
        invariant
            i <= 2,
            known_services@ == seq![Ipv4 { a: 192, b: 168, c: 1, d: 1 }, Ipv4 { a: 192, b: 168, c: 1, d: 2 }],
            forall|j: int| 0 <= j < i ==> known_services@[j] != *ip,
        decreases 2 - i,
    {
        if known_services[i] == *ip {
            return true;
        }
        i = i + 1;
    }
    false
}

} // verus!
