//! Whitelisting of trusted sources: explicit addresses and cloud-provider ranges.

use vstd::prelude::*;

use crate::ipv4::{
    ipv4_value, is_known_local_service, is_local_network, spec_is_known_local_service,
    spec_is_local_network, Ipv4,
};

verus! {

/// An inclusive range of addresses `start..=end`.
#[derive(Clone, Copy, Debug, PartialEq, Eq, Structural)]
pub struct IpRange {
    pub start: Ipv4,
    pub end: Ipv4,
}

impl IpRange {
    /// The range `start..=end`.
    pub fn new(start: Ipv4, end: Ipv4) -> (r: IpRange)
        ensures
            r == (IpRange { start, end }),
    {
        IpRange { start, end }
    }

    /// Whether `ip` lies in the range, by the numeric order of addresses.
    pub fn contains(&self, ip: &Ipv4) -> (r: bool)
        ensures
            r == in_range(*ip, *self),
    {
        let v = ip.to_bits();
        self.start.to_bits() <= v && v <= self.end.to_bits()
    }
}

/// Whether `ip` lies in `range`.
pub open spec fn in_range(ip: Ipv4, range: IpRange) -> bool {
    ipv4_value(range.start) <= ipv4_value(ip) <= ipv4_value(range.end)
}

/// The first octets of the cloud providers whose ranges may be whitelisted:
/// Amazon (52), Apple (17), Microsoft (20), Cloudflare (104 and 172).
pub open spec fn is_cloud_first_octet(a: u8) -> bool {
    a == 52 || a == 17 || a == 20 || a == 104 || a == 172
}

/// Whitelisting: an unknown local address is never whitelisted; otherwise an
/// address is whitelisted when it is listed explicitly, or when it lies in one
/// of the ranges and its first octet is that of a known cloud provider.
pub open spec fn spec_is_whitelisted(ip: Ipv4, whitelist: Seq<Ipv4>, ranges: Seq<IpRange>) -> bool {
    if spec_is_local_network(ip) && !spec_is_known_local_service(ip) {
        false
    } else if whitelist.contains(ip) {
        true
    } else {
        is_cloud_first_octet(ip.a) && exists|i: int| 0 <= i < ranges.len() && #[trigger] in_range(ip, ranges[i])
    }
}

/// Whether traffic from `ip` is trusted.
pub fn is_whitelisted(ip: &Ipv4, whitelist: &Vec<Ipv4>, ip_ranges: &Vec<IpRange>) -> (r: bool)
    ensures
        r == spec_is_whitelisted(*ip, whitelist@, ip_ranges@),
{
    if is_local_network(ip) && !is_known_local_service(ip) {
        return false;
    }
    let mut i: usize = 0;
    while i < whitelist.len()
        invariant
            i <= whitelist.len(),
            !(spec_is_local_network(*ip) && !spec_is_known_local_service(*ip)),
            forall|j: int| 0 <= j < i ==> whitelist@[j] != *ip,
        decreases whitelist.len() - i,
    {
        if whitelist[i] == *ip {
            assert(whitelist@[i as int] == *ip);
            return true;
        }
        i = i + 1;
    }
    let mut k: usize = 0;
    while k < ip_ranges.len()
        invariant
            k <= ip_ranges.len(),
            !(spec_is_local_network(*ip) && !spec_is_known_local_service(*ip)),
            !whitelist@.contains(*ip),
            forall|j: int| 0 <= j < k ==> !(#[trigger] in_range(*ip, ip_ranges@[j]) && is_cloud_first_octet(ip.a)),
        decreases ip_ranges.len() - k,
    {
        if ip_ranges[k].contains(ip) {
            let first_octet = ip.octets()[0];
            if first_octet == 52 || first_octet == 17 || first_octet == 20 || first_octet == 104
                || first_octet == 172 {
                assert(in_range(*ip, ip_ranges@[k as int]));
                return true;
            }
        }
        k = k + 1;
    }
    false
}

/// The ranges that the monitor trusts: Amazon AWS 52/8, Apple 17/8,
/// Microsoft 20/8, Cloudflare 104.16/12 and 172.64/13, and the private
/// networks 192.168/16, 10/8 and 172.16/12.
pub open spec fn spec_default_ip_ranges() -> Seq<IpRange> {
    seq![
        IpRange { start: Ipv4 { a: 52, b: 0, c: 0, d: 0 }, end: Ipv4 { a: 52, b: 255, c: 255, d: 255 } },
        IpRange { start: Ipv4 { a: 17, b: 0, c: 0, d: 0 }, end: Ipv4 { a: 17, b: 255, c: 255, d: 255 } },
        IpRange { start: Ipv4 { a: 20, b: 0, c: 0, d: 0 }, end: Ipv4 { a: 20, b: 255, c: 255, d: 255 } },
        IpRange { start: Ipv4 { a: 104, b: 16, c: 0, d: 0 }, end: Ipv4 { a: 104, b: 31, c: 255, d: 255 } },
        IpRange { start: Ipv4 { a: 172, b: 64, c: 0, d: 0 }, end: Ipv4 { a: 172, b: 71, c: 255, d: 255 } },
        IpRange { start: Ipv4 { a: 192, b: 168, c: 0, d: 0 }, end: Ipv4 { a: 192, b: 168, c: 255, d: 255 } },
        IpRange { start: Ipv4 { a: 10, b: 0, c: 0, d: 0 }, end: Ipv4 { a: 10, b: 255, c: 255, d: 255 } },
        IpRange { start: Ipv4 { a: 172, b: 16, c: 0, d: 0 }, end: Ipv4 { a: 172, b: 31, c: 255, d: 255 } },
    ]
}

/// The trusted ranges, cloud services first, then the private networks.
pub fn default_ip_ranges() -> (ranges: Vec<IpRange>)
    ensures
        ranges@ == spec_default_ip_ranges(),
{
    let ranges = vec![
        IpRange::new(Ipv4::new(52, 0, 0, 0), Ipv4::new(52, 255, 255, 255)),
        IpRange::new(Ipv4::new(17, 0, 0, 0), Ipv4::new(17, 255, 255, 255)),
        IpRange::new(Ipv4::new(20, 0, 0, 0), Ipv4::new(20, 255, 255, 255)),
        IpRange::new(Ipv4::new(104, 16, 0, 0), Ipv4::new(104, 31, 255, 255)),
        IpRange::new(Ipv4::new(172, 64, 0, 0), Ipv4::new(172, 71, 255, 255)),
        IpRange::new(Ipv4::new(192, 168, 0, 0), Ipv4::new(192, 168, 255, 255)),
        IpRange::new(Ipv4::new(10, 0, 0, 0), Ipv4::new(10, 255, 255, 255)),
        IpRange::new(Ipv4::new(172, 16, 0, 0), Ipv4::new(172, 31, 255, 255)),
    ];
    assert(ranges@ =~= spec_default_ip_ranges());
    ranges
}

} // verus!
