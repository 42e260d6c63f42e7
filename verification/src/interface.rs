//! The host's network interfaces, as the monitor reads them to pick the
//! interface to listen on and to recognise traffic aimed at this device.

use vstd::prelude::*;
use vstd::string::*;

use crate::ipv4::Ipv4;

verus! {

/// One network of an interface: an IPv4 network, given by the interface's
/// address in it, or an IPv6 network.
#[derive(Clone, Copy, Debug, PartialEq, Eq, Structural)]
pub enum IpNetworkInfo {
    V4(Ipv4),
    V6,
}

/// A network interface: its name and the networks it is attached to.
#[derive(Debug)]
pub struct NetworkInterfaceInfo {
    pub name: String,
    pub ips: Vec<IpNetworkInfo>,
}

/// Some interface is called `name`.
pub open spec fn has_interface_named(interfaces: Seq<NetworkInterfaceInfo>, name: Seq<char>) -> bool {
    exists|i: int| 0 <= i < interfaces.len() && (#[trigger] interfaces[i]).name@ == name
}

/// `i` is the first interface called `name`.
pub open spec fn is_first_named(interfaces: Seq<NetworkInterfaceInfo>, name: Seq<char>, i: int) -> bool {
    &&& 0 <= i < interfaces.len()
    &&& interfaces[i].name@ == name
    &&& forall|j: int| 0 <= j < i ==> (#[trigger] interfaces[j]).name@ != name
}

/// The position of the first interface called `name`, if there is one; the
/// monitor listens on the interface whose name the user chose.
pub fn get_network_interface(interfaces: &Vec<NetworkInterfaceInfo>, name: &str) -> (r: Option<usize>)
    ensures
        r is None <==> !has_interface_named(interfaces@, name@),
        r matches Some(i) ==> is_first_named(interfaces@, name@, i as int),
{
    let wanted = String::from_str(name);
    let mut i: usize = 0;
    while i < interfaces.len()
        invariant
            i <= interfaces.len(),
            wanted@ == name@,
            forall|j: int| 0 <= j < i ==> (#[trigger] interfaces@[j]).name@ != name@,
        decreases interfaces.len() - i,
    {
        if interfaces[i].name == wanted {
            return Some(i);
        }
        i = i + 1;
    }
    None
}

/// `ip` is the first IPv4 address among `ips`.
pub open spec fn is_first_ipv4(ips: Seq<IpNetworkInfo>, ip: Ipv4) -> bool {
    exists|i: int|
        0 <= i < ips.len() && ips[i] == IpNetworkInfo::V4(ip) && forall|j: int|
            0 <= j < i ==> #[trigger] ips[j] == IpNetworkInfo::V6
}

/// The first IPv4 address of the interface, if it has one.
pub fn get_device_ip(interface: &NetworkInterfaceInfo) -> (r: Option<Ipv4>)
    ensures
        r is None <==> forall|j: int| 0 <= j < interface.ips@.len() ==> #[trigger] interface.ips@[j] == IpNetworkInfo::V6,
        r matches Some(ip) ==> is_first_ipv4(interface.ips@, ip),
{
    let mut i: usize = 0;
    while i < interface.ips.len()
        invariant
            i <= interface.ips.len(),
            forall|j: int| 0 <= j < i ==> #[trigger] interface.ips@[j] == IpNetworkInfo::V6,
        decreases interface.ips.len() - i,
    {
        match interface.ips[i] {
            IpNetworkInfo::V4(ip) => {
                assert(interface.ips@[i as int] == IpNetworkInfo::V4(ip));
                return Some(ip);
            },
            IpNetworkInfo::V6 => {},
        }
        i = i + 1;
    }
    None
}

/// Some interface of this device has the IPv4 address `ip`.
pub open spec fn spec_is_our_device(ip: Ipv4, interfaces: Seq<NetworkInterfaceInfo>) -> bool {
    exists|i: int, k: int|
        0 <= i < interfaces.len() && 0 <= k < interfaces[i].ips@.len()
            && #[trigger] interfaces[i].ips@[k] == IpNetworkInfo::V4(ip)
}

/// Whether `ip` is one of the IPv4 addresses of this device's interfaces.
pub fn is_our_device(ip: &Ipv4, interfaces: &Vec<NetworkInterfaceInfo>) -> (r: bool)
    ensures
        r == spec_is_our_device(*ip, interfaces@),
{
    let mut i: usize = 0;
    while i < interfaces.len()
        invariant
            i <= interfaces.len(),
            forall|a: int, k: int|
                0 <= a < i && 0 <= k < interfaces@[a].ips@.len() ==> #[trigger] interfaces@[a].ips@[k]
                    != IpNetworkInfo::V4(*ip),
        decreases interfaces.len() - i,
    {
        let ips = &interfaces[i].ips;
        let mut k: usize = 0;
        while k < ips.len()
            invariant
                i < interfaces.len(),
                ips == interfaces@[i as int].ips,
                k <= ips.len(),
                forall|a: int, k2: int|
                    0 <= a < i && 0 <= k2 < interfaces@[a].ips@.len() ==> #[trigger] interfaces@[a].ips@[k2]
                        != IpNetworkInfo::V4(*ip),
                forall|k2: int| 0 <= k2 < k ==> #[trigger] ips@[k2] != IpNetworkInfo::V4(*ip),
            decreases ips.len() - k,
        {
            if let IpNetworkInfo::V4(addr) = ips[k] {
                if addr == *ip {
                    assert(interfaces@[i as int].ips@[k as int] == IpNetworkInfo::V4(*ip));
                    return true;
                }
            }
            k = k + 1;
        }
        i = i + 1;
    }
    false
}

} // verus!
