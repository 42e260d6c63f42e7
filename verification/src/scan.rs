//! Classification of TCP segments into the scan types that the monitor reports.

use vstd::prelude::*;

use crate::ipv4::Ipv4;
use crate::packet::TcpHeader;

verus! {

/// FIN: no more data from the sender.
pub const TCP_FIN: u16 = 0b000000001;
/// SYN: synchronize sequence numbers.
pub const TCP_SYN: u16 = 0b000000010;
/// RST: reset the connection.
pub const TCP_RST: u16 = 0b000000100;
/// PSH: push function.
pub const TCP_PSH: u16 = 0b000001000;
/// ACK: the acknowledgment field is significant.
pub const TCP_ACK: u16 = 0b000010000;
/// URG: the urgent pointer is significant.
pub const TCP_URG: u16 = 0b000100000;

/// The flag combination of an XMAS scan: FIN, PSH and URG.
pub const TCP_XMAS: u16 = 0b000101001;

/// The scans that the monitor recognises.
#[derive(Clone, Copy, Debug, PartialEq, Eq, Structural)]
pub enum ScanType {
    Syn,
    Fin,
    Xmas,
    Null,
    Ack,
    Window,
}

/// The name under which a scan type is reported.
pub open spec fn scan_type_name(t: ScanType) -> Seq<char> {
    match t {
        ScanType::Syn => "SYN"@,
        ScanType::Fin => "FIN"@,
        ScanType::Xmas => "XMAS"@,
        ScanType::Null => "NULL"@,
        ScanType::Ack => "ACK"@,
        ScanType::Window => "WINDOW"@,
    }
}

impl ScanType {
    /// The name under which this scan type is reported ("SYN", "FIN", "XMAS",
    /// "NULL", "ACK" or "WINDOW").
    pub fn as_str(&self) -> (s: &'static str)
        ensures
            s@ == scan_type_name(*self),
    {
        match self {
            ScanType::Syn => "SYN",
            ScanType::Fin => "FIN",
            ScanType::Xmas => "XMAS",
            ScanType::Null => "NULL",
            ScanType::Ack => "ACK",
            ScanType::Window => "WINDOW",
        }
    }
}

/// The window sizes that Nmap uses in its probes.
pub open spec fn spec_is_nmap_window(window: u16) -> bool {
    window == 1024 || window == 2048 || window == 3072 || window == 29200 || window == 65535
}

/// Whether the segment's window is one that Nmap probes use.
pub fn is_nmap_window_signature(tcp_packet: &TcpHeader) -> (r: bool)
    ensures
        r == spec_is_nmap_window(tcp_packet.window),
{
    let window = tcp_packet.window;
    window == 1024 || window == 2048 || window == 3072 || window == 29200 || window == 65535
}

/// The scan type that a segment with these flags and this window shows.
/// The exact flag combinations are tried first; the window signature only
/// classifies segments whose flags match none of them.
pub open spec fn spec_detect_scan_type(flags: u16, window: u16) -> Option<ScanType> {
    if flags == TCP_SYN {
        Some(ScanType::Syn)
    } else if flags == TCP_FIN {
        Some(ScanType::Fin)
    } else if flags == TCP_XMAS {
        Some(ScanType::Xmas)
    } else if flags == 0 {
        Some(ScanType::Null)
    } else if flags == TCP_ACK {
        Some(ScanType::Ack)
    } else if spec_is_nmap_window(window) {
        Some(ScanType::Window)
    } else {
        None
    }
}

/// Classifies a segment by its flags, falling back to the window signature.
pub fn detect_scan_type(tcp_packet: &TcpHeader, flags: u16) -> (r: Option<ScanType>)
    ensures
        r == spec_detect_scan_type(flags, tcp_packet.window),
{
    assert(0b000000001u16 | 0b000001000u16 | 0b000100000u16 == 0b000101001u16) by (bit_vector);
    if flags == TCP_SYN {
        Some(ScanType::Syn)
    } else if flags == TCP_FIN {
        Some(ScanType::Fin)
    } else if flags == (TCP_FIN | TCP_PSH | TCP_URG) {
        Some(ScanType::Xmas)
    } else if flags == 0 {
        Some(ScanType::Null)
    } else if flags == TCP_ACK {
        Some(ScanType::Ack)
    } else if is_nmap_window_signature(tcp_packet) {
        Some(ScanType::Window)
    } else {
        None
    }
}

/// The scan types that are reported.
pub fn valid_scan_types() -> (types: [ScanType; 6])
    ensures
        types@ == seq![ScanType::Syn, ScanType::Fin, ScanType::Xmas, ScanType::Null, ScanType::Ack, ScanType::Window],
{
    [ScanType::Syn, ScanType::Fin, ScanType::Xmas, ScanType::Null, ScanType::Ack, ScanType::Window]
}

/// Whether `t` is one of the reported scan types (every scan type is).
pub fn is_valid_scan_type(t: ScanType) -> (r: bool)
    ensures
        r,
{
    let types = valid_scan_types();
    let mut i: usize = 0;
    while i < 6
        invariant
            i <= 6,
            types@ == seq![ScanType::Syn, ScanType::Fin, ScanType::Xmas, ScanType::Null, ScanType::Ack, ScanType::Window],
            forall|j: int| 0 <= j < i ==> types@[j] != t,
        decreases 6 - i,
    {
        if types[i] == t {
            return true;
        }
        i = i + 1;
    }
    assert(types@[0] != t && types@[1] != t && types@[2] != t && types@[3] != t && types@[4] != t && types@[5] != t);
    false
}

/// Whether a segment looks like an Nmap probe: one of the scan flag
/// combinations, or an Nmap window size.
pub open spec fn spec_is_nmap_scan(flags: u16, window: u16) -> bool {
    flags == TCP_SYN || flags == TCP_FIN || flags == TCP_XMAS || flags == 0 || flags == TCP_ACK
        || spec_is_nmap_window(window)
}

/// Whether a segment with these flags looks like an Nmap probe.
pub fn is_nmap_scan(tcp_packet: &TcpHeader, flags: u16) -> (r: bool)
    ensures
        r == spec_is_nmap_scan(flags, tcp_packet.window),
{
    assert(0b000000001u16 | 0b000001000u16 | 0b000100000u16 == 0b000101001u16) by (bit_vector);
    let is_syn_scan = flags == TCP_SYN;
    let is_fin_scan = flags == TCP_FIN;
    let is_xmas_scan = flags == (TCP_FIN | TCP_PSH | TCP_URG);
    let is_null_scan = flags == 0;
    let is_ack_scan = flags == TCP_ACK;
    let is_nmap_window = tcp_packet.window == 1024 || tcp_packet.window == 2048
        || tcp_packet.window == 3072 || tcp_packet.window == 29200 || tcp_packet.window == 65535;
    is_syn_scan || is_fin_scan || is_xmas_scan || is_null_scan || is_ack_scan || is_nmap_window
}

/// The well-known service ports whose traffic is common.
pub open spec fn common_ports() -> Seq<u16> {
    seq![
        20, 21, 22, 23, 25, 53, 67, 68, 80, 443, 110, 123, 137, 138, 139, 143, 161, 162, 389, 445,
        465, 500, 514, 587, 631, 993, 995, 1194, 1433, 1521, 3306, 3389, 5432, 5900, 8080, 8443,
        9100,
    ]
}

/// Whether traffic on `port` is common service traffic; the address is not consulted.
pub fn is_common_event(_ip: &Ipv4, port: u16) -> (r: bool)
    ensures
        r == common_ports().contains(port),
{
    let common_ports_list: [u16; 37] = [
        20, 21, 22, 23, 25, 53, 67, 68, 80, 443, 110, 123, 137, 138, 139, 143, 161, 162, 389, 445,
        465, 500, 514, 587, 631, 993, 995, 1194, 1433, 1521, 3306, 3389, 5432, 5900, 8080, 8443,
        9100,
    ];
    assert(common_ports_list@ == common_ports());
    let mut i: usize = 0;
    while i < 37
        invariant
            i <= 37,
            common_ports_list@ == common_ports(),
            forall|j: int| 0 <= j < i ==> common_ports_list@[j] != port,
        decreases 37 - i,
    {
        if common_ports_list[i] == port {
            return true;
        }
        i = i + 1;
    }
    false
}

/// A response to a scan: the ACK bit is set and it comes from a common service port.
pub open spec fn spec_is_nmap_response(flags: u16, source_port: u16) -> bool {
    flags & TCP_ACK != 0 && common_ports().contains(source_port)
}

/// Whether the segment looks like a response to a scan.
pub fn is_nmap_response(tcp_packet: &TcpHeader) -> (r: bool)
    ensures
        r == spec_is_nmap_response(tcp_packet.flags, tcp_packet.source_port),
{
    tcp_packet.flags & TCP_ACK != 0 && is_common_event(&Ipv4::new(0, 0, 0, 0), tcp_packet.source_port)
}

} // verus!
