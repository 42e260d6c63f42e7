//! One step of the capture loop: a frame comes in, the inspector gets a
//! summary of it, and the detector gets its IPv4 payload.

use vstd::prelude::*;

use crate::alert::Alert;
use crate::detector::{packet_step, reports, Detector};
use crate::interface::NetworkInterfaceInfo;
use crate::ipv4::Ipv4;
use crate::packet::{
    read_ethernet, read_ipv4, read_tcp, spec_ethernet_payload, spec_ipv4_destination,
    spec_ipv4_payload, spec_ipv4_source, spec_tcp_header, ETHERNET_HEADER_LEN,
    IPV4_MIN_HEADER_LEN, TCP_MIN_HEADER_LEN,
};

verus! {

/// The summary of a captured TCP segment that the network inspector shows.
#[derive(Clone, Debug)]
pub struct CapturedPacket {
    /// When the frame was handled, in milliseconds since the Unix epoch (UTC).
    pub timestamp: i64,
    pub source_ip: Ipv4,
    pub dest_ip: Ipv4,
    /// The TCP destination port.
    pub port: u16,
    /// The TCP flags.
    pub flags: u16,
}

/// The fields (source, destination, destination port, flags) of the TCP
/// segment carried by a frame, or `None` if the frame is not Ethernet, IPv4
/// and TCP.
pub open spec fn frame_tcp_summary(frame: Seq<u8>) -> Option<(Ipv4, Ipv4, u16, u16)> {
    if frame.len() < ETHERNET_HEADER_LEN {
        None
    } else {
        let ip = spec_ethernet_payload(frame);
        if ip.len() < IPV4_MIN_HEADER_LEN {
            None
        } else {
            let segment = spec_ipv4_payload(ip);
            if segment.len() < TCP_MIN_HEADER_LEN {
                None
            } else {
                let tcp = spec_tcp_header(segment);
                Some((spec_ipv4_source(ip), spec_ipv4_destination(ip), tcp.destination_port, tcp.flags))
            }
        }
    }
}

/// `c` summarises a frame with these TCP fields.
pub open spec fn summarises(c: CapturedPacket, fields: (Ipv4, Ipv4, u16, u16)) -> bool {
    c.source_ip == fields.0 && c.dest_ip == fields.1 && c.port == fields.2 && c.flags == fields.3
}

/// The summary of a frame for the inspector, stamped with `timestamp`
/// (milliseconds since the Unix epoch, UTC).
pub fn capture_summary(frame: &[u8], timestamp: i64) -> (captured: Option<CapturedPacket>)
    ensures
        captured is Some <==> frame_tcp_summary(frame@) is Some,
        captured matches Some(c) ==> summarises(c, frame_tcp_summary(frame@).unwrap())
            && c.timestamp == timestamp,
{
    let ethernet = match read_ethernet(frame) {
        Some(p) => p,
        None => return None,
    };
    let ipv4_packet = match read_ipv4(ethernet.as_slice()) {
        Some(h) => h,
        None => return None,
    };
    let tcp_packet = match read_tcp(ipv4_packet.payload.as_slice()) {
        Some(t) => t,
        None => return None,
    };
    Some(CapturedPacket {
        timestamp,
        source_ip: ipv4_packet.source,
        dest_ip: ipv4_packet.destination,
        port: tcp_packet.destination_port,
        flags: tcp_packet.flags,
    })
}

/// What handling one frame produced.
pub struct FrameReport {
    /// Whether the frame held an Ethernet header (otherwise it is reported as unparsable).
    pub ethernet: bool,
    /// The summary for the inspector, if the frame carries a TCP segment over IPv4.
    pub captured: Option<CapturedPacket>,
    /// The alerts raised, in order.
    pub alerts: Vec<Alert>,
}

/// Handles one captured frame received at `now` (nanoseconds of a monotonic
/// clock) and at wall-clock time `timestamp` (milliseconds since the Unix
/// epoch, UTC) while this device has the interfaces `interfaces`.
pub fn handle_frame(
    detector: &mut Detector,
    frame: &[u8],
    now: u64,
    timestamp: i64,
    interfaces: &Vec<NetworkInterfaceInfo>,
) -> (report: FrameReport)
    requires
        old(detector).wf(),
    ensures
        final(detector).wf(),
        report.ethernet == (frame@.len() >= ETHERNET_HEADER_LEN),
        report.captured is Some <==> frame_tcp_summary(frame@) is Some,
        report.captured matches Some(c) ==> summarises(c, frame_tcp_summary(frame@).unwrap())
            && c.timestamp == timestamp,
        report.ethernet ==> {
            &&& final(detector)@ == packet_step(old(detector)@, spec_ethernet_payload(frame@), now, interfaces@).0
            &&& reports(
                report.alerts@,
                packet_step(old(detector)@, spec_ethernet_payload(frame@), now, interfaces@).1,
                timestamp,
            )
        },
        !report.ethernet ==> final(detector)@ == old(detector)@ && report.alerts@.len() == 0,
        final(detector).spec_whitelist() == old(detector).spec_whitelist(),
        final(detector).spec_ip_ranges() == old(detector).spec_ip_ranges(),
{
    match read_ethernet(frame) {
        None => FrameReport { ethernet: false, captured: None, alerts: Vec::new() },
        Some(payload) => {
            let captured = capture_summary(frame, timestamp);
            let alerts = detector.process_packet(payload.as_slice(), now, timestamp, interfaces);
            FrameReport { ethernet: true, captured, alerts }
        },
    }
}

} // verus!
