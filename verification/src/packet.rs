//! Decoding of captured frames: Ethernet, then IPv4, then TCP.
//!
//! The headers are read by `pnet`'s packet views; the trusted items below state,
//! byte for byte, what those views return for a given buffer.

use vstd::prelude::*;

use pnet::packet::ethernet::EthernetPacket;
use pnet::packet::ipv4::Ipv4Packet;
use pnet::packet::tcp::TcpPacket;
use pnet::packet::Packet;

use crate::ipv4::Ipv4;

verus! {

/// Size of an Ethernet header (destination, source, ethertype).
pub const ETHERNET_HEADER_LEN: usize = 14;

/// Size of an IPv4 header without options.
pub const IPV4_MIN_HEADER_LEN: usize = 20;

/// Size of a TCP header without options.
pub const TCP_MIN_HEADER_LEN: usize = 20;

/// A big-endian 16-bit field.
pub open spec fn be16(hi: u8, lo: u8) -> u16 {
    (hi as nat * 256 + lo as nat) as u16
}

/// The bytes that follow the Ethernet header.
pub open spec fn spec_ethernet_payload(frame: Seq<u8>) -> Seq<u8> {
    frame.skip(ETHERNET_HEADER_LEN as int)
}

/// The fields of an IPv4 header that the detector reads.
#[derive(Clone, Debug)]
pub struct Ipv4Header {
    pub source: Ipv4,
    pub destination: Ipv4,
    /// The transported segment, bounded by the header length and total length fields.
    pub payload: Vec<u8>,
}

/// Header length of an IPv4 header in bytes (the IHL field times four).
pub open spec fn ipv4_header_bytes(b: Seq<u8>) -> int {
    (b[0] % 16) as int * 4
}

/// The total length field of an IPv4 header.
pub open spec fn ipv4_total_length(b: Seq<u8>) -> int {
    be16(b[2], b[3]) as int
}

/// Where the IPv4 payload starts: after the header, and never inside the fixed 20 bytes.
pub open spec fn ipv4_payload_start(b: Seq<u8>) -> int {
    if ipv4_header_bytes(b) > 20 { ipv4_header_bytes(b) } else { 20 }
}

/// Where the IPv4 payload ends: the declared payload length, cut at the end of the buffer.
pub open spec fn ipv4_payload_end(b: Seq<u8>) -> int {
    let declared = if ipv4_total_length(b) > ipv4_header_bytes(b) {
        ipv4_total_length(b) - ipv4_header_bytes(b)
    } else {
        0
    };
    if ipv4_payload_start(b) + declared < b.len() {
        ipv4_payload_start(b) + declared
    } else {
        b.len() as int
    }
}

/// The payload of an IPv4 packet held in `b`.
pub open spec fn spec_ipv4_payload(b: Seq<u8>) -> Seq<u8> {
    if b.len() <= ipv4_payload_start(b) {
        Seq::empty()
    } else {
        b.subrange(ipv4_payload_start(b), ipv4_payload_end(b))
    }
}

/// The source address of an IPv4 header (bytes 12 to 15).
pub open spec fn spec_ipv4_source(b: Seq<u8>) -> Ipv4 {
    Ipv4 { a: b[12], b: b[13], c: b[14], d: b[15] }
}

/// The destination address of an IPv4 header (bytes 16 to 19).
pub open spec fn spec_ipv4_destination(b: Seq<u8>) -> Ipv4 {
    Ipv4 { a: b[16], b: b[17], c: b[18], d: b[19] }
}

/// The fields of a TCP header that the detector reads.
#[derive(Clone, Copy, Debug, PartialEq, Eq, Structural)]
pub struct TcpHeader {
    pub source_port: u16,
    pub destination_port: u16,
    /// The nine flag bits (NS, CWR, ECE, URG, ACK, PSH, RST, SYN, FIN).
    pub flags: u16,
    pub window: u16,
}

/// The TCP header held at the start of `b`.
pub open spec fn spec_tcp_header(b: Seq<u8>) -> TcpHeader {
    TcpHeader {
        source_port: be16(b[0], b[1]),
        destination_port: be16(b[2], b[3]),
        flags: ((b[12] % 2) as nat * 256 + b[13] as nat) as u16,
        window: be16(b[14], b[15]),
    }
}

/// Reads an Ethernet frame with `pnet::packet::ethernet::EthernetPacket::new` and
/// returns its payload (`Packet::payload`).
///
/// Claimed of pnet: the view exists exactly when the buffer holds the 14-byte
/// header, and its payload is everything after the header.
#[verifier::external_body]
pub(crate) fn read_ethernet(frame: &[u8]) -> (payload: Option<Vec<u8>>)
    ensures
        payload is Some <==> frame@.len() >= ETHERNET_HEADER_LEN,
        payload matches Some(p) ==> p@ == spec_ethernet_payload(frame@),
{
    match EthernetPacket::new(frame) {
        Some(packet) => Some(packet.payload().to_vec()),
        None => None,
    }
}

/// Reads an IPv4 packet with `pnet::packet::ipv4::Ipv4Packet::new` and returns
/// its source, destination and payload (`get_source`, `get_destination`, `Packet::payload`).
///
/// Claimed of pnet: the view exists exactly when the buffer holds the 20 fixed
/// header bytes; the addresses are bytes 12..16 and 16..20; the payload starts
/// after `max(4 * IHL, 20)` bytes and runs for `total_length - 4 * IHL` bytes
/// (zero when negative), cut at the end of the buffer.
#[verifier::external_body]
pub(crate) fn read_ipv4(bytes: &[u8]) -> (header: Option<Ipv4Header>)
    ensures
        header is Some <==> bytes@.len() >= IPV4_MIN_HEADER_LEN,
        header matches Some(h) ==> {
            &&& h.source == spec_ipv4_source(bytes@)
            &&& h.destination == spec_ipv4_destination(bytes@)
            &&& h.payload@ == spec_ipv4_payload(bytes@)
        },
{
    match Ipv4Packet::new(bytes) {
        Some(packet) => {
            let s = packet.get_source().octets();
            let d = packet.get_destination().octets();
            Some(Ipv4Header {
                source: Ipv4 { a: s[0], b: s[1], c: s[2], d: s[3] },
                destination: Ipv4 { a: d[0], b: d[1], c: d[2], d: d[3] },
                payload: packet.payload().to_vec(),
            })
        },
        None => None,
    }
}

/// Reads a TCP segment with `pnet::packet::tcp::TcpPacket::new` and returns its
/// ports, flags and window (`get_source`, `get_destination`, `get_flags`, `get_window`).
///
/// Claimed of pnet: the view exists exactly when the buffer holds the 20 fixed
/// header bytes; the ports and the window are the big-endian fields at bytes
/// 0, 2 and 14; the flags are the low bit of byte 12 followed by byte 13.
#[verifier::external_body]
pub(crate) fn read_tcp(bytes: &[u8]) -> (header: Option<TcpHeader>)
    ensures
        header is Some <==> bytes@.len() >= TCP_MIN_HEADER_LEN,
        header matches Some(h) ==> h == spec_tcp_header(bytes@),
{
    match TcpPacket::new(bytes) {
        Some(packet) => Some(TcpHeader {
            source_port: packet.get_source(),
            destination_port: packet.get_destination(),
            flags: packet.get_flags(),
            window: packet.get_window(),
        }),
        None => None,
    }
}

} // verus!
