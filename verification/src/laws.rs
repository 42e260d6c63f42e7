//! Properties of the detector that hold across packets and calls.

use vstd::prelude::*;

use crate::alert::{AlertKind, ScanAlertEvent};
use crate::detector::{
    alert_step, detector_inv, elapsed, entered_context, fresh_context, packet_step, seen_of,
    tcp_step, tracked_port, AlertRecord, DetectorView, ScanContext, ACK_SCAN_COOLDOWN_NANOS,
    ALERT_COOLDOWN_NANOS, ALERT_THRESHOLD, CONSECUTIVE_ALERTS, MIN_PORTS_FOR_SCAN,
    NANOS_PER_SEC, SCAN_TIME_WINDOW_SECS,
};
use crate::interface::{spec_is_our_device, NetworkInterfaceInfo};
use crate::ipv4::{ip_key, ipv4_value, spec_is_known_local_service, spec_is_local_network, Ipv4};
use crate::packet::{spec_ipv4_destination, spec_tcp_header, TcpHeader, IPV4_MIN_HEADER_LEN};
use crate::scan::{spec_detect_scan_type, ScanType, TCP_ACK, TCP_FIN, TCP_SYN, TCP_XMAS};
use crate::whitelist::{spec_is_whitelisted, IpRange};

verus! {

/// Frames that are not IPv4, and IPv4 packets aimed at an address that is not
/// this device's, leave the detector's state as it was and raise no alert.
pub proof fn law_foreign_packets_are_ignored(
    v: DetectorView,
    bytes: Seq<u8>,
    now: u64,
    interfaces: Seq<NetworkInterfaceInfo>,
)
    requires
        bytes.len() < IPV4_MIN_HEADER_LEN || !spec_is_our_device(spec_ipv4_destination(bytes), interfaces),
    ensures
        packet_step(v, bytes, now, interfaces).0 == v,
        packet_step(v, bytes, now, interfaces).1.len() == 0,
{
}

/// Every packet keeps the detector's invariant: each source's count of probed
/// ports stays within the number of distinct ports seen from it, and each
/// alert record stays below the threshold.
pub proof fn law_packets_keep_invariant(
    v: DetectorView,
    bytes: Seq<u8>,
    now: u64,
    interfaces: Seq<NetworkInterfaceInfo>,
)
    requires
        detector_inv(v),
    ensures
        detector_inv(packet_step(v, bytes, now, interfaces).0),
{
    lemma_packet_step_inv(v, bytes, now, interfaces);
}

/// A port that was seen from a source stays seen: packets only add ports.
pub proof fn law_seen_ports_only_grow(
    v: DetectorView,
    bytes: Seq<u8>,
    now: u64,
    interfaces: Seq<NetworkInterfaceInfo>,
    key: u32,
    port: u16,
)
    requires
        seen_of(v, key).contains(port),
    ensures
        seen_of(packet_step(v, bytes, now, interfaces).0, key).contains(port),
{
}

/// A port-scan alert about a source is raised only once more than
/// `MIN_PORTS_FOR_SCAN` distinct ports of this device were probed from it.
pub proof fn law_port_scan_needs_many_ports(
    v: DetectorView,
    bytes: Seq<u8>,
    now: u64,
    interfaces: Seq<NetworkInterfaceInfo>,
    i: int,
)
    requires
        detector_inv(v),
        0 <= i < packet_step(v, bytes, now, interfaces).1.len(),
        packet_step(v, bytes, now, interfaces).1[i].kind == AlertKind::PortScan,
    ensures
        seen_of(
            packet_step(v, bytes, now, interfaces).0,
            ip_key(packet_step(v, bytes, now, interfaces).1[i].source),
        ).len() > MIN_PORTS_FOR_SCAN,
{
    lemma_packet_step_inv(v, bytes, now, interfaces);
}

/// No alert is raised for a segment unless the source's probes came in a run
/// of nearby ports.
pub proof fn law_alerts_need_consecutive_probes(
    v: DetectorView,
    c: ScanContext,
    src: Ipv4,
    dst: Ipv4,
    tcp: TcpHeader,
    now: u64,
)
    requires
        tcp_step(v, c, src, dst, tcp, now).1.len() > 0,
    ensures
        c.consecutive_hits >= CONSECUTIVE_ALERTS,
{
}

/// An ACK scan alert about a source is raised only if the source's stored
/// statistics are still current and their last ACK scan report (or their
/// start) is at least `ACK_SCAN_COOLDOWN_NANOS` old; the report moves that
/// time to now.
pub proof fn law_ack_scan_cooldown(
    v: DetectorView,
    bytes: Seq<u8>,
    now: u64,
    interfaces: Seq<NetworkInterfaceInfo>,
    i: int,
)
    requires
        0 <= i < packet_step(v, bytes, now, interfaces).1.len(),
        packet_step(v, bytes, now, interfaces).1[i].kind == AlertKind::Scan(ScanType::Ack),
    ensures
        ({
            let key = ip_key(packet_step(v, bytes, now, interfaces).1[i].source);
            &&& v.contexts.contains_key(key)
            &&& elapsed(v.contexts[key].last_ack_alert, now) >= ACK_SCAN_COOLDOWN_NANOS
            &&& packet_step(v, bytes, now, interfaces).0.contexts[key].last_ack_alert == now
        }),
{
}

/// Statistics older than the scan time window are started afresh.
pub proof fn law_stale_statistics_restart(prev: ScanContext, now: u64)
    requires
        elapsed(prev.first_seen, now) / NANOS_PER_SEC > SCAN_TIME_WINDOW_SECS,
    ensures
        entered_context(Some(prev), now) == fresh_context(now),
{
}

/// After a quiet period longer than the cooldown, the next alert about a
/// source goes through at once.
pub proof fn law_alert_after_quiet_period(r: AlertRecord, now: u64)
    requires
        elapsed(r.last_alert, now) > ALERT_COOLDOWN_NANOS,
    ensures
        alert_step(Some(r), now).1,
        alert_step(Some(r), now).0 == (AlertRecord { count: 1, last_alert: now }),
{
}

/// Within the cooldown, an attempt goes through exactly when
/// `ALERT_THRESHOLD - 1` attempts were held back before it.
pub proof fn law_alert_within_cooldown(r: AlertRecord, now: u64)
    requires
        r.count < ALERT_THRESHOLD,
        elapsed(r.last_alert, now) <= ALERT_COOLDOWN_NANOS,
    ensures
        alert_step(Some(r), now).1 <==> r.count == ALERT_THRESHOLD - 1,
{
}

/// Once an alert about a source went through at `t` (its count restarted at
/// zero), the next four attempts within the cooldown are held back and the
/// fifth goes through: one alert per `ALERT_THRESHOLD` attempts.
pub proof fn law_one_alert_in_five(t: u64, t1: u64, t2: u64, t3: u64, t4: u64, t5: u64)
    requires
        elapsed(t, t1) <= ALERT_COOLDOWN_NANOS,
        elapsed(t, t2) <= ALERT_COOLDOWN_NANOS,
        elapsed(t, t3) <= ALERT_COOLDOWN_NANOS,
        elapsed(t, t4) <= ALERT_COOLDOWN_NANOS,
        elapsed(t, t5) <= ALERT_COOLDOWN_NANOS,
    ensures
        ({
            let s1 = alert_step(Some(AlertRecord { count: 0, last_alert: t }), t1);
            let s2 = alert_step(Some(s1.0), t2);
            let s3 = alert_step(Some(s2.0), t3);
            let s4 = alert_step(Some(s3.0), t4);
            let s5 = alert_step(Some(s4.0), t5);
            &&& !s1.1 && !s2.1 && !s3.1 && !s4.1
            &&& s5.1
            &&& s5.0 == AlertRecord { count: 0, last_alert: t5 }
        }),
{
}

/// An unknown address of a private network is never whitelisted, whatever the
/// lists say.
pub proof fn law_unknown_local_never_whitelisted(ip: Ipv4, whitelist: Seq<Ipv4>, ranges: Seq<IpRange>)
    requires
        spec_is_local_network(ip),
        !spec_is_known_local_service(ip),
    ensures
        !spec_is_whitelisted(ip, whitelist, ranges),
{
}

/// The exact scan flag combinations decide the scan type whatever the window;
/// the window signature is consulted only for other combinations.
pub proof fn law_flags_take_precedence(flags: u16, window: u16)
    ensures
        flags == TCP_SYN ==> spec_detect_scan_type(flags, window) == Some(ScanType::Syn),
        flags == TCP_FIN ==> spec_detect_scan_type(flags, window) == Some(ScanType::Fin),
        flags == TCP_XMAS ==> spec_detect_scan_type(flags, window) == Some(ScanType::Xmas),
        flags == 0 ==> spec_detect_scan_type(flags, window) == Some(ScanType::Null),
        flags == TCP_ACK ==> spec_detect_scan_type(flags, window) == Some(ScanType::Ack),
{
}


/// A probe at least ten ports away from the previous one, above or below it,
/// ends the run of nearby probes; the new port becomes the last port.
pub proof fn law_far_port_ends_run(c: ScanContext, port: u16)
    requires
        c.last_port != 0,
        port as int - c.last_port as int >= 10 || c.last_port as int - port as int >= 10,
    ensures
        tracked_port(c, port).consecutive_hits == 0,
        tracked_port(c, port).last_port == port,
{
}

/// A probe fewer than ten ports away from the previous one, above or below it,
/// extends the run of nearby probes by one (saturating at `u32::MAX`).
pub proof fn law_near_port_extends_run(c: ScanContext, port: u16)
    requires
        c.last_port != 0,
        -10 < (port as int) - (c.last_port as int) < 10,
    ensures
        c.consecutive_hits < 0xffff_ffff ==> tracked_port(c, port).consecutive_hits == c.consecutive_hits + 1,
        c.consecutive_hits == 0xffff_ffff ==> tracked_port(c, port).consecutive_hits == 0xffff_ffffu32,
        tracked_port(c, port).last_port == port,
{
}

/// Before any port of a source is known, a probe neither starts nor ends a run.
pub proof fn law_first_port_keeps_run(c: ScanContext, port: u16)
    requires
        c.last_port == 0,
    ensures
        tracked_port(c, port).consecutive_hits == c.consecutive_hits,
        tracked_port(c, port).last_port == port,
{
}

/// A source without a record is treated as one whose count is zero and whose
/// last alert is now, whatever the clock reads.
pub proof fn law_new_source_counts_from_now(now: u64)
    ensures
        alert_step(None, now) == alert_step(Some(AlertRecord { count: 0, last_alert: now }), now),
        !alert_step(None, now).1,
        alert_step(None, now).0 == (AlertRecord { count: 1, last_alert: now }),
{
}

/// The first four attempts about a new source within five minutes of the first
/// are held back, and the fifth goes through.
pub proof fn law_new_source_fifth_attempt_alerts(t1: u64, t2: u64, t3: u64, t4: u64, t5: u64)
    requires
        t1 <= t2 <= t1 + 300_000_000_000,
        t1 <= t3 <= t1 + 300_000_000_000,
        t1 <= t4 <= t1 + 300_000_000_000,
        t1 <= t5 <= t1 + 300_000_000_000,
    ensures
        ({
            let s1 = alert_step(None, t1);
            let s2 = alert_step(Some(s1.0), t2);
            let s3 = alert_step(Some(s2.0), t3);
            let s4 = alert_step(Some(s3.0), t4);
            let s5 = alert_step(Some(s4.0), t5);
            &&& !s1.1 && !s2.1 && !s3.1 && !s4.1
            &&& s5.1
        }),
{
}

/// Segments whose flags are none of SYN, FIN, XMAS, NULL and ACK are a window
/// scan exactly when their window is one Nmap uses (1024, 2048, 3072, 29200 or
/// 65535), and no scan otherwise.
pub proof fn law_window_fallback(flags: u16, window: u16)
    requires
        flags != 0x002,
        flags != 0x001,
        flags != 0x029,
        flags != 0,
        flags != 0x010,
    ensures
        (window == 1024 || window == 2048 || window == 3072 || window == 29200 || window == 65535)
            ==> spec_detect_scan_type(flags, window) == Some(ScanType::Window),
        !(window == 1024 || window == 2048 || window == 3072 || window == 29200 || window == 65535)
            ==> spec_detect_scan_type(flags, window) == None::<ScanType>,
{
}

/// A public address (outside 10/8, 172.16/12 and 192.168/16) that lies in one
/// of the ranges is whitelisted when its first octet is 52, 17, 20, 104 or 172,
/// whatever the list of addresses holds.
pub proof fn law_cloud_range_whitelisted(ip: Ipv4, whitelist: Seq<Ipv4>, ranges: Seq<IpRange>, i: int)
    requires
        !(ip.a == 10 || (ip.a == 172 && 16 <= ip.b <= 31) || (ip.a == 192 && ip.b == 168)),
        0 <= i < ranges.len(),
        ipv4_value(ranges[i].start) <= ipv4_value(ip) <= ipv4_value(ranges[i].end),
        ip.a == 52 || ip.a == 17 || ip.a == 20 || ip.a == 104 || ip.a == 172,
    ensures
        spec_is_whitelisted(ip, whitelist, ranges),
{
    assert(crate::whitelist::in_range(ip, ranges[i]));
}

/// A public address that is not listed and whose first octet is not one of
/// 52, 17, 20, 104 and 172 is not whitelisted, whatever the ranges hold; a
/// listed public address is whitelisted.
pub proof fn law_other_public_addresses(ip: Ipv4, whitelist: Seq<Ipv4>, ranges: Seq<IpRange>)
    requires
        !(ip.a == 10 || (ip.a == 172 && 16 <= ip.b <= 31) || (ip.a == 192 && ip.b == 168)),
    ensures
        whitelist.contains(ip) ==> spec_is_whitelisted(ip, whitelist, ranges),
        !whitelist.contains(ip) && !(ip.a == 52 || ip.a == 17 || ip.a == 20 || ip.a == 104 || ip.a == 172)
            ==> !spec_is_whitelisted(ip, whitelist, ranges),
{
}

proof fn lemma_packet_step_inv(
    v: DetectorView,
    bytes: Seq<u8>,
    now: u64,
    interfaces: Seq<NetworkInterfaceInfo>,
)
    requires
        detector_inv(v),
    ensures
        detector_inv(packet_step(v, bytes, now, interfaces).0),
        forall|i: int| 0 <= i < packet_step(v, bytes, now, interfaces).1.len()
            && (#[trigger] packet_step(v, bytes, now, interfaces).1[i]).kind == AlertKind::PortScan
            ==> seen_of(packet_step(v, bytes, now, interfaces).0, ip_key(packet_step(v, bytes, now, interfaces).1[i].source)).len()
                > MIN_PORTS_FOR_SCAN,
{

}

} // verus!
