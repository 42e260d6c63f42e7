//! Per-source scan tracking: the state that the monitor keeps between packets,
//! and how one packet aimed at this device updates it and raises alerts.
//!
//! Time is a reading of a monotonic clock in nanoseconds, handed in with each packet.

use vstd::prelude::*;
use vstd::hash_map::HashMapWithView;
use vstd::hash_set::HashSetWithView;

use crate::alert::{describes, scan_alert, Alert, AlertKind, ScanAlertEvent};
use crate::interface::{is_our_device, spec_is_our_device, NetworkInterfaceInfo};
use crate::ipv4::{ip_key, Ipv4};
use crate::packet::{
    read_ipv4, read_tcp, spec_ipv4_destination, spec_ipv4_payload, spec_ipv4_source,
    spec_tcp_header, TcpHeader, IPV4_MIN_HEADER_LEN, TCP_MIN_HEADER_LEN,
};
use crate::scan::{detect_scan_type, is_valid_scan_type, spec_detect_scan_type, ScanType};
use crate::whitelist::{default_ip_ranges, spec_default_ip_ranges, IpRange};

verus! {

broadcast use vstd::std_specs::hash::group_hash_axioms;

/// Alerts for one source are let through once in this many attempts within the cooldown.
pub const ALERT_THRESHOLD: u32 = 5;

/// After this long without an alert, the next alert for a source goes through at once
/// (five minutes).
pub const ALERT_COOLDOWN_NANOS: u64 = 300_000_000_000;

/// A source must have probed more than this many distinct ports to count as a port scan.
pub const MIN_PORTS_FOR_SCAN: usize = 50;

/// A source's scan statistics start over once they are older than this many seconds.
pub const SCAN_TIME_WINDOW_SECS: u64 = 60;

/// Consecutive nearby probes needed before anything is reported.
pub const CONSECUTIVE_ALERTS: u32 = 1;

/// Minimum time between two ACK scan reports for one source (five seconds).
pub const ACK_SCAN_COOLDOWN_NANOS: u64 = 5_000_000_000;

/// Ports closer than this to the previous one continue an ACK scan that was
/// already reported.
pub const MIN_PORT_DIFFERENCE: i32 = 5;

/// Ports closer than this to the previous one count as a consecutive probe.
pub const CONSECUTIVE_PORT_SPAN: i32 = 10;

/// Nanoseconds in a second.
pub const NANOS_PER_SEC: u64 = 1_000_000_000;

/// Time from `since` to `now`, zero if `now` is earlier.
pub open spec fn elapsed(since: u64, now: u64) -> u64 {
    now.saturating_sub(since)
}

fn elapsed_nanos(since: u64, now: u64) -> (e: u64)
    ensures
        e == elapsed(since, now),
{
    now.saturating_sub(since)
}

/// The distance between two port numbers.
pub open spec fn port_distance(a: u16, b: u16) -> int {
    if a >= b { a - b } else { b - a }
}

fn port_distance_exec(a: u16, b: u16) -> (d: i32)
    ensures
        d == port_distance(a, b),
{
    let diff: i32 = a as i32 - b as i32;
    if diff < 0 { -diff } else { diff }
}

/// What the monitor remembers of one source.
#[derive(Clone, Copy, Debug)]
pub struct ScanContext {
    /// When these statistics were started.
    pub first_seen: u64,
    /// Distinct ports newly probed since then.
    pub port_count: usize,
    /// Probes in a row that landed near the previous port.
    pub consecutive_hits: u32,
    /// The last destination port (0 before the first TCP segment).
    pub last_port: u16,
    /// When an ACK scan was last reported (or the statistics were started).
    pub last_ack_alert: u64,
    /// The scan type that was last considered for a report.
    pub last_scan_type: Option<ScanType>,
}

/// Fresh statistics started at `now`.
pub open spec fn fresh_context(now: u64) -> ScanContext {
    ScanContext {
        first_seen: now,
        port_count: 0,
        consecutive_hits: 0,
        last_port: 0,
        last_ack_alert: now,
        last_scan_type: None,
    }
}

fn new_context(now: u64) -> (c: ScanContext)
    ensures
        c == fresh_context(now),
{
    ScanContext {
        first_seen: now,
        port_count: 0,
        consecutive_hits: 0,
        last_port: 0,
        last_ack_alert: now,
        last_scan_type: None,
    }
}

/// The statistics in force for a packet at `now`: the stored ones, or fresh
/// ones if there are none or if they are older than the time window.
pub open spec fn entered_context(prev: Option<ScanContext>, now: u64) -> ScanContext {
    let c = match prev {
        Some(c) => c,
        None => fresh_context(now),
    };
    if elapsed(c.first_seen, now) / NANOS_PER_SEC > SCAN_TIME_WINDOW_SECS {
        fresh_context(now)
    } else {
        c
    }
}

fn enter_context(prev: Option<ScanContext>, now: u64) -> (c: ScanContext)
    ensures
        c == entered_context(prev, now),
{
    let c = match prev {
        Some(c) => c,
        None => new_context(now),
    };
    if elapsed_nanos(c.first_seen, now) / NANOS_PER_SEC > SCAN_TIME_WINDOW_SECS {
        new_context(now)
    } else {
        c
    }
}

/// The statistics after a probe of `port`: a probe within ten ports of the
/// previous one extends the run of consecutive hits, a farther one ends it
/// (nothing changes before the first port is known); the port is remembered.
pub open spec fn tracked_port(c: ScanContext, port: u16) -> ScanContext {
    let hits = if c.last_port != 0 {
        if port_distance(port, c.last_port) < CONSECUTIVE_PORT_SPAN {
            c.consecutive_hits.saturating_add(1)
        } else {
            0
        }
    } else {
        c.consecutive_hits
    };
    ScanContext { consecutive_hits: hits, last_port: port, ..c }
}

fn track_port(c: ScanContext, port: u16) -> (r: ScanContext)
    ensures
        r == tracked_port(c, port),
{
    let mut context = c;
    if context.last_port != 0 {
        if port_distance_exec(port, context.last_port) < CONSECUTIVE_PORT_SPAN {
            context.consecutive_hits = context.consecutive_hits.saturating_add(1);
        } else {
            context.consecutive_hits = 0;
        }
    }
    context.last_port = port;
    context
}

/// How many alerts of a source were held back since its last alert, and when that was.
#[derive(Clone, Copy, Debug, PartialEq, Eq, Structural)]
pub struct AlertRecord {
    pub count: u32,
    pub last_alert: u64,
}

/// One attempt to alert about a source at `now`: the new record, and whether
/// the alert goes through. After the cooldown it goes through and the count
/// starts at one; within it, every fifth attempt goes through and resets the count.
pub open spec fn alert_step(prev: Option<AlertRecord>, now: u64) -> (AlertRecord, bool) {
    let r = match prev {
        Some(r) => r,
        None => AlertRecord { count: 0, last_alert: now },
    };
    if elapsed(r.last_alert, now) > ALERT_COOLDOWN_NANOS {
        (AlertRecord { count: 1, last_alert: now }, true)
    } else if r.count + 1 >= ALERT_THRESHOLD {
        (AlertRecord { count: 0, last_alert: now }, true)
    } else {
        (AlertRecord { count: (r.count + 1) as u32, last_alert: r.last_alert }, false)
    }
}

/// Every record holds fewer than `ALERT_THRESHOLD` held-back alerts.
pub open spec fn counts_below_threshold(counts: Map<u32, AlertRecord>) -> bool {
    forall|k: u32| #[trigger] counts.contains_key(k) ==> counts[k].count < ALERT_THRESHOLD
}

/// Decides whether an alert about `source_ip` goes through at `now`, and records the attempt.
pub fn should_alert(source_ip: &Ipv4, alert_counts: &mut HashMapWithView<u32, AlertRecord>, now: u64) -> (r: bool)
    requires
        old(alert_counts)@.contains_key(ip_key(*source_ip)) ==> old(alert_counts)@[ip_key(
            *source_ip,
        )].count < u32::MAX,
    ensures
        r == alert_step(old(alert_counts)@.get(ip_key(*source_ip)), now).1,
        final(alert_counts)@ == old(alert_counts)@.insert(
            ip_key(*source_ip),
            alert_step(old(alert_counts)@.get(ip_key(*source_ip)), now).0,
        ),
        counts_below_threshold(old(alert_counts)@) ==> counts_below_threshold(final(alert_counts)@),
{
    let key = source_ip.to_bits();
    let record = match alert_counts.get(&key) {
        Some(r) => *r,
        None => AlertRecord { count: 0, last_alert: now },
    };
    if elapsed_nanos(record.last_alert, now) > ALERT_COOLDOWN_NANOS {
        alert_counts.insert(key, AlertRecord { count: 1, last_alert: now });
        return true;
    }
    let count = record.count + 1;
    if count >= ALERT_THRESHOLD {
        alert_counts.insert(key, AlertRecord { count: 0, last_alert: now });
        return true;
    }
    alert_counts.insert(key, AlertRecord { count, last_alert: record.last_alert });
    false
}

/// The detector's state as maps keyed by source address.
#[verifier::ext_equal]
pub struct DetectorView {
    pub contexts: Map<u32, ScanContext>,
    pub seen_ports: Map<u32, Set<u16>>,
    pub alert_counts: Map<u32, AlertRecord>,
}

/// The per-source state that persists from packet to packet.
pub struct Detector {
    contexts: HashMapWithView<u32, ScanContext>,
    seen_ports: HashMapWithView<u32, HashSetWithView<u16>>,
    alert_counts: HashMapWithView<u32, AlertRecord>,
    whitelist: Vec<Ipv4>,
    ip_ranges: Vec<IpRange>,
}

impl View for Detector {
    type V = DetectorView;

    closed spec fn view(&self) -> DetectorView {
        DetectorView {
            contexts: self.contexts@,
            seen_ports: self.seen_ports@.map_values(|s: HashSetWithView<u16>| s@),
            alert_counts: self.alert_counts@,
        }
    }
}

/// The ports seen from the source with this key (none if it was never seen).
pub open spec fn seen_of(v: DetectorView, key: u32) -> Set<u16> {
    if v.seen_ports.contains_key(key) { v.seen_ports[key] } else { Set::empty() }
}

/// The detector's invariant: every set of seen ports is finite, a source's
/// port count never exceeds the number of distinct ports seen from it, and
/// every alert record is below the threshold.
pub open spec fn detector_inv(v: DetectorView) -> bool {
    &&& forall|k: u32| #[trigger] v.seen_ports.contains_key(k) ==> v.seen_ports[k].finite()
    &&& forall|k: u32| #[trigger] v.contexts.contains_key(k) ==> v.contexts[k].port_count <= seen_of(v, k).len()
    &&& counts_below_threshold(v.alert_counts)
}

/// The statistics after `port` was counted: one more port when it was not seen before.
pub open spec fn counted_context(c: ScanContext, seen: Set<u16>, port: u16) -> ScanContext {
    if seen.contains(port) {
        c
    } else {
        ScanContext { port_count: c.port_count.saturating_add(1), ..c }
    }
}

/// Enough distinct ports and a run of nearby probes: a port scan is due.
pub open spec fn port_scan_due(c: ScanContext) -> bool {
    c.port_count > MIN_PORTS_FOR_SCAN && c.consecutive_hits >= CONSECUTIVE_ALERTS
}

/// The statistics with which a scan of the segment's type is put forward for an
/// alert, or `None` when no such alert is attempted: the segment shows no scan
/// type, there is no run of nearby probes, or it is an ACK scan within the ACK
/// cooldown or continuing an ACK scan near the last port.
///
/// The statistics handed in already hold the segment's port as their last port,
/// so that distance is zero: once the last scan type considered for a source is
/// ACK, further ACK segments from it are not put forward until another scan
/// type is considered or the statistics start over.
pub open spec fn scan_report(c: ScanContext, flags: u16, window: u16, port: u16, now: u64) -> Option<ScanContext> {
    match spec_detect_scan_type(flags, window) {
        None => None,
        Some(t) => {
            if c.consecutive_hits < CONSECUTIVE_ALERTS {
                None
            } else if t == ScanType::Ack {
                if elapsed(c.last_ack_alert, now) < ACK_SCAN_COOLDOWN_NANOS {
                    None
                } else if c.last_scan_type == Some(ScanType::Ack) && port_distance(port, c.last_port)
                    < MIN_PORT_DIFFERENCE {
                    None
                } else {
                    Some(ScanContext { last_ack_alert: now, last_scan_type: Some(t), ..c })
                }
            } else {
                Some(ScanContext { last_scan_type: Some(t), ..c })
            }
        },
    }
}

/// The alert event for a detection.
pub open spec fn event(kind: AlertKind, src: Ipv4, dst: Ipv4, port: u16, port_count: usize) -> ScanAlertEvent {
    ScanAlertEvent { kind, source: src, destination: dst, port, port_count }
}

/// One TCP segment from `src` to `dst`, with the source's statistics `c`
/// (already entered and tracked): the new state and the alerts raised, in order.
pub open spec fn tcp_step(
    v: DetectorView,
    c: ScanContext,
    src: Ipv4,
    dst: Ipv4,
    tcp: TcpHeader,
    now: u64,
) -> (DetectorView, Seq<ScanAlertEvent>) {
    let key = ip_key(src);
    let port = tcp.destination_port;
    let seen = seen_of(v, key);
    let c1 = counted_context(c, seen, port);
    let seen_ports = v.seen_ports.insert(key, seen.insert(port));
    let (counts1, fired1) = if port_scan_due(c1) {
        let (r, f) = alert_step(v.alert_counts.get(key), now);
        (v.alert_counts.insert(key, r), f)
    } else {
        (v.alert_counts, false)
    };
    let events1 = if fired1 {
        seq![event(AlertKind::PortScan, src, dst, port, c1.port_count)]
    } else {
        Seq::empty()
    };
    match scan_report(c1, tcp.flags, tcp.window, port, now) {
        None => (DetectorView { contexts: v.contexts.insert(key, c1), seen_ports, alert_counts: counts1 }, events1),
        Some(c2) => {
            let (r2, fired2) = alert_step(counts1.get(key), now);
            let events2 = if fired2 {
                seq![event(AlertKind::Scan(c2.last_scan_type.unwrap()), src, dst, port, c2.port_count)]
            } else {
                Seq::empty()
            };
            (
                DetectorView {
                    contexts: v.contexts.insert(key, c2),
                    seen_ports,
                    alert_counts: counts1.insert(key, r2),
                },
                events1 + events2,
            )
        },
    }
}

/// One IPv4 packet (the payload of an Ethernet frame) received at `now`: the
/// new state and the alerts raised. Packets that are not IPv4, or not aimed
/// at one of this device's addresses, change nothing; other packets enter the
/// source's statistics, and TCP segments are then tracked and classified.
pub open spec fn packet_step(
    v: DetectorView,
    bytes: Seq<u8>,
    now: u64,
    interfaces: Seq<NetworkInterfaceInfo>,
) -> (DetectorView, Seq<ScanAlertEvent>) {
    if bytes.len() < IPV4_MIN_HEADER_LEN {
        (v, Seq::empty())
    } else {
        let src = spec_ipv4_source(bytes);
        let dst = spec_ipv4_destination(bytes);
        if !spec_is_our_device(dst, interfaces) {
            (v, Seq::empty())
        } else {
            let key = ip_key(src);
            let c = entered_context(v.contexts.get(key), now);
            let segment = spec_ipv4_payload(bytes);
            if segment.len() < TCP_MIN_HEADER_LEN {
                (DetectorView { contexts: v.contexts.insert(key, c), ..v }, Seq::empty())
            } else {
                let tcp = spec_tcp_header(segment);
                tcp_step(v, tracked_port(c, tcp.destination_port), src, dst, tcp, now)
            }
        }
    }
}

/// `alerts` report `events`, one for one and in order, each stamped with `timestamp`.
pub open spec fn reports(alerts: Seq<Alert>, events: Seq<ScanAlertEvent>, timestamp: i64) -> bool {
    &&& alerts.len() == events.len()
    &&& forall|i: int|
        0 <= i < alerts.len() ==> describes(#[trigger] alerts[i], events[i]) && alerts[i].timestamp
            == timestamp
}

impl Detector {
    /// The detector's invariant.
    pub open spec fn wf(&self) -> bool {
        detector_inv(self@)
    }

    /// The sources' addresses that are trusted.
    pub closed spec fn spec_whitelist(&self) -> Seq<Ipv4> {
        self.whitelist@
    }

    /// The ranges that are trusted.
    pub closed spec fn spec_ip_ranges(&self) -> Seq<IpRange> {
        self.ip_ranges@
    }

    /// A detector that has seen nothing yet, monitoring the device at
    /// `device_ip`: the device's own address is whitelisted, and the trusted
    /// ranges are the default ones.
    pub fn new(device_ip: Ipv4) -> (d: Detector)
        ensures
            d.wf(),
            d@.contexts == Map::<u32, ScanContext>::empty(),
            d@.seen_ports == Map::<u32, Set<u16>>::empty(),
            d@.alert_counts == Map::<u32, AlertRecord>::empty(),
            d.spec_whitelist() == seq![device_ip],
            d.spec_ip_ranges() == spec_default_ip_ranges(),
    {
        let d = Detector {
            contexts: HashMapWithView::new(),
            seen_ports: HashMapWithView::new(),
            alert_counts: HashMapWithView::new(),
            whitelist: vec![device_ip],
            ip_ranges: default_ip_ranges(),
        };
        assert(d@.seen_ports =~= Map::<u32, Set<u16>>::empty());
        d
    }

    /// Records that `port` was probed by the source with key `key`; returns
    /// whether the port is new for that source.
    fn record_port(&mut self, key: u32, port: u16) -> (is_new: bool)
        requires
            old(self).wf(),
        ensures
            is_new == !seen_of(old(self)@, key).contains(port),
            final(self)@.seen_ports == old(self)@.seen_ports.insert(key, seen_of(old(self)@, key).insert(port)),
            final(self)@.contexts == old(self)@.contexts,
            final(self)@.alert_counts == old(self)@.alert_counts,
            final(self).spec_whitelist() == old(self).spec_whitelist(),
            final(self).spec_ip_ranges() == old(self).spec_ip_ranges(),
            forall|k: u32| #[trigger] final(self)@.seen_ports.contains_key(k) ==> final(self)@.seen_ports[k].finite(),
    {
        let ghost old_view = self@;
        let mut ports = match self.seen_ports.remove(&key) {
            Some(s) => s,
            None => HashSetWithView::new(),
        };
        assert(ports@ == seen_of(old_view, key));
        let is_new = ports.insert(port);
        self.seen_ports.insert(key, ports);
        assert(self@.seen_ports =~= old_view.seen_ports.insert(key, seen_of(old_view, key).insert(port)));
        is_new
    }

    /// One TCP segment from `source_ip` to `dest_ip`, with the source's
    /// statistics `context` already entered and tracked.
    fn process_tcp_packet(
        &mut self,
        tcp_packet: &TcpHeader,
        flags: u16,
        source_ip: Ipv4,
        dest_ip: Ipv4,
        port: u16,
        context: ScanContext,
        now: u64,
        timestamp: i64,
    ) -> (alerts: Vec<Alert>)
        requires
            old(self).wf(),
            flags == tcp_packet.flags,
            port == tcp_packet.destination_port,
            context.last_port == port,
            context.port_count <= seen_of(old(self)@, ip_key(source_ip)).len(),
        ensures
            final(self).wf(),
            final(self)@ == tcp_step(old(self)@, context, source_ip, dest_ip, *tcp_packet, now).0,
            reports(alerts@, tcp_step(old(self)@, context, source_ip, dest_ip, *tcp_packet, now).1, timestamp),
            final(self).spec_whitelist() == old(self).spec_whitelist(),
            final(self).spec_ip_ranges() == old(self).spec_ip_ranges(),
    {
        let ghost v = self@;
        let key = source_ip.to_bits();
        let mut context = context;
        if self.record_port(key, port) {
            context.port_count = context.port_count.saturating_add(1);
        }
        let mut alerts: Vec<Alert> = Vec::new();
        if context.port_count > MIN_PORTS_FOR_SCAN && context.consecutive_hits >= CONSECUTIVE_ALERTS {
            if should_alert(&source_ip, &mut self.alert_counts, now) {
                let ev = ScanAlertEvent {
                    kind: AlertKind::PortScan,
                    source: source_ip,
                    destination: dest_ip,
                    port,
                    port_count: context.port_count,
                };
                alerts.push(scan_alert(&ev, timestamp));
            }
        }
        if let Some(scan_type) = detect_scan_type(tcp_packet, flags) {
            if is_valid_scan_type(scan_type) && context.consecutive_hits >= CONSECUTIVE_ALERTS {
                if let ScanType::Ack = scan_type {
                    if elapsed_nanos(context.last_ack_alert, now) < ACK_SCAN_COOLDOWN_NANOS {
                        self.contexts.insert(key, context);
                        proof { self.lemma_inv_after_insert(v, key, port, context); }
                        return alerts;
                    }
                    let continues_ack = match context.last_scan_type {
                        Some(ScanType::Ack) => port_distance_exec(port, context.last_port) < MIN_PORT_DIFFERENCE,
                        _ => false,
                    };
                    if continues_ack {
                        self.contexts.insert(key, context);
                        proof { self.lemma_inv_after_insert(v, key, port, context); }
                        return alerts;
                    }
                    context.last_ack_alert = now;
                }
                context.last_scan_type = Some(scan_type);
                if should_alert(&source_ip, &mut self.alert_counts, now) {
                    let ev = ScanAlertEvent {
                        kind: AlertKind::Scan(scan_type),
                        source: source_ip,
                        destination: dest_ip,
                        port,
                        port_count: context.port_count,
                    };
                    alerts.push(scan_alert(&ev, timestamp));
                }
            }
        }
        self.contexts.insert(key, context);
        proof { self.lemma_inv_after_insert(v, key, port, context); }
        alerts
    }

    /// One IPv4 packet, the payload of a captured Ethernet frame, received at
    /// `now` (monotonic nanoseconds) and at wall-clock time `timestamp`
    /// (milliseconds since the Unix epoch, UTC) while this device has the
    /// interfaces `interfaces`.
    pub fn process_packet(
        &mut self,
        ethernet_payload: &[u8],
        now: u64,
        timestamp: i64,
        interfaces: &Vec<NetworkInterfaceInfo>,
    ) -> (alerts: Vec<Alert>)
        requires
            old(self).wf(),
        ensures
            final(self).wf(),
            final(self)@ == packet_step(old(self)@, ethernet_payload@, now, interfaces@).0,
            reports(alerts@, packet_step(old(self)@, ethernet_payload@, now, interfaces@).1, timestamp),
            final(self).spec_whitelist() == old(self).spec_whitelist(),
            final(self).spec_ip_ranges() == old(self).spec_ip_ranges(),
    {
        let ghost v = self@;
        match read_ipv4(ethernet_payload) {
            None => {
                let alerts: Vec<Alert> = Vec::new();
                assert(alerts@ =~= Seq::<Alert>::empty());
                alerts
            },
            Some(ipv4_packet) => {
                let source_ip = ipv4_packet.source;
                let dest_ip = ipv4_packet.destination;
                if !is_our_device(&dest_ip, interfaces) {
                    let alerts: Vec<Alert> = Vec::new();
                    assert(alerts@ =~= Seq::<Alert>::empty());
                    return alerts;
                }
                let key = source_ip.to_bits();
                let prev = match self.contexts.get(&key) {
                    Some(c) => Some(*c),
                    None => None,
                };
                assert(prev == v.contexts.get(key));
                let context = enter_context(prev, now);
                assert(context.port_count <= seen_of(v, key).len());
                match read_tcp(ipv4_packet.payload.as_slice()) {
                    None => {
                        self.contexts.insert(key, context);
                        proof {
                            let s = self@;
                            assert(s.seen_ports == v.seen_ports);
                            assert forall|k: u32| #[trigger] s.contexts.contains_key(k) implies s.contexts[k].port_count
                                <= seen_of(s, k).len() by {
                                assert(seen_of(s, k) == seen_of(v, k));
                            }
                            assert(s =~= DetectorView { contexts: v.contexts.insert(key, context), ..v });
                        }
                        let alerts: Vec<Alert> = Vec::new();
                        assert(alerts@ =~= Seq::<Alert>::empty());
                        alerts
                    },
                    Some(tcp_packet) => {
                        let flags = tcp_packet.flags;
                        let port = tcp_packet.destination_port;
                        let context = track_port(context, port);
                        self.process_tcp_packet(&tcp_packet, flags, source_ip, dest_ip, port, context, now, timestamp)
                    },
                }
            },
        }
    }

    proof fn lemma_inv_after_insert(&self, v: DetectorView, key: u32, port: u16, c: ScanContext)
        requires
            detector_inv(v),
            self@.contexts == v.contexts.insert(key, c),
            self@.seen_ports == v.seen_ports.insert(key, seen_of(v, key).insert(port)),
            counts_below_threshold(self@.alert_counts),
            c.port_count <= seen_of(v, key).insert(port).len(),
        ensures
            detector_inv(self@),
    {
        let s = self@;
        assert forall|k: u32| #[trigger] s.contexts.contains_key(k) implies s.contexts[k].port_count <= seen_of(s, k).len() by {
            if k != key {
                assert(seen_of(s, k) == seen_of(v, k));
            }
        }
        assert forall|k: u32| #[trigger] s.seen_ports.contains_key(k) implies s.seen_ports[k].finite() by {
            if k == key {
                assert(seen_of(v, key).finite());
            }
        }
    }
}

} // verus!
