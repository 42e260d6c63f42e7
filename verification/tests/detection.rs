use ids_monitor::alert::{scan_alert, severity_icon, severity_level, AlertKind, ScanAlertEvent, SeverityLevel};
use ids_monitor::detector::Detector;
use ids_monitor::interface::{
    get_device_ip, get_network_interface, is_our_device, IpNetworkInfo,
    NetworkInterfaceInfo,
};
use ids_monitor::ipv4::{is_known_local_service, is_local_network, Ipv4};
use ids_monitor::monitor::{capture_summary, handle_frame};
use ids_monitor::scan::{
    detect_scan_type, is_common_event, is_nmap_response, is_nmap_scan, is_nmap_window_signature,
    is_valid_scan_type, ScanType,
};
use ids_monitor::packet::TcpHeader;
use ids_monitor::text::{clock_text, ipv4_to_string};
use ids_monitor::whitelist::{default_ip_ranges, is_whitelisted, IpRange};

const SEC: u64 = 1_000_000_000;

fn frame(src: [u8; 4], dst: [u8; 4], dport: u16, flags: u16, window: u16) -> Vec<u8> {
    let mut f = vec![0xde, 0xad, 0xbe, 0xef, 0x00, 0x01, 0x02, 0x03, 0x04, 0x05, 0x06, 0x07, 0x08, 0x00];
    f.extend_from_slice(&[0x45, 0x00, 0x00, 40, 0, 0, 0, 0, 64, 6, 0, 0]);
    f.extend_from_slice(&src);
    f.extend_from_slice(&dst);
    f.extend_from_slice(&40000u16.to_be_bytes());
    f.extend_from_slice(&dport.to_be_bytes());
    f.extend_from_slice(&[0, 0, 0, 0, 0, 0, 0, 0]);
    f.push(0x50 | ((flags >> 8) as u8 & 1));
    f.push((flags & 0xff) as u8);
    f.extend_from_slice(&window.to_be_bytes());
    f.extend_from_slice(&[0, 0, 0, 0]);
    f
}

fn interfaces() -> Vec<NetworkInterfaceInfo> {
    vec![
        NetworkInterfaceInfo { name: "lo".to_string(), ips: vec![IpNetworkInfo::V4(Ipv4::new(127, 0, 0, 1))] },
        NetworkInterfaceInfo {
            name: "eth0".to_string(),
            ips: vec![IpNetworkInfo::V6, IpNetworkInfo::V4(Ipv4::new(10, 0, 0, 5))],
        },
    ]
}

const ATTACKER: [u8; 4] = [10, 0, 0, 9];
const DEVICE: [u8; 4] = [10, 0, 0, 5];

fn tcp(flags: u16, window: u16, sport: u16) -> TcpHeader {
    TcpHeader { source_port: sport, destination_port: 80, flags, window }
}

#[test]
fn decodes_tcp_frame() {
    let f = frame(ATTACKER, DEVICE, 443, 0x1ff, 1024);
    let c = capture_summary(&f, 1_700_000_000_000).expect("TCP frame");
    assert_eq!(c.source_ip, Ipv4::new(10, 0, 0, 9));
    assert_eq!(c.dest_ip, Ipv4::new(10, 0, 0, 5));
    assert_eq!(c.port, 443);
    assert_eq!(c.flags, 0x1ff);
}

#[test]
fn rejects_short_frames() {
    let f = frame(ATTACKER, DEVICE, 443, 2, 1024);
    assert!(capture_summary(&f[..13], 1_700_000_000_000).is_none());
    assert!(capture_summary(&f[..30], 1_700_000_000_000).is_none());
    // total length 40 but the buffer ends inside the TCP header
    assert!(capture_summary(&f[..50], 1_700_000_000_000).is_none());
}

#[test]
fn ipv4_total_length_bounds_segment() {
    let mut f = frame(ATTACKER, DEVICE, 443, 2, 1024);
    // total length 30: only 10 bytes of TCP, so no segment
    f[16] = 0;
    f[17] = 30;
    assert!(capture_summary(&f, 1_700_000_000_000).is_none());
}

#[test]
fn ipv4_header_length_skips_options() {
    let base = frame(ATTACKER, DEVICE, 8080, 16, 1024);
    let mut f = base[..34].to_vec();
    f[14] = 0x46; // header of 24 bytes
    f[17] = 44;
    f.extend_from_slice(&[1, 1, 1, 1]);
    f.extend_from_slice(&base[34..]);
    let c = capture_summary(&f, 1_700_000_000_000).expect("TCP frame");
    assert_eq!(c.port, 8080);
    assert_eq!(c.flags, 16);
}

#[test]
fn unparsable_frame_is_reported() {
    let mut d = Detector::new(Ipv4::new(10, 0, 0, 5));
    let r = handle_frame(&mut d, &[1, 2, 3], 0, 1_700_000_000_000, &interfaces());
    assert!(!r.ethernet);
    assert!(r.captured.is_none());
    assert!(r.alerts.is_empty());
}

#[test]
fn syn_scan_alerts_every_fifth_probe_then_port_scan() {
    let mut d = Detector::new(Ipv4::new(10, 0, 0, 5));
    let ifs = interfaces();
    let mut seen = Vec::new();
    for p in 1u16..=60 {
        let r = handle_frame(&mut d, &frame(ATTACKER, DEVICE, p, 2, 1000), p as u64 * 1000, 1_700_000_000_000, &ifs);
        assert!(r.ethernet);
        assert_eq!(r.captured.unwrap().port, p);
        for a in r.alerts {
            seen.push((p, a.alert_type, a.details, a.source_ip, a.severity));
        }
    }
    let expected: Vec<(u16, &str)> = vec![
        (6, "NMAP_SYN_SCAN"),
        (11, "NMAP_SYN_SCAN"),
        (16, "NMAP_SYN_SCAN"),
        (21, "NMAP_SYN_SCAN"),
        (26, "NMAP_SYN_SCAN"),
        (31, "NMAP_SYN_SCAN"),
        (36, "NMAP_SYN_SCAN"),
        (41, "NMAP_SYN_SCAN"),
        (46, "NMAP_SYN_SCAN"),
        (51, "PORT_SCAN"),
        (53, "NMAP_SYN_SCAN"),
        (56, "PORT_SCAN"),
        (58, "NMAP_SYN_SCAN"),
    ];
    assert_eq!(seen.len(), expected.len());
    for (got, want) in seen.iter().zip(expected.iter()) {
        assert_eq!(got.0, want.0);
        assert_eq!(got.1, want.1);
        assert_eq!(got.3, "10.0.0.9");
        assert_eq!(got.4, "HIGH");
    }
    assert_eq!(seen[0].2, "SYN scan detected: 10.0.0.9 → 10.0.0.5 (Port 6)");
    assert_eq!(seen[9].2, "Port scan detected: 10.0.0.9 → 10.0.0.5 (51 ports)");
}

#[test]
fn packets_to_other_hosts_are_ignored() {
    let mut d = Detector::new(Ipv4::new(10, 0, 0, 5));
    let ifs = interfaces();
    for p in 1u16..=30 {
        let r = handle_frame(&mut d, &frame(ATTACKER, [10, 0, 0, 77], p, 2, 1000), p as u64, 1_700_000_000_000, &ifs);
        assert!(r.captured.is_some());
        assert!(r.alerts.is_empty());
    }
}

#[test]
fn far_apart_ports_raise_nothing() {
    let mut d = Detector::new(Ipv4::new(10, 0, 0, 5));
    let ifs = interfaces();
    for i in 1u16..=30 {
        let r = handle_frame(&mut d, &frame(ATTACKER, DEVICE, i * 100, 2, 1000), i as u64, 1_700_000_000_000, &ifs);
        assert!(r.alerts.is_empty());
    }
}

#[test]
fn ack_scans_respect_cooldown_and_continuation() {
    let mut d = Detector::new(Ipv4::new(10, 0, 0, 5));
    let ifs = interfaces();
    // ACK segments within 5 s of the statistics' start are not put forward; the one at
    // 6 s is (its attempt is held back by the rate limit). Every later ACK segment is
    // skipped: the statistics already hold its own port as the last port, so it always
    // counts as continuing the ACK scan, even at a far-away port. No alert goes through.
    for (p, t) in [(1u16, 0u64), (2, 1), (3, 6), (4, 12), (20, 20), (21, 30)] {
        let r = handle_frame(&mut d, &frame(ATTACKER, DEVICE, p, 16, 1000), t * SEC, 1_700_000_000_000, &ifs);
        assert!(r.alerts.is_empty());
    }
}

#[test]
fn alert_after_quiet_period_goes_through() {
    let mut d = Detector::new(Ipv4::new(10, 0, 0, 5));
    let ifs = interfaces();
    let mut alerts = Vec::new();
    // two probes start a run; the second attempt is held back
    for (p, t) in [(1u16, 0u64), (2, 1)] {
        alerts.extend(handle_frame(&mut d, &frame(ATTACKER, DEVICE, p, 1, 1000), t * SEC, 1_700_000_000_000, &ifs).alerts);
    }
    assert!(alerts.is_empty());
    // the statistics are still within the 60 s window at 59 s, but the alert record is not quiet yet
    let r = handle_frame(&mut d, &frame(ATTACKER, DEVICE, 3, 1, 1000), 59 * SEC, 1_700_000_000_000, &ifs);
    assert!(r.alerts.is_empty());
    // after more than five minutes: the statistics restart (no run yet), so nothing
    let r = handle_frame(&mut d, &frame(ATTACKER, DEVICE, 4, 1, 1000), 400 * SEC, 1_700_000_000_000, &ifs);
    assert!(r.alerts.is_empty());
    // the next nearby probe continues the run and, the record being quiet, alerts at once
    let r = handle_frame(&mut d, &frame(ATTACKER, DEVICE, 5, 1, 1000), 401 * SEC, 1_700_000_000_000, &ifs);
    assert_eq!(r.alerts.len(), 1);
    assert_eq!(r.alerts[0].alert_type, "NMAP_FIN_SCAN");
    assert_eq!(r.alerts[0].details, "FIN scan detected: 10.0.0.9 → 10.0.0.5 (Port 5)");
}

#[test]
fn scan_alert_texts() {
    let ev = ScanAlertEvent {
        kind: AlertKind::Scan(ScanType::Ack),
        source: Ipv4::new(192, 168, 1, 20),
        destination: Ipv4::new(10, 0, 0, 1),
        port: 8080,
        port_count: 3,
    };
    let a = scan_alert(&ev, 5);
    assert_eq!(a.alert_type, "NMAP_ACK_SCAN");
    assert_eq!(a.details, "ACK port scan detected on port range near 8080 (source: 192.168.1.20)");
    assert_eq!(a.source_ip, "192.168.1.20");
    assert_eq!(a.severity, "HIGH");
    let ev = ScanAlertEvent { kind: AlertKind::Scan(ScanType::Xmas), ..ev };
    assert_eq!(scan_alert(&ev, 5).alert_type, "NMAP_XMAS_SCAN");
    assert_eq!(scan_alert(&ev, 5).details, "XMAS scan detected: 192.168.1.20 → 10.0.0.1 (Port 8080)");
    let ev = ScanAlertEvent { kind: AlertKind::PortScan, port_count: 123, ..ev };
    assert_eq!(scan_alert(&ev, 5).alert_type, "PORT_SCAN");
    assert_eq!(scan_alert(&ev, 5).details, "Port scan detected: 192.168.1.20 → 10.0.0.1 (123 ports)");
}

#[test]
fn severity_styles() {
    assert_eq!(severity_level(&"HIGH".to_string()), SeverityLevel::High);
    assert_eq!(severity_level(&"MEDIUM".to_string()), SeverityLevel::Medium);
    assert_eq!(severity_level(&"LOW".to_string()), SeverityLevel::Low);
    assert_eq!(severity_icon(SeverityLevel::High), "⚠");
    assert_eq!(severity_icon(SeverityLevel::Medium), "•");
}

#[test]
fn dotted_quad_text() {
    assert_eq!(ipv4_to_string(&Ipv4::new(0, 0, 0, 0)), "0.0.0.0");
    assert_eq!(ipv4_to_string(&Ipv4::new(255, 10, 100, 9)), "255.10.100.9");
}

#[test]
fn scan_classification() {
    assert_eq!(detect_scan_type(&tcp(2, 1024, 1), 2), Some(ScanType::Syn));
    assert_eq!(detect_scan_type(&tcp(1, 0, 1), 1), Some(ScanType::Fin));
    assert_eq!(detect_scan_type(&tcp(41, 0, 1), 41), Some(ScanType::Xmas));
    assert_eq!(detect_scan_type(&tcp(0, 0, 1), 0), Some(ScanType::Null));
    assert_eq!(detect_scan_type(&tcp(16, 0, 1), 16), Some(ScanType::Ack));
    assert_eq!(detect_scan_type(&tcp(18, 29200, 1), 18), Some(ScanType::Window));
    assert_eq!(detect_scan_type(&tcp(18, 29201, 1), 18), None);
    assert_eq!(ScanType::Window.as_str(), "WINDOW");
    assert!(is_valid_scan_type(ScanType::Null));
    for w in [1024u16, 2048, 3072, 29200, 65535] {
        assert!(is_nmap_window_signature(&tcp(0, w, 1)));
    }
    assert!(!is_nmap_window_signature(&tcp(0, 4096, 1)));
    assert!(is_nmap_scan(&tcp(18, 2048, 1), 18));
    assert!(!is_nmap_scan(&tcp(18, 2049, 1), 18));
    assert!(is_nmap_scan(&tcp(16, 1, 1), 16));
}

#[test]
fn responses_and_common_ports() {
    assert!(is_common_event(&Ipv4::new(1, 2, 3, 4), 443));
    assert!(is_common_event(&Ipv4::new(1, 2, 3, 4), 9100));
    assert!(!is_common_event(&Ipv4::new(1, 2, 3, 4), 444));
    assert!(is_nmap_response(&tcp(18, 0, 22)));
    assert!(!is_nmap_response(&tcp(2, 0, 22)));
    assert!(!is_nmap_response(&tcp(16, 0, 2222)));
}

#[test]
fn address_classes() {
    assert!(is_local_network(&Ipv4::new(10, 1, 2, 3)));
    assert!(is_local_network(&Ipv4::new(172, 16, 0, 1)));
    assert!(is_local_network(&Ipv4::new(172, 31, 255, 255)));
    assert!(!is_local_network(&Ipv4::new(172, 32, 0, 1)));
    assert!(is_local_network(&Ipv4::new(192, 168, 7, 7)));
    assert!(!is_local_network(&Ipv4::new(192, 169, 7, 7)));
    assert!(is_known_local_service(&Ipv4::new(192, 168, 1, 2)));
    assert!(!is_known_local_service(&Ipv4::new(192, 168, 1, 3)));
}

#[test]
fn whitelisting() {
    let ranges = default_ip_ranges();
    assert_eq!(ranges.len(), 8);
    assert_eq!(ranges[3], IpRange::new(Ipv4::new(104, 16, 0, 0), Ipv4::new(104, 31, 255, 255)));
    let device = Ipv4::new(192, 168, 1, 50);
    let wl = vec![device];
    // unknown local address, even if listed
    assert!(!is_whitelisted(&device, &wl, &ranges));
    // known local service but not listed, in a private range without cloud octet
    assert!(!is_whitelisted(&Ipv4::new(192, 168, 1, 1), &wl, &ranges));
    assert!(is_whitelisted(&Ipv4::new(192, 168, 1, 1), &vec![Ipv4::new(192, 168, 1, 1)], &ranges));
    assert!(is_whitelisted(&Ipv4::new(52, 1, 2, 3), &wl, &ranges));
    assert!(is_whitelisted(&Ipv4::new(104, 20, 0, 1), &wl, &ranges));
    assert!(!is_whitelisted(&Ipv4::new(104, 32, 0, 1), &wl, &ranges));
    assert!(is_whitelisted(&Ipv4::new(172, 65, 0, 1), &wl, &ranges));
    assert!(!is_whitelisted(&Ipv4::new(8, 8, 8, 8), &wl, &ranges));
    assert!(is_whitelisted(&Ipv4::new(8, 8, 8, 8), &vec![Ipv4::new(8, 8, 8, 8)], &ranges));
}

#[test]
fn interface_selection() {
    let mut ifs = interfaces();
    ifs.push(NetworkInterfaceInfo { name: "en0".to_string(), ips: vec![IpNetworkInfo::V4(Ipv4::new(10, 0, 0, 1))] });
    // the user's choice decides, whatever other interfaces exist
    assert_eq!(get_network_interface(&ifs, "eth0"), Some(1));
    assert_eq!(get_device_ip(&ifs[get_network_interface(&ifs, "eth0").unwrap()]), Some(Ipv4::new(10, 0, 0, 5)));
    assert_eq!(get_network_interface(&ifs, "en0"), Some(2));
    assert_eq!(get_network_interface(&ifs, "lo"), Some(0));
    assert_eq!(get_network_interface(&ifs, "wlan0"), None);
    assert_eq!(get_device_ip(&ifs[1]), Some(Ipv4::new(10, 0, 0, 5)));
    assert_eq!(get_device_ip(&NetworkInterfaceInfo { name: "x".to_string(), ips: vec![IpNetworkInfo::V6] }), None);
    assert!(is_our_device(&Ipv4::new(127, 0, 0, 1), &ifs));
    assert!(!is_our_device(&Ipv4::new(127, 0, 0, 2), &ifs));
    assert_eq!(get_network_interface(&vec![], "eth0"), None);
}

#[test]
fn ports_seen_before_a_restart_do_not_count_again() {
    let mut d = Detector::new(Ipv4::new(10, 0, 0, 5));
    let ifs = interfaces();
    let mut first = Vec::new();
    for p in 1u16..=60 {
        first.extend(handle_frame(&mut d, &frame(ATTACKER, DEVICE, p, 2, 1000), p as u64, 1_700_000_000_000, &ifs).alerts);
    }
    assert!(first.iter().any(|a| a.alert_type == "PORT_SCAN"));
    // statistics restart after the time window; the same ports are already known
    let mut second = Vec::new();
    for p in 1u16..=60 {
        let t = 100 * SEC + p as u64;
        second.extend(handle_frame(&mut d, &frame(ATTACKER, DEVICE, p, 2, 1000), t, 1_700_000_000_000, &ifs).alerts);
    }
    assert!(second.iter().all(|a| a.alert_type == "NMAP_SYN_SCAN"));
    assert!(!second.is_empty());
}

#[test]
fn clock_texts() {
    assert_eq!(clock_text(0), "00:00:00");
    assert_eq!(clock_text(1_700_000_000_000), "22:13:20");
    assert_eq!(clock_text(86_399_999), "23:59:59");
    assert_eq!(clock_text(-1), "23:59:59");
    assert_eq!(clock_text(3_723_000), "01:02:03");
    assert_eq!(clock_text(i64::MIN).len(), 8);
}

#[test]
fn reports_carry_the_given_timestamp() {
    let f = frame(ATTACKER, DEVICE, 443, 2, 1024);
    assert_eq!(capture_summary(&f, 42).unwrap().timestamp, 42);
    let mut d = Detector::new(Ipv4::new(10, 0, 0, 5));
    let ifs = interfaces();
    let mut alerts = Vec::new();
    for p in 1u16..=6 {
        alerts.extend(handle_frame(&mut d, &frame(ATTACKER, DEVICE, p, 2, 1000), p as u64, 77 + p as i64, &ifs).alerts);
    }
    assert_eq!(alerts.len(), 1);
    assert_eq!(alerts[0].timestamp, 83);
}
