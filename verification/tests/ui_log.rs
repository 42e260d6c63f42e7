use std::sync::atomic::Ordering;
use std::sync::mpsc;

use ids_monitor::alert::{scan_alert, AlertKind, ScanAlertEvent};
use ids_monitor::ipv4::Ipv4;
use ids_monitor::monitor::CapturedPacket;
use ids_monitor::scan::ScanType;
use ids_monitor::ui::{ActiveTab, IdsUI, MAX_ALERTS, MAX_PACKETS};

fn event(port: u16) -> ScanAlertEvent {
    ScanAlertEvent {
        kind: AlertKind::Scan(ScanType::Syn),
        source: Ipv4::new(10, 0, 0, 9),
        destination: Ipv4::new(10, 0, 0, 5),
        port,
        port_count: 1,
    }
}

#[test]
fn alert_log_is_bounded_newest_first() {
    let (_atx, arx) = mpsc::channel();
    let (_ptx, prx) = mpsc::channel();
    let mut ui = IdsUI::new(arx, prx);
    assert!(ui.alerts().is_empty());
    for p in 0..(MAX_ALERTS as u16 + 20) {
        ui.add_alert(scan_alert(&event(p), 0));
    }
    assert_eq!(ui.alerts().len(), MAX_ALERTS);
    assert!(ui.alerts()[0].details.ends_with("(Port 119)"));
    assert!(ui.alerts()[MAX_ALERTS - 1].details.ends_with("(Port 20)"));
}

#[test]
fn packet_log_is_bounded() {
    let (_atx, arx) = mpsc::channel();
    let (ptx, prx) = mpsc::channel();
    let mut ui = IdsUI::new(arx, prx);
    for p in 0..(MAX_PACKETS as u16 + 3) {
        ptx.send(CapturedPacket {
            timestamp: 0,
            source_ip: Ipv4::new(1, 1, 1, 1),
            dest_ip: Ipv4::new(2, 2, 2, 2),
            port: p,
            flags: 2,
        })
        .unwrap();
    }
    let mut taken = 0;
    while ui.receive_packet() {
        taken += 1;
    }
    assert_eq!(taken, MAX_PACKETS + 3);
    assert_eq!(ui.packets().len(), MAX_PACKETS);
    assert_eq!(ui.packets()[0].port, MAX_PACKETS as u16 + 2);
}

#[test]
fn receiving_alerts_and_pausing() {
    let (atx, arx) = mpsc::channel();
    let (_ptx, prx) = mpsc::channel();
    let mut ui = IdsUI::new(arx, prx);
    assert!(!ui.receive_alert());
    atx.send(scan_alert(&event(7), 0)).unwrap();
    assert!(ui.receive_alert());
    assert_eq!(ui.alerts().len(), 1);
    assert!(!ui.is_paused());
    let handle = ui.get_pause_handle();
    ui.toggle_pause();
    assert!(ui.is_paused());
    assert!(handle.load(Ordering::Relaxed));
    handle.store(false, Ordering::Relaxed);
    assert!(!ui.is_paused());
    assert_eq!(ui.active_tab(), ActiveTab::Monitor);
    ui.select_tab(ActiveTab::Inspector);
    assert_eq!(ui.active_tab(), ActiveTab::Inspector);
}
