//! Alerts: what a detection reports, and the text it is reported with.

use vstd::prelude::*;
use vstd::string::*;


use crate::ipv4::Ipv4;
use crate::scan::{scan_type_name, ScanType};
use crate::text::{decimal, ipv4_text, push_decimal, push_ipv4, ipv4_to_string};

verus! {

/// An alert as the monitor's log shows it.
#[derive(Clone, Debug)]
pub struct Alert {
    /// When the alert was raised, in milliseconds since the Unix epoch (UTC).
    pub timestamp: i64,
    pub alert_type: String,
    pub source_ip: String,
    pub details: String,
    pub severity: String,
}

/// What raised an alert: a port scan, or a scan of a recognised type.
#[derive(Clone, Copy, Debug, PartialEq, Eq, Structural)]
pub enum AlertKind {
    PortScan,
    Scan(ScanType),
}

/// A detection, before it is turned into text.
#[derive(Clone, Copy, Debug, PartialEq, Eq, Structural)]
pub struct ScanAlertEvent {
    pub kind: AlertKind,
    pub source: Ipv4,
    pub destination: Ipv4,
    pub port: u16,
    pub port_count: usize,
}

/// The alert type: "PORT_SCAN", or "NMAP_<type>_SCAN" for a recognised scan.
pub open spec fn alert_type_text(kind: AlertKind) -> Seq<char> {
    match kind {
        AlertKind::PortScan => "PORT_SCAN"@,
        AlertKind::Scan(t) => "NMAP_"@ + scan_type_name(t) + "_SCAN"@,
    }
}

/// The details line of an alert.
pub open spec fn details_text(ev: ScanAlertEvent) -> Seq<char> {
    match ev.kind {
        AlertKind::Scan(ScanType::Ack) => "ACK port scan detected on port range near "@ + decimal(
            ev.port as nat,
        ) + " (source: "@ + ipv4_text(ev.source) + ")"@,
        AlertKind::PortScan => "Port scan detected: "@ + ipv4_text(ev.source) + " → "@ + ipv4_text(
            ev.destination,
        ) + " ("@ + decimal(ev.port_count as nat) + " ports)"@,
        AlertKind::Scan(t) => scan_type_name(t) + " scan detected: "@ + ipv4_text(ev.source)
            + " → "@ + ipv4_text(ev.destination) + " (Port "@ + decimal(ev.port as nat) + ")"@,
    }
}

/// The severity of every scan alert.
pub open spec fn high_severity() -> Seq<char> {
    "HIGH"@
}

/// `alert` reports `ev`: its type, source, details and severity are the texts
/// of the event.
pub open spec fn describes(alert: Alert, ev: ScanAlertEvent) -> bool {
    &&& alert.alert_type@ == alert_type_text(ev.kind)
    &&& alert.source_ip@ == ipv4_text(ev.source)
    &&& alert.details@ == details_text(ev)
    &&& alert.severity@ == high_severity()
}

fn alert_type_string(kind: AlertKind) -> (s: String)
    ensures
        s@ == alert_type_text(kind),
{
    match kind {
        AlertKind::PortScan => String::from_str("PORT_SCAN"),
        AlertKind::Scan(t) => {
            let mut s = String::from_str("NMAP_");
            s.append(t.as_str());
            s.append("_SCAN");
            s
        },
    }
}

fn details_string(ev: &ScanAlertEvent) -> (s: String)
    ensures
        s@ == details_text(*ev),
{
    match ev.kind {
        AlertKind::Scan(ScanType::Ack) => {
            let mut s = String::from_str("ACK port scan detected on port range near ");
            push_decimal(&mut s, ev.port as u64);
            s.append(" (source: ");
            push_ipv4(&mut s, &ev.source);
            s.append(")");
            s
        },
        AlertKind::PortScan => {
            let mut s = String::from_str("Port scan detected: ");
            push_ipv4(&mut s, &ev.source);
            s.append(" → ");
            push_ipv4(&mut s, &ev.destination);
            s.append(" (");
            push_decimal(&mut s, ev.port_count as u64);
            s.append(" ports)");
            s
        },
        AlertKind::Scan(t) => {
            let mut s = String::from_str(t.as_str());
            s.append(" scan detected: ");
            push_ipv4(&mut s, &ev.source);
            s.append(" → ");
            push_ipv4(&mut s, &ev.destination);
            s.append(" (Port ");
            push_decimal(&mut s, ev.port as u64);
            s.append(")");
            s
        },
    }
}

/// The alert that reports `ev`, stamped with `timestamp` (milliseconds since
/// the Unix epoch, UTC).
pub fn scan_alert(ev: &ScanAlertEvent, timestamp: i64) -> (alert: Alert)
    ensures
        describes(alert, *ev),
        alert.timestamp == timestamp,
{
    let alert_type = alert_type_string(ev.kind);
    let details = details_string(ev);
    Alert {
        timestamp,
        alert_type,
        source_ip: ipv4_to_string(&ev.source),
        details,
        severity: String::from_str("HIGH"),
    }
}

/// How prominently the log shows an alert.
#[derive(Clone, Copy, Debug, PartialEq, Eq, Structural)]
pub enum SeverityLevel {
    High,
    Medium,
    Low,
}

/// The level of a severity text: "HIGH", "MEDIUM", anything else is low.
pub open spec fn spec_severity_level(severity: Seq<char>) -> SeverityLevel {
    if severity == "HIGH"@ {
        SeverityLevel::High
    } else if severity == "MEDIUM"@ {
        SeverityLevel::Medium
    } else {
        SeverityLevel::Low
    }
}

/// The level at which an alert of this severity is shown.
pub fn severity_level(severity: &String) -> (level: SeverityLevel)
    ensures
        level == spec_severity_level(severity@),
{
    if *severity == String::from_str("HIGH") {
        SeverityLevel::High
    } else if *severity == String::from_str("MEDIUM") {
        SeverityLevel::Medium
    } else {
        SeverityLevel::Low
    }
}

/// The icon shown beside an alert of this level: a warning sign for high
/// severity, a bullet otherwise.
pub open spec fn spec_severity_icon(level: SeverityLevel) -> Seq<char> {
    match level {
        SeverityLevel::High => "⚠"@,
        _ => "•"@,
    }
}

/// The icon shown beside an alert of this level.
pub fn severity_icon(level: SeverityLevel) -> (icon: &'static str)
    ensures
        icon@ == spec_severity_icon(level),
{
    match level {
        SeverityLevel::High => "⚠",
        _ => "•",
    }
}

} // verus!
