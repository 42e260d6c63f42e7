//! Verified core of a small network intrusion detection system.
//!
//! The library decodes captured Ethernet frames, keeps per-source scan
//! statistics, classifies TCP scans, rate-limits alerts and keeps the bounded
//! alert and packet logs shown by the monitor's user interface.

pub mod ipv4;
pub mod text;
pub mod packet;
pub mod scan;
pub mod whitelist;
pub mod interface;
pub mod alert;
pub mod detector;
pub mod monitor;
pub mod ui;
pub mod laws;
