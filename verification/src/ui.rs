//! The state behind the monitor's window: the alert log, the packet log, the
//! pause switch shared with the capture loop, and the selected tab.

use vstd::prelude::*;

use std::collections::VecDeque;
use std::sync::atomic::{AtomicBool, Ordering};
use std::sync::mpsc::Receiver;
use std::sync::Arc;

use crate::alert::Alert;
use crate::monitor::CapturedPacket;

verus! {

#[verifier::external_type_specification]
#[verifier::external_body]
#[verifier::reject_recursive_types(T)]
pub struct ExReceiver<T>(Receiver<T>);

/// The alert log keeps at most this many alerts.
pub const MAX_ALERTS: usize = 100;

/// The packet log keeps at most this many packets.
pub const MAX_PACKETS: usize = 500;

/// Takes one waiting value from a channel with `std::sync::mpsc::Receiver::try_recv`.
///
/// Nothing is claimed of the result: whether a value is waiting depends on the
/// sending thread.
#[verifier::external_body]
fn try_receive<T>(rx: &Receiver<T>) -> Option<T> {
    match rx.try_recv() {
        Ok(v) => Some(v),
        Err(_) => None,
    }
}

/// One read of `rx` (`try_receive`) can give `r`: either `None`, or a value
/// that the channel delivered.
pub closed spec fn delivered<T>(rx: Receiver<T>, r: Option<T>) -> bool {
    call_ensures(try_receive::<T>, (&rx,), r)
}

/// Shares the pause switch with `Arc::clone`.
///
/// Claimed: the handle refers to the same switch.
#[verifier::external_body]
fn share_flag(flag: &Arc<AtomicBool>) -> (r: Arc<AtomicBool>)
    ensures
        r == *flag,
{
    Arc::clone(flag)
}

/// The tabs of the window.
#[derive(Clone, Copy, Debug, PartialEq, Eq, Structural)]
pub enum ActiveTab {
    Monitor,
    Inspector,
}

/// `log` with `x` put in front, the oldest entry dropped if that exceeds `cap`.
pub open spec fn push_front_bounded<T>(log: Seq<T>, x: T, cap: nat) -> Seq<T> {
    let t = seq![x] + log;
    if t.len() > cap { t.drop_last() } else { t }
}

/// A bounded log stays within its bound, shows the newest entry first, and
/// keeps the older entries in order behind it.
pub proof fn lemma_bounded_log<T>(log: Seq<T>, x: T, cap: nat)
    requires
        0 < cap,
        log.len() <= cap,
    ensures
        push_front_bounded(log, x, cap).len() <= cap,
        push_front_bounded(log, x, cap).len() == if log.len() < cap { log.len() + 1 } else { cap },
        push_front_bounded(log, x, cap)[0] == x,
        forall|i: int| 0 < i < push_front_bounded(log, x, cap).len() ==> #[trigger] push_front_bounded(log, x, cap)[i] == log[i - 1],
{
}

/// The window's state.
pub struct IdsUI {
    alerts: VecDeque<Alert>,
    rx: Receiver<Alert>,
    paused: Arc<AtomicBool>,
    active_tab: ActiveTab,
    packet_rx: Receiver<CapturedPacket>,
    packets: VecDeque<CapturedPacket>,
}

impl IdsUI {
    /// The alerts shown, newest first.
    pub closed spec fn spec_alerts(&self) -> Seq<Alert> {
        self.alerts@
    }

    /// The captured packets shown, newest first.
    pub closed spec fn spec_packets(&self) -> Seq<CapturedPacket> {
        self.packets@
    }

    /// The selected tab.
    pub closed spec fn spec_active_tab(&self) -> ActiveTab {
        self.active_tab
    }

    /// The pause switch shared with the capture loop.
    pub closed spec fn spec_pause_flag(&self) -> Arc<AtomicBool> {
        self.paused
    }

    /// The channel that alerts are read from.
    pub closed spec fn spec_alert_rx(&self) -> Receiver<Alert> {
        self.rx
    }

    /// The channel that captured packets are read from.
    pub closed spec fn spec_packet_rx(&self) -> Receiver<CapturedPacket> {
        self.packet_rx
    }

    /// Both logs are within their bounds.
    pub open spec fn wf(&self) -> bool {
        self.spec_alerts().len() <= MAX_ALERTS && self.spec_packets().len() <= MAX_PACKETS
    }

    /// A window with empty logs on the monitor tab, reading alerts from
    /// `alert_rx` and captured packets from `packet_rx`; monitoring is not paused.
    pub fn new(alert_rx: Receiver<Alert>, packet_rx: Receiver<CapturedPacket>) -> (ui: Self)
        ensures
            ui.wf(),
            ui.spec_alerts() == Seq::<Alert>::empty(),
            ui.spec_packets() == Seq::<CapturedPacket>::empty(),
            ui.spec_active_tab() == ActiveTab::Monitor,
            ui.spec_alert_rx() == alert_rx,
            ui.spec_packet_rx() == packet_rx,
    {
        Self {
            alerts: VecDeque::with_capacity(MAX_ALERTS),
            rx: alert_rx,
            paused: Arc::new(AtomicBool::new(false)),
            active_tab: ActiveTab::Monitor,
            packet_rx,
            packets: VecDeque::with_capacity(MAX_PACKETS),
        }
    }

    /// Whether monitoring is paused (the switch may be flipped at any time).
    pub fn is_paused(&self) -> bool {
        self.paused.load(Ordering::Relaxed)
    }

    /// A handle on the pause switch, for the capture loop.
    pub fn get_pause_handle(&self) -> (handle: Arc<AtomicBool>)
        ensures
            handle == self.spec_pause_flag(),
    {
        share_flag(&self.paused)
    }

    /// Flips the pause switch; nothing else changes.
    pub fn toggle_pause(&mut self)
        ensures
            final(self).spec_alerts() == old(self).spec_alerts(),
            final(self).spec_packets() == old(self).spec_packets(),
            final(self).spec_active_tab() == old(self).spec_active_tab(),
            final(self).spec_pause_flag() == old(self).spec_pause_flag(),
            final(self).spec_alert_rx() == old(self).spec_alert_rx(),
            final(self).spec_packet_rx() == old(self).spec_packet_rx(),
    {
        let paused = self.is_paused();
        self.paused.store(!paused, Ordering::Relaxed);
    }

    /// Selects a tab; nothing else changes.
    pub fn select_tab(&mut self, tab: ActiveTab)
        ensures
            final(self).spec_active_tab() == tab,
            final(self).spec_alerts() == old(self).spec_alerts(),
            final(self).spec_packets() == old(self).spec_packets(),
            final(self).spec_pause_flag() == old(self).spec_pause_flag(),
            final(self).spec_alert_rx() == old(self).spec_alert_rx(),
            final(self).spec_packet_rx() == old(self).spec_packet_rx(),
    {
        self.active_tab = tab;
    }

    /// The selected tab.
    pub fn active_tab(&self) -> (tab: ActiveTab)
        ensures
            tab == self.spec_active_tab(),
    {
        self.active_tab
    }

    /// The alerts shown, newest first.
    pub fn alerts(&self) -> (log: &VecDeque<Alert>)
        ensures
            log@ == self.spec_alerts(),
    {
        &self.alerts
    }

    /// The captured packets shown, newest first.
    pub fn packets(&self) -> (log: &VecDeque<CapturedPacket>)
        ensures
            log@ == self.spec_packets(),
    {
        &self.packets
    }

    /// Puts an alert at the top of the log, dropping the oldest one when the
    /// log would hold more than `MAX_ALERTS`.
    pub fn add_alert(&mut self, alert: Alert)
        ensures
            final(self).spec_alerts() == push_front_bounded(old(self).spec_alerts(), alert, MAX_ALERTS as nat),
            final(self).spec_packets() == old(self).spec_packets(),
            final(self).spec_active_tab() == old(self).spec_active_tab(),
            final(self).spec_pause_flag() == old(self).spec_pause_flag(),
            final(self).spec_alert_rx() == old(self).spec_alert_rx(),
            final(self).spec_packet_rx() == old(self).spec_packet_rx(),
            old(self).wf() ==> final(self).wf(),
    {
        self.alerts.push_front(alert);
        if self.alerts.len() > MAX_ALERTS {
            self.alerts.pop_back();
        }
    }

    /// Puts a captured packet at the top of the log, dropping the oldest one
    /// when the log would hold more than `MAX_PACKETS`.
    pub fn add_packet(&mut self, pkt: CapturedPacket)
        ensures
            final(self).spec_packets() == push_front_bounded(old(self).spec_packets(), pkt, MAX_PACKETS as nat),
            final(self).spec_alerts() == old(self).spec_alerts(),
            final(self).spec_active_tab() == old(self).spec_active_tab(),
            final(self).spec_pause_flag() == old(self).spec_pause_flag(),
            final(self).spec_alert_rx() == old(self).spec_alert_rx(),
            final(self).spec_packet_rx() == old(self).spec_packet_rx(),
            old(self).wf() ==> final(self).wf(),
    {
        self.packets.push_front(pkt);
        if self.packets.len() > MAX_PACKETS {
            self.packets.pop_back();
        }
    }

    /// Takes one waiting alert, if any, into the log; returns whether one was taken.
    pub fn receive_alert(&mut self) -> (taken: bool)
        ensures
            taken ==> exists|a: Alert|
                delivered(old(self).spec_alert_rx(), Some(a)) && final(self).spec_alerts() == push_front_bounded(
                    old(self).spec_alerts(),
                    a,
                    MAX_ALERTS as nat,
                ),
            !taken ==> delivered(old(self).spec_alert_rx(), None::<Alert>) && final(self).spec_alerts() == old(self).spec_alerts(),
            final(self).spec_packets() == old(self).spec_packets(),
            final(self).spec_active_tab() == old(self).spec_active_tab(),
            final(self).spec_pause_flag() == old(self).spec_pause_flag(),
            final(self).spec_alert_rx() == old(self).spec_alert_rx(),
            final(self).spec_packet_rx() == old(self).spec_packet_rx(),
            old(self).wf() ==> final(self).wf(),
    {
        match try_receive(&self.rx) {
            Some(alert) => {
                let ghost received = alert;
                self.add_alert(alert);
                assert(delivered(old(self).spec_alert_rx(), Some(received)));
                true
            },
            None => false,
        }
    }

    /// Takes one waiting captured packet, if any, into the log; returns whether one was taken.
    pub fn receive_packet(&mut self) -> (taken: bool)
        ensures
            taken ==> exists|p: CapturedPacket|
                delivered(old(self).spec_packet_rx(), Some(p)) && final(self).spec_packets() == push_front_bounded(
                    old(self).spec_packets(),
                    p,
                    MAX_PACKETS as nat,
                ),
            !taken ==> delivered(old(self).spec_packet_rx(), None::<CapturedPacket>) && final(self).spec_packets() == old(self).spec_packets(),
            final(self).spec_alerts() == old(self).spec_alerts(),
            final(self).spec_active_tab() == old(self).spec_active_tab(),
            final(self).spec_pause_flag() == old(self).spec_pause_flag(),
            final(self).spec_alert_rx() == old(self).spec_alert_rx(),
            final(self).spec_packet_rx() == old(self).spec_packet_rx(),
            old(self).wf() ==> final(self).wf(),
    {
        match try_receive(&self.packet_rx) {
            Some(pkt) => {
                let ghost received = pkt;
                self.add_packet(pkt);
                assert(delivered(old(self).spec_packet_rx(), Some(received)));
                true
            },
            None => false,
        }
    }
}

} // verus!
