//! The access point's start-up sequence: release the device, stop the WiFi
//! backend, wait for the radio to be free, write the helper configurations,
//! start the beacon daemon, address the interface, start the DHCP/DNS
//! daemon. Any failure rolls back.
//!
//! The caller performs each `ApAction` and reports an `ApEvent`.

use vstd::prelude::*;
use crate::apconfig::{hostapd_config, hostapd_config_text, dnsmasq_config, dnsmasq_config_text, interface_address, RUNTIME_DIR};
use crate::subnet::ipv4_text;
use crate::state::WifiBackend;

verus! {

/// Seconds to wait for the backend service to stop and the link to drop.
pub const RELEASE_TIMEOUT_SECS: u64 = 6;
/// Settle time of the beacon daemon before its early-exit check (ms).
pub const BEACON_SETTLE_MS: u64 = 2000;
/// Settle time of the DHCP/DNS daemon before its early-exit check (ms).
pub const DHCP_SETTLE_MS: u64 = 500;
/// Seconds to wait for the address to show on the interface.
pub const ADDRESS_TIMEOUT_SECS: u64 = 5;

#[derive(Debug, Clone, Copy, PartialEq, Eq, Structural)]
pub enum ApStep {
    Release,
    StopBackend,
    AwaitBackendStop,
    AwaitDisconnect,
    ResetInterface,
    WriteConfigs,
    StartBeacon,
    AssignAddress,
    AwaitAddress,
    StartDhcp,
    RollBack,
    Done,
}

/// What the caller is to do next.
#[derive(Debug)]
pub enum ApAction {
    /// Tell the network manager to let go of the device (best-effort).
    ReleaseDevice,
    /// Stop the WiFi backend's service `unit` (best-effort).
    StopBackendService { unit: String },
    /// Poll until `unit` is inactive, at most `timeout_secs`.
    AwaitBackendStopped { unit: String, timeout_secs: u64 },
    /// Poll until the interface reports no station link, at most `timeout_secs`.
    AwaitStationDisconnected { timeout_secs: u64 },
    /// Bring the interface down and flush its IPv4 addresses (best-effort).
    ResetInterface,
    /// Write the two helper configuration files.
    WriteConfigs { hostapd: String, dnsmasq: String },
    /// Spawn the beacon daemon, wait `settle_ms`, report whether it exited.
    StartBeacon { settle_ms: u64 },
    /// Add `address` to the interface and bring it up.
    AssignAddress { address: String },
    /// Poll until the address shows on the interface, at most `timeout_secs`.
    AwaitAddress { timeout_secs: u64 },
    /// Spawn the DHCP/DNS daemon, wait `settle_ms`, report whether it exited.
    StartDhcp { settle_ms: u64 },
    /// Stop both helpers, remove their files, start the backend's `unit`
    /// again and restore the device's management.
    RollBack { unit: String },
    /// The access point is up, or the reason it is not.
    Finish { result: Result<(), String> },
}

/// What the caller reports back.
#[derive(Debug)]
pub enum ApEvent {
    /// A step without outcome is done, or a step with one succeeded.
    Completed,
    /// A wait ended: `ok` when the condition was seen in time.
    Awaited { ok: bool },
    /// A helper was spawned; `exit_status` is its exit status text if it
    /// already exited.
    Started { exit_status: Option<String> },
    /// A step failed with `error`.
    Failed { error: String },
}

/// One start-up of the access point.
#[derive(Debug)]
pub struct ApStartup {
    interface: String,
    ssid: String,
    ap_ip: String,
    backend: WifiBackend,
    step: ApStep,
    error: String,
    beacon_running: bool,
    address_ready: bool,
}

/// "hostapd exited early with status: S"
pub open spec fn beacon_exit_text(s: Seq<char>) -> Seq<char> {
    "hostapd exited early with status: "@ + s
}

/// "dnsmasq exited early with status: S"
pub open spec fn dhcp_exit_text(s: Seq<char>) -> Seq<char> {
    "dnsmasq exited early with status: "@ + s
}

impl ApStartup {
    pub closed spec fn step_spec(&self) -> ApStep {
        self.step
    }

    pub closed spec fn error_spec(&self) -> Seq<char> {
        self.error@
    }

    pub closed spec fn interface_spec(&self) -> Seq<char> {
        self.interface@
    }

    pub closed spec fn ap_ip_spec(&self) -> Seq<char> {
        self.ap_ip@
    }

    pub closed spec fn backend_spec(&self) -> WifiBackend {
        self.backend
    }

    pub closed spec fn ssid_spec(&self) -> Seq<char> {
        self.ssid@
    }

    /// The beacon daemon passed its early-exit check.
    pub closed spec fn beacon_running_spec(&self) -> bool {
        self.beacon_running
    }

    /// The address was seen on the interface.
    pub closed spec fn address_ready_spec(&self) -> bool {
        self.address_ready
    }

    /// The address is assigned only with the beacon daemon running, and the
    /// DHCP/DNS daemon started only once the address is there.
    pub open spec fn wf(&self) -> bool {
        &&& (self.step_spec() == ApStep::AssignAddress || self.step_spec() == ApStep::AwaitAddress
            || self.step_spec() == ApStep::StartDhcp) ==> self.beacon_running_spec()
        &&& self.step_spec() == ApStep::StartDhcp ==> self.address_ready_spec()
    }

    pub open spec fn accepts_spec(&self, ev: ApEvent) -> bool {
        match self.step_spec() {
            ApStep::Release | ApStep::StopBackend | ApStep::ResetInterface | ApStep::RollBack => ev is Completed,
            ApStep::AwaitBackendStop | ApStep::AwaitDisconnect | ApStep::AwaitAddress => ev is Awaited,
            ApStep::WriteConfigs | ApStep::AssignAddress => ev is Completed || ev is Failed,
            ApStep::StartBeacon | ApStep::StartDhcp => ev is Started || ev is Failed,
            ApStep::Done => false,
        }
    }

    pub fn accepts(&self, ev: &ApEvent) -> (r: bool)
        ensures
            r == self.accepts_spec(*ev),
    {
        match self.step {
            ApStep::Release | ApStep::StopBackend | ApStep::ResetInterface | ApStep::RollBack => {
                matches!(ev, ApEvent::Completed)
            },
            ApStep::AwaitBackendStop | ApStep::AwaitDisconnect | ApStep::AwaitAddress => matches!(ev, ApEvent::Awaited { .. }),
            ApStep::WriteConfigs | ApStep::AssignAddress => matches!(ev, ApEvent::Completed | ApEvent::Failed { .. }),
            ApStep::StartBeacon | ApStep::StartDhcp => matches!(ev, ApEvent::Started { .. } | ApEvent::Failed { .. }),
            ApStep::Done => false,
        }
    }

    /// Starts the sequence for an access point named `ssid` at `ap_ip` on
    /// `interface`, taking the radio from the WiFi `backend`.
    pub fn new(interface: &str, ssid: &str, ap_ip: &str, backend: WifiBackend) -> (r: (ApStartup, ApAction))
        ensures
            r.0.wf(),
            r.0.step_spec() == ApStep::Release,
            r.0.interface_spec() == interface@,
            r.0.ssid_spec() == ssid@,
            r.0.ap_ip_spec() == ap_ip@,
            r.0.backend_spec() == backend,
            !r.0.beacon_running_spec(),
            r.1 is ReleaseDevice,
    {
        (ApStartup {
            interface: interface.to_owned(),
            ssid: ssid.to_owned(),
            ap_ip: ap_ip.to_owned(),
            backend,
            step: ApStep::Release,
            error: String::new(),
            beacon_running: false,
            address_ready: false,
        }, ApAction::ReleaseDevice)
    }

    fn fail(&mut self, error: String) -> (a: ApAction)
        ensures
            final(self).step_spec() == ApStep::RollBack,
            final(self).error_spec() == error@,
            final(self).interface_spec() == old(self).interface_spec(),
            final(self).ap_ip_spec() == old(self).ap_ip_spec(),
            final(self).ssid_spec() == old(self).ssid_spec(),
            final(self).backend_spec() == old(self).backend_spec(),
            a matches ApAction::RollBack { unit } && unit@ == old(self).backend_spec().service_spec(),
    {
        self.error = error;
        self.step = ApStep::RollBack;
        ApAction::RollBack { unit: self.backend.service_name().to_owned() }
    }

    /// Advances the sequence on the caller's report. Every failure leads to
    /// a roll-back and then to `Finish` with that failure; `Finish` with
    /// success comes only after the DHCP/DNS daemon survived its settle
    /// time, which is started only after the beacon daemon survived its own
    /// and the address showed on the interface.
    pub fn step(&mut self, ev: ApEvent) -> (a: ApAction)
        requires
            old(self).wf(),
            old(self).accepts_spec(ev),
        ensures
            final(self).wf(),
            final(self).interface_spec() == old(self).interface_spec(),
            final(self).ap_ip_spec() == old(self).ap_ip_spec(),
            final(self).backend_spec() == old(self).backend_spec(),
            a is RollBack ==> (a matches ApAction::RollBack { unit } && unit@ == old(self).backend_spec().service_spec()),
            match (old(self).step_spec(), ev) {
                (ApStep::Release, _) => final(self).step_spec() == ApStep::StopBackend
                    && (a matches ApAction::StopBackendService { unit } && unit@ == old(self).backend_spec().service_spec()),
                (ApStep::StopBackend, _) => final(self).step_spec() == ApStep::AwaitBackendStop
                    && (a matches ApAction::AwaitBackendStopped { unit, timeout_secs }
                        && unit@ == old(self).backend_spec().service_spec() && timeout_secs == RELEASE_TIMEOUT_SECS),
                (ApStep::AwaitBackendStop, ApEvent::Awaited { ok }) => if ok {
                    final(self).step_spec() == ApStep::AwaitDisconnect
                        && a == (ApAction::AwaitStationDisconnected { timeout_secs: RELEASE_TIMEOUT_SECS })
                } else {
                    final(self).step_spec() == ApStep::RollBack && a is RollBack
                        && final(self).error_spec() == "Timed out waiting for systemd unit "@
                            + old(self).backend_spec().service_spec() + " to stop"@
                },
                (ApStep::AwaitDisconnect, ApEvent::Awaited { ok }) => if ok {
                    final(self).step_spec() == ApStep::ResetInterface && a is ResetInterface
                } else {
                    final(self).step_spec() == ApStep::RollBack && a is RollBack
                        && final(self).error_spec() == "Timed out waiting for "@ + old(self).interface_spec()
                            + " to disconnect from its current WiFi network"@
                },
                (ApStep::ResetInterface, _) => if exists|o: (u8, u8, u8, u8)| old(self).ap_ip_spec() == ipv4_text(o) {
                    final(self).step_spec() == ApStep::WriteConfigs && (a matches ApAction::WriteConfigs { hostapd, dnsmasq }
                        && hostapd@ == hostapd_config_text(old(self).interface_spec(), old(self).ssid_spec())
                        && exists|o: (u8, u8, u8, u8)| old(self).ap_ip_spec() == ipv4_text(o)
                            && dnsmasq@ == dnsmasq_config_text(old(self).interface_spec(), old(self).ap_ip_spec(), o, RUNTIME_DIR@))
                } else {
                    final(self).step_spec() == ApStep::RollBack && a is RollBack
                        && final(self).error_spec() == "Invalid AP IP address: '"@ + old(self).ap_ip_spec() + "'"@
                },
                (ApStep::WriteConfigs, ApEvent::Completed) => final(self).step_spec() == ApStep::StartBeacon
                    && a == (ApAction::StartBeacon { settle_ms: BEACON_SETTLE_MS }),
                (ApStep::StartBeacon, ApEvent::Started { exit_status }) => match exit_status {
                    None => final(self).step_spec() == ApStep::AssignAddress && final(self).beacon_running_spec()
                        && (a matches ApAction::AssignAddress { address } && address@ == old(self).ap_ip_spec() + "/24"@),
                    Some(s) => final(self).step_spec() == ApStep::RollBack && a is RollBack
                        && final(self).error_spec() == beacon_exit_text(s@),
                },
                (ApStep::AssignAddress, ApEvent::Completed) => final(self).step_spec() == ApStep::AwaitAddress
                    && a == (ApAction::AwaitAddress { timeout_secs: ADDRESS_TIMEOUT_SECS }),
                (ApStep::AwaitAddress, ApEvent::Awaited { ok }) => if ok {
                    final(self).step_spec() == ApStep::StartDhcp && final(self).address_ready_spec()
                        && a == (ApAction::StartDhcp { settle_ms: DHCP_SETTLE_MS })
                } else {
                    final(self).step_spec() == ApStep::RollBack && a is RollBack
                        && final(self).error_spec() == "Timed out waiting for IP "@ + old(self).ap_ip_spec() + " to be assigned to "@
                            + old(self).interface_spec()
                },
                (ApStep::StartDhcp, ApEvent::Started { exit_status }) => match exit_status {
                    None => final(self).step_spec() == ApStep::Done && a matches ApAction::Finish { result: Ok(()) },
                    Some(s) => final(self).step_spec() == ApStep::RollBack && a is RollBack
                        && final(self).error_spec() == dhcp_exit_text(s@),
                },
                (ApStep::RollBack, _) => final(self).step_spec() == ApStep::Done
                    && (a matches ApAction::Finish { result: Err(e) } && e@ == old(self).error_spec()),
                (_, ApEvent::Failed { error }) => final(self).step_spec() == ApStep::RollBack && a is RollBack
                    && final(self).error_spec() == error@,
                _ => false,
            },
            a matches ApAction::Finish { result: Ok(()) } ==> old(self).step_spec() == ApStep::StartDhcp
                && old(self).beacon_running_spec() && old(self).address_ready_spec(),
            a is StartDhcp ==> final(self).beacon_running_spec() && final(self).address_ready_spec(),
    {
        match (self.step, ev) {
            (ApStep::Release, _) => {
                self.step = ApStep::StopBackend;
                ApAction::StopBackendService { unit: self.backend.service_name().to_owned() }
            },
            (ApStep::StopBackend, _) => {
                self.step = ApStep::AwaitBackendStop;
                ApAction::AwaitBackendStopped { unit: self.backend.service_name().to_owned(), timeout_secs: RELEASE_TIMEOUT_SECS }
            },
            (ApStep::AwaitBackendStop, ApEvent::Awaited { ok }) => {
                if ok {
                    self.step = ApStep::AwaitDisconnect;
                    ApAction::AwaitStationDisconnected { timeout_secs: RELEASE_TIMEOUT_SECS }
                } else {
                    let mut m = String::from_str("Timed out waiting for systemd unit ");
                    m.append(self.backend.service_name());
                    m.append(" to stop");
                    self.fail(m)
                }
            },
            (ApStep::AwaitDisconnect, ApEvent::Awaited { ok }) => {
                if ok {
                    self.step = ApStep::ResetInterface;
                    ApAction::ResetInterface
                } else {
                    let mut m = String::from_str("Timed out waiting for ");
                    m.append(self.interface.as_str());
                    m.append(" to disconnect from its current WiFi network");
                    self.fail(m)
                }
            },
            (ApStep::ResetInterface, _) => {
                match dnsmasq_config(self.interface.as_str(), self.ap_ip.as_str(), RUNTIME_DIR) {
                    Ok(dnsmasq) => {
                        let hostapd = hostapd_config(self.interface.as_str(), self.ssid.as_str());
                        self.step = ApStep::WriteConfigs;
                        ApAction::WriteConfigs { hostapd, dnsmasq }
                    },
                    Err(_) => {
                        let mut m = String::from_str("Invalid AP IP address: '");
                        m.append(self.ap_ip.as_str());
                        m.append("'");
                        self.fail(m)
                    },
                }
            },
            (ApStep::WriteConfigs, ApEvent::Completed) => {
                self.step = ApStep::StartBeacon;
                ApAction::StartBeacon { settle_ms: BEACON_SETTLE_MS }
            },
            (ApStep::StartBeacon, ApEvent::Started { exit_status }) => match exit_status {
                None => {
                    self.beacon_running = true;
                    self.step = ApStep::AssignAddress;
                    ApAction::AssignAddress { address: interface_address(self.ap_ip.as_str()) }
                },
                Some(s) => {
                    let mut m = String::from_str("hostapd exited early with status: ");
                    m.append(s.as_str());
                    self.fail(m)
                },
            },
            (ApStep::AssignAddress, ApEvent::Completed) => {
                self.step = ApStep::AwaitAddress;
                ApAction::AwaitAddress { timeout_secs: ADDRESS_TIMEOUT_SECS }
            },
            (ApStep::AwaitAddress, ApEvent::Awaited { ok }) => {
                if ok {
                    self.address_ready = true;
                    self.step = ApStep::StartDhcp;
                    ApAction::StartDhcp { settle_ms: DHCP_SETTLE_MS }
                } else {
                    let mut m = String::from_str("Timed out waiting for IP ");
                    m.append(self.ap_ip.as_str());
                    m.append(" to be assigned to ");
                    m.append(self.interface.as_str());
                    self.fail(m)
                }
            },
            (ApStep::StartDhcp, ApEvent::Started { exit_status }) => match exit_status {
                None => {
                    self.step = ApStep::Done;
                    ApAction::Finish { result: Ok(()) }
                },
                Some(s) => {
                    let mut m = String::from_str("dnsmasq exited early with status: ");
                    m.append(s.as_str());
                    self.fail(m)
                },
            },
            (ApStep::RollBack, _) => {
                self.step = ApStep::Done;
                ApAction::Finish { result: Err(self.error.clone()) }
            },
            (_, ApEvent::Failed { error }) => self.fail(error),
            _ => {
                proof {
                    assert(false);
                }
                self.fail(String::new())
            },
        }
    }
}

} // verus!
