//! The daemon's top-level flow: connectivity check, grace wait, initial
//! scan, auto-connect with saved credentials, access point and portal, and
//! the command loop.
//!
//! The caller performs each `DaemonAction` and reports its outcome as a
//! `DaemonEvent`; `Daemon::step` is the only writer of the `WifiState`.

use vstd::prelude::*;
use crate::state::{NetworkInfo, WifiState, WifiBackend, ConnectionStatus, ControlCommand, DaemonConfig, signal_sorted, ssids_unique, portal_url_text, duplicate_networks};
use crate::scan::{AccessPointReading, scan_result_from_readings, described_by, strongest_listed};
use crate::credentials::{CredentialsStore, ranks_above};

verus! {

/// Pause before the access point goes down on a connect request, so that
/// clients see the "connecting" state (milliseconds).
pub const CONNECT_NOTICE_MS: u64 = 1200;
/// Time given to DHCP after joining, before exiting (seconds).
pub const DHCP_SETTLE_SECS: u64 = 5;

/// Where the daemon stands.
#[derive(Debug, Clone, Copy, PartialEq, Eq, Structural)]
pub enum DaemonPhase {
    CheckingConnectivity,
    GraceWait,
    Scanning,
    AutoConnecting,
    StartingAp,
    Serving,
    Connecting,
    RestartingAp,
    SwitchingBackend,
    Finished,
}

/// Outcomes reported by the caller.
#[derive(Debug)]
pub enum DaemonEvent {
    /// Whether the host has full connectivity.
    ConnectivityChecked { full: bool },
    /// The grace wait ended, with or without connectivity.
    GraceEnded { connected: bool },
    /// The initial scan's access-point readings, the monotonic time in
    /// seconds, and the saved credentials (empty when none could be read).
    ScanCompleted { readings: Vec<AccessPointReading>, now: u64, saved: CredentialsStore },
    /// The initial scan failed.
    ScanFailed { error: String },
    AutoConnectFinished { result: Result<(), String> },
    ApStartFinished { result: Result<(), String> },
    CommandReceived { command: ControlCommand },
    /// SIGINT arrived.
    Interrupted,
    ConnectFinished { result: Result<(), String> },
    ApRestartFinished { result: Result<(), String> },
    BackendSwitchFinished { result: Result<(), String> },
}

/// What the caller is to do next.
#[derive(Debug)]
pub enum DaemonAction {
    /// Read the manager's connectivity.
    CheckConnectivity,
    /// Wait up to `secs` for full connectivity.
    WaitForConnectivity { secs: u64 },
    /// Scan on the interface.
    Scan,
    /// Join `ssid` with the station connector (saved credentials).
    AutoConnect { ssid: String, password: String },
    /// Bring up the access point with the configured name and address.
    StartAp,
    /// Start the local socket and the portal (first time only), then wait
    /// for a command or SIGINT.
    AwaitCommand { start_servers: bool },
    /// Wait `delay_ms`, stop the access point, then join `ssid`.
    StopApThenConnect { ssid: String, password: String, delay_ms: u64 },
    /// Bring the access point back up.
    RestartAp,
    SwitchBackend { backend: WifiBackend },
    /// Add or update the saved credential of `ssid` and write the store,
    /// then stop as `Finish` does (without error).
    SaveCredential { ssid: String, password: String, settle_secs: u64, teardown: bool },
    /// Stop: wait `settle_secs`, tear down the access point and servers when
    /// `teardown`, exit with success unless `error`.
    Finish { error: Option<String>, settle_secs: u64, teardown: bool },
}

/// The orchestrator.
pub struct Daemon {
    config: DaemonConfig,
    state: WifiState,
    phase: DaemonPhase,
    servers_started: bool,
    /// Scan result held back while auto-connect is tried.
    scanned: Vec<NetworkInfo>,
    scanned_at: u64,
    /// The request being served: SSID, password, whether to save.
    request_ssid: String,
    request_password: String,
    request_save: bool,
    /// The error of a failed connect, kept while the access point restarts.
    connect_error: String,
    backend: WifiBackend,
}

impl Daemon {
    pub closed spec fn state_spec(&self) -> WifiState {
        self.state
    }

    pub closed spec fn config_spec(&self) -> DaemonConfig {
        self.config
    }

    /// The current state.
    pub fn state(&self) -> (r: &WifiState)
        ensures
            *r == self.state_spec(),
    {
        &self.state
    }

    /// The settings.
    pub fn config(&self) -> (r: &DaemonConfig)
        ensures
            *r == self.config_spec(),
    {
        &self.config
    }

    pub closed spec fn phase_spec(&self) -> DaemonPhase {
        self.phase
    }

    pub closed spec fn servers_started_spec(&self) -> bool {
        self.servers_started
    }

    pub closed spec fn request_spec(&self) -> (Seq<char>, Seq<char>, bool) {
        (self.request_ssid@, self.request_password@, self.request_save)
    }

    pub closed spec fn scanned_spec(&self) -> Seq<NetworkInfo> {
        self.scanned@
    }

    /// Monotonic time of the initial scan.
    pub closed spec fn scanned_at_spec(&self) -> u64 {
        self.scanned_at
    }

    pub closed spec fn connect_error_spec(&self) -> Seq<char> {
        self.connect_error@
    }

    pub open spec fn wf(&self) -> bool {
        &&& self.state_spec().inv()
        &&& signal_sorted(self.scanned_spec())
        &&& (self.phase_spec() != DaemonPhase::Finished ==> self.state_spec().status != ConnectionStatus::Connected)
    }

    /// Whether `ev` answers what the daemon is waiting on.
    pub open spec fn accepts_spec(&self, ev: DaemonEvent) -> bool {
        match ev {
            DaemonEvent::ConnectivityChecked { .. } => self.phase_spec() == DaemonPhase::CheckingConnectivity,
            DaemonEvent::GraceEnded { .. } => self.phase_spec() == DaemonPhase::GraceWait,
            DaemonEvent::ScanCompleted { saved, .. } => self.phase_spec() == DaemonPhase::Scanning && saved.wf(),
            DaemonEvent::ScanFailed { .. } => self.phase_spec() == DaemonPhase::Scanning,
            DaemonEvent::AutoConnectFinished { .. } => self.phase_spec() == DaemonPhase::AutoConnecting,
            DaemonEvent::ApStartFinished { .. } => self.phase_spec() == DaemonPhase::StartingAp,
            DaemonEvent::CommandReceived { .. } => self.phase_spec() == DaemonPhase::Serving,
            DaemonEvent::Interrupted => self.phase_spec() == DaemonPhase::Serving,
            DaemonEvent::ConnectFinished { .. } => self.phase_spec() == DaemonPhase::Connecting,
            DaemonEvent::ApRestartFinished { .. } => self.phase_spec() == DaemonPhase::RestartingAp,
            DaemonEvent::BackendSwitchFinished { .. } => self.phase_spec() == DaemonPhase::SwitchingBackend,
        }
    }

    pub fn accepts(&self, ev: &DaemonEvent) -> (r: bool)
        ensures
            r == self.accepts_spec(*ev),
    {
        match ev {
            DaemonEvent::ConnectivityChecked { .. } => self.phase == DaemonPhase::CheckingConnectivity,
            DaemonEvent::GraceEnded { .. } => self.phase == DaemonPhase::GraceWait,
            DaemonEvent::ScanCompleted { saved, .. } => self.phase == DaemonPhase::Scanning && saved.networks.is_well_formed(),
            DaemonEvent::ScanFailed { .. } => self.phase == DaemonPhase::Scanning,
            DaemonEvent::AutoConnectFinished { .. } => self.phase == DaemonPhase::AutoConnecting,
            DaemonEvent::ApStartFinished { .. } => self.phase == DaemonPhase::StartingAp,
            DaemonEvent::CommandReceived { .. } => self.phase == DaemonPhase::Serving,
            DaemonEvent::Interrupted => self.phase == DaemonPhase::Serving,
            DaemonEvent::ConnectFinished { .. } => self.phase == DaemonPhase::Connecting,
            DaemonEvent::ApRestartFinished { .. } => self.phase == DaemonPhase::RestartingAp,
            DaemonEvent::BackendSwitchFinished { .. } => self.phase == DaemonPhase::SwitchingBackend,
        }
    }

    /// A daemon with resolved settings, about to check connectivity.
    pub fn new(config: DaemonConfig) -> (r: (Daemon, DaemonAction))
        ensures
            r.0.wf(),
            r.0.config_spec() == config,
            r.0.phase_spec() == DaemonPhase::CheckingConnectivity,
            r.0.state_spec().status == ConnectionStatus::Initializing,
            !r.0.servers_started_spec(),
            r.1 is CheckConnectivity,
    {
        (Daemon {
            config,
            state: WifiState::new(),
            phase: DaemonPhase::CheckingConnectivity,
            servers_started: false,
            scanned: Vec::new(),
            scanned_at: 0,
            request_ssid: String::new(),
            request_password: String::new(),
            request_save: false,
            connect_error: String::new(),
            backend: WifiBackend::Iwd,
        }, DaemonAction::CheckConnectivity)
    }

    fn finish(&mut self, error: Option<String>, settle_secs: u64, teardown: bool) -> (a: DaemonAction)
        ensures
            final(self).phase_spec() == DaemonPhase::Finished,
            final(self).state_spec() == old(self).state_spec(),
            final(self).config_spec() == old(self).config_spec(),
            final(self).scanned_spec() == old(self).scanned_spec(),
            a == (DaemonAction::Finish { error, settle_secs, teardown }),
    {
        self.phase = DaemonPhase::Finished;
        DaemonAction::Finish { error, settle_secs, teardown }
    }

    fn begin_ap_start(&mut self, now: u64) -> (a: DaemonAction)
        requires
            old(self).wf(),
        ensures
            final(self).wf(),
            final(self).phase_spec() == DaemonPhase::StartingAp,
            final(self).config_spec() == old(self).config_spec(),
            final(self).state_spec() == (WifiState {
                status: ConnectionStatus::AwaitingCredentials,
                available_networks: final(self).state_spec().available_networks,
                last_scan: Some(now),
                ..old(self).state_spec()
            }),
            final(self).state_spec().available_networks@ == old(self).scanned_spec(),
            a is StartAp,
    {
        let networks = duplicate_networks(&self.scanned);
        self.scanned = Vec::new();
        self.state.record_scan(networks, now);
        self.phase = DaemonPhase::StartingAp;
        DaemonAction::StartAp
    }

    fn await_command(&mut self) -> (a: DaemonAction)
        ensures
            final(self).phase_spec() == DaemonPhase::Serving,
            final(self).servers_started_spec(),
            final(self).state_spec() == old(self).state_spec(),
            final(self).config_spec() == old(self).config_spec(),
            final(self).scanned_spec() == old(self).scanned_spec(),
            a == (DaemonAction::AwaitCommand { start_servers: !old(self).servers_started_spec() }),
    {
        let start = !self.servers_started;
        self.servers_started = true;
        self.phase = DaemonPhase::Serving;
        DaemonAction::AwaitCommand { start_servers: start }
    }

    fn on_scan_completed(&mut self, readings: Vec<AccessPointReading>, now: u64, saved: CredentialsStore) -> (a: DaemonAction)
        requires
            old(self).wf(),
            old(self).phase_spec() == DaemonPhase::Scanning,
            saved.wf(),
        ensures
            final(self).wf(),
            final(self).config_spec() == old(self).config_spec(),
            scan_completed_spec(*old(self), readings@, now, saved, *final(self), a),
    {
        let networks = scan_result_from_readings(&readings);
        self.scanned_at = now;
        let best = saved.best_known_network(networks.as_slice());
        let choice = match best {
            Some(n) => match saved.get_password(n.ssid.as_str()) {
                Some(p) => Some((n.ssid.clone(), p.to_owned())),
                None => None,
            },
            None => None,
        };
        let ghost l = networks@;
        self.scanned = networks;
        match choice {
            Some((ssid, password)) => {
                self.phase = DaemonPhase::AutoConnecting;
                self.request_ssid = ssid.clone();
                self.request_password = password.clone();
                self.request_save = true;
                proof {
                    let n = best->0;
                    let k = choose|k: int| {
                        &&& 0 <= k < l.len()
                        &&& #[trigger] l[k] == *n
                        &&& saved.networks@.contains_key(n.ssid@)
                        &&& forall|i: int| 0 <= i < l.len() && saved.networks@.contains_key(#[trigger] l[i].ssid@)
                            ==> !ranks_above(saved.networks@, l[i], *n)
                        &&& forall|i: int| 0 <= i < k && saved.networks@.contains_key(#[trigger] l[i].ssid@)
                            ==> ranks_above(saved.networks@, *n, l[i])
                    };
                    assert(l[k].ssid@ == ssid@);
                    assert(best_known_ssid(l, saved, ssid@));
                    assert(has_known(l, saved));
                }
                DaemonAction::AutoConnect { ssid, password }
            },
            None => {
                let a = self.begin_ap_start(now);
                assert(!has_known(l, saved));
                a
            },
        }
    }

    /// Advances the flow on the caller's report.
    pub fn step(&mut self, ev: DaemonEvent) -> (a: DaemonAction)
        requires
            old(self).wf(),
            old(self).accepts_spec(ev),
        ensures
            final(self).wf(),
            final(self).config_spec() == old(self).config_spec(),
            step_spec(*old(self), ev, *final(self), a),
    {
        match ev {
            DaemonEvent::ConnectivityChecked { full } => {
                if full {
                    self.finish(None, 0, false)
                } else {
                    self.phase = DaemonPhase::GraceWait;
                    DaemonAction::WaitForConnectivity { secs: self.config.grace_period }
                }
            },
            DaemonEvent::GraceEnded { connected } => {
                if connected {
                    self.finish(None, 0, false)
                } else {
                    self.state.begin_scan();
                    self.phase = DaemonPhase::Scanning;
                    DaemonAction::Scan
                }
            },
            DaemonEvent::ScanCompleted { readings, now, saved } => self.on_scan_completed(readings, now, saved),
            DaemonEvent::ScanFailed { error } => self.finish(Some(error), 0, false),
            DaemonEvent::AutoConnectFinished { result } => match result {
                Ok(()) => {
                    self.phase = DaemonPhase::Finished;
                    DaemonAction::SaveCredential {
                        ssid: self.request_ssid.clone(),
                        password: self.request_password.clone(),
                        settle_secs: 0,
                        teardown: false,
                    }
                },
                Err(_) => {
                    let now = self.scanned_at;
                    self.begin_ap_start(now)
                },
            },
            DaemonEvent::ApStartFinished { result } => match result {
                Ok(()) => {
                    self.state.ap_started(self.config.ssid.as_str(), self.config.ap_ip.as_str());
                    self.await_command()
                },
                Err(e) => {
                    let msg = e.clone();
                    self.state.ap_start_failed(e);
                    self.finish(Some(msg), 0, true)
                },
            },
            DaemonEvent::CommandReceived { command } => match command {
                ControlCommand::Scan => self.await_command(),
                ControlCommand::Connect { ssid, password, save } => {
                    self.state.begin_connect(ssid.as_str());
                    self.request_ssid = ssid.clone();
                    self.request_password = password.clone();
                    self.request_save = save;
                    self.phase = DaemonPhase::Connecting;
                    DaemonAction::StopApThenConnect { ssid, password, delay_ms: CONNECT_NOTICE_MS }
                },
                ControlCommand::SwitchBackend { backend } => {
                    self.state.begin_backend_switch();
                    self.backend = backend;
                    self.phase = DaemonPhase::SwitchingBackend;
                    DaemonAction::SwitchBackend { backend }
                },
                ControlCommand::Shutdown => self.finish(None, 0, true),
            },
            DaemonEvent::Interrupted => self.finish(None, 0, true),
            DaemonEvent::ConnectFinished { result } => match result {
                Ok(()) => {
                    self.state.connect_succeeded(self.request_ssid.as_str());
                    if self.request_save {
                        self.phase = DaemonPhase::Finished;
                        DaemonAction::SaveCredential {
                            ssid: self.request_ssid.clone(),
                            password: self.request_password.clone(),
                            settle_secs: DHCP_SETTLE_SECS,
                            teardown: true,
                        }
                    } else {
                        self.finish(None, DHCP_SETTLE_SECS, true)
                    }
                },
                Err(e) => {
                    self.connect_error = e;
                    self.phase = DaemonPhase::RestartingAp;
                    DaemonAction::RestartAp
                },
            },
            DaemonEvent::ApRestartFinished { result } => {
                let error = self.connect_error.clone();
                self.state.connect_failed(error, result.is_ok());
                self.await_command()
            },
            DaemonEvent::BackendSwitchFinished { result } => {
                self.state.backend_switch_finished(self.backend, result);
                self.await_command()
            },
        }
    }
}

/// The SSID an auto-connect action names.
pub open spec fn ssid_of(a: DaemonAction) -> Seq<char> {
    match a {
        DaemonAction::AutoConnect { ssid, .. } => ssid@,
        _ => Seq::empty(),
    }
}

/// The password an auto-connect action names.
pub open spec fn password_of(a: DaemonAction) -> Seq<char> {
    match a {
        DaemonAction::AutoConnect { password, .. } => password@,
        _ => Seq::empty(),
    }
}

/// `l` is the network list of a scan that gave `readings`.
pub open spec fn scan_list(l: Seq<NetworkInfo>, readings: Seq<AccessPointReading>) -> bool {
    &&& signal_sorted(l)
    &&& ssids_unique(l)
    &&& forall|j: int| 0 <= j < l.len() ==> described_by(readings, #[trigger] l[j])
    &&& forall|i: int| 0 <= i < readings.len() && #[trigger] readings[i].ssid@.len() > 0 ==> strongest_listed(l, readings[i])
}

/// Some network of `l` has saved credentials.
pub open spec fn has_known(l: Seq<NetworkInfo>, saved: CredentialsStore) -> bool {
    exists|i: int| 0 <= i < l.len() && saved.networks@.contains_key(#[trigger] l[i].ssid@)
}

/// `ssid` names a best-ranked network of `l` among those with saved credentials.
pub open spec fn best_known_ssid(l: Seq<NetworkInfo>, saved: CredentialsStore, ssid: Seq<char>) -> bool {
    exists|k: int| 0 <= k < l.len() && #[trigger] l[k].ssid@ == ssid && saved.networks@.contains_key(ssid)
        && forall|i: int| 0 <= i < l.len() && saved.networks@.contains_key(#[trigger] l[i].ssid@)
            ==> !ranks_above(saved.networks@, l[i], l[k])
}

/// The effect owed for a completed initial scan: the merged network list
/// is kept; a network with saved credentials is joined first, else the
/// access point is started.
pub open spec fn scan_completed_spec(
    d: Daemon,
    readings: Seq<AccessPointReading>,
    now: u64,
    saved: CredentialsStore,
    e: Daemon,
    a: DaemonAction,
) -> bool {
    if e.phase_spec() == DaemonPhase::AutoConnecting {
        &&& e.scanned_at_spec() == now
        &&& scan_list(e.scanned_spec(), readings)
        &&& has_known(e.scanned_spec(), saved)
        &&& e.state_spec() == d.state_spec()
        &&& e.request_spec() == (ssid_of(a), password_of(a), true)
        &&& a matches DaemonAction::AutoConnect { ssid, password }
        &&& password@ == saved.networks@[ssid@].password@
        &&& best_known_ssid(e.scanned_spec(), saved, ssid@)
    } else {
        &&& e.phase_spec() == DaemonPhase::StartingAp
        &&& scan_list(e.state_spec().available_networks@, readings)
        &&& !has_known(e.state_spec().available_networks@, saved)
        &&& a is StartAp
        &&& e.state_spec() == (WifiState {
            status: ConnectionStatus::AwaitingCredentials,
            available_networks: e.state_spec().available_networks,
            last_scan: Some(now),
            ..d.state_spec()
        })
    }
}

/// The effect `step` owes for each event.
pub open spec fn step_spec(d: Daemon, ev: DaemonEvent, e: Daemon, a: DaemonAction) -> bool {
    match ev {
        DaemonEvent::ConnectivityChecked { full } => if full {
            e.phase_spec() == DaemonPhase::Finished && e.state_spec() == d.state_spec()
                && a == (DaemonAction::Finish { error: None, settle_secs: 0, teardown: false })
        } else {
            e.phase_spec() == DaemonPhase::GraceWait && e.state_spec() == d.state_spec()
                && a == (DaemonAction::WaitForConnectivity { secs: d.config_spec().grace_period })
        },
        DaemonEvent::GraceEnded { connected } => if connected {
            e.phase_spec() == DaemonPhase::Finished && e.state_spec() == d.state_spec()
                && a == (DaemonAction::Finish { error: None, settle_secs: 0, teardown: false })
        } else {
            e.phase_spec() == DaemonPhase::Scanning && a is Scan
                && e.state_spec() == (WifiState { status: ConnectionStatus::Scanning, ..d.state_spec() })
        },
        DaemonEvent::ScanCompleted { readings, now, saved } => scan_completed_spec(d, readings@, now, saved, e, a),
        DaemonEvent::ScanFailed { error } => e.phase_spec() == DaemonPhase::Finished && e.state_spec() == d.state_spec()
            && a == (DaemonAction::Finish { error: Some(error), settle_secs: 0, teardown: false }),
        DaemonEvent::AutoConnectFinished { result } => match result {
            Ok(()) => e.phase_spec() == DaemonPhase::Finished && e.state_spec() == d.state_spec()
                && (a matches DaemonAction::SaveCredential { ssid, password, settle_secs, teardown }
                    && ssid@ == d.request_spec().0 && password@ == d.request_spec().1 && settle_secs == 0 && !teardown),
            Err(_) => e.phase_spec() == DaemonPhase::StartingAp && a is StartAp
                && e.state_spec() == (WifiState {
                    status: ConnectionStatus::AwaitingCredentials,
                    available_networks: e.state_spec().available_networks,
                    last_scan: Some(d.scanned_at_spec()),
                    ..d.state_spec()
                })
                && e.state_spec().available_networks@ == d.scanned_spec(),
        },
        DaemonEvent::ApStartFinished { result } => match result {
            Ok(()) => e.phase_spec() == DaemonPhase::Serving && e.state_spec().ap_running
                && (e.state_spec().ap_ssid matches Some(s) && s@ == d.config_spec().ssid@)
                && (e.state_spec().portal_url matches Some(u) && u@ == portal_url_text(d.config_spec().ap_ip@))
                && e.state_spec().status == d.state_spec().status
                && a == (DaemonAction::AwaitCommand { start_servers: !d.servers_started_spec() }),
            Err(err) => e.phase_spec() == DaemonPhase::Finished
                && e.state_spec() == (WifiState { status: ConnectionStatus::Failed, ap_running: false, last_error: Some(err), ..d.state_spec() })
                && (a matches DaemonAction::Finish { error: Some(m), settle_secs: 0, teardown: true } && m@ == err@),
        },
        DaemonEvent::CommandReceived { command } => match command {
            ControlCommand::Scan => e.phase_spec() == DaemonPhase::Serving && e.state_spec() == d.state_spec()
                && a == (DaemonAction::AwaitCommand { start_servers: !d.servers_started_spec() }),
            ControlCommand::Connect { ssid, password, save } => {
                &&& e.phase_spec() == DaemonPhase::Connecting
                &&& e.state_spec().status == ConnectionStatus::Connecting
                &&& e.state_spec().connecting_to matches Some(s) && s@ == ssid@
                &&& e.state_spec().last_error is None
                &&& e.state_spec().ap_running == d.state_spec().ap_running
                &&& e.request_spec() == (ssid@, password@, save)
                &&& a matches DaemonAction::StopApThenConnect { ssid: s2, password: p2, delay_ms }
                &&& s2 == ssid && p2 == password && delay_ms == CONNECT_NOTICE_MS
            },
            ControlCommand::SwitchBackend { backend } => e.phase_spec() == DaemonPhase::SwitchingBackend
                && e.state_spec() == (WifiState { status: ConnectionStatus::SwitchingBackend, ..d.state_spec() })
                && a == (DaemonAction::SwitchBackend { backend }),
            ControlCommand::Shutdown => e.phase_spec() == DaemonPhase::Finished && e.state_spec() == d.state_spec()
                && a == (DaemonAction::Finish { error: None, settle_secs: 0, teardown: true }),
        },
        DaemonEvent::Interrupted => e.phase_spec() == DaemonPhase::Finished && e.state_spec() == d.state_spec()
            && a == (DaemonAction::Finish { error: None, settle_secs: 0, teardown: true }),
        DaemonEvent::ConnectFinished { result } => match result {
            Ok(()) => {
                &&& e.phase_spec() == DaemonPhase::Finished
                &&& e.state_spec().status == ConnectionStatus::Connected
                &&& e.state_spec().connected_ssid matches Some(s) && s@ == d.request_spec().0
                &&& !e.state_spec().ap_running
                &&& e.state_spec().connecting_to is None
                &&& d.request_spec().2 ==> (a matches DaemonAction::SaveCredential { ssid, password, settle_secs, teardown }
                    && ssid@ == d.request_spec().0 && password@ == d.request_spec().1
                    && settle_secs == DHCP_SETTLE_SECS && teardown)
                &&& !d.request_spec().2 ==> a == (DaemonAction::Finish { error: None, settle_secs: DHCP_SETTLE_SECS, teardown: true })
            },
            Err(err) => e.phase_spec() == DaemonPhase::RestartingAp && e.state_spec() == d.state_spec()
                && e.connect_error_spec() == err@ && a is RestartAp,
        },
        DaemonEvent::ApRestartFinished { result } => {
            &&& e.phase_spec() == DaemonPhase::Serving
            &&& e.state_spec().status == ConnectionStatus::Failed
            &&& e.state_spec().last_error matches Some(m) && m@ == d.connect_error_spec()
            &&& e.state_spec().connecting_to is None
            &&& e.state_spec().ap_running == result is Ok
            &&& a == (DaemonAction::AwaitCommand { start_servers: !d.servers_started_spec() })
        },
        DaemonEvent::BackendSwitchFinished { result } => e.phase_spec() == DaemonPhase::Serving
            && (result is Ok ==> e.state_spec().status == ConnectionStatus::AwaitingCredentials)
            && (result matches Err(m) ==> e.state_spec().status == ConnectionStatus::Failed && e.state_spec().last_error == Some(m))
            && a == (DaemonAction::AwaitCommand { start_servers: !d.servers_started_spec() }),
    }
}

} // verus!
