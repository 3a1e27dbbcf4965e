//! The daemon's shared state: connection status, observed networks and the
//! snapshot handed to the portal and the terminal client.

use vstd::prelude::*;

verus! {

/// Where the daemon stands in its setup flow.
#[derive(Debug, Clone, Copy, PartialEq, Eq, Structural)]
pub enum ConnectionStatus {
    Initializing,
    Scanning,
    AwaitingCredentials,
    Connecting,
    Connected,
    Failed,
    Disconnected,
    SwitchingBackend,
}

impl Default for ConnectionStatus {
    fn default() -> (r: ConnectionStatus)
        ensures
            r == ConnectionStatus::Initializing,
    {
        ConnectionStatus::Initializing
    }
}

/// One observed access point (deduplicated by SSID in a scan result).
#[derive(Debug, Clone)]
pub struct NetworkInfo {
    pub ssid: String,
    pub bssid: String,
    /// 0 to 100.
    pub signal_strength: u8,
    /// MHz.
    pub frequency: u32,
    pub channel: u8,
    pub is_secured: bool,
    pub security_type: String,
}

impl NetworkInfo {
    /// A field-for-field copy.
    pub fn duplicate(&self) -> (r: NetworkInfo)
        ensures
            r == *self,
    {
        NetworkInfo {
            ssid: self.ssid.clone(),
            bssid: self.bssid.clone(),
            signal_strength: self.signal_strength,
            frequency: self.frequency,
            channel: self.channel,
            is_secured: self.is_secured,
            security_type: self.security_type.clone(),
        }
    }
}

/// Strongest first: signal strength never increases along the list.
pub open spec fn signal_sorted(s: Seq<NetworkInfo>) -> bool {
    forall|i: int, j: int|
        0 <= i < j < s.len() ==> #[trigger] s[i].signal_strength >= #[trigger] s[j].signal_strength
}

/// No SSID occurs twice.
pub open spec fn ssids_unique(s: Seq<NetworkInfo>) -> bool {
    forall|i: int, j: int| 0 <= i < j < s.len() ==> #[trigger] s[i].ssid@ != #[trigger] s[j].ssid@
}

/// A field-for-field copy of a list of networks.
pub fn duplicate_networks(v: &Vec<NetworkInfo>) -> (r: Vec<NetworkInfo>)
    ensures
        r@ == v@,
{
    let mut r: Vec<NetworkInfo> = Vec::new();
    let mut i: usize = 0;
    while i < v.len()
        invariant
            i <= v.len(),
            r@ == v@.subrange(0, i as int),
        decreases v.len() - i,
    {
        r.push(v[i].duplicate());
        i += 1;
    }
    assert(r@ == v@.subrange(0, v.len() as int));
    r
}

/// A copy of an optional text.
pub fn duplicate_text(t: &Option<String>) -> (r: Option<String>)
    ensures
        r == *t,
{
    match t {
        Some(s) => Some(s.clone()),
        None => None,
    }
}

} // verus!

verus! {

/// The WiFi backend of the host's network manager.
#[derive(Debug, Clone, Copy, PartialEq, Eq, Structural)]
pub enum WifiBackend {
    Iwd,
    WpaSupplicant,
}

impl WifiBackend {
    pub open spec fn nm_value_spec(self) -> Seq<char> {
        match self {
            WifiBackend::Iwd => "iwd"@,
            WifiBackend::WpaSupplicant => "wpa_supplicant"@,
        }
    }

    /// The value of `wifi.backend` in the manager's configuration.
    pub fn as_nm_value(self) -> (r: &'static str)
        ensures
            r@ == self.nm_value_spec(),
    {
        match self {
            WifiBackend::Iwd => "iwd",
            WifiBackend::WpaSupplicant => "wpa_supplicant",
        }
    }

    pub open spec fn service_spec(self) -> Seq<char> {
        match self {
            WifiBackend::Iwd => "iwd.service"@,
            WifiBackend::WpaSupplicant => "wpa_supplicant.service"@,
        }
    }

    /// The service unit that runs this backend.
    pub fn service_name(self) -> (r: &'static str)
        ensures
            r@ == self.service_spec(),
    {
        match self {
            WifiBackend::Iwd => "iwd.service",
            WifiBackend::WpaSupplicant => "wpa_supplicant.service",
        }
    }

    /// The other backend.
    pub fn other(self) -> (r: WifiBackend)
        ensures
            r != self,
    {
        match self {
            WifiBackend::Iwd => WifiBackend::WpaSupplicant,
            WifiBackend::WpaSupplicant => WifiBackend::Iwd,
        }
    }
}

/// The single authoritative state of the daemon.
#[derive(Debug, Clone)]
pub struct WifiState {
    pub status: ConnectionStatus,
    /// Strongest first.
    pub available_networks: Vec<NetworkInfo>,
    pub connected_ssid: Option<String>,
    pub connecting_to: Option<String>,
    pub ap_running: bool,
    pub ap_ssid: Option<String>,
    pub portal_url: Option<String>,
    pub last_error: Option<String>,
    /// Monotonic clock reading (seconds) of the last scan.
    pub last_scan: Option<u64>,
    pub wifi_backend: Option<WifiBackend>,
}

/// "http://" followed by the access point's address.
pub open spec fn portal_url_text(ap_ip: Seq<char>) -> Seq<char> {
    "http://"@ + ap_ip
}

impl WifiState {
    /// Connected means a known SSID and the access point down; the network
    /// list is strongest first.
    pub open spec fn inv(&self) -> bool {
        &&& self.status == ConnectionStatus::Connected ==> self.connected_ssid is Some && !self.ap_running
        &&& signal_sorted(self.available_networks@)
    }

    /// The state at start-up: initializing, nothing known.
    pub fn new() -> (r: WifiState)
        ensures
            r.inv(),
            r.status == ConnectionStatus::Initializing,
            r.available_networks@.len() == 0,
            r.connected_ssid is None && r.connecting_to is None && r.ap_ssid is None,
            r.portal_url is None && r.last_error is None && r.last_scan is None && r.wifi_backend is None,
            !r.ap_running,
    {
        WifiState {
            status: ConnectionStatus::Initializing,
            available_networks: Vec::new(),
            connected_ssid: None,
            connecting_to: None,
            ap_running: false,
            ap_ssid: None,
            portal_url: None,
            last_error: None,
            last_scan: None,
            wifi_backend: None,
        }
    }

    /// A scan is under way.
    pub fn begin_scan(&mut self)
        requires
            old(self).inv(),
        ensures
            final(self).inv(),
            *final(self) == (WifiState { status: ConnectionStatus::Scanning, ..*old(self) }),
    {
        self.status = ConnectionStatus::Scanning;
    }

    /// The scan result is in and the portal waits for a choice.
    pub fn record_scan(&mut self, networks: Vec<NetworkInfo>, now: u64)
        requires
            old(self).inv(),
            signal_sorted(networks@),
        ensures
            final(self).inv(),
            *final(self) == (WifiState {
                status: ConnectionStatus::AwaitingCredentials,
                available_networks: networks,
                last_scan: Some(now),
                ..*old(self)
            }),
    {
        self.available_networks = networks;
        self.status = ConnectionStatus::AwaitingCredentials;
        self.last_scan = Some(now);
    }

    /// The access point is up, named `ap_ssid`, serving the portal at `ap_ip`.
    pub fn ap_started(&mut self, ap_ssid: &str, ap_ip: &str)
        requires
            old(self).inv(),
            old(self).status != ConnectionStatus::Connected,
        ensures
            final(self).inv(),
            final(self).ap_running,
            final(self).ap_ssid matches Some(s) && s@ == ap_ssid@,
            final(self).portal_url matches Some(u) && u@ == portal_url_text(ap_ip@),
            final(self).status == old(self).status,
            final(self).available_networks == old(self).available_networks,
            final(self).connected_ssid == old(self).connected_ssid,
            final(self).connecting_to == old(self).connecting_to,
            final(self).last_error == old(self).last_error,
            final(self).last_scan == old(self).last_scan,
            final(self).wifi_backend == old(self).wifi_backend,
    {
        self.ap_running = true;
        self.ap_ssid = Some(ap_ssid.to_owned());
        let mut url = String::from_str("http://");
        url.append(ap_ip);
        self.portal_url = Some(url);
    }

    /// Starting the access point failed with `error`; it is not running.
    pub fn ap_start_failed(&mut self, error: String)
        requires
            old(self).inv(),
        ensures
            final(self).inv(),
            *final(self) == (WifiState {
                status: ConnectionStatus::Failed,
                ap_running: false,
                last_error: Some(error),
                ..*old(self)
            }),
    {
        self.status = ConnectionStatus::Failed;
        self.ap_running = false;
        self.last_error = Some(error);
    }

    /// A connect request for `ssid` was taken up.
    pub fn begin_connect(&mut self, ssid: &str)
        requires
            old(self).inv(),
        ensures
            final(self).inv(),
            final(self).status == ConnectionStatus::Connecting,
            final(self).connecting_to matches Some(s) && s@ == ssid@,
            final(self).last_error is None,
            final(self).ap_running == old(self).ap_running,
            final(self).available_networks == old(self).available_networks,
            final(self).connected_ssid == old(self).connected_ssid,
            final(self).ap_ssid == old(self).ap_ssid,
            final(self).portal_url == old(self).portal_url,
            final(self).last_scan == old(self).last_scan,
            final(self).wifi_backend == old(self).wifi_backend,
    {
        self.status = ConnectionStatus::Connecting;
        self.connecting_to = Some(ssid.to_owned());
        self.last_error = None;
    }

    /// The device joined `ssid`; the access point is down.
    pub fn connect_succeeded(&mut self, ssid: &str)
        requires
            old(self).inv(),
        ensures
            final(self).inv(),
            final(self).status == ConnectionStatus::Connected,
            final(self).connected_ssid matches Some(s) && s@ == ssid@,
            final(self).connecting_to is None,
            !final(self).ap_running,
            final(self).available_networks == old(self).available_networks,
            final(self).ap_ssid == old(self).ap_ssid,
            final(self).portal_url == old(self).portal_url,
            final(self).last_error == old(self).last_error,
            final(self).last_scan == old(self).last_scan,
            final(self).wifi_backend == old(self).wifi_backend,
    {
        self.status = ConnectionStatus::Connected;
        self.connected_ssid = Some(ssid.to_owned());
        self.connecting_to = None;
        self.ap_running = false;
    }

    /// Joining failed with `error`; `ap_running` says whether the access
    /// point is back up.
    pub fn connect_failed(&mut self, error: String, ap_running: bool)
        requires
            old(self).inv(),
        ensures
            final(self).inv(),
            *final(self) == (WifiState {
                status: ConnectionStatus::Failed,
                connecting_to: None,
                last_error: Some(error),
                ap_running,
                ..*old(self)
            }),
    {
        self.status = ConnectionStatus::Failed;
        self.connecting_to = None;
        self.last_error = Some(error);
        self.ap_running = ap_running;
    }

    /// A backend switch is under way.
    pub fn begin_backend_switch(&mut self)
        requires
            old(self).inv(),
        ensures
            final(self).inv(),
            *final(self) == (WifiState { status: ConnectionStatus::SwitchingBackend, ..*old(self) }),
    {
        self.status = ConnectionStatus::SwitchingBackend;
    }

    /// The backend switch ended: on success the new backend is recorded and
    /// the portal waits for a choice again; on failure the error is kept.
    pub fn backend_switch_finished(&mut self, backend: WifiBackend, result: Result<(), String>)
        requires
            old(self).inv(),
        ensures
            final(self).inv(),
            match result {
                Ok(()) => *final(self) == (WifiState {
                    status: ConnectionStatus::AwaitingCredentials,
                    wifi_backend: Some(backend),
                    ..*old(self)
                }),
                Err(e) => *final(self) == (WifiState {
                    status: ConnectionStatus::Failed,
                    last_error: Some(e),
                    ..*old(self)
                }),
            },
    {
        match result {
            Ok(()) => {
                self.status = ConnectionStatus::AwaitingCredentials;
                self.wifi_backend = Some(backend);
            },
            Err(e) => {
                self.status = ConnectionStatus::Failed;
                self.last_error = Some(e);
            },
        }
    }
}

/// The state as handed out to the portal and the terminal client, with the
/// scan time given as seconds since the scan.
#[derive(Debug, Clone)]
pub struct WifiStateSnapshot {
    pub status: ConnectionStatus,
    pub available_networks: Vec<NetworkInfo>,
    pub connected_ssid: Option<String>,
    pub connecting_to: Option<String>,
    pub ap_running: bool,
    pub ap_ssid: Option<String>,
    pub portal_url: Option<String>,
    pub last_error: Option<String>,
    pub last_scan_secs_ago: Option<u64>,
    pub wifi_backend: Option<WifiBackend>,
}

impl WifiStateSnapshot {
    /// The snapshot of `state` at monotonic time `now` (seconds); a scan time
    /// after `now` counts as 0 seconds ago.
    pub fn from_state(state: &WifiState, now: u64) -> (r: WifiStateSnapshot)
        ensures
            r.status == state.status,
            r.available_networks@ == state.available_networks@,
            r.connected_ssid == state.connected_ssid,
            r.connecting_to == state.connecting_to,
            r.ap_running == state.ap_running,
            r.ap_ssid == state.ap_ssid,
            r.portal_url == state.portal_url,
            r.last_error == state.last_error,
            r.wifi_backend == state.wifi_backend,
            r.last_scan_secs_ago == match state.last_scan {
                Some(t) => Some(if now >= t { (now - t) as u64 } else { 0 }),
                None => None,
            },
    {
        WifiStateSnapshot {
            status: state.status,
            available_networks: duplicate_networks(&state.available_networks),
            connected_ssid: duplicate_text(&state.connected_ssid),
            connecting_to: duplicate_text(&state.connecting_to),
            ap_running: state.ap_running,
            ap_ssid: duplicate_text(&state.ap_ssid),
            portal_url: duplicate_text(&state.portal_url),
            last_error: duplicate_text(&state.last_error),
            last_scan_secs_ago: match state.last_scan {
                Some(t) => Some(if now >= t { now - t } else { 0 }),
                None => None,
            },
            wifi_backend: state.wifi_backend,
        }
    }
}

/// A request to the control loop.
#[derive(Debug, Clone)]
pub enum ControlCommand {
    Scan,
    Connect { ssid: String, password: String, save: bool },
    SwitchBackend { backend: WifiBackend },
    Shutdown,
}

/// The daemon's settings; `interface` and `ap_ip` may be "auto" before
/// resolution.
#[derive(Debug, Clone)]
pub struct DaemonConfig {
    pub interface: String,
    pub ssid: String,
    pub ap_ip: String,
    pub port: u16,
    pub grace_period: u64,
}

} // verus!
