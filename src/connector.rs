//! Joining a WiFi network as a client: the attempt loop's decisions.
//!
//! The caller performs each `ConnectAction` (a scan, a bus activation, a
//! device-state poll, a back-off sleep) and reports the outcome as a
//! `ConnectEvent`; `StationConnect::step` decides what comes next.

use vstd::prelude::*;
use crate::text::{decimal, append_decimal};
use vstd::utf8::encode_utf8;

verus! {

/// Device state of an activated connection.
pub const DEVICE_STATE_ACTIVATED: u32 = 100;
/// Device state of a failed activation.
pub const DEVICE_STATE_FAILED: u32 = 120;
/// Attempts before giving up.
pub const MAX_ATTEMPTS: u32 = 3;
/// Pause between attempts, in seconds.
pub const BACKOFF_SECS: u64 = 3;
/// How long one activation may take, in seconds.
pub const ACTIVATION_TIMEOUT_SECS: u64 = 35;

/// Which access point an activation asks for.
#[derive(Debug, Clone)]
pub enum ActivationTarget {
    /// The strongest access point seen for the SSID (its bus object path).
    SpecificAp(String),
    /// No access point was seen: let the manager probe for a hidden SSID.
    Any,
}

/// Relies on `uuid::Uuid::new_v4` and its `Display`: a random version-4
/// UUID in hyphenated form.
#[verifier::external_body]
fn new_connection_uuid() -> (r: String)
    ensures
        r@.len() == 36,
{
    uuid::Uuid::new_v4().to_string()
}

/// The variable part of a volatile station profile; `connection_profile`
/// gives the whole profile.
#[derive(Debug, Clone)]
pub struct ConnectionSettings {
    /// Profile name, equal to the SSID.
    pub id: String,
    pub uuid: String,
    pub ssid: String,
    pub hidden: bool,
    /// The pre-shared key; `None` for an open network.
    pub psk: Option<String>,
}

/// The profile for joining `ssid` with `password` (empty for an open network).
pub fn build_connection_settings(ssid: &str, password: &str, hidden: bool) -> (r: ConnectionSettings)
    ensures
        r.id@ == ssid@,
        r.ssid@ == ssid@,
        r.uuid@.len() == 36,
        r.hidden == hidden,
        password@.len() == 0 ==> r.psk is None,
        password@.len() > 0 ==> (r.psk matches Some(p) && p@ == password@),
{
    let psk = if password.unicode_len() == 0 {
        None
    } else {
        Some(password.to_owned())
    };
    ConnectionSettings {
        id: ssid.to_owned(),
        uuid: new_connection_uuid(),
        ssid: ssid.to_owned(),
        hidden,
        psk,
    }
}

/// What one device-state reading means while waiting for activation.
#[derive(Debug, Clone, Copy, PartialEq, Eq, Structural)]
pub enum ActivationStep {
    Activated,
    Failed,
    TimedOut,
    KeepWaiting,
}

/// Verdict on a device-state reading: activated at 100, failed at 120,
/// timed out once the deadline has passed, else keep polling.
pub open spec fn activation_step_spec(state: u32, past_deadline: bool) -> ActivationStep {
    if state == DEVICE_STATE_ACTIVATED {
        ActivationStep::Activated
    } else if state == DEVICE_STATE_FAILED {
        ActivationStep::Failed
    } else if past_deadline {
        ActivationStep::TimedOut
    } else {
        ActivationStep::KeepWaiting
    }
}

pub fn activation_step(state: u32, past_deadline: bool) -> (r: ActivationStep)
    ensures
        r == activation_step_spec(state, past_deadline),
        r == ActivationStep::Activated ==> state == DEVICE_STATE_ACTIVATED,
        r == ActivationStep::Failed ==> state == DEVICE_STATE_FAILED,
        r == ActivationStep::TimedOut ==> past_deadline,
{
    if state == DEVICE_STATE_ACTIVATED {
        ActivationStep::Activated
    } else if state == DEVICE_STATE_FAILED {
        ActivationStep::Failed
    } else if past_deadline {
        ActivationStep::TimedOut
    } else {
        ActivationStep::KeepWaiting
    }
}

/// "Device activation failed: state=S reason=R"
pub open spec fn activation_failed_text(state: u32, reason: u32) -> Seq<char> {
    "Device activation failed: state="@ + decimal(state as nat) + " reason="@ + decimal(reason as nat)
}

/// "Connection timed out waiting for device activation (state=S)"
pub open spec fn timed_out_text(state: u32) -> Seq<char> {
    "Connection timed out waiting for device activation (state="@ + decimal(state as nat) + ")"@
}

/// "SSID 'X' not found in current scan results"
pub open spec fn not_found_text(ssid: Seq<char>) -> Seq<char> {
    "SSID '"@ + ssid + "' not found in current scan results"@
}

/// "Connection failed after 3 attempts: E"
pub open spec fn gave_up_text(last_error: Seq<char>) -> Seq<char> {
    "Connection failed after "@ + decimal(MAX_ATTEMPTS as nat) + " attempts: "@ + last_error
}

/// Where an attempt stands.
#[derive(Debug, Clone, Copy, PartialEq, Eq, Structural)]
pub enum ConnectPhase {
    Scanning,
    Activating,
    Waiting,
    BackingOff,
    Finished,
}

/// What the caller reports back.
#[derive(Debug)]
pub enum ConnectEvent {
    /// The scan is done; the strongest access point of the SSID, if seen.
    ScanFinished { best_ap: Option<String> },
    /// The bus answered the activation request (its error text on failure).
    ActivationRequested { result: Result<(), String> },
    /// The device state was read; `reason_state` and `reason_code` are the
    /// state-reason pair read when the state is Failed; `past_deadline`
    /// whether the activation deadline has passed.
    DeviceState { state: u32, reason_state: u32, reason_code: u32, past_deadline: bool },
    /// The back-off pause is over.
    BackoffElapsed,
}

/// What the caller is to do next.
#[derive(Debug)]
pub enum ConnectAction {
    /// Request a scan on the device and wait for a new scan time stamp.
    RequestScan,
    /// Add and activate the profile on the device.
    Activate { target: ActivationTarget, settings: ConnectionSettings },
    /// Wait about a second, then read the device state.
    PollDeviceState,
    /// Sleep this many seconds.
    Backoff { secs: u64 },
    /// Stop: joined, or the consolidated error.
    Finish { result: Result<(), String> },
}

/// The attempt loop of one connect request.
#[derive(Debug, Clone)]
pub struct StationConnect {
    ssid: String,
    password: String,
    attempt: u32,
    last_error: String,
    phase: ConnectPhase,
}

impl StationConnect {
    pub closed spec fn ssid_spec(&self) -> Seq<char> {
        self.ssid@
    }

    pub closed spec fn password_spec(&self) -> Seq<char> {
        self.password@
    }

    /// The attempt under way, from 1.
    pub closed spec fn attempt_spec(&self) -> u32 {
        self.attempt
    }

    pub closed spec fn last_error_spec(&self) -> Seq<char> {
        self.last_error@
    }

    pub closed spec fn phase_spec(&self) -> ConnectPhase {
        self.phase
    }

    pub open spec fn wf(&self) -> bool {
        &&& 1 <= self.attempt_spec() <= MAX_ATTEMPTS
        &&& self.phase_spec() == ConnectPhase::BackingOff ==> self.attempt_spec() < MAX_ATTEMPTS
    }

    /// Whether `ev` answers the action this loop is waiting on.
    pub open spec fn accepts_spec(&self, ev: ConnectEvent) -> bool {
        match ev {
            ConnectEvent::ScanFinished { .. } => self.phase_spec() == ConnectPhase::Scanning,
            ConnectEvent::ActivationRequested { .. } => self.phase_spec() == ConnectPhase::Activating,
            ConnectEvent::DeviceState { .. } => self.phase_spec() == ConnectPhase::Waiting,
            ConnectEvent::BackoffElapsed => self.phase_spec() == ConnectPhase::BackingOff,
        }
    }

    pub fn accepts(&self, ev: &ConnectEvent) -> (r: bool)
        ensures
            r == self.accepts_spec(*ev),
    {
        match ev {
            ConnectEvent::ScanFinished { .. } => self.phase == ConnectPhase::Scanning,
            ConnectEvent::ActivationRequested { .. } => self.phase == ConnectPhase::Activating,
            ConnectEvent::DeviceState { .. } => self.phase == ConnectPhase::Waiting,
            ConnectEvent::BackoffElapsed => self.phase == ConnectPhase::BackingOff,
        }
    }

    /// Starts the first attempt, which begins with a scan.
    pub fn new(ssid: &str, password: &str) -> (r: (StationConnect, ConnectAction))
        ensures
            r.0.wf(),
            r.0.ssid_spec() == ssid@,
            r.0.password_spec() == password@,
            r.0.attempt_spec() == 1,
            r.0.last_error_spec().len() == 0,
            r.0.phase_spec() == ConnectPhase::Scanning,
            r.1 is RequestScan,
    {
        (StationConnect {
            ssid: ssid.to_owned(),
            password: password.to_owned(),
            attempt: 1,
            last_error: String::new(),
            phase: ConnectPhase::Scanning,
        }, ConnectAction::RequestScan)
    }

    /// Ends the current attempt with `error`: back off before the next one,
    /// or give up after the last.
    fn fail_attempt(&mut self, error: String) -> (a: ConnectAction)
        requires
            old(self).wf(),
        ensures
            final(self).wf(),
            final(self).ssid_spec() == old(self).ssid_spec(),
            final(self).password_spec() == old(self).password_spec(),
            final(self).attempt_spec() == old(self).attempt_spec(),
            final(self).last_error_spec() == error@,
            old(self).attempt_spec() < MAX_ATTEMPTS ==> final(self).phase_spec() == ConnectPhase::BackingOff
                && (a matches ConnectAction::Backoff { secs } && secs == BACKOFF_SECS),
            old(self).attempt_spec() >= MAX_ATTEMPTS ==> final(self).phase_spec() == ConnectPhase::Finished
                && (a matches ConnectAction::Finish { result: Err(e) } && e@ == gave_up_text(error@)),
    {
        self.last_error = error;
        if self.attempt < MAX_ATTEMPTS {
            self.phase = ConnectPhase::BackingOff;
            ConnectAction::Backoff { secs: BACKOFF_SECS }
        } else {
            self.phase = ConnectPhase::Finished;
            let mut msg = String::from_str("Connection failed after ");
            append_decimal(&mut msg, MAX_ATTEMPTS as u64);
            msg.append(" attempts: ");
            msg.append(self.last_error.as_str());
            ConnectAction::Finish { result: Err(msg) }
        }
    }

    /// Advances the loop on the caller's report.
    ///
    /// A scan leads to an activation of the strongest access point seen, or
    /// of a hidden profile when the SSID was not seen. A refused activation
    /// or a device state of Failed or past the deadline ends the attempt;
    /// attempts are spaced by a back-off and the last failure ends the loop
    /// with "Connection failed after 3 attempts: <last error>". The loop
    /// finishes with success only on a reading of state Activated.
    pub fn step(&mut self, ev: ConnectEvent) -> (a: ConnectAction)
        requires
            old(self).wf(),
            old(self).accepts_spec(ev),
        ensures
            final(self).wf(),
            final(self).ssid_spec() == old(self).ssid_spec(),
            final(self).password_spec() == old(self).password_spec(),
            match ev {
                ConnectEvent::ScanFinished { best_ap } => {
                    &&& final(self).phase_spec() == ConnectPhase::Activating
                    &&& final(self).attempt_spec() == old(self).attempt_spec()
                    &&& a matches ConnectAction::Activate { target, settings }
                    &&& settings.ssid@ == old(self).ssid_spec()
                    &&& settings.id@ == old(self).ssid_spec()
                    &&& (old(self).password_spec().len() == 0 ==> settings.psk is None)
                    &&& (old(self).password_spec().len() > 0 ==> (settings.psk matches Some(p) && p@ == old(self).password_spec()))
                    &&& match best_ap {
                        Some(path) => target matches ActivationTarget::SpecificAp(t) && t@ == path@ && !settings.hidden
                            && final(self).last_error_spec() == old(self).last_error_spec(),
                        None => target is Any && settings.hidden
                            && final(self).last_error_spec() == not_found_text(old(self).ssid_spec()),
                    }
                },
                ConnectEvent::ActivationRequested { result: Ok(()) } => {
                    &&& final(self).phase_spec() == ConnectPhase::Waiting
                    &&& final(self).attempt_spec() == old(self).attempt_spec()
                    &&& a is PollDeviceState
                },
                ConnectEvent::ActivationRequested { result: Err(e) } => {
                    &&& final(self).attempt_spec() == old(self).attempt_spec()
                    &&& final(self).last_error_spec() == e@
                    &&& old(self).attempt_spec() < MAX_ATTEMPTS ==> final(self).phase_spec() == ConnectPhase::BackingOff
                    &&& old(self).attempt_spec() >= MAX_ATTEMPTS ==> final(self).phase_spec() == ConnectPhase::Finished
                    &&& old(self).attempt_spec() < MAX_ATTEMPTS ==> (a matches ConnectAction::Backoff { secs } && secs == BACKOFF_SECS)
                    &&& old(self).attempt_spec() >= MAX_ATTEMPTS ==> (a matches ConnectAction::Finish { result: Err(m) }
                        && m@ == gave_up_text(e@))
                },
                ConnectEvent::DeviceState { state, reason_state, reason_code, past_deadline } => match activation_step_spec(state, past_deadline) {
                    ActivationStep::Activated => final(self).phase_spec() == ConnectPhase::Finished
                        && a matches ConnectAction::Finish { result: Ok(()) },
                    ActivationStep::KeepWaiting => final(self).phase_spec() == ConnectPhase::Waiting
                        && a is PollDeviceState && final(self).last_error_spec() == old(self).last_error_spec(),
                    step => {
                        let err = if step == ActivationStep::Failed {
                            activation_failed_text(reason_state, reason_code)
                        } else {
                            timed_out_text(state)
                        };
                        &&& final(self).attempt_spec() == old(self).attempt_spec()
                        &&& final(self).last_error_spec() == err
                        &&& old(self).attempt_spec() < MAX_ATTEMPTS ==> final(self).phase_spec() == ConnectPhase::BackingOff
                        &&& old(self).attempt_spec() >= MAX_ATTEMPTS ==> final(self).phase_spec() == ConnectPhase::Finished
                        &&& old(self).attempt_spec() < MAX_ATTEMPTS ==> (a matches ConnectAction::Backoff { secs } && secs == BACKOFF_SECS)
                        &&& old(self).attempt_spec() >= MAX_ATTEMPTS ==> (a matches ConnectAction::Finish { result: Err(m) }
                            && m@ == gave_up_text(err))
                    },
                },
                ConnectEvent::BackoffElapsed => {
                    &&& final(self).phase_spec() == ConnectPhase::Scanning
                    &&& final(self).attempt_spec() == old(self).attempt_spec() + 1
                    &&& final(self).last_error_spec() == old(self).last_error_spec()
                    &&& a is RequestScan
                },
            },
            a matches ConnectAction::Finish { result: Ok(()) } ==> ev matches ConnectEvent::DeviceState { state, .. }
                && state == DEVICE_STATE_ACTIVATED,
            a matches ConnectAction::Finish { result: Err(_) } ==> old(self).attempt_spec() == MAX_ATTEMPTS && (
                ev is ActivationRequested || (ev matches ConnectEvent::DeviceState { state, past_deadline, .. }
                    && (state == DEVICE_STATE_FAILED || past_deadline))),
    {
        match ev {
            ConnectEvent::ScanFinished { best_ap } => {
                let hidden = best_ap.is_none();
                let target = match best_ap {
                    Some(path) => ActivationTarget::SpecificAp(path),
                    None => {
                        let mut msg = String::from_str("SSID '");
                        msg.append(self.ssid.as_str());
                        msg.append("' not found in current scan results");
                        self.last_error = msg;
                        ActivationTarget::Any
                    },
                };
                let settings = build_connection_settings(self.ssid.as_str(), self.password.as_str(), hidden);
                self.phase = ConnectPhase::Activating;
                ConnectAction::Activate { target, settings }
            },
            ConnectEvent::ActivationRequested { result } => match result {
                Ok(()) => {
                    self.phase = ConnectPhase::Waiting;
                    ConnectAction::PollDeviceState
                },
                Err(e) => self.fail_attempt(e),
            },
            ConnectEvent::DeviceState { state, reason_state, reason_code, past_deadline } => match activation_step(state, past_deadline) {
                ActivationStep::Activated => {
                    self.phase = ConnectPhase::Finished;
                    ConnectAction::Finish { result: Ok(()) }
                },
                ActivationStep::KeepWaiting => ConnectAction::PollDeviceState,
                ActivationStep::Failed => {
                    let mut msg = String::from_str("Device activation failed: state=");
                    append_decimal(&mut msg, reason_state as u64);
                    msg.append(" reason=");
                    append_decimal(&mut msg, reason_code as u64);
                    self.fail_attempt(msg)
                },
                ActivationStep::TimedOut => {
                    let mut msg = String::from_str("Connection timed out waiting for device activation (state=");
                    append_decimal(&mut msg, state as u64);
                    msg.append(")");
                    self.fail_attempt(msg)
                },
            },
            ConnectEvent::BackoffElapsed => {
                self.attempt = self.attempt + 1;
                self.phase = ConnectPhase::Scanning;
                ConnectAction::RequestScan
            },
        }
    }
}

} // verus!

verus! {

/// Whether a refused `AddAndActivateConnection2` is to be retried with the
/// older `AddAndActivateConnection`: only when the bus says the method is unknown.
pub fn use_legacy_activation(error_name: &str) -> (r: bool)
    ensures
        r == (error_name@ == "org.freedesktop.DBus.Error.UnknownMethod"@),
{
    crate::scan::str_equal(error_name, "org.freedesktop.DBus.Error.UnknownMethod")
}

} // verus!

verus! {

/// A value of a connection-profile setting.
#[derive(Debug, Clone)]
pub enum SettingValue {
    Text(String),
    Bytes(Vec<u8>),
    Flag(bool),
}

/// What a setting value stands for.
pub enum SettingView {
    Text(Seq<char>),
    Bytes(Seq<u8>),
    Flag(bool),
}

impl SettingValue {
    pub open spec fn view(&self) -> SettingView {
        match self {
            SettingValue::Text(t) => SettingView::Text(t@),
            SettingValue::Bytes(b) => SettingView::Bytes(b@),
            SettingValue::Flag(f) => SettingView::Flag(*f),
        }
    }
}

/// One setting of a connection profile: its section, key and value.
#[derive(Debug, Clone)]
pub struct SettingEntry {
    pub section: String,
    pub key: String,
    pub value: SettingValue,
}

impl SettingEntry {
    pub open spec fn view(&self) -> (Seq<char>, Seq<char>, SettingView) {
        (self.section@, self.key@, self.value.view())
    }
}

pub open spec fn entry_views(v: Seq<SettingEntry>) -> Seq<(Seq<char>, Seq<char>, SettingView)> {
    v.map_values(|e: SettingEntry| e.view())
}

/// The full profile, in order: connection type 802-11-wireless, id, uuid and
/// autoconnect off; the SSID as UTF-8 bytes, infrastructure mode and the
/// hidden flag when set; IPv4 and IPv6 method auto; WPA-PSK key management
/// and the key when a password is given.
pub open spec fn profile_spec(s: ConnectionSettings) -> Seq<(Seq<char>, Seq<char>, SettingView)> {
    seq![
        ("connection"@, "type"@, SettingView::Text("802-11-wireless"@)),
        ("connection"@, "id"@, SettingView::Text(s.id@)),
        ("connection"@, "uuid"@, SettingView::Text(s.uuid@)),
        ("connection"@, "autoconnect"@, SettingView::Flag(false)),
        ("802-11-wireless"@, "ssid"@, SettingView::Bytes(encode_utf8(s.ssid@))),
        ("802-11-wireless"@, "mode"@, SettingView::Text("infrastructure"@)),
    ] + (if s.hidden {
        seq![("802-11-wireless"@, "hidden"@, SettingView::Flag(true))]
    } else {
        Seq::empty()
    }) + seq![
        ("ipv4"@, "method"@, SettingView::Text("auto"@)),
        ("ipv6"@, "method"@, SettingView::Text("auto"@)),
    ] + match s.psk {
        Some(p) => seq![
            ("802-11-wireless-security"@, "key-mgmt"@, SettingView::Text("wpa-psk"@)),
            ("802-11-wireless-security"@, "psk"@, SettingView::Text(p@)),
        ],
        None => Seq::empty(),
    }
}

fn push_entry(v: &mut Vec<SettingEntry>, section: &str, key: &str, value: SettingValue)
    ensures
        entry_views(final(v)@) == entry_views(old(v)@).push((section@, key@, value.view())),
{
    let e = SettingEntry { section: section.to_owned(), key: key.to_owned(), value };
    v.push(e);
    assert(entry_views(final(v)@) =~= entry_views(old(v)@).push((section@, key@, value.view())));
}

fn text(t: &str) -> (r: SettingValue)
    ensures
        r.view() == SettingView::Text(t@),
{
    SettingValue::Text(t.to_owned())
}

/// The sections, keys and values of the profile `s` stands for.
pub fn connection_profile(s: &ConnectionSettings) -> (r: Vec<SettingEntry>)
    ensures
        entry_views(r@) == profile_spec(*s),
{
    let mut r: Vec<SettingEntry> = Vec::new();
    push_entry(&mut r, "connection", "type", text("802-11-wireless"));
    push_entry(&mut r, "connection", "id", text(s.id.as_str()));
    push_entry(&mut r, "connection", "uuid", text(s.uuid.as_str()));
    push_entry(&mut r, "connection", "autoconnect", SettingValue::Flag(false));
    push_entry(&mut r, "802-11-wireless", "ssid", SettingValue::Bytes(s.ssid.as_str().as_bytes_vec()));
    push_entry(&mut r, "802-11-wireless", "mode", text("infrastructure"));
    if s.hidden {
        push_entry(&mut r, "802-11-wireless", "hidden", SettingValue::Flag(true));
    }
    push_entry(&mut r, "ipv4", "method", text("auto"));
    push_entry(&mut r, "ipv6", "method", text("auto"));
    match &s.psk {
        Some(p) => {
            push_entry(&mut r, "802-11-wireless-security", "key-mgmt", text("wpa-psk"));
            push_entry(&mut r, "802-11-wireless-security", "psk", text(p.as_str()));
        },
        None => {},
    }
    assert(entry_views(r@) =~= profile_spec(*s));
    r
}

} // verus!
