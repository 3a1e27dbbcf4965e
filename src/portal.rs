//! What the captive portal and its API answer, apart from the HTTP plumbing.

use vstd::prelude::*;
use crate::state::{ConnectionStatus, WifiBackend, WifiStateSnapshot};
use crate::text::{push_char, decimal, append_decimal};

verus! {

/// HTML text for one character: the five markup characters become entities.
pub open spec fn escape_char(c: char) -> Seq<char> {
    if c == '&' {
        "&amp;"@
    } else if c == '<' {
        "&lt;"@
    } else if c == '>' {
        "&gt;"@
    } else if c == '"' {
        "&quot;"@
    } else if c == '\'' {
        "&#39;"@
    } else {
        seq![c]
    }
}

pub open spec fn escaped(s: Seq<char>) -> Seq<char>
    decreases s.len(),
{
    if s.len() == 0 {
        Seq::empty()
    } else {
        escaped(s.drop_last()) + escape_char(s.last())
    }
}

/// `s` with `&`, `<`, `>`, `"` and `'` written as HTML entities.
pub fn html_escape(s: &str) -> (r: String)
    ensures
        r@ == escaped(s@),
{
    let n = s.unicode_len();
    let mut r = String::new();
    let mut i: usize = 0;
    while i < n
        invariant
            n == s@.len(),
            i <= n,
            r@ == escaped(s@.subrange(0, i as int)),
        decreases n - i,
    {
        let c = s.get_char(i);
        assert(s@.subrange(0, i + 1).drop_last() =~= s@.subrange(0, i as int));
        if c == '&' {
            r.append("&amp;");
        } else if c == '<' {
            r.append("&lt;");
        } else if c == '>' {
            r.append("&gt;");
        } else if c == '"' {
            r.append("&quot;");
        } else if c == '\'' {
            r.append("&#39;");
        } else {
            push_char(&mut r, c);
            assert(r@ =~= escaped(s@.subrange(0, i as int)) + seq![c]);
        }
        i += 1;
    }
    assert(s@.subrange(0, n as int) =~= s@);
    r
}

/// Bars lit for a signal strength: one per started quarter.
pub open spec fn bars_lit(signal: u8) -> nat {
    ((signal as nat + 24) / 25) as nat
}

pub open spec fn bar_html(i: nat, filled: bool) -> Seq<char> {
    "<div class=\"bar"@ + (if filled { " filled"@ } else { ""@ }) + "\" style=\"height: "@ + decimal((i + 1) * 25)
        + "%\"></div>"@
}

/// The four bars of a signal meter, lowest first.
pub open spec fn bars_html(signal: u8, k: nat) -> Seq<char>
    decreases k,
{
    if k == 0 {
        Seq::empty()
    } else {
        bars_html(signal, (k - 1) as nat) + bar_html((k - 1) as nat, ((k - 1) as nat) < bars_lit(signal))
    }
}

/// HTML of the four-bar signal meter.
pub fn signal_to_bars(signal: u8) -> (r: String)
    ensures
        r@ == bars_html(signal, 4),
{
    let bars: u64 = (signal as u64 + 24) / 25;
    let mut r = String::new();
    let mut i: u64 = 0;
    while i < 4
        invariant
            i <= 4,
            bars == bars_lit(signal),
            r@ == bars_html(signal, i as nat),
        decreases 4 - i,
    {
        r.append("<div class=\"bar");
        if i < bars {
            r.append(" filled");
        } else {
            r.append("");
        }
        r.append("\" style=\"height: ");
        append_decimal(&mut r, (i + 1) * 25);
        r.append("%\"></div>");
        assert(r@ =~= bars_html(signal, (i + 1) as nat));
        i += 1;
    }
    r
}

pub open spec fn repeat(c: char, k: nat) -> Seq<char>
    decreases k,
{
    if k == 0 { Seq::empty() } else { repeat(c, (k - 1) as nat).push(c) }
}

/// Text meter of four cells, one full block per started quarter of signal.
pub fn signal_to_bar(signal: u8) -> (r: String)
    ensures
        ({
            let b = if bars_lit(signal) > 4 { 4 } else { bars_lit(signal) };
            r@ == repeat('\u{2588}', b) + repeat('\u{2591}', (4 - b) as nat)
        }),
{
    let lit: u64 = (signal as u64 + 24) / 25;
    let b: u64 = if lit > 4 { 4 } else { lit };
    let mut r = String::new();
    let mut i: u64 = 0;
    while i < b
        invariant
            i <= b <= 4,
            r@ == repeat('\u{2588}', i as nat),
        decreases b - i,
    {
        push_char(&mut r, '\u{2588}');
        i += 1;
    }
    let mut j: u64 = 0;
    while j < 4 - b
        invariant
            b <= 4,
            j <= 4 - b,
            r@ == repeat('\u{2588}', b as nat) + repeat('\u{2591}', j as nat),
        decreases 4 - b - j,
    {
        push_char(&mut r, '\u{2591}');
        assert(r@ =~= repeat('\u{2588}', b as nat) + repeat('\u{2591}', (j + 1) as nat));
        j += 1;
    }
    r
}

/// CSS tone of a status.
pub open spec fn status_tone_spec(s: ConnectionStatus) -> Seq<char> {
    match s {
        ConnectionStatus::Connected => "connected"@,
        ConnectionStatus::Connecting | ConnectionStatus::SwitchingBackend => "connecting"@,
        ConnectionStatus::Failed => "failed"@,
        _ => "waiting"@,
    }
}

pub fn status_tone(status: ConnectionStatus) -> (r: &'static str)
    ensures
        r@ == status_tone_spec(status),
{
    match status {
        ConnectionStatus::Connected => "connected",
        ConnectionStatus::Connecting => "connecting",
        ConnectionStatus::SwitchingBackend => "connecting",
        ConnectionStatus::Failed => "failed",
        _ => "waiting",
    }
}

pub open spec fn or_network(o: Option<String>) -> Seq<char> {
    match o {
        Some(s) => s@,
        None => "network"@,
    }
}

/// Headline of the portal's status panel.
pub open spec fn status_text_spec(st: WifiStateSnapshot) -> Seq<char> {
    match st.status {
        ConnectionStatus::Connected => "Connected to "@ + or_network(st.connected_ssid),
        ConnectionStatus::Connecting => "Connecting to "@ + or_network(st.connecting_to) + "..."@,
        ConnectionStatus::SwitchingBackend => "Switching WiFi backend..."@,
        ConnectionStatus::Failed => "Connection failed"@,
        ConnectionStatus::Scanning => "Scanning for nearby networks"@,
        ConnectionStatus::AwaitingCredentials => "Select a network to connect"@,
        ConnectionStatus::Initializing => "Preparing WiFi setup"@,
        ConnectionStatus::Disconnected => "Disconnected from WiFi"@,
    }
}

fn append_or_network(r: &mut String, o: &Option<String>)
    ensures
        final(r)@ == old(r)@ + or_network(*o),
{
    match o {
        Some(s) => r.append(s.as_str()),
        None => r.append("network"),
    }
}

pub fn status_text(state: &WifiStateSnapshot) -> (r: String)
    ensures
        r@ == status_text_spec(*state),
{
    match state.status {
        ConnectionStatus::Connected => {
            let mut r = String::from_str("Connected to ");
            append_or_network(&mut r, &state.connected_ssid);
            r
        },
        ConnectionStatus::Connecting => {
            let mut r = String::from_str("Connecting to ");
            append_or_network(&mut r, &state.connecting_to);
            r.append("...");
            r
        },
        ConnectionStatus::SwitchingBackend => String::from_str("Switching WiFi backend..."),
        ConnectionStatus::Failed => String::from_str("Connection failed"),
        ConnectionStatus::Scanning => String::from_str("Scanning for nearby networks"),
        ConnectionStatus::AwaitingCredentials => String::from_str("Select a network to connect"),
        ConnectionStatus::Initializing => String::from_str("Preparing WiFi setup"),
        ConnectionStatus::Disconnected => String::from_str("Disconnected from WiFi"),
    }
}

/// Detail line of the portal's status panel.
pub open spec fn status_detail_spec(st: WifiStateSnapshot) -> Seq<char> {
    match st.status {
        ConnectionStatus::Connected => "Connection is active. You can continue setup."@,
        ConnectionStatus::Connecting => "Attempting authentication and DHCP handshake."@,
        ConnectionStatus::SwitchingBackend => "Restarting WiFi services. The setup AP may restart; reconnect if needed."@,
        ConnectionStatus::Failed => match st.last_error {
            Some(e) => e@,
            None => "An unknown error occurred while connecting."@,
        },
        ConnectionStatus::Scanning => "Searching for available access points..."@,
        ConnectionStatus::AwaitingCredentials => "Choose a network or enter credentials manually."@,
        ConnectionStatus::Initializing => "Waiting for wireless interfaces to become ready."@,
        ConnectionStatus::Disconnected => "No active WiFi connection was detected."@,
    }
}

pub fn status_detail(state: &WifiStateSnapshot) -> (r: String)
    ensures
        r@ == status_detail_spec(*state),
{
    match state.status {
        ConnectionStatus::Connected => String::from_str("Connection is active. You can continue setup."),
        ConnectionStatus::Connecting => String::from_str("Attempting authentication and DHCP handshake."),
        ConnectionStatus::SwitchingBackend => String::from_str(
            "Restarting WiFi services. The setup AP may restart; reconnect if needed.",
        ),
        ConnectionStatus::Failed => match &state.last_error {
            Some(e) => e.clone(),
            None => String::from_str("An unknown error occurred while connecting."),
        },
        ConnectionStatus::Scanning => String::from_str("Searching for available access points..."),
        ConnectionStatus::AwaitingCredentials => String::from_str("Choose a network or enter credentials manually."),
        ConnectionStatus::Initializing => String::from_str("Waiting for wireless interfaces to become ready."),
        ConnectionStatus::Disconnected => String::from_str("No active WiFi connection was detected."),
    }
}

/// Answer to a captive-portal probe.
#[derive(Debug, Clone)]
pub enum CaptiveReply {
    /// 204: the device is online.
    NoContent,
    /// 302 to `location`.
    Redirect { location: String },
}

/// "http://<ap_ip>/"
pub open spec fn portal_location(ap_ip: Seq<char>) -> Seq<char> {
    "http://"@ + ap_ip + "/"@
}

/// Redirect to the portal.
pub fn captive_redirect(ap_ip: &str) -> (r: CaptiveReply)
    ensures
        r matches CaptiveReply::Redirect { location } && location@ == portal_location(ap_ip@),
{
    let mut location = String::from_str("http://");
    location.append(ap_ip);
    location.append("/");
    CaptiveReply::Redirect { location }
}

/// Connectivity probe: 204 once connected, else a redirect to the portal.
pub fn captive_check(status: ConnectionStatus, ap_ip: &str) -> (r: CaptiveReply)
    ensures
        status == ConnectionStatus::Connected ==> r is NoContent,
        status != ConnectionStatus::Connected ==> (r matches CaptiveReply::Redirect { location }
            && location@ == portal_location(ap_ip@)),
{
    if status == ConnectionStatus::Connected {
        CaptiveReply::NoContent
    } else {
        captive_redirect(ap_ip)
    }
}

/// Body of a connect request to the portal API.
#[derive(Debug, Clone)]
pub struct ConnectRequest {
    pub ssid: String,
    pub password: String,
    pub save: bool,
}

/// Body of a backend request to the portal API.
#[derive(Debug, Clone, Copy)]
pub struct BackendRequest {
    pub backend: WifiBackend,
}

/// Answer of the portal API.
#[derive(Debug, Clone)]
pub struct ApiResponse {
    pub success: bool,
    pub message: String,
}

/// Whether a request saves the credentials when it says nothing.
pub fn default_save() -> (r: bool)
    ensures
        r,
{
    true
}

fn failure(prefix: &str, error: &str) -> (r: ApiResponse)
    ensures
        !r.success,
        r.message@ == prefix@ + error@,
{
    let mut message = String::from_str(prefix);
    message.append(error);
    ApiResponse { success: false, message }
}

/// Answer to a connect request, given whether the command was queued.
pub fn connect_response(ssid: &str, queued: Result<(), String>) -> (r: ApiResponse)
    ensures
        queued is Ok ==> r.success && r.message@ == "Connecting to "@ + ssid@ + "..."@,
        queued matches Err(e) ==> !r.success && r.message@ == "Failed to send command: "@ + e@,
{
    match queued {
        Ok(()) => {
            let mut message = String::from_str("Connecting to ");
            message.append(ssid);
            message.append("...");
            ApiResponse { success: true, message }
        },
        Err(e) => failure("Failed to send command: ", e.as_str()),
    }
}

/// Answer to a scan request, given whether the command was queued.
pub fn scan_response(queued: Result<(), String>) -> (r: ApiResponse)
    ensures
        queued is Ok ==> r.success && r.message@ == "Scan initiated"@,
        queued matches Err(e) ==> !r.success && r.message@ == "Failed to send command: "@ + e@,
{
    match queued {
        Ok(()) => ApiResponse { success: true, message: String::from_str("Scan initiated") },
        Err(e) => failure("Failed to send command: ", e.as_str()),
    }
}

/// Answer to a backend request, given whether the command was queued.
pub fn backend_response(backend: WifiBackend, queued: Result<(), String>) -> (r: ApiResponse)
    ensures
        queued is Ok ==> r.success && r.message@ == "Switching WiFi backend to "@ + backend.nm_value_spec()
            + ". The setup AP may restart; reconnect if needed."@,
        queued matches Err(e) ==> !r.success && r.message@ == "Failed to send backend switch command: "@ + e@,
{
    match queued {
        Ok(()) => {
            let mut message = String::from_str("Switching WiFi backend to ");
            message.append(backend.as_nm_value());
            message.append(". The setup AP may restart; reconnect if needed.");
            ApiResponse { success: true, message }
        },
        Err(e) => failure("Failed to send backend switch command: ", e.as_str()),
    }
}

} // verus!
