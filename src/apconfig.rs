//! Text of the files and scripts the access point and the backend switch
//! need: the beacon daemon's and the DHCP/DNS daemon's configuration, and
//! the network manager's backend setting.

use vstd::prelude::*;
use crate::text::{decimal, append_decimal, trimmed, trim_text, has_prefix, starts_with_text};
use crate::subnet::{ipv4_text, parse_address, InvalidApIp};
use crate::state::WifiBackend;

verus! {

/// Directory of the helper configuration, lease and pid files.
pub const RUNTIME_DIR: &'static str = "/run/hyper-connect";
/// Beacon daemon configuration file.
pub const HOSTAPD_CONF_PATH: &'static str = "/run/hyper-connect/hyper-hostapd.conf";
/// DHCP/DNS daemon configuration file.
pub const DNSMASQ_CONF_PATH: &'static str = "/run/hyper-connect/hyper-dnsmasq.conf";

/// Beacon daemon configuration: nl80211, 2.4 GHz channel 6, open network.
pub open spec fn hostapd_config_text(interface: Seq<char>, ssid: Seq<char>) -> Seq<char> {
    "interface="@ + interface + "\ndriver=nl80211\nssid="@ + ssid
        + "\nhw_mode=g\nchannel=6\nwmm_enabled=0\nmacaddr_acl=0\nauth_algs=1\nignore_broadcast_ssid=0\nwpa=0\n"@
}

pub fn hostapd_config(interface: &str, ssid: &str) -> (r: String)
    ensures
        r@ == hostapd_config_text(interface@, ssid@),
{
    let mut r = String::from_str("interface=");
    r.append(interface);
    r.append("\ndriver=nl80211\nssid=");
    r.append(ssid);
    r.append("\nhw_mode=g\nchannel=6\nwmm_enabled=0\nmacaddr_acl=0\nauth_algs=1\nignore_broadcast_ssid=0\nwpa=0\n");
    r
}

/// "a.b.c." of an address.
pub open spec fn subnet_text(o: (u8, u8, u8, u8)) -> Seq<char> {
    decimal(o.0 as nat) + "."@ + decimal(o.1 as nat) + "."@ + decimal(o.2 as nat) + "."@
}

/// DHCP/DNS daemon configuration for the access point at `o` (written
/// `ap_ip`): leases .10 to .250 of its /24 for 12 h, the access point as
/// router and DNS server, every name resolving to it, lease and pid files in
/// `runtime_dir`.
pub open spec fn dnsmasq_config_text(interface: Seq<char>, ap_ip: Seq<char>, o: (u8, u8, u8, u8), runtime_dir: Seq<char>) -> Seq<char> {
    "interface="@ + interface + "\nbind-dynamic\ndhcp-leasefile="@ + runtime_dir + "/dnsmasq.leases\npid-file="@
        + runtime_dir + "/dnsmasq.pid\ndhcp-range="@ + subnet_text(o) + "10,"@ + subnet_text(o)
        + "250,255.255.255.0,12h\ndhcp-option=option:router,"@ + ap_ip + "\ndhcp-option=option:dns-server,"@
        + ap_ip + "\naddress=/#/"@ + ap_ip + "\n"@
}

fn append_subnet(s: &mut String, o: (u8, u8, u8, u8))
    ensures
        final(s)@ == old(s)@ + subnet_text(o),
{
    append_decimal(s, o.0 as u64);
    s.append(".");
    append_decimal(s, o.1 as u64);
    s.append(".");
    append_decimal(s, o.2 as u64);
    s.append(".");
    assert(final(s)@ =~= old(s)@ + subnet_text(o));
}

/// The DHCP/DNS configuration; an error when `ap_ip` is no IPv4 address.
pub fn dnsmasq_config(interface: &str, ap_ip: &str, runtime_dir: &str) -> (r: Result<String, InvalidApIp>)
    ensures
        r is Ok <==> exists|o: (u8, u8, u8, u8)| ap_ip@ == ipv4_text(o),
        r matches Ok(t) ==> exists|o: (u8, u8, u8, u8)| ap_ip@ == ipv4_text(o)
            && t@ == dnsmasq_config_text(interface@, ap_ip@, o, runtime_dir@),
        r matches Err(e) ==> e.configured@ == ap_ip@,
{
    let o = match parse_address(ap_ip) {
        Some(o) => o,
        None => {
            return Err(InvalidApIp { configured: ap_ip.to_owned() });
        },
    };
    let mut r = String::from_str("interface=");
    r.append(interface);
    r.append("\nbind-dynamic\ndhcp-leasefile=");
    r.append(runtime_dir);
    r.append("/dnsmasq.leases\npid-file=");
    r.append(runtime_dir);
    r.append("/dnsmasq.pid\ndhcp-range=");
    append_subnet(&mut r, o);
    r.append("10,");
    append_subnet(&mut r, o);
    r.append("250,255.255.255.0,12h\ndhcp-option=option:router,");
    r.append(ap_ip);
    r.append("\ndhcp-option=option:dns-server,");
    r.append(ap_ip);
    r.append("\naddress=/#/");
    r.append(ap_ip);
    r.append("\n");
    assert(r@ =~= dnsmasq_config_text(interface@, ap_ip@, o, runtime_dir@));
    Ok(r)
}

/// Address and prefix length to assign to the interface: "ip/24".
pub fn interface_address(ap_ip: &str) -> (r: String)
    ensures
        r@ == ap_ip@ + "/24"@,
{
    let mut r = String::from_str(ap_ip);
    r.append("/24");
    r
}

/// Why the backend could not be read from the manager's configuration.
#[derive(Debug, Clone)]
pub enum BackendError {
    /// `wifi.backend` has a value other than "iwd" and "wpa_supplicant".
    Unknown { value: String },
    /// No `wifi.backend` line.
    NotFound,
}

/// The backend named by a value of `wifi.backend`.
pub open spec fn backend_named(v: Seq<char>) -> Option<WifiBackend> {
    if v == "iwd"@ {
        Some(WifiBackend::Iwd)
    } else if v == "wpa_supplicant"@ {
        Some(WifiBackend::WpaSupplicant)
    } else {
        None
    }
}

/// The value after "wifi.backend=" on the first line (trimmed) that starts
/// with it, itself trimmed.
pub open spec fn backend_value(lines: Seq<Seq<char>>) -> Option<Seq<char>>
    decreases lines.len(),
{
    if lines.len() == 0 {
        None
    } else if has_prefix(trimmed(lines[0]), "wifi.backend="@) {
        Some(trimmed(trimmed(lines[0]).subrange(13, trimmed(lines[0]).len() as int)))
    } else {
        backend_value(lines.drop_first())
    }
}

/// Parses `value` as a backend name.
pub fn parse_backend(value: &str) -> (r: Option<WifiBackend>)
    ensures
        r == backend_named(value@),
{
    let iwd = "iwd";
    let wpa = "wpa_supplicant";
    if crate::scan::str_equal(value, iwd) {
        Some(WifiBackend::Iwd)
    } else if crate::scan::str_equal(value, wpa) {
        Some(WifiBackend::WpaSupplicant)
    } else {
        None
    }
}

/// The backend the manager is configured with, from the lines of its
/// printed configuration.
pub fn backend_from_config(lines: &Vec<String>) -> (r: Result<WifiBackend, BackendError>)
    ensures
        match backend_value(lines@.map_values(|l: String| l@)) {
            None => r matches Err(BackendError::NotFound),
            Some(v) => match backend_named(v) {
                Some(b) => r == Ok::<WifiBackend, BackendError>(b),
                None => r matches Err(BackendError::Unknown { value }) && value@ == v,
            },
        },
{
    let ghost ls = lines@.map_values(|l: String| l@);
    let mut i: usize = 0;
    assert(ls.subrange(0, ls.len() as int) =~= ls);
    while i < lines.len()
        invariant
            i <= lines@.len(),
            ls == lines@.map_values(|l: String| l@),
            backend_value(ls) == backend_value(ls.subrange(i as int, ls.len() as int)),
        decreases lines.len() - i,
    {
        let ghost rest = ls.subrange(i as int, ls.len() as int);
        assert(rest.drop_first() =~= ls.subrange(i + 1, ls.len() as int));
        assert(rest[0] == lines@[i as int]@);
        let line = trim_text(lines[i].as_str());
        let key = "wifi.backend=";
        proof {
            reveal_strlit("wifi.backend=");
        }
        if starts_with_text(line, key) {
            let value = trim_text(line.substring_char(13, line.unicode_len()));
            return match parse_backend(value) {
                Some(b) => Ok(b),
                None => Err(BackendError::Unknown { value: value.to_owned() }),
            };
        }
        i += 1;
    }
    Err(BackendError::NotFound)
}

/// The script that switches the manager to `backend`: writes the drop-in
/// setting, starts that backend's service and stops the other, then
/// restarts the manager.
pub open spec fn switch_script_text(v: Seq<char>) -> Seq<char> {
    "set -e\nexport PATH=/run/current-system/sw/bin:$PATH\nCONF_DIR=/etc/NetworkManager/conf.d\nCONF_FILE=$CONF_DIR/99-hyper-connect-backend.conf\n\nmkdir -p \"$CONF_DIR\"\ncat > \"$CONF_FILE\" <<'EOF'\n[device]\nwifi.backend="@
        + v + "\nEOF\n\nif [ \""@ + v
        + "\" = \"iwd\" ]; then\n  if ! systemctl cat iwd.service >/dev/null 2>&1; then\n    echo \"iwd.service is not available on this image\" >&2\n    exit 2\n  fi\n  systemctl stop wpa_supplicant.service || true\n  systemctl start iwd.service\nelse\n  if ! systemctl cat wpa_supplicant.service >/dev/null 2>&1; then\n    echo \"wpa_supplicant.service is not available on this image\" >&2\n    exit 2\n  fi\n  systemctl stop iwd.service || true\n  systemctl start wpa_supplicant.service\nfi\n\nsystemctl restart NetworkManager.service\n"@
}

pub fn backend_switch_script(backend: WifiBackend) -> (r: String)
    ensures
        r@ == switch_script_text(backend.nm_value_spec()),
{
    let v = backend.as_nm_value();
    let mut r = String::from_str("set -e\nexport PATH=/run/current-system/sw/bin:$PATH\nCONF_DIR=/etc/NetworkManager/conf.d\nCONF_FILE=$CONF_DIR/99-hyper-connect-backend.conf\n\nmkdir -p \"$CONF_DIR\"\ncat > \"$CONF_FILE\" <<'EOF'\n[device]\nwifi.backend=");
    r.append(v);
    r.append("\nEOF\n\nif [ \"");
    r.append(v);
    r.append("\" = \"iwd\" ]; then\n  if ! systemctl cat iwd.service >/dev/null 2>&1; then\n    echo \"iwd.service is not available on this image\" >&2\n    exit 2\n  fi\n  systemctl stop wpa_supplicant.service || true\n  systemctl start iwd.service\nelse\n  if ! systemctl cat wpa_supplicant.service >/dev/null 2>&1; then\n    echo \"wpa_supplicant.service is not available on this image\" >&2\n    exit 2\n  fi\n  systemctl stop iwd.service || true\n  systemctl start wpa_supplicant.service\nfi\n\nsystemctl restart NetworkManager.service\n");
    r
}

} // verus!
