//! Access-point readings and the network list built from them.

use vstd::prelude::*;
use crate::state::{NetworkInfo, signal_sorted, ssids_unique};
use crate::text::push_char;

verus! {

/// Access-point flag bit that marks a network as using privacy (WEP or better).
pub const AP_FLAGS_PRIVACY: u32 = 1;

/// Channel number of a frequency in MHz: 2412..=2472 and 5000..=5900 map
/// linearly, 2484 is channel 14, anything else is 0.
pub open spec fn channel_of(freq: u32) -> u8 {
    if 2412 <= freq <= 2472 {
        ((freq - 2407) / 5) as u8
    } else if freq == 2484 {
        14
    } else if 5000 <= freq <= 5900 {
        ((freq - 5000) / 5) as u8
    } else {
        0
    }
}

pub fn frequency_to_channel(freq: u32) -> (r: u8)
    ensures
        r == channel_of(freq),
{
    if 2412 <= freq && freq <= 2472 {
        ((freq - 2407) / 5) as u8
    } else if freq == 2484 {
        14
    } else if 5000 <= freq && freq <= 5900 {
        ((freq - 5000) / 5) as u8
    } else {
        0
    }
}

/// The security classes a network can be shown with.
#[derive(Debug, Clone, Copy, PartialEq, Eq, Structural)]
pub enum SecurityClass {
    Open,
    WepProtected,
    Wpa,
    Wpa2Wpa3,
    WpaWpa2,
}

pub open spec fn security_of(flags: u32, wpa_flags: u32, rsn_flags: u32) -> SecurityClass {
    if rsn_flags != 0 && wpa_flags != 0 {
        SecurityClass::WpaWpa2
    } else if rsn_flags != 0 {
        SecurityClass::Wpa2Wpa3
    } else if wpa_flags != 0 {
        SecurityClass::Wpa
    } else if flags & AP_FLAGS_PRIVACY != 0 {
        SecurityClass::WepProtected
    } else {
        SecurityClass::Open
    }
}

pub open spec fn secured_spec(flags: u32, wpa_flags: u32, rsn_flags: u32) -> bool {
    flags & AP_FLAGS_PRIVACY != 0 || wpa_flags != 0 || rsn_flags != 0
}

impl SecurityClass {
    pub open spec fn label_spec(self) -> Seq<char> {
        match self {
            SecurityClass::Open => "Open"@,
            SecurityClass::WepProtected => "WEP/Protected"@,
            SecurityClass::Wpa => "WPA"@,
            SecurityClass::Wpa2Wpa3 => "WPA2/WPA3"@,
            SecurityClass::WpaWpa2 => "WPA/WPA2"@,
        }
    }

    /// The label shown for this class.
    pub fn label(self) -> (r: String)
        ensures
            r@ == self.label_spec(),
    {
        match self {
            SecurityClass::Open => String::from_str("Open"),
            SecurityClass::WepProtected => String::from_str("WEP/Protected"),
            SecurityClass::Wpa => String::from_str("WPA"),
            SecurityClass::Wpa2Wpa3 => String::from_str("WPA2/WPA3"),
            SecurityClass::WpaWpa2 => String::from_str("WPA/WPA2"),
        }
    }
}

/// Security label of an access point from its privacy, WPA and RSN flags.
pub fn classify_security(flags: u32, wpa_flags: u32, rsn_flags: u32) -> (r: String)
    ensures
        r@ == security_of(flags, wpa_flags, rsn_flags).label_spec(),
{
    let class = if rsn_flags != 0 && wpa_flags != 0 {
        SecurityClass::WpaWpa2
    } else if rsn_flags != 0 {
        SecurityClass::Wpa2Wpa3
    } else if wpa_flags != 0 {
        SecurityClass::Wpa
    } else if flags & AP_FLAGS_PRIVACY != 0 {
        SecurityClass::WepProtected
    } else {
        SecurityClass::Open
    };
    class.label()
}

/// Whether an access point with these flags needs credentials.
pub fn is_secured(flags: u32, wpa_flags: u32, rsn_flags: u32) -> (r: bool)
    ensures
        r == secured_spec(flags, wpa_flags, rsn_flags),
{
    flags & AP_FLAGS_PRIVACY != 0 || wpa_flags != 0 || rsn_flags != 0
}

} // verus!

verus! {

/// Some network in `s` has the SSID of `n` and at least its signal.
pub open spec fn covers(s: Seq<NetworkInfo>, n: NetworkInfo) -> bool {
    exists|j: int| 0 <= j < s.len() && #[trigger] s[j].ssid@ == n.ssid@ && s[j].signal_strength >= n.signal_strength
}

/// Every network of `s` is one of the readings.
pub open spec fn drawn_from(s: Seq<NetworkInfo>, readings: Seq<NetworkInfo>) -> bool {
    forall|j: int| 0 <= j < s.len() ==> exists|i: int| 0 <= i < readings.len() && #[trigger] readings[i] == #[trigger] s[j]
}

/// Index of the network named `ssid`, if any.
pub fn position_of_ssid(networks: &Vec<NetworkInfo>, ssid: &String) -> (r: Option<usize>)
    ensures
        match r {
            Some(k) => k < networks@.len() && networks@[k as int].ssid@ == ssid@,
            None => forall|j: int| 0 <= j < networks@.len() ==> #[trigger] networks@[j].ssid@ != ssid@,
        },
{
    let mut j: usize = 0;
    while j < networks.len()
        invariant
            j <= networks@.len(),
            forall|t: int| 0 <= t < j ==> #[trigger] networks@[t].ssid@ != ssid@,
        decreases networks.len() - j,
    {
        if networks[j].ssid == *ssid {
            return Some(j);
        }
        j += 1;
    }
    None
}

/// Inserts `n` after every network at least as strong, keeping the list sorted.
fn insert_by_signal(networks: &mut Vec<NetworkInfo>, n: NetworkInfo) -> (p: usize)
    requires
        signal_sorted(old(networks)@),
    ensures
        p <= old(networks)@.len(),
        final(networks)@ == old(networks)@.insert(p as int, n),
        signal_sorted(final(networks)@),
{
    let mut p: usize = 0;
    while p < networks.len() && networks[p].signal_strength >= n.signal_strength
        invariant
            p <= networks@.len(),
            forall|t: int| 0 <= t < p ==> #[trigger] networks@[t].signal_strength >= n.signal_strength,
        decreases networks.len() - p,
    {
        p += 1;
    }
    let ghost before = networks@;
    networks.insert(p, n);
    assert forall|i: int, j: int| 0 <= i < j < networks@.len() implies
        #[trigger] networks@[i].signal_strength >= #[trigger] networks@[j].signal_strength by {
        if i < p && j < p {
        } else if i < p && j == p {
        } else if i < p {
            assert(networks@[j] == before[j - 1]);
        } else if i == p {
            assert(networks@[j] == before[j - 1]);
            assert(before[p as int].signal_strength < n.signal_strength);
        } else {
            assert(networks@[j] == before[j - 1]);
            assert(networks@[i] == before[i - 1]);
        }
    }
    p
}

proof fn lemma_remove_keeps(s: Seq<NetworkInfo>, k: int)
    requires
        0 <= k < s.len(),
        signal_sorted(s),
        ssids_unique(s),
    ensures
        signal_sorted(s.remove(k)),
        ssids_unique(s.remove(k)),
        forall|j: int| 0 <= j < s.remove(k).len() ==> #[trigger] s.remove(k)[j].ssid@ != s[k].ssid@,
{
    let r = s.remove(k);
    assert forall|i: int, j: int| 0 <= i < j < r.len() implies
        #[trigger] r[i].signal_strength >= #[trigger] r[j].signal_strength by {
        let a = if i < k { i } else { i + 1 };
        let b = if j < k { j } else { j + 1 };
        assert(r[i] == s[a] && r[j] == s[b]);
    }
    assert forall|i: int, j: int| 0 <= i < j < r.len() implies #[trigger] r[i].ssid@ != #[trigger] r[j].ssid@ by {
        let a = if i < k { i } else { i + 1 };
        let b = if j < k { j } else { j + 1 };
        assert(r[i] == s[a] && r[j] == s[b]);
    }
    assert forall|j: int| 0 <= j < r.len() implies #[trigger] r[j].ssid@ != s[k].ssid@ by {
        let b = if j < k { j } else { j + 1 };
        assert(r[j] == s[b]);
    }
}

proof fn lemma_insert_unique(s: Seq<NetworkInfo>, p: int, n: NetworkInfo)
    requires
        0 <= p <= s.len(),
        ssids_unique(s),
        forall|j: int| 0 <= j < s.len() ==> #[trigger] s[j].ssid@ != n.ssid@,
    ensures
        ssids_unique(s.insert(p, n)),
{
    let r = s.insert(p, n);
    assert forall|i: int, j: int| 0 <= i < j < r.len() implies #[trigger] r[i].ssid@ != #[trigger] r[j].ssid@ by {
        if i < p && j < p {
        } else if i < p && j == p {
        } else if i < p {
            assert(r[j] == s[j - 1]);
        } else if i == p {
            assert(r[j] == s[j - 1]);
        } else {
            assert(r[j] == s[j - 1]);
            assert(r[i] == s[i - 1]);
        }
    }
}

/// The network list of one scan: one entry per SSID, holding a strongest
/// reading of that SSID, strongest first.
pub fn merge_scan_results(readings: &Vec<NetworkInfo>) -> (r: Vec<NetworkInfo>)
    ensures
        signal_sorted(r@),
        ssids_unique(r@),
        drawn_from(r@, readings@),
        forall|i: int| 0 <= i < readings@.len() ==> covers(r@, #[trigger] readings@[i]),
{
    let mut out: Vec<NetworkInfo> = Vec::new();
    let mut i: usize = 0;
    while i < readings.len()
        invariant
            i <= readings@.len(),
            signal_sorted(out@),
            ssids_unique(out@),
            drawn_from(out@, readings@),
            forall|t: int| 0 <= t < i ==> covers(out@, #[trigger] readings@[t]),
        decreases readings.len() - i,
    {
        let n = readings[i].duplicate();
        let ghost prev = out@;
        match position_of_ssid(&out, &n.ssid) {
            Some(k) => {
                if n.signal_strength > out[k].signal_strength {
                    proof {
                        lemma_remove_keeps(prev, k as int);
                    }
                    out.remove(k);
                    let ghost mid = out@;
                    let p = insert_by_signal(&mut out, n);
                    proof {
                        lemma_insert_unique(mid, p as int, readings@[i as int]);
                        assert forall|j: int| 0 <= j < out@.len() implies exists|t: int|
                            0 <= t < readings@.len() && #[trigger] readings@[t] == #[trigger] out@[j] by {
                            if j == p {
                                assert(readings@[i as int] == out@[j]);
                            } else {
                                let m = if j < p { j } else { j - 1 };
                                assert(out@[j] == mid[m]);
                                let q = if m < k { m } else { m + 1 };
                                assert(mid[m] == prev[q]);
                            }
                        }
                        assert forall|t: int| 0 <= t <= i implies covers(out@, #[trigger] readings@[t]) by {
                            if t == i {
                                assert(out@[p as int] == readings@[t]);
                            } else {
                                let j = choose|j: int|
                                    0 <= j < prev.len() && #[trigger] prev[j].ssid@ == readings@[t].ssid@
                                        && prev[j].signal_strength >= readings@[t].signal_strength;
                                if j == k {
                                    assert(out@[p as int] == readings@[i as int]);
                                } else {
                                    let m = if j < k { j } else { j - 1 };
                                    assert(mid[m] == prev[j]);
                                    let w = if m < p { m } else { m + 1 };
                                    assert(out@[w] == mid[m]);
                                }
                            }
                        }
                    }
                } else {
                    assert(covers(out@, readings@[i as int])) by {
                        assert(out@[k as int].ssid@ == readings@[i as int].ssid@);
                    }
                }
            },
            None => {
                let p = insert_by_signal(&mut out, n);
                proof {
                    lemma_insert_unique(prev, p as int, readings@[i as int]);
                    assert forall|j: int| 0 <= j < out@.len() implies exists|t: int|
                        0 <= t < readings@.len() && #[trigger] readings@[t] == #[trigger] out@[j] by {
                        if j == p {
                            assert(readings@[i as int] == out@[j]);
                        } else {
                            let m = if j < p { j } else { j - 1 };
                            assert(out@[j] == prev[m]);
                        }
                    }
                    assert forall|t: int| 0 <= t <= i implies covers(out@, #[trigger] readings@[t]) by {
                        if t == i {
                            assert(out@[p as int] == readings@[t]);
                            assert(out@[p as int].ssid@ == readings@[t].ssid@);
                        } else {
                            assert(covers(prev, readings@[t]));
                            let j = choose|j: int|
                                0 <= j < prev.len() && #[trigger] prev[j].ssid@ == readings@[t].ssid@
                                    && prev[j].signal_strength >= readings@[t].signal_strength;
                            let w = if j < p { j } else { j + 1 };
                            assert(out@[w] == prev[j]);
                            assert(out@[w].ssid@ == readings@[t].ssid@);
                        }
                    }
                }
            },
        }
        i += 1;
    }
    out
}

} // verus!

verus! {

/// What the network manager reports of one access point.
#[derive(Debug, Clone)]
pub struct AccessPointReading {
    /// The SSID bytes decoded as UTF-8 (invalid sequences replaced).
    pub ssid: String,
    pub bssid: String,
    pub strength: u8,
    pub frequency: u32,
    pub flags: u32,
    pub wpa_flags: u32,
    pub rsn_flags: u32,
}

/// The network an access point reading describes; `None` for a hidden
/// (empty) SSID.
pub fn network_from_reading(ap: &AccessPointReading) -> (r: Option<NetworkInfo>)
    ensures
        ap.ssid@.len() == 0 <==> r is None,
        r matches Some(n) ==> {
            &&& n.ssid@ == ap.ssid@
            &&& n.bssid@ == ap.bssid@
            &&& n.signal_strength == ap.strength
            &&& n.frequency == ap.frequency
            &&& n.channel == channel_of(ap.frequency)
            &&& n.is_secured == secured_spec(ap.flags, ap.wpa_flags, ap.rsn_flags)
            &&& n.security_type@ == security_of(ap.flags, ap.wpa_flags, ap.rsn_flags).label_spec()
        },
{
    if ap.ssid.as_str().unicode_len() == 0 {
        return None;
    }
    Some(NetworkInfo {
        ssid: ap.ssid.clone(),
        bssid: ap.bssid.clone(),
        signal_strength: ap.strength,
        frequency: ap.frequency,
        channel: frequency_to_channel(ap.frequency),
        is_secured: is_secured(ap.flags, ap.wpa_flags, ap.rsn_flags),
        security_type: classify_security(ap.flags, ap.wpa_flags, ap.rsn_flags),
    })
}

/// Some reading of `aps` describes `n`.
pub open spec fn described_by(aps: Seq<AccessPointReading>, n: NetworkInfo) -> bool {
    exists|i: int| 0 <= i < aps.len() && #[trigger] network_from_reading_spec(aps[i], n)
}

/// Some network of `s` is what `ap` describes.
pub open spec fn listed_in(s: Seq<NetworkInfo>, ap: AccessPointReading) -> bool {
    exists|j: int| 0 <= j < s.len() && #[trigger] network_from_reading_spec(ap, s[j])
}

/// The networks described by a set of readings, hidden SSIDs left out.
pub fn networks_from_readings(aps: &Vec<AccessPointReading>) -> (r: Vec<NetworkInfo>)
    ensures
        forall|j: int| 0 <= j < r@.len() ==> described_by(aps@, #[trigger] r@[j]),
        forall|i: int| 0 <= i < aps@.len() && #[trigger] aps@[i].ssid@.len() > 0 ==> listed_in(r@, aps@[i]),
{
    let mut r: Vec<NetworkInfo> = Vec::new();
    let mut i: usize = 0;
    while i < aps.len()
        invariant
            i <= aps@.len(),
            forall|j: int| 0 <= j < r@.len() ==> described_by(aps@, #[trigger] r@[j]),
            forall|t: int| 0 <= t < i && #[trigger] aps@[t].ssid@.len() > 0 ==> listed_in(r@, aps@[t]),
        decreases aps.len() - i,
    {
        let ghost prev = r@;
        if let Some(n) = network_from_reading(&aps[i]) {
            r.push(n);
            let ghost last = r@.len() - 1;
            assert(network_from_reading_spec(aps@[i as int], r@[last]));
            assert forall|j: int| 0 <= j < r@.len() implies described_by(aps@, #[trigger] r@[j]) by {
                if j < prev.len() {
                    assert(r@[j] == prev[j]);
                } else {
                    assert(network_from_reading_spec(aps@[i as int], r@[j]));
                }
            }
            assert forall|t: int| 0 <= t < i + 1 && #[trigger] aps@[t].ssid@.len() > 0
                implies listed_in(r@, aps@[t]) by {
                if t < i {
                    let j = choose|j: int| 0 <= j < prev.len() && #[trigger] network_from_reading_spec(aps@[t], prev[j]);
                    assert(r@[j] == prev[j]);
                    assert(network_from_reading_spec(aps@[t], r@[j]));
                } else {
                    assert(network_from_reading_spec(aps@[t], r@[last]));
                }
            }
        }
        i += 1;
    }
    r
}

/// `n` is what `ap` describes.
pub open spec fn network_from_reading_spec(ap: AccessPointReading, n: NetworkInfo) -> bool {
    &&& ap.ssid@.len() > 0
    &&& n.ssid@ == ap.ssid@
    &&& n.bssid@ == ap.bssid@
    &&& n.signal_strength == ap.strength
    &&& n.frequency == ap.frequency
    &&& n.channel == channel_of(ap.frequency)
    &&& n.is_secured == secured_spec(ap.flags, ap.wpa_flags, ap.rsn_flags)
    &&& n.security_type@ == security_of(ap.flags, ap.wpa_flags, ap.rsn_flags).label_spec()
}

/// Some network of `s` has the SSID of `ap` and at least its strength.
pub open spec fn strongest_listed(s: Seq<NetworkInfo>, ap: AccessPointReading) -> bool {
    exists|j: int| 0 <= j < s.len() && #[trigger] s[j].ssid@ == ap.ssid@ && s[j].signal_strength >= ap.strength
}

/// One scan's network list from the raw readings: hidden SSIDs dropped,
/// one strongest reading kept per SSID, strongest first.
pub fn scan_result_from_readings(aps: &Vec<AccessPointReading>) -> (r: Vec<NetworkInfo>)
    ensures
        signal_sorted(r@),
        ssids_unique(r@),
        forall|j: int| 0 <= j < r@.len() ==> described_by(aps@, #[trigger] r@[j]),
        forall|i: int| 0 <= i < aps@.len() && #[trigger] aps@[i].ssid@.len() > 0
            ==> strongest_listed(r@, aps@[i]),
{
    let all = networks_from_readings(aps);
    let r = merge_scan_results(&all);
    assert forall|j: int| 0 <= j < r@.len() implies described_by(aps@, #[trigger] r@[j]) by {
        let t = choose|t: int| 0 <= t < all@.len() && #[trigger] all@[t] == r@[j];
        assert(described_by(aps@, all@[t]));
    }
    assert forall|i: int| 0 <= i < aps@.len() && #[trigger] aps@[i].ssid@.len() > 0
        implies strongest_listed(r@, aps@[i]) by {
        assert(listed_in(all@, aps@[i]));
        let t = choose|t: int| 0 <= t < all@.len() && #[trigger] network_from_reading_spec(aps@[i], all@[t]);
        assert(covers(r@, all@[t]));
        let j = choose|j: int| 0 <= j < r@.len() && #[trigger] r@[j].ssid@ == all@[t].ssid@
            && r@[j].signal_strength >= all@[t].signal_strength;
        assert(r@[j].ssid@ == aps@[i].ssid@);
    }
    r
}

/// A reading that can be joined for `ssid`: same, non-empty SSID.
pub open spec fn reading_matches(ap: AccessPointReading, ssid: Seq<char>) -> bool {
    ap.ssid@.len() > 0 && ap.ssid@ == ssid
}

/// Index of the strongest reading of `ssid` (the first of equally strong
/// ones), or `None` when no reading has that SSID.
pub fn find_best_ap_for_ssid(aps: &Vec<AccessPointReading>, ssid: &str) -> (r: Option<usize>)
    ensures
        r is None <==> forall|i: int| 0 <= i < aps@.len() ==> !reading_matches(#[trigger] aps@[i], ssid@),
        r matches Some(k) ==> {
            &&& k < aps@.len()
            &&& reading_matches(aps@[k as int], ssid@)
            &&& forall|i: int| 0 <= i < aps@.len() && reading_matches(#[trigger] aps@[i], ssid@)
                ==> aps@[i].strength <= aps@[k as int].strength
            &&& forall|i: int| 0 <= i < k && reading_matches(#[trigger] aps@[i], ssid@)
                ==> aps@[i].strength < aps@[k as int].strength
        },
{
    let mut best: Option<usize> = None;
    let mut i: usize = 0;
    while i < aps.len()
        invariant
            i <= aps@.len(),
            best is None <==> forall|t: int| 0 <= t < i ==> !reading_matches(#[trigger] aps@[t], ssid@),
            best matches Some(k) ==> {
                &&& k < i
                &&& reading_matches(aps@[k as int], ssid@)
                &&& forall|t: int| 0 <= t < i && reading_matches(#[trigger] aps@[t], ssid@)
                    ==> aps@[t].strength <= aps@[k as int].strength
                &&& forall|t: int| 0 <= t < k && reading_matches(#[trigger] aps@[t], ssid@)
                    ==> aps@[t].strength < aps@[k as int].strength
            },
        decreases aps.len() - i,
    {
        let ap = &aps[i];
        let len = ap.ssid.as_str().unicode_len();
        let same = len > 0 && str_equal(ap.ssid.as_str(), ssid);
        if same {
            match best {
                Some(k) => {
                    if aps[k].strength < ap.strength {
                        best = Some(i);
                    }
                },
                None => {
                    best = Some(i);
                },
            }
        }
        i += 1;
    }
    best
}

/// Character-wise equality of two strings.
pub fn str_equal(a: &str, b: &str) -> (r: bool)
    ensures
        r == (a@ == b@),
{
    let n = a.unicode_len();
    if n != b.unicode_len() {
        return false;
    }
    let mut i: usize = 0;
    while i < n
        invariant
            n == a@.len() == b@.len(),
            i <= n,
            forall|t: int| 0 <= t < i ==> a@[t] == b@[t],
        decreases n - i,
    {
        if a.get_char(i) != b.get_char(i) {
            return false;
        }
        i += 1;
    }
    assert(a@ =~= b@);
    true
}

} // verus!

verus! {

/// Splitting state after a prefix of a line: finished fields, the field
/// being read, and whether the previous character was an unused backslash.
pub struct SplitState {
    pub fields: Seq<Seq<char>>,
    pub current: Seq<char>,
    pub escaped: bool,
}

pub open spec fn split_step(st: SplitState, c: char, sep: char) -> SplitState {
    if st.escaped {
        SplitState { fields: st.fields, current: st.current.push(c), escaped: false }
    } else if c == '\\' {
        SplitState { fields: st.fields, current: st.current, escaped: true }
    } else if c == sep {
        SplitState { fields: st.fields.push(st.current), current: Seq::empty(), escaped: false }
    } else {
        SplitState { fields: st.fields, current: st.current.push(c), escaped: false }
    }
}

pub open spec fn split_prefix(line: Seq<char>, sep: char, n: nat) -> SplitState
    decreases n,
{
    if n == 0 || n > line.len() {
        SplitState { fields: Seq::empty(), current: Seq::empty(), escaped: false }
    } else {
        split_step(split_prefix(line, sep, (n - 1) as nat), line[n - 1], sep)
    }
}

/// The fields of `line` separated by `sep`, where a backslash makes the next
/// character literal and a trailing lone backslash is kept.
pub open spec fn split_fields(line: Seq<char>, sep: char) -> Seq<Seq<char>> {
    let st = split_prefix(line, sep, line.len());
    st.fields.push(if st.escaped { st.current.push('\\') } else { st.current })
}

pub fn split_escaped_fields(line: &str, separator: char) -> (r: Vec<String>)
    ensures
        r@.len() == split_fields(line@, separator).len(),
        forall|i: int| 0 <= i < r@.len() ==> #[trigger] r@[i]@ == split_fields(line@, separator)[i],
{
    let n = line.unicode_len();
    let mut fields: Vec<String> = Vec::new();
    let mut current = String::new();
    let mut escaped = false;
    let mut i: usize = 0;
    while i < n
        invariant
            n == line@.len(),
            i <= n,
            fields@.len() == split_prefix(line@, separator, i as nat).fields.len(),
            forall|t: int| 0 <= t < fields@.len() ==> #[trigger] fields@[t]@ == split_prefix(line@, separator, i as nat).fields[t],
            current@ == split_prefix(line@, separator, i as nat).current,
            escaped == split_prefix(line@, separator, i as nat).escaped,
        decreases n - i,
    {
        let ch = line.get_char(i);
        let ghost st = split_prefix(line@, separator, i as nat);
        assert(split_prefix(line@, separator, (i + 1) as nat) == split_step(st, ch, separator));
        if escaped {
            push_char(&mut current, ch);
            escaped = false;
        } else if ch == '\\' {
            escaped = true;
        } else if ch == separator {
            let done = current;
            fields.push(done);
            current = String::new();
        } else {
            push_char(&mut current, ch);
        }
        i += 1;
    }
    if escaped {
        push_char(&mut current, '\\');
    }
    fields.push(current);
    fields
}

} // verus!
