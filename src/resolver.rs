//! Choosing the wireless interface the daemon works on.
//!
//! The caller lists the kernel's wireless interfaces (name, whether a driver
//! is bound, a device hint) and the PCI network devices without a driver;
//! the rules of the choice live here.

use vstd::prelude::*;
use crate::text::{trimmed, trim_text, text_less, less_text, joined, join_texts};
use crate::scan::str_equal;

verus! {

/// One interface of the kernel's network class that has a wireless attribute.
#[derive(Debug, Clone)]
pub struct WirelessInterface {
    pub name: String,
    pub driver_bound: bool,
    /// Leaf of the device node's link target, or "unknown-device".
    pub device_hint: String,
}

/// Why no interface could be chosen.
#[derive(Debug, Clone)]
pub enum InterfaceError {
    /// The configured interface exists but has no kernel driver bound.
    DriverNotBound { name: String, device_hint: String },
    /// The configured interface is missing and several usable ones exist.
    NotFound { configured: String, detected: Vec<String> },
    /// Wireless interfaces exist but none has a driver; each entry is
    /// "name (device hint)". `configured` is `None` for automatic selection.
    NoDriverBound { configured: Option<String>, adapters: Vec<String> },
    /// No wireless interface, but wireless PCI devices without a driver.
    MissingFirmware { configured: Option<String>, devices: Vec<String> },
    /// Nothing wireless was detected at all.
    NoneDetected { configured: Option<String> },
}

pub open spec fn texts(v: Seq<String>) -> Seq<Seq<char>> {
    v.map_values(|x: String| x@)
}

/// Names beginning with "p2p-" are WiFi-Direct devices, never chosen.
pub open spec fn is_p2p(n: Seq<char>) -> bool {
    n.len() >= 4 && n[0] == 'p' && n[1] == '2' && n[2] == 'p' && n[3] == '-'
}

/// "auto" in any ASCII case.
pub open spec fn is_auto(s: Seq<char>) -> bool {
    &&& s.len() == 4
    &&& (s[0] == 'a' || s[0] == 'A')
    &&& (s[1] == 'u' || s[1] == 'U')
    &&& (s[2] == 't' || s[2] == 'T')
    &&& (s[3] == 'o' || s[3] == 'O')
}

pub open spec fn usable(i: WirelessInterface) -> bool {
    i.driver_bound && !is_p2p(i.name@)
}

pub open spec fn driverless(i: WirelessInterface) -> bool {
    !i.driver_bound && !is_p2p(i.name@)
}

/// Names of the usable interfaces, in order.
pub open spec fn usable_names(s: Seq<WirelessInterface>) -> Seq<Seq<char>>
    decreases s.len(),
{
    if s.len() == 0 {
        Seq::empty()
    } else if usable(s.last()) {
        usable_names(s.drop_last()).push(s.last().name@)
    } else {
        usable_names(s.drop_last())
    }
}

pub open spec fn adapter_label(i: WirelessInterface) -> Seq<char> {
    i.name@ + " ("@ + i.device_hint@ + ")"@
}

/// "name (hint)" of each interface without a driver, in order.
pub open spec fn driverless_labels(s: Seq<WirelessInterface>) -> Seq<Seq<char>>
    decreases s.len(),
{
    if s.len() == 0 {
        Seq::empty()
    } else if driverless(s.last()) {
        driverless_labels(s.drop_last()).push(adapter_label(s.last()))
    } else {
        driverless_labels(s.drop_last())
    }
}

/// The first interface named `c`.
pub open spec fn find_named(s: Seq<WirelessInterface>, c: Seq<char>) -> Option<WirelessInterface>
    decreases s.len(),
{
    if s.len() == 0 {
        None
    } else if s[0].name@ == c {
        Some(s[0])
    } else {
        find_named(s.drop_first(), c)
    }
}

/// What is owed when no usable interface is picked: the driverless adapters,
/// else the driverless PCI devices, else that nothing was found.
pub open spec fn fallback_error(
    c: Option<Seq<char>>,
    ifs: Seq<WirelessInterface>,
    pci: Seq<Seq<char>>,
    r: Result<String, InterfaceError>,
) -> bool {
    let cfg_ok = |o: Option<String>| match (o, c) {
        (Some(x), Some(y)) => x@ == y,
        (None, None) => true,
        _ => false,
    };
    if driverless_labels(ifs).len() > 0 {
        r matches Err(InterfaceError::NoDriverBound { configured, adapters })
            && cfg_ok(configured) && texts(adapters@) == driverless_labels(ifs)
    } else if pci.len() > 0 {
        r matches Err(InterfaceError::MissingFirmware { configured, devices })
            && cfg_ok(configured) && texts(devices@) == pci
    } else {
        r matches Err(InterfaceError::NoneDetected { configured }) && cfg_ok(configured)
    }
}

/// Automatic choice: the first usable interface in name order.
pub open spec fn auto_outcome(ifs: Seq<WirelessInterface>, pci: Seq<Seq<char>>, r: Result<String, InterfaceError>) -> bool {
    let names = usable_names(ifs);
    if names.len() > 0 {
        r matches Ok(n) && names.contains(n@) && forall|j: int| 0 <= j < names.len() ==> !text_less(#[trigger] names[j], n@)
    } else {
        fallback_error(None, ifs, pci, r)
    }
}

/// The outcome owed for an (already trimmed) configured name `c`.
pub open spec fn interface_outcome(
    c: Seq<char>,
    ifs: Seq<WirelessInterface>,
    pci: Seq<Seq<char>>,
    r: Result<String, InterfaceError>,
) -> bool {
    if is_auto(c) || c.len() == 0 {
        auto_outcome(ifs, pci, r)
    } else if let Some(i) = find_named(ifs, c) {
        if i.driver_bound {
            r matches Ok(n) && n@ == c
        } else {
            r matches Err(InterfaceError::DriverNotBound { name, device_hint })
                && name@ == c && device_hint@ == i.device_hint@
        }
    } else {
        let names = usable_names(ifs);
        if names.len() == 1 {
            r matches Ok(n) && n@ == names[0]
        } else if names.len() > 1 {
            r matches Err(InterfaceError::NotFound { configured, detected })
                && configured@ == c && texts(detected@) == names
        } else {
            fallback_error(Some(c), ifs, pci, r)
        }
    }
}

proof fn lemma_text_less_trans(a: Seq<char>, b: Seq<char>, c: Seq<char>)
    requires
        text_less(a, b),
        text_less(b, c),
    ensures
        text_less(a, c),
    decreases a.len(),
{
    if a.len() > 0 && b.len() > 0 && c.len() > 0 && a[0] == b[0] && b[0] == c[0] {
        lemma_text_less_trans(a.drop_first(), b.drop_first(), c.drop_first());
    }
}

proof fn lemma_usable_names_of_usable(s: Seq<WirelessInterface>, j: int)
    requires
        0 <= j < usable_names(s).len(),
    ensures
        exists|i: int| 0 <= i < s.len() && usable(#[trigger] s[i]) && s[i].name@ == usable_names(s)[j],
    decreases s.len(),
{
    if s.len() > 0 {
        let sub = usable_names(s.drop_last());
        if j < sub.len() {
            lemma_usable_names_of_usable(s.drop_last(), j);
            let i = choose|i: int| 0 <= i < s.drop_last().len() && usable(#[trigger] s.drop_last()[i])
                && s.drop_last()[i].name@ == sub[j];
            assert(s[i] == s.drop_last()[i]);
        } else {
            assert(usable(s[s.len() - 1]));
        }
    }
}

fn is_p2p_name(n: &str) -> (r: bool)
    ensures
        r == is_p2p(n@),
{
    n.unicode_len() >= 4 && n.get_char(0) == 'p' && n.get_char(1) == '2' && n.get_char(2) == 'p'
        && n.get_char(3) == '-'
}

/// Whether `s` is "auto" in any ASCII case.
pub fn is_auto_text(s: &str) -> (r: bool)
    ensures
        r == is_auto(s@),
{
    if s.unicode_len() != 4 {
        return false;
    }
    let a = s.get_char(0);
    let u = s.get_char(1);
    let t = s.get_char(2);
    let o = s.get_char(3);
    (a == 'a' || a == 'A') && (u == 'u' || u == 'U') && (t == 't' || t == 'T') && (o == 'o' || o == 'O')
}

fn usable_names_of(ifs: &[WirelessInterface]) -> (r: Vec<String>)
    ensures
        texts(r@) == usable_names(ifs@),
{
    let mut r: Vec<String> = Vec::new();
    let mut i: usize = 0;
    while i < ifs.len()
        invariant
            i <= ifs@.len(),
            texts(r@) == usable_names(ifs@.subrange(0, i as int)),
        decreases ifs.len() - i,
    {
        assert(ifs@.subrange(0, i + 1).drop_last() =~= ifs@.subrange(0, i as int));
        if ifs[i].driver_bound && !is_p2p_name(ifs[i].name.as_str()) {
            r.push(ifs[i].name.clone());
            assert(texts(r@) =~= usable_names(ifs@.subrange(0, i + 1)));
        }
        i += 1;
    }
    assert(ifs@.subrange(0, ifs@.len() as int) =~= ifs@);
    r
}

fn driverless_labels_of(ifs: &[WirelessInterface]) -> (r: Vec<String>)
    ensures
        texts(r@) == driverless_labels(ifs@),
{
    let mut r: Vec<String> = Vec::new();
    let mut i: usize = 0;
    while i < ifs.len()
        invariant
            i <= ifs@.len(),
            texts(r@) == driverless_labels(ifs@.subrange(0, i as int)),
        decreases ifs.len() - i,
    {
        assert(ifs@.subrange(0, i + 1).drop_last() =~= ifs@.subrange(0, i as int));
        let f = &ifs[i];
        if !f.driver_bound && !is_p2p_name(f.name.as_str()) {
            let mut label = f.name.clone();
            label.append(" (");
            label.append(f.device_hint.as_str());
            label.append(")");
            r.push(label);
            assert(texts(r@) =~= driverless_labels(ifs@.subrange(0, i + 1)));
        }
        i += 1;
    }
    assert(ifs@.subrange(0, ifs@.len() as int) =~= ifs@);
    r
}

fn copy_texts(v: &[String]) -> (r: Vec<String>)
    ensures
        texts(r@) == texts(v@),
{
    let mut r: Vec<String> = Vec::new();
    let mut i: usize = 0;
    while i < v.len()
        invariant
            i <= v@.len(),
            r@ == v@.subrange(0, i as int),
        decreases v.len() - i,
    {
        r.push(v[i].clone());
        i += 1;
    }
    assert(r@ =~= v@);
    r
}

fn copy_configured(c: Option<&str>) -> (r: Option<String>)
    ensures
        match (r, c) {
            (Some(x), Some(y)) => x@ == y@,
            (None, None) => true,
            _ => false,
        },
{
    match c {
        Some(s) => Some(s.to_owned()),
        None => None,
    }
}

fn fallback(c: Option<&str>, ifs: &[WirelessInterface], unbound_pci: &[String]) -> (r: Result<String, InterfaceError>)
    ensures
        fallback_error(match c { Some(s) => Some(s@), None => None }, ifs@, texts(unbound_pci@), r),
{
    let adapters = driverless_labels_of(ifs);
    if adapters.len() > 0 {
        return Err(InterfaceError::NoDriverBound { configured: copy_configured(c), adapters });
    }
    if unbound_pci.len() > 0 {
        return Err(InterfaceError::MissingFirmware { configured: copy_configured(c), devices: copy_texts(unbound_pci) });
    }
    Err(InterfaceError::NoneDetected { configured: copy_configured(c) })
}

/// Automatic selection: the first usable interface (driver bound, not
/// "p2p-") in name order; otherwise an error naming what was found.
pub fn choose_auto_interface(interfaces: &[WirelessInterface], unbound_pci: &[String]) -> (r: Result<String, InterfaceError>)
    ensures
        auto_outcome(interfaces@, texts(unbound_pci@), r),
{
    let names = usable_names_of(interfaces);
    let ghost v = texts(names@);
    if names.len() == 0 {
        return fallback(None, interfaces, unbound_pci);
    }
    let mut best: usize = 0;
    let mut i: usize = 1;
    proof {
        lemma_text_less_irrefl(v[0]);
    }
    while i < names.len()
        invariant
            v == texts(names@),
            1 <= i <= names@.len(),
            best < i,
            forall|t: int| 0 <= t < i ==> !text_less(#[trigger] v[t], v[best as int]),
        decreases names.len() - i,
    {
        if less_text(names[i].as_str(), names[best].as_str()) {
            proof {
                assert forall|t: int| 0 <= t < i + 1 implies !text_less(#[trigger] v[t], v[i as int]) by {
                    if t < i && text_less(v[t], v[i as int]) {
                        lemma_text_less_trans(v[t], v[i as int], v[best as int]);
                    }
                    if t == i {
                        lemma_text_less_irrefl(v[t]);
                    }
                }
            }
            best = i;
        }
        i += 1;
    }
    assert(v[best as int] == names@[best as int]@);
    Ok(names[best].clone())
}

proof fn lemma_text_less_irrefl(a: Seq<char>)
    ensures
        !text_less(a, a),
    decreases a.len(),
{
    if a.len() > 0 {
        lemma_text_less_irrefl(a.drop_first());
    }
}

fn find_named_index(ifs: &[WirelessInterface], c: &str) -> (r: Option<usize>)
    ensures
        match r {
            Some(k) => k < ifs@.len() && find_named(ifs@, c@) == Some(ifs@[k as int]),
            None => find_named(ifs@, c@) is None,
        },
{
    let mut i: usize = 0;
    assert(ifs@.subrange(0, ifs@.len() as int) =~= ifs@);
    while i < ifs.len()
        invariant
            i <= ifs@.len(),
            find_named(ifs@, c@) == find_named(ifs@.subrange(i as int, ifs@.len() as int), c@),
        decreases ifs.len() - i,
    {
        let ghost rest = ifs@.subrange(i as int, ifs@.len() as int);
        assert(rest.drop_first() =~= ifs@.subrange(i + 1, ifs@.len() as int));
        if str_equal(ifs[i].name.as_str(), c) {
            return Some(i);
        }
        i += 1;
    }
    None
}

/// Selection for an already trimmed configured name (see `resolve_wireless_interface`).
pub fn select_wireless_interface(
    configured: &str,
    interfaces: &[WirelessInterface],
    unbound_pci: &[String],
) -> (r: Result<String, InterfaceError>)
    ensures
        interface_outcome(configured@, interfaces@, texts(unbound_pci@), r),
{
    if is_auto_text(configured) || configured.unicode_len() == 0 {
        return choose_auto_interface(interfaces, unbound_pci);
    }
    match find_named_index(interfaces, configured) {
        Some(k) => {
            let f = &interfaces[k];
            if f.driver_bound {
                return Ok(configured.to_owned());
            }
            return Err(InterfaceError::DriverNotBound { name: configured.to_owned(), device_hint: f.device_hint.clone() });
        },
        None => {},
    }
    let names = usable_names_of(interfaces);
    if names.len() == 1 {
        return Ok(names[0].clone());
    }
    if names.len() > 1 {
        return Err(InterfaceError::NotFound { configured: configured.to_owned(), detected: names });
    }
    fallback(Some(configured), interfaces, unbound_pci)
}

/// Resolves the configured interface name (surrounding whitespace ignored;
/// "auto" or empty selects automatically) against the detected interfaces.
/// A chosen interface always has a driver bound; an explicitly named one
/// without a driver is reported with its device hint.
pub fn resolve_wireless_interface(
    configured: &str,
    interfaces: &[WirelessInterface],
    unbound_pci: &[String],
) -> (r: Result<String, InterfaceError>)
    ensures
        interface_outcome(trimmed(configured@), interfaces@, texts(unbound_pci@), r),
{
    let c = trim_text(configured);
    select_wireless_interface(c, interfaces, unbound_pci)
}

} // verus!

verus! {

proof fn lemma_find_named_in(s: Seq<WirelessInterface>, c: Seq<char>)
    ensures
        find_named(s, c) matches Some(i) ==> exists|k: int| 0 <= k < s.len() && #[trigger] s[k] == i && i.name@ == c,
    decreases s.len(),
{
    if s.len() > 0 && s[0].name@ != c {
        lemma_find_named_in(s.drop_first(), c);
        if let Some(i) = find_named(s.drop_first(), c) {
            let k = choose|k: int| 0 <= k < s.drop_first().len() && #[trigger] s.drop_first()[k] == i && i.name@ == c;
            assert(s[k + 1] == i);
        }
    }
}

/// An interface that resolution picks is one of the detected interfaces and
/// has a kernel driver bound; when the configured interface exists without
/// a driver, the error carries that interface's device hint.
pub proof fn lemma_resolved_interface_has_driver(
    c: Seq<char>,
    ifs: Seq<WirelessInterface>,
    pci: Seq<Seq<char>>,
    r: Result<String, InterfaceError>,
)
    requires
        interface_outcome(c, ifs, pci, r),
    ensures
        r matches Ok(n) ==> exists|i: int| 0 <= i < ifs.len() && #[trigger] ifs[i].name@ == n@ && ifs[i].driver_bound,
        !(is_auto(c) || c.len() == 0) && find_named(ifs, c) is Some && !find_named(ifs, c)->0.driver_bound
            ==> (r matches Err(InterfaceError::DriverNotBound { name, device_hint })
                && device_hint@ == find_named(ifs, c)->0.device_hint@),
{
    lemma_find_named_in(ifs, c);
    if let Ok(n) = r {
        let names = usable_names(ifs);
        if is_auto(c) || c.len() == 0 {
            let j = choose|j: int| 0 <= j < names.len() && names[j] == n@;
            lemma_usable_names_of_usable(ifs, j);
        } else if let Some(f) = find_named(ifs, c) {
            let k = choose|k: int| 0 <= k < ifs.len() && #[trigger] ifs[k] == f && f.name@ == c;
            assert(ifs[k].name@ == n@);
        } else {
            lemma_usable_names_of_usable(ifs, 0);
        }
    }
}

/// The PCI network-controller class of wireless adapters.
pub open spec fn wireless_pci_class(class: Seq<char>) -> bool {
    class.len() >= 6 && class.subrange(0, 6) == "0x0280"@
}

/// A PCI device of the wireless class (its `class` file read as text) with
/// no driver bound is a probable adapter with missing firmware.
pub fn is_unbound_wireless_pci(class: &str, has_driver: bool) -> (r: bool)
    ensures
        r == (wireless_pci_class(trimmed(class@)) && !has_driver),
{
    let c = trim_text(class);
    let prefix = "0x0280";
    proof {
        reveal_strlit("0x0280");
    }
    crate::text::starts_with_text(c, prefix) && !has_driver
}

/// "slot (vendor V, device D)" with the vendor and device ids as read
/// (surrounding whitespace dropped).
pub fn describe_pci_device(slot: &str, vendor: &str, device: &str) -> (r: String)
    ensures
        r@ == slot@ + " (vendor "@ + trimmed(vendor@) + ", device "@ + trimmed(device@) + ")"@,
{
    let mut r = String::from_str(slot);
    r.append(" (vendor ");
    r.append(trim_text(vendor));
    r.append(", device ");
    r.append(trim_text(device));
    r.append(")");
    r
}

/// The diagnostic text of a resolution error.
pub open spec fn interface_error_text(e: InterfaceError) -> Seq<char> {
    match e {
        InterfaceError::DriverNotBound { name, device_hint } => "Wireless card detected for interface '"@ + name@
            + "' (device: "@ + device_hint@
            + ") but no kernel driver is bound. This usually indicates missing firmware or driver support for the adapter."@,
        InterfaceError::NotFound { configured, detected } => "Configured interface '"@ + configured@
            + "' was not found. Detected wireless interfaces: "@ + joined(texts(detected@), ", "@)
            + ". Set --interface explicitly or use --interface auto."@,
        InterfaceError::NoDriverBound { configured, adapters } => (match configured {
            Some(c) => "Configured interface '"@ + c@ + "' was not found. "@,
            None => Seq::empty(),
        }) + "Wireless interface(s) detected but no kernel driver is bound: "@ + joined(texts(adapters@), ", "@)
            + ". This usually indicates missing firmware or driver support."@,
        InterfaceError::MissingFirmware { configured, devices } => (match configured {
            Some(_) => "No wireless interface is currently available."@,
            None => "No usable wireless interface found."@,
        }) + " Detected wireless PCI device(s) without loaded driver: "@ + joined(texts(devices@), ", "@)
            + ". This usually means firmware/driver for the adapter is missing."@,
        InterfaceError::NoneDetected { configured } => match configured {
            Some(c) => "Configured interface '"@ + c@ + "' was not found and no wireless interfaces were detected"@,
            None => "No usable wireless interfaces detected"@,
        },
    }
}

impl InterfaceError {
    /// The diagnostic shown to the user.
    pub fn message(&self) -> (r: String)
        ensures
            r@ == interface_error_text(*self),
    {
        match self {
            InterfaceError::DriverNotBound { name, device_hint } => {
                let mut r = String::from_str("Wireless card detected for interface '");
                r.append(name.as_str());
                r.append("' (device: ");
                r.append(device_hint.as_str());
                r.append(") but no kernel driver is bound. This usually indicates missing firmware or driver support for the adapter.");
                r
            },
            InterfaceError::NotFound { configured, detected } => {
                let mut r = String::from_str("Configured interface '");
                r.append(configured.as_str());
                r.append("' was not found. Detected wireless interfaces: ");
                r.append(join_texts(detected, ", ").as_str());
                r.append(". Set --interface explicitly or use --interface auto.");
                r
            },
            InterfaceError::NoDriverBound { configured, adapters } => {
                let mut r = String::new();
                match configured {
                    Some(c) => {
                        r.append("Configured interface '");
                        r.append(c.as_str());
                        r.append("' was not found. ");
                    },
                    None => {},
                }
                r.append("Wireless interface(s) detected but no kernel driver is bound: ");
                r.append(join_texts(adapters, ", ").as_str());
                r.append(". This usually indicates missing firmware or driver support.");
                assert(r@ =~= interface_error_text(*self));
                r
            },
            InterfaceError::MissingFirmware { configured, devices } => {
                let mut r = match configured {
                    Some(_) => String::from_str("No wireless interface is currently available."),
                    None => String::from_str("No usable wireless interface found."),
                };
                r.append(" Detected wireless PCI device(s) without loaded driver: ");
                r.append(join_texts(devices, ", ").as_str());
                r.append(". This usually means firmware/driver for the adapter is missing.");
                r
            },
            InterfaceError::NoneDetected { configured } => match configured {
                Some(c) => {
                    let mut r = String::from_str("Configured interface '");
                    r.append(c.as_str());
                    r.append("' was not found and no wireless interfaces were detected");
                    r
                },
                None => String::from_str("No usable wireless interfaces detected"),
            },
        }
    }
}

} // verus!

verus! {

/// No two interfaces share a name (as in the kernel's network-class view).
pub open spec fn names_unique(ifs: Seq<WirelessInterface>) -> bool {
    forall|a: int, b: int| 0 <= a < b < ifs.len() ==> #[trigger] ifs[a].name@ != #[trigger] ifs[b].name@
}

proof fn lemma_find_named_unique(s: Seq<WirelessInterface>, c: Seq<char>, i: int)
    requires
        names_unique(s),
        0 <= i < s.len(),
        s[i].name@ == c,
    ensures
        find_named(s, c) == Some(s[i]),
    decreases s.len(),
{
    if s[0].name@ != c {
        let d = s.drop_first();
        assert forall|a: int, b: int| 0 <= a < b < d.len() implies #[trigger] d[a].name@ != #[trigger] d[b].name@ by {
            assert(d[a] == s[a + 1] && d[b] == s[b + 1]);
        }
        assert(d[i - 1] == s[i]);
        lemma_find_named_unique(d, c, i - 1);
    } else if i != 0 {
        assert(s[0].name@ != s[i].name@);
    }
}

/// An explicitly configured interface that exists resolves to itself when
/// its driver is bound; otherwise resolution fails, and the diagnostic names
/// the interface and its device hint and says that no kernel driver is bound.
pub proof fn lemma_explicit_interface_outcome(
    c: Seq<char>,
    ifs: Seq<WirelessInterface>,
    pci: Seq<Seq<char>>,
    r: Result<String, InterfaceError>,
    i: int,
)
    requires
        interface_outcome(c, ifs, pci, r),
        !(is_auto(c) || c.len() == 0),
        names_unique(ifs),
        0 <= i < ifs.len(),
        ifs[i].name@ == c,
    ensures
        ifs[i].driver_bound ==> (r matches Ok(n) && n@ == c),
        !ifs[i].driver_bound ==> (r matches Err(e) && e is DriverNotBound
            && interface_error_text(e) == "Wireless card detected for interface '"@ + c + "' (device: "@
                + ifs[i].device_hint@
                + ") but no kernel driver is bound. This usually indicates missing firmware or driver support for the adapter."@),
{
    lemma_find_named_unique(ifs, c, i);
}

} // verus!
