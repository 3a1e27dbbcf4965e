//! Choosing the access point's address: a private /24 that the host does
//! not already use.

use vstd::prelude::*;
use crate::text::{decimal, append_decimal, trimmed, trim_text};
use crate::resolver::{is_auto, is_auto_text};

verus! {

/// Dotted-decimal text of an IPv4 address, as `Ipv4Addr` prints it.
pub open spec fn ipv4_text(o: (u8, u8, u8, u8)) -> Seq<char> {
    decimal(o.0 as nat) + "."@ + decimal(o.1 as nat) + "."@ + decimal(o.2 as nat) + "."@ + decimal(o.3 as nat)
}

/// Relies on `Ipv4Addr`'s `FromStr` and `octets`: exactly the dot-decimal
/// texts of four octets parse (no leading zeros, no other forms), giving
/// those octets.
#[verifier::external_body]
pub(crate) fn parse_address(s: &str) -> (r: Option<(u8, u8, u8, u8)>)
    ensures
        r is Some <==> exists|o: (u8, u8, u8, u8)| s@ == ipv4_text(o),
        r matches Some(o) ==> s@ == ipv4_text(o),
{
    s.parse::<core::net::Ipv4Addr>().ok().map(|ip| {
        let o = ip.octets();
        (o[0], o[1], o[2], o[3])
    })
}

/// The dot-decimal text of `o`.
pub fn format_ipv4(o: (u8, u8, u8, u8)) -> (r: String)
    ensures
        r@ == ipv4_text(o),
{
    let mut r = String::new();
    append_decimal(&mut r, o.0 as u64);
    r.append(".");
    append_decimal(&mut r, o.1 as u64);
    r.append(".");
    append_decimal(&mut r, o.2 as u64);
    r.append(".");
    append_decimal(&mut r, o.3 as u64);
    assert(r@ =~= ipv4_text(o));
    r
}

/// The /24 prefix of an address.
pub open spec fn prefix24(o: (u8, u8, u8, u8)) -> (u8, u8, u8) {
    (o.0, o.1, o.2)
}

/// Number of preferred access-point addresses.
pub const AP_IP_CANDIDATE_COUNT: usize = 5;

/// The preferred access-point addresses, best first.
pub open spec fn candidate(i: int) -> (u8, u8, u8, u8) {
    if i == 0 {
        (192, 168, 42, 1)
    } else if i == 1 {
        (10, 42, 0, 1)
    } else if i == 2 {
        (172, 20, 42, 1)
    } else if i == 3 {
        (192, 168, 88, 1)
    } else {
        (10, 123, 0, 1)
    }
}

pub fn ap_ip_candidate(i: usize) -> (r: (u8, u8, u8, u8))
    requires
        i < AP_IP_CANDIDATE_COUNT,
    ensures
        r == candidate(i as int),
{
    if i == 0 {
        (192, 168, 42, 1)
    } else if i == 1 {
        (10, 42, 0, 1)
    } else if i == 2 {
        (172, 20, 42, 1)
    } else if i == 3 {
        (192, 168, 88, 1)
    } else {
        (10, 123, 0, 1)
    }
}

/// The first candidate whose /24 is free; the first candidate when all collide.
pub open spec fn auto_ap_ip(occupied: Seq<(u8, u8, u8)>) -> (u8, u8, u8, u8) {
    if !occupied.contains(prefix24(candidate(0))) {
        candidate(0)
    } else if !occupied.contains(prefix24(candidate(1))) {
        candidate(1)
    } else if !occupied.contains(prefix24(candidate(2))) {
        candidate(2)
    } else if !occupied.contains(prefix24(candidate(3))) {
        candidate(3)
    } else if !occupied.contains(prefix24(candidate(4))) {
        candidate(4)
    } else {
        candidate(0)
    }
}

fn occupied_contains(occupied: &[(u8, u8, u8)], p: (u8, u8, u8)) -> (r: bool)
    ensures
        r == occupied@.contains(p),
{
    let mut i: usize = 0;
    while i < occupied.len()
        invariant
            i <= occupied@.len(),
            forall|t: int| 0 <= t < i ==> occupied@[t] != p,
        decreases occupied.len() - i,
    {
        let q = occupied[i];
        if q.0 == p.0 && q.1 == p.1 && q.2 == p.2 {
            assert(occupied@[i as int] == p);
            return true;
        }
        i += 1;
    }
    false
}

/// The automatically chosen access-point address for the given used /24s.
pub fn choose_auto_ap_ip(occupied: &[(u8, u8, u8)]) -> (r: (u8, u8, u8, u8))
    ensures
        r == auto_ap_ip(occupied@),
        !occupied@.contains(prefix24(r)) || forall|i: int| 0 <= i < 5 ==> occupied@.contains(#[trigger] prefix24(candidate(i))),
{
    let mut i: usize = 0;
    while i < AP_IP_CANDIDATE_COUNT
        invariant
            i <= 5,
            forall|t: int| 0 <= t < i ==> occupied@.contains(#[trigger] prefix24(candidate(t))),
        decreases 5 - i,
    {
        let c = ap_ip_candidate(i);
        if !occupied_contains(occupied, (c.0, c.1, c.2)) {
            assert(prefix24(c) == (c.0, c.1, c.2));
            return c;
        }
        i += 1;
    }
    ap_ip_candidate(0)
}

/// The configured address was not a dot-decimal IPv4 address.
#[derive(Debug, Clone)]
pub struct InvalidApIp {
    pub configured: String,
}

/// The outcome owed for an (already trimmed) configured value `c`.
pub open spec fn ap_ip_outcome(c: Seq<char>, occupied: Seq<(u8, u8, u8)>, r: Result<String, InvalidApIp>) -> bool {
    if is_auto(c) {
        r matches Ok(t) && t@ == ipv4_text(auto_ap_ip(occupied))
    } else if exists|o: (u8, u8, u8, u8)| c == ipv4_text(o) {
        r matches Ok(t) && t@ == c
    } else {
        r matches Err(e) && e.configured@ == c
    }
}

/// Address choice for an already trimmed configured value (see `resolve_ap_ip`).
pub fn select_ap_ip(configured: &str, occupied: &[(u8, u8, u8)]) -> (r: Result<String, InvalidApIp>)
    ensures
        ap_ip_outcome(configured@, occupied@, r),
{
    if is_auto_text(configured) {
        return Ok(format_ipv4(choose_auto_ap_ip(occupied)));
    }
    match parse_address(configured) {
        Some(o) => Ok(format_ipv4(o)),
        None => Err(InvalidApIp { configured: configured.to_owned() }),
    }
}

/// Resolves the configured access-point address (surrounding whitespace
/// ignored): "auto" in any case picks the first preferred address whose /24
/// is not among `occupied` (the first one if all are); anything else must be
/// a dot-decimal IPv4 address and is returned as written.
pub fn resolve_ap_ip(configured: &str, occupied: &[(u8, u8, u8)]) -> (r: Result<String, InvalidApIp>)
    ensures
        ap_ip_outcome(trimmed(configured@), occupied@, r),
{
    let c = trim_text(configured);
    select_ap_ip(c, occupied)
}

/// The /24 of an address token of the form "a.b.c.d/len"; `None` for a token
/// without '/' or whose part before the first '/' is no IPv4 address.
pub fn prefix_of_address_token(token: &str) -> (r: Option<(u8, u8, u8)>)
    ensures
        r is Some <==> exists|k: int, o: (u8, u8, u8, u8)| {
            &&& 0 <= k < token@.len()
            &&& token@[k] == '/'
            &&& forall|t: int| 0 <= t < k ==> token@[t] != '/'
            &&& token@.subrange(0, k) == ipv4_text(o)
        },
        r matches Some(p) ==> exists|k: int, o: (u8, u8, u8, u8)| {
            &&& 0 <= k < token@.len()
            &&& token@[k] == '/'
            &&& forall|t: int| 0 <= t < k ==> token@[t] != '/'
            &&& token@.subrange(0, k) == ipv4_text(o)
            &&& p == prefix24(o)
        },
{
    let n = token.unicode_len();
    let mut k: usize = 0;
    while k < n && token.get_char(k) != '/'
        invariant
            n == token@.len(),
            k <= n,
            forall|t: int| 0 <= t < k ==> token@[t] != '/',
        decreases n - k,
    {
        k += 1;
    }
    if k == n {
        return None;
    }
    let address = token.substring_char(0, k);
    match parse_address(address) {
        Some(o) => Some((o.0, o.1, o.2)),
        None => {
            assert forall|k2: int, o: (u8, u8, u8, u8)| !({
                &&& 0 <= k2 < token@.len()
                &&& token@[k2] == '/'
                &&& forall|t: int| 0 <= t < k2 ==> token@[t] != '/'
                &&& token@.subrange(0, k2) == ipv4_text(o)
            }) by {
                if 0 <= k2 < token@.len() && token@[k2] == '/' && (forall|t: int| 0 <= t < k2 ==> token@[t] != '/') {
                    if k2 < k {
                        assert(token@[k2] != '/');
                    } else if k2 > k {
                        assert(token@[k as int] == '/');
                    }
                }
            }
            None
        },
    }
}

/// The part of `token` before its first '/' is the address `o`.
pub open spec fn address_before_slash(token: Seq<char>, o: (u8, u8, u8, u8)) -> bool {
    exists|k: int| {
        &&& 0 <= k < token.len()
        &&& token[k] == '/'
        &&& forall|t: int| 0 <= t < k ==> token[t] != '/'
        &&& #[trigger] token.subrange(0, k) == ipv4_text(o)
    }
}

/// `token` is an "address/len" token.
pub open spec fn is_address_token(token: Seq<char>) -> bool {
    exists|o: (u8, u8, u8, u8)| address_before_slash(token, o)
}

/// Index of the first address token of a line.
pub open spec fn first_address_token(tokens: Seq<String>) -> Option<int>
    decreases tokens.len(),
{
    if tokens.len() == 0 {
        None
    } else if is_address_token(tokens[0]@) {
        Some(0)
    } else {
        match first_address_token(tokens.drop_first()) {
            Some(i) => Some(i + 1),
            None => None,
        }
    }
}

/// `p` is the /24 of the address in `token`.
pub open spec fn token_has_prefix(token: Seq<char>, p: (u8, u8, u8)) -> bool {
    exists|o: (u8, u8, u8, u8)| address_before_slash(token, o) && p == prefix24(o)
}

proof fn lemma_first_address_token(s: Seq<String>)
    ensures
        first_address_token(s) matches Some(x) ==> 0 <= x < s.len() && is_address_token(s[x]@),
    decreases s.len(),
{
    if s.len() > 0 && !is_address_token(s[0]@) {
        lemma_first_address_token(s.drop_first());
    }
}

proof fn lemma_prefix_token(token: Seq<char>, r: Option<(u8, u8, u8)>)
    requires
        r is Some <==> exists|k: int, o: (u8, u8, u8, u8)| {
            &&& 0 <= k < token.len()
            &&& token[k] == '/'
            &&& forall|t: int| 0 <= t < k ==> token[t] != '/'
            &&& token.subrange(0, k) == ipv4_text(o)
        },
        r matches Some(p) ==> exists|k: int, o: (u8, u8, u8, u8)| {
            &&& 0 <= k < token.len()
            &&& token[k] == '/'
            &&& forall|t: int| 0 <= t < k ==> token[t] != '/'
            &&& token.subrange(0, k) == ipv4_text(o)
            &&& p == prefix24(o)
        },
    ensures
        r is Some <==> is_address_token(token),
        r matches Some(p) ==> token_has_prefix(token, p),
{
    if let Some(p) = r {
        let (k, o) = choose|k: int, o: (u8, u8, u8, u8)| {
            &&& 0 <= k < token.len()
            &&& token[k] == '/'
            &&& forall|t: int| 0 <= t < k ==> token[t] != '/'
            &&& token.subrange(0, k) == ipv4_text(o)
            &&& p == prefix24(o)
        };
        assert(address_before_slash(token, o));
    } else {
        assert forall|o: (u8, u8, u8, u8)| !address_before_slash(token, o) by {
            if address_before_slash(token, o) {
                let k = choose|k: int| {
                    &&& 0 <= k < token.len()
                    &&& token[k] == '/'
                    &&& forall|t: int| 0 <= t < k ==> token[t] != '/'
                    &&& #[trigger] token.subrange(0, k) == ipv4_text(o)
                };
                assert(token.subrange(0, k) == ipv4_text(o));
            }
        }
    }
}

/// Some token of the listing stands for the /24 `p`.
pub open spec fn from_listing(lines: Seq<Vec<String>>, p: (u8, u8, u8)) -> bool {
    exists|l: int, t: int| 0 <= l < lines.len() && 0 <= t < lines[l]@.len() && #[trigger] token_has_prefix(lines[l]@[t]@, p)
}

/// The used /24s from the host's address listing, given as the
/// whitespace-separated tokens of each line: per line, the first
/// "address/len" token contributes its /24.
pub fn occupied_prefixes(lines: &Vec<Vec<String>>) -> (r: Vec<(u8, u8, u8)>)
    ensures
        forall|j: int| 0 <= j < r@.len() ==> from_listing(lines@, #[trigger] r@[j]),
        forall|l: int| 0 <= l < lines@.len() ==> (first_address_token(#[trigger] lines@[l]@) matches Some(t) ==>
            exists|j: int| 0 <= j < r@.len() && token_has_prefix(lines@[l]@[t]@, #[trigger] r@[j])),
{
    let mut r: Vec<(u8, u8, u8)> = Vec::new();
    let mut l: usize = 0;
    while l < lines.len()
        invariant
            l <= lines@.len(),
            forall|j: int| 0 <= j < r@.len() ==> from_listing(lines@, #[trigger] r@[j]),
            forall|l2: int| 0 <= l2 < l ==> (first_address_token(#[trigger] lines@[l2]@) matches Some(t) ==>
                exists|j: int| 0 <= j < r@.len() && token_has_prefix(lines@[l2]@[t]@, #[trigger] r@[j])),
        decreases lines.len() - l,
    {
        let line = &lines[l];
        let mut t: usize = 0;
        let mut found: Option<(u8, u8, u8)> = None;
        assert(line@.subrange(0, line@.len() as int) =~= line@);
        proof {
            lemma_first_address_token(line@);
        }
        while t < line.len() && found.is_none()
            invariant
                line == lines@[l as int],
                t <= line@.len(),
                found is None ==> (first_address_token(line@) matches Some(x) ==> x >= t
                    && first_address_token(line@.subrange(t as int, line@.len() as int)) == Some(x - t)),
                found is None ==> (first_address_token(line@) is None <==>
                    first_address_token(line@.subrange(t as int, line@.len() as int)) is None),
                found is Some ==> t >= 1,
                found matches Some(p) ==> first_address_token(line@) == Some(t - 1)
                    && token_has_prefix(line@[t - 1]@, p),
            decreases line.len() - t,
        {
            let ghost rest = line@.subrange(t as int, line@.len() as int);
            assert(rest.drop_first() =~= line@.subrange(t + 1, line@.len() as int));
            assert(rest[0] == line@[t as int]);
            found = prefix_of_address_token(line[t].as_str());
            proof {
                lemma_prefix_token(line@[t as int]@, found);
                if found is None {
                    assert(first_address_token(rest) == match first_address_token(rest.drop_first()) {
                        Some(i) => Some(i + 1),
                        None => None::<int>,
                    });
                    if let Some(x) = first_address_token(line@) {
                        assert(first_address_token(rest) == Some(x - t));
                        lemma_first_address_token(rest.drop_first());
                        let i = first_address_token(rest.drop_first())->0;
                        assert(x - t == i + 1);
                        assert(first_address_token(line@.subrange(t + 1, line@.len() as int)) == Some(x - (t + 1)));
                    }
                }
            }
            t += 1;
        }
        let ghost before = r@;
        match found {
            Some(p) => {
                r.push(p);
                assert forall|j: int| 0 <= j < r@.len() implies from_listing(lines@, #[trigger] r@[j]) by {
                    if j < before.len() {
                        assert(r@[j] == before[j]);
                    } else {
                        assert(token_has_prefix(line@[t - 1]@, r@[j]));
                        assert(lines@[l as int]@[t - 1] == line@[t - 1]);
                        assert(token_has_prefix(lines@[l as int]@[t - 1]@, r@[j]));
                    }
                }
                assert forall|l2: int| 0 <= l2 < l + 1 implies (first_address_token(#[trigger] lines@[l2]@) matches Some(x) ==>
                    exists|j: int| 0 <= j < r@.len() && token_has_prefix(lines@[l2]@[x]@, #[trigger] r@[j])) by {
                    if l2 < l {
                        if let Some(x) = first_address_token(lines@[l2]@) {
                            let j = choose|j: int| 0 <= j < before.len() && token_has_prefix(lines@[l2]@[x]@, #[trigger] before[j]);
                            assert(r@[j] == before[j]);
                        }
                    } else {
                        assert(token_has_prefix(lines@[l2]@[t - 1]@, r@[r@.len() - 1]));
                    }
                }
            },
            None => {
                assert(line@.subrange(t as int, line@.len() as int).len() == 0);
            },
        }
        l += 1;
    }
    r
}

} // verus!

verus! {

/// `token` is `ip` followed by '/' and a prefix length ("192.168.42.1/24"
/// names 192.168.42.1, not 192.168.42.10).
pub open spec fn token_names_address(token: Seq<char>, ip: Seq<char>) -> bool {
    &&& ip.len() < token.len()
    &&& token[ip.len() as int] == '/'
    &&& token.subrange(0, ip.len() as int) == ip
    &&& forall|t: int| 0 <= t < ip.len() ==> ip[t] != '/'
}

/// Some token of the line names `ip`.
pub open spec fn line_names_address(line: Seq<String>, ip: Seq<char>) -> bool {
    exists|t: int| 0 <= t < line.len() && #[trigger] token_names_address(line[t]@, ip)
}

fn names_address(token: &str, ip: &str) -> (r: bool)
    ensures
        r == token_names_address(token@, ip@),
{
    let n = ip.unicode_len();
    let m = token.unicode_len();
    if n >= m {
        return false;
    }
    if token.get_char(n) != '/' {
        return false;
    }
    let mut i: usize = 0;
    while i < n
        invariant
            n == ip@.len() < m == token@.len(),
            i <= n,
            forall|t: int| 0 <= t < i ==> token@[t] == ip@[t] && ip@[t] != '/',
        decreases n - i,
    {
        let c = ip.get_char(i);
        if token.get_char(i) != c {
            assert(token@.subrange(0, n as int)[i as int] != ip@[i as int]);
            return false;
        }
        if c == '/' {
            return false;
        }
        i += 1;
    }
    assert(token@.subrange(0, n as int) =~= ip@);
    true
}

/// Whether the interface's address listing (whitespace-separated tokens of
/// each line) shows the address `ip` as "ip/len".
pub fn address_assigned(lines: &Vec<Vec<String>>, ip: &str) -> (r: bool)
    ensures
        r == exists|l: int| 0 <= l < lines@.len() && #[trigger] line_names_address(lines@[l]@, ip@),
{
    let mut l: usize = 0;
    while l < lines.len()
        invariant
            l <= lines@.len(),
            forall|j: int| 0 <= j < l ==> !#[trigger] line_names_address(lines@[j]@, ip@),
        decreases lines.len() - l,
    {
        let line = &lines[l];
        let mut t: usize = 0;
        while t < line.len()
            invariant
                l < lines@.len(),
                line == lines@[l as int],
                t <= line@.len(),
                forall|u: int| 0 <= u < t ==> !#[trigger] token_names_address(line@[u]@, ip@),
            decreases line.len() - t,
        {
            if names_address(line[t].as_str(), ip) {
                assert(token_names_address(lines@[l as int]@[t as int]@, ip@));
                assert(line_names_address(lines@[l as int]@, ip@));
                return true;
            }
            t += 1;
        }
        l += 1;
    }
    false
}

} // verus!
