//! Saved WiFi credentials: a mapping from SSID to password and usage record.
//!
//! The store is kept in memory here; reading and writing the file (a
//! temp-file-plus-rename with mode 0600) is done by the caller, which hands
//! over and takes back the records of the store.

use vstd::prelude::*;
use crate::state::NetworkInfo;
use crate::scan::str_equal;

verus! {

/// Credentials for one network.
#[derive(Debug, Clone)]
pub struct SavedCredential {
    pub ssid: String,
    pub password: String,
    /// Seconds since the epoch when the credential last worked.
    pub last_used: Option<u64>,
    /// Number of successful connections.
    pub success_count: u32,
}

impl SavedCredential {
    /// A field-for-field copy.
    pub fn duplicate(&self) -> (r: SavedCredential)
        ensures
            r == *self,
    {
        SavedCredential {
            ssid: self.ssid.clone(),
            password: self.password.clone(),
            last_used: self.last_used,
            success_count: self.success_count,
        }
    }
}

/// The mapping a sequence of records stands for: a later record of an SSID
/// replaces an earlier one.
pub open spec fn records_map(s: Seq<SavedCredential>) -> Map<Seq<char>, SavedCredential>
    decreases s.len(),
{
    if s.len() == 0 {
        Map::empty()
    } else {
        records_map(s.drop_last()).insert(s.last().ssid@, s.last())
    }
}

pub open spec fn keys_unique(s: Seq<SavedCredential>) -> bool {
    forall|i: int, j: int| 0 <= i < j < s.len() ==> #[trigger] s[i].ssid@ != #[trigger] s[j].ssid@
}

proof fn lemma_records_map_keys(s: Seq<SavedCredential>, k: Seq<char>)
    ensures
        records_map(s).contains_key(k) <==> exists|i: int| 0 <= i < s.len() && #[trigger] s[i].ssid@ == k,
    decreases s.len(),
{
    if s.len() > 0 {
        lemma_records_map_keys(s.drop_last(), k);
        if records_map(s.drop_last()).contains_key(k) {
            let i = choose|i: int| 0 <= i < s.drop_last().len() && #[trigger] s.drop_last()[i].ssid@ == k;
            assert(s[i].ssid@ == k);
        }
        if exists|i: int| 0 <= i < s.len() && #[trigger] s[i].ssid@ == k {
            let i = choose|i: int| 0 <= i < s.len() && #[trigger] s[i].ssid@ == k;
            if i < s.len() - 1 {
                assert(s.drop_last()[i].ssid@ == k);
            }
        }
    }
}

proof fn lemma_records_map_value(s: Seq<SavedCredential>, i: int)
    requires
        keys_unique(s),
        0 <= i < s.len(),
    ensures
        records_map(s).contains_key(s[i].ssid@),
        records_map(s)[s[i].ssid@] == s[i],
    decreases s.len(),
{
    if i < s.len() - 1 {
        assert(keys_unique(s.drop_last()));
        assert(s.drop_last()[i] == s[i]);
        lemma_records_map_value(s.drop_last(), i);
    }
}

proof fn lemma_records_map_update(s: Seq<SavedCredential>, k: int, e: SavedCredential)
    requires
        keys_unique(s),
        0 <= k < s.len(),
        e.ssid@ == s[k].ssid@,
    ensures
        records_map(s.update(k, e)) == records_map(s).insert(e.ssid@, e),
        keys_unique(s.update(k, e)),
    decreases s.len(),
{
    let u = s.update(k, e);
    assert forall|i: int, j: int| 0 <= i < j < u.len() implies #[trigger] u[i].ssid@ != #[trigger] u[j].ssid@ by {
        assert(u[i].ssid@ == s[i].ssid@ && u[j].ssid@ == s[j].ssid@);
    }
    if k == s.len() - 1 {
        assert(u.drop_last() =~= s.drop_last());
        assert(records_map(s.drop_last()).insert(e.ssid@, e) =~= records_map(s).insert(e.ssid@, e));
    } else {
        assert(keys_unique(s.drop_last()));
        lemma_records_map_update(s.drop_last(), k, e);
        assert(u.drop_last() =~= s.drop_last().update(k, e));
        assert(s.last().ssid@ != e.ssid@);
        assert(records_map(u) =~= records_map(s).insert(e.ssid@, e));
    }
}

proof fn lemma_records_map_remove(s: Seq<SavedCredential>, k: int)
    requires
        keys_unique(s),
        0 <= k < s.len(),
    ensures
        records_map(s.remove(k)) == records_map(s).remove(s[k].ssid@),
        keys_unique(s.remove(k)),
    decreases s.len(),
{
    let r = s.remove(k);
    assert forall|i: int, j: int| 0 <= i < j < r.len() implies #[trigger] r[i].ssid@ != #[trigger] r[j].ssid@ by {
        let a = if i < k { i } else { i + 1 };
        let b = if j < k { j } else { j + 1 };
        assert(r[i] == s[a] && r[j] == s[b]);
    }
    if k == s.len() - 1 {
        assert(r =~= s.drop_last());
        lemma_records_map_keys(s.drop_last(), s[k].ssid@);
        if records_map(s.drop_last()).contains_key(s[k].ssid@) {
            let i = choose|i: int| 0 <= i < s.drop_last().len() && #[trigger] s.drop_last()[i].ssid@ == s[k].ssid@;
            assert(s[i].ssid@ == s[k].ssid@);
        }
        assert(records_map(r) =~= records_map(s).remove(s[k].ssid@));
    } else {
        assert(keys_unique(s.drop_last()));
        lemma_records_map_remove(s.drop_last(), k);
        assert(r.drop_last() =~= s.drop_last().remove(k));
        assert(r.last() == s.last());
        assert(s.last().ssid@ != s[k].ssid@);
        assert(records_map(r) =~= records_map(s).remove(s[k].ssid@));
    }
}

/// The saved networks, keyed by SSID.
#[derive(Debug, Clone)]
pub struct CredentialTable {
    entries: Vec<SavedCredential>,
}

impl View for CredentialTable {
    type V = Map<Seq<char>, SavedCredential>;

    closed spec fn view(&self) -> Map<Seq<char>, SavedCredential> {
        records_map(self.entries@)
    }
}

impl CredentialTable {
    /// No SSID is stored twice.
    pub closed spec fn wf(&self) -> bool {
        keys_unique(self.entries@)
    }

    /// Checks the invariant (always true of a table built by this module).
    pub fn is_well_formed(&self) -> (r: bool)
        ensures
            r == self.wf(),
    {
        let mut i: usize = 0;
        while i < self.entries.len()
            invariant
                i <= self.entries@.len(),
                forall|a: int, b: int| 0 <= a < b < i ==> #[trigger] self.entries@[a].ssid@ != #[trigger] self.entries@[b].ssid@,
            decreases self.entries.len() - i,
        {
            let mut j: usize = 0;
            while j < i
                invariant
                    i < self.entries@.len(),
                    j <= i,
                    forall|a: int, b: int| 0 <= a < b < i ==> #[trigger] self.entries@[a].ssid@ != #[trigger] self.entries@[b].ssid@,
                    forall|a: int| 0 <= a < j ==> #[trigger] self.entries@[a].ssid@ != self.entries@[i as int].ssid@,
                decreases i - j,
            {
                if self.entries[j].ssid == self.entries[i].ssid {
                    return false;
                }
                j += 1;
            }
            i += 1;
        }
        true
    }

    pub fn new() -> (r: CredentialTable)
        ensures
            r.wf(),
            r@ == Map::<Seq<char>, SavedCredential>::empty(),
    {
        CredentialTable { entries: Vec::new() }
    }

    fn index_of(&self, ssid: &str) -> (r: Option<usize>)
        requires
            self.wf(),
        ensures
            match r {
                Some(k) => k < self.entries@.len() && self.entries@[k as int].ssid@ == ssid@,
                None => !self@.contains_key(ssid@),
            },
    {
        let mut j: usize = 0;
        while j < self.entries.len()
            invariant
                j <= self.entries@.len(),
                forall|t: int| 0 <= t < j ==> #[trigger] self.entries@[t].ssid@ != ssid@,
            decreases self.entries.len() - j,
        {
            if str_equal(self.entries[j].ssid.as_str(), ssid) {
                return Some(j);
            }
            j += 1;
        }
        proof {
            lemma_records_map_keys(self.entries@, ssid@);
        }
        None
    }

    /// The credential stored for `ssid`.
    pub fn get(&self, ssid: &str) -> (r: Option<&SavedCredential>)
        requires
            self.wf(),
        ensures
            r is Some <==> self@.contains_key(ssid@),
            r matches Some(c) ==> *c == self@[ssid@],
    {
        match self.index_of(ssid) {
            Some(k) => {
                proof {
                    lemma_records_map_value(self.entries@, k as int);
                }
                Some(&self.entries[k])
            },
            None => None,
        }
    }

    pub fn contains_key(&self, ssid: &str) -> (r: bool)
        requires
            self.wf(),
        ensures
            r == self@.contains_key(ssid@),
    {
        match self.index_of(ssid) {
            Some(k) => {
                proof {
                    lemma_records_map_value(self.entries@, k as int);
                }
                true
            },
            None => false,
        }
    }

    /// Stores `c` under its SSID, replacing what was there.
    pub fn insert(&mut self, c: SavedCredential)
        requires
            old(self).wf(),
        ensures
            final(self).wf(),
            final(self)@ == old(self)@.insert(c.ssid@, c),
    {
        match self.index_of(c.ssid.as_str()) {
            Some(k) => {
                proof {
                    lemma_records_map_update(self.entries@, k as int, c);
                }
                self.entries.set(k, c);
            },
            None => {
                let ghost prev = self.entries@;
                proof {
                    lemma_records_map_keys(prev, c.ssid@);
                }
                self.entries.push(c);
                assert(self.entries@.drop_last() == prev);
                assert forall|i: int, j: int| 0 <= i < j < self.entries@.len() implies
                    #[trigger] self.entries@[i].ssid@ != #[trigger] self.entries@[j].ssid@ by {
                    if j == prev.len() {
                        assert(self.entries@[i] == prev[i]);
                    } else {
                        assert(self.entries@[i] == prev[i] && self.entries@[j] == prev[j]);
                    }
                }
            },
        }
    }

    /// Drops the credential of `ssid`; says whether there was one.
    pub fn remove(&mut self, ssid: &str) -> (r: bool)
        requires
            old(self).wf(),
        ensures
            final(self).wf(),
            r == old(self)@.contains_key(ssid@),
            final(self)@ == old(self)@.remove(ssid@),
    {
        match self.index_of(ssid) {
            Some(k) => {
                proof {
                    lemma_records_map_remove(self.entries@, k as int);
                    lemma_records_map_value(self.entries@, k as int);
                }
                self.entries.remove(k);
                true
            },
            None => {
                assert(self@.remove(ssid@) =~= self@);
                false
            },
        }
    }

    /// Number of saved networks.
    pub fn len(&self) -> (r: usize)
        requires
            self.wf(),
        ensures
            r == self@.len(),
    {
        proof {
            lemma_unique_records_len(self.entries@);
        }
        self.entries.len()
    }

    /// Copies of the stored credentials, one per SSID.
    pub fn to_records(&self) -> (r: Vec<SavedCredential>)
        requires
            self.wf(),
        ensures
            keys_unique(r@),
            records_map(r@) == self@,
    {
        let mut r: Vec<SavedCredential> = Vec::new();
        let mut i: usize = 0;
        while i < self.entries.len()
            invariant
                i <= self.entries@.len(),
                r@ == self.entries@.subrange(0, i as int),
            decreases self.entries.len() - i,
        {
            r.push(self.entries[i].duplicate());
            i += 1;
        }
        assert(r@ =~= self.entries@);
        r
    }
}

proof fn lemma_unique_records_len(s: Seq<SavedCredential>)
    requires
        keys_unique(s),
    ensures
        records_map(s).dom().finite(),
        records_map(s).len() == s.len(),
    decreases s.len(),
{
    if s.len() > 0 {
        assert(keys_unique(s.drop_last()));
        lemma_unique_records_len(s.drop_last());
        lemma_records_map_keys(s.drop_last(), s.last().ssid@);
        if records_map(s.drop_last()).contains_key(s.last().ssid@) {
            let i = choose|i: int| 0 <= i < s.drop_last().len() && #[trigger] s.drop_last()[i].ssid@ == s.last().ssid@;
            assert(s[i].ssid@ == s[s.len() - 1].ssid@);
        }
    }
}

} // verus!

verus! {

/// Relies on `SystemTime::now` and `duration_since(UNIX_EPOCH)`: the wall
/// clock in whole seconds since the epoch, 0 if the clock is before it.
#[verifier::external_body]
fn now_epoch_secs() -> (r: u64) {
    std::time::SystemTime::now().duration_since(std::time::UNIX_EPOCH).map(|d| d.as_secs()).unwrap_or(0)
}

/// Schema version written with a new store.
pub fn default_version() -> (r: u32)
    ensures
        r == 1,
{
    1
}

/// The networks of `s` that have saved credentials in `m`, in order.
pub open spec fn known_networks(s: Seq<NetworkInfo>, m: Map<Seq<char>, SavedCredential>) -> Seq<NetworkInfo>
    decreases s.len(),
{
    if s.len() == 0 {
        Seq::empty()
    } else {
        let sub = known_networks(s.drop_last(), m);
        if m.contains_key(s.last().ssid@) {
            sub.push(s.last())
        } else {
            sub
        }
    }
}

/// `a` ranks above `b` for auto-connect: stronger signal, or equal signal
/// and more successful connections.
pub open spec fn ranks_above(m: Map<Seq<char>, SavedCredential>, a: NetworkInfo, b: NetworkInfo) -> bool {
    a.signal_strength > b.signal_strength || (a.signal_strength == b.signal_strength
        && m[a.ssid@].success_count > m[b.ssid@].success_count)
}

/// Success count after one more successful connection (held at the maximum).
pub open spec fn next_count(c: u32) -> u32 {
    if c < u32::MAX { (c + 1) as u32 } else { c }
}

/// Saved credentials and the schema version of their file.
#[derive(Debug, Clone)]
pub struct CredentialsStore {
    /// SSID to credential.
    pub networks: CredentialTable,
    pub version: u32,
}

impl Default for CredentialsStore {
    fn default() -> (r: CredentialsStore)
        ensures
            r.wf(),
            r.networks@ == Map::<Seq<char>, SavedCredential>::empty(),
            r.version == 1,
    {
        CredentialsStore { networks: CredentialTable::new(), version: default_version() }
    }
}

impl CredentialsStore {
    pub open spec fn wf(&self) -> bool {
        self.networks.wf()
    }

    /// A store holding `records`; of two records of one SSID the later wins.
    pub fn from_records(version: u32, records: Vec<SavedCredential>) -> (r: CredentialsStore)
        ensures
            r.wf(),
            r.version == version,
            r.networks@ == records_map(records@),
    {
        let mut networks = CredentialTable::new();
        let mut records = records;
        let ghost all = records@;
        let mut rest: Vec<SavedCredential> = Vec::new();
        while records.len() > 0
            invariant
                networks.wf(),
                all == records@ + rest@,
            decreases records.len(),
        {
            let c = records.pop().unwrap();
            rest.insert(0, c);
        }
        let mut i: usize = 0;
        while i < rest.len()
            invariant
                networks.wf(),
                all == rest@,
                i <= rest@.len(),
                networks@ == records_map(rest@.subrange(0, i as int)),
            decreases rest.len() - i,
        {
            let c = rest[i].duplicate();
            networks.insert(c);
            assert(rest@.subrange(0, i + 1).drop_last() =~= rest@.subrange(0, i as int));
            i += 1;
        }
        assert(rest@.subrange(0, rest@.len() as int) =~= rest@);
        CredentialsStore { networks, version }
    }

    /// Records that `ssid` was joined with `password`, stamping the current
    /// wall-clock time.
    pub fn save_credential(&mut self, ssid: &str, password: &str)
        requires
            old(self).wf(),
        ensures
            final(self).wf(),
            final(self).version == old(self).version,
            final(self).networks@ == old(self).networks@.insert(ssid@, final(self).networks@[ssid@]),
            final(self).networks@[ssid@].ssid@ == ssid@,
            final(self).networks@[ssid@].password@ == password@,
            final(self).networks@[ssid@].last_used is Some,
            final(self).networks@[ssid@].success_count == if old(self).networks@.contains_key(ssid@) {
                next_count(old(self).networks@[ssid@].success_count)
            } else {
                1
            },
    {
        let now = now_epoch_secs();
        self.save_credential_at(ssid, password, now);
    }

    /// Records that `ssid` was joined with `password` at `now` (seconds since
    /// the epoch): the password is replaced, `last_used` set and the success
    /// count raised by one, or a new entry with count 1 is made.
    pub fn save_credential_at(&mut self, ssid: &str, password: &str, now: u64)
        requires
            old(self).wf(),
        ensures
            final(self).wf(),
            final(self).version == old(self).version,
            final(self).networks@ == old(self).networks@.insert(ssid@, final(self).networks@[ssid@]),
            final(self).networks@[ssid@].ssid@ == ssid@,
            final(self).networks@[ssid@].password@ == password@,
            final(self).networks@[ssid@].last_used == Some(now),
            final(self).networks@[ssid@].success_count == if old(self).networks@.contains_key(ssid@) {
                next_count(old(self).networks@[ssid@].success_count)
            } else {
                1
            },
    {
        let count: u32 = match self.networks.get(ssid) {
            Some(existing) => if existing.success_count < u32::MAX {
                existing.success_count + 1
            } else {
                existing.success_count
            },
            None => 1,
        };
        let c = SavedCredential {
            ssid: ssid.to_owned(),
            password: password.to_owned(),
            last_used: Some(now),
            success_count: count,
        };
        self.networks.insert(c);
    }

    /// The saved password of `ssid`.
    pub fn get_password(&self, ssid: &str) -> (r: Option<&str>)
        requires
            self.wf(),
        ensures
            r is Some <==> self.networks@.contains_key(ssid@),
            r matches Some(p) ==> p@ == self.networks@[ssid@].password@,
    {
        match self.networks.get(ssid) {
            Some(c) => Some(c.password.as_str()),
            None => None,
        }
    }

    pub fn has_credentials(&self, ssid: &str) -> (r: bool)
        requires
            self.wf(),
        ensures
            r == self.networks@.contains_key(ssid@),
    {
        self.networks.contains_key(ssid)
    }

    /// Forgets `ssid`; says whether it was saved.
    pub fn remove_credential(&mut self, ssid: &str) -> (r: bool)
        requires
            old(self).wf(),
        ensures
            final(self).wf(),
            final(self).version == old(self).version,
            r == old(self).networks@.contains_key(ssid@),
            final(self).networks@ == old(self).networks@.remove(ssid@),
    {
        self.networks.remove(ssid)
    }

    /// The available networks that have saved credentials, in their order.
    pub fn find_known_networks<'a>(&self, available: &'a [NetworkInfo]) -> (r: Vec<&'a NetworkInfo>)
        requires
            self.wf(),
        ensures
            r@.len() == known_networks(available@, self.networks@).len(),
            forall|j: int| 0 <= j < r@.len() ==> *#[trigger] r@[j] == known_networks(available@, self.networks@)[j],
    {
        let mut r: Vec<&'a NetworkInfo> = Vec::new();
        let mut i: usize = 0;
        while i < available.len()
            invariant
                self.wf(),
                i <= available@.len(),
                r@.len() == known_networks(available@.subrange(0, i as int), self.networks@).len(),
                forall|j: int| 0 <= j < r@.len()
                    ==> *#[trigger] r@[j] == known_networks(available@.subrange(0, i as int), self.networks@)[j],
            decreases available.len() - i,
        {
            assert(available@.subrange(0, i + 1).drop_last() =~= available@.subrange(0, i as int));
            if self.networks.contains_key(available[i].ssid.as_str()) {
                r.push(&available[i]);
            }
            i += 1;
        }
        assert(available@.subrange(0, available@.len() as int) =~= available@);
        r
    }

    /// The network to auto-connect to: among the available networks with
    /// saved credentials, the strongest, then the one with most successful
    /// connections, then the first listed.
    pub fn best_known_network<'a>(&self, available: &'a [NetworkInfo]) -> (r: Option<&'a NetworkInfo>)
        requires
            self.wf(),
        ensures
            r is None <==> forall|i: int| 0 <= i < available@.len()
                ==> !self.networks@.contains_key(#[trigger] available@[i].ssid@),
            r matches Some(n) ==> exists|k: int| {
                &&& 0 <= k < available@.len()
                &&& #[trigger] available@[k] == *n
                &&& self.networks@.contains_key(n.ssid@)
                &&& forall|i: int| 0 <= i < available@.len() && self.networks@.contains_key(#[trigger] available@[i].ssid@)
                    ==> !ranks_above(self.networks@, available@[i], *n)
                &&& forall|i: int| 0 <= i < k && self.networks@.contains_key(#[trigger] available@[i].ssid@)
                    ==> ranks_above(self.networks@, *n, available@[i])
            },
    {
        let mut best: Option<usize> = None;
        let mut best_count: u32 = 0;
        let mut i: usize = 0;
        while i < available.len()
            invariant
                self.wf(),
                i <= available@.len(),
                best is None <==> forall|t: int| 0 <= t < i ==> !self.networks@.contains_key(#[trigger] available@[t].ssid@),
                best matches Some(k) ==> {
                    &&& k < i
                    &&& self.networks@.contains_key(available@[k as int].ssid@)
                    &&& best_count == self.networks@[available@[k as int].ssid@].success_count
                    &&& forall|t: int| 0 <= t < i && self.networks@.contains_key(#[trigger] available@[t].ssid@)
                        ==> !ranks_above(self.networks@, available@[t], available@[k as int])
                    &&& forall|t: int| 0 <= t < k && self.networks@.contains_key(#[trigger] available@[t].ssid@)
                        ==> ranks_above(self.networks@, available@[k as int], available@[t])
                },
            decreases available.len() - i,
        {
            let n = &available[i];
            match self.networks.get(n.ssid.as_str()) {
                Some(c) => {
                    match best {
                        Some(k) => {
                            let b = &available[k];
                            if n.signal_strength > b.signal_strength || (n.signal_strength == b.signal_strength
                                && c.success_count > best_count) {
                                best = Some(i);
                                best_count = c.success_count;
                            }
                        },
                        None => {
                            best = Some(i);
                            best_count = c.success_count;
                        },
                    }
                },
                None => {},
            }
            i += 1;
        }
        match best {
            Some(k) => {
                assert(available@[k as int] == available@[k as int]);
                Some(&available[k])
            },
            None => None,
        }
    }
}

} // verus!

verus! {

/// Writing a store out as its records and building a store from those
/// records again gives back the same mapping from SSID to credential.
pub proof fn lemma_records_round_trip(
    s: CredentialsStore,
    records: Seq<SavedCredential>,
    t: CredentialsStore,
)
    requires
        s.wf(),
        keys_unique(records),
        records_map(records) == s.networks@,
        t.networks@ == records_map(records),
    ensures
        t.networks@ == s.networks@,
        records.len() == s.networks@.len(),
{
    lemma_unique_records_len(records);
}

} // verus!
