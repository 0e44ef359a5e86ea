//! The sidebar's host-list model: one entry per known or discovered host, and what has been
//! learned about them at runtime.
use vstd::prelude::*;
use crate::model::{
    host_views, profile_views, target_of, DiscoveredHost, FoundV, HostV, KnownHost, ProfileV, StreamProfile, Target,
    TargetV,
};
use crate::seqs::{find_by, first_pos, keep, lemma_first_from, retain_by, views};
use crate::text::{join3, same_text, texts};

verus! {

/// One row of the sidebar's host list.
pub enum HostEntry {
    /// A saved host.
    Known(KnownHost),
    /// A host heard on the network and not saved.
    Discovered(DiscoveredHost),
    /// A pinned host and profile: a card under its host that streams its desktop with that
    /// profile.
    Pinned {
        host: KnownHost,
        profile_id: String,
        /// "Host · Profile", built once when the rows are.
        label: String,
    },
}

/// A [`HostEntry`] as a value.
pub enum EntryV {
    Known(HostV),
    Discovered(FoundV),
    Pinned { host: HostV, profile_id: Seq<char>, label: Seq<char> },
}

impl View for HostEntry {
    type V = EntryV;

    open spec fn view(&self) -> EntryV {
        match self {
            HostEntry::Known(h) => EntryV::Known(h@),
            HostEntry::Discovered(d) => EntryV::Discovered(d@),
            HostEntry::Pinned { host, profile_id, label } => EntryV::Pinned {
                host: host@,
                profile_id: profile_id@,
                label: label@,
            },
        }
    }
}

impl Clone for HostEntry {
    fn clone(&self) -> (r: Self)
        ensures
            r@ == self@,
    {
        match self {
            HostEntry::Known(h) => HostEntry::Known(h.clone()),
            HostEntry::Discovered(d) => HostEntry::Discovered(d.clone()),
            HostEntry::Pinned { host, profile_id, label } => HostEntry::Pinned {
                host: host.clone(),
                profile_id: profile_id.clone(),
                label: label.clone(),
            },
        }
    }
}

impl EntryV {
    pub open spec fn name(self) -> Seq<char> {
        match self {
            EntryV::Known(h) => h.name,
            EntryV::Discovered(d) => d.name,
            EntryV::Pinned { label, .. } => label,
        }
    }

    pub open spec fn has_menu(self) -> bool {
        !(self is Pinned)
    }

    pub open spec fn host(self) -> Seq<char> {
        match self {
            EntryV::Known(h) => h.addr,
            EntryV::Discovered(d) => d.addr,
            EntryV::Pinned { host, .. } => host.addr,
        }
    }

    pub open spec fn port(self) -> u16 {
        match self {
            EntryV::Known(h) => h.port,
            EntryV::Discovered(d) => d.port,
            EntryV::Pinned { host, .. } => host.port,
        }
    }

    pub open spec fn is_paired(self) -> bool {
        match self {
            EntryV::Known(h) => h.is_paired(),
            EntryV::Discovered(d) => false,
            EntryV::Pinned { host, .. } => host.is_paired(),
        }
    }

    pub open spec fn mgmt_port(self) -> Option<u16> {
        match self {
            EntryV::Known(h) => h.mgmt_port,
            EntryV::Discovered(d) => d.mgmt_port,
            EntryV::Pinned { host, .. } => host.mgmt_port,
        }
    }

    pub open spec fn mac(self) -> Seq<Seq<char>> {
        match self {
            EntryV::Known(h) => h.mac,
            EntryV::Discovered(d) => d.mac,
            EntryV::Pinned { host, .. } => host.mac,
        }
    }

    pub open spec fn os(self) -> Seq<char> {
        match self {
            EntryV::Known(h) => h.os,
            EntryV::Discovered(d) => d.os,
            EntryV::Pinned { host, .. } => host.os,
        }
    }

    pub open spec fn target(self) -> TargetV {
        TargetV { host: self.host(), port: self.port() }
    }
}

impl HostEntry {
    pub fn name(&self) -> (r: &str)
        ensures
            r@ == self@.name(),
    {
        match self {
            HostEntry::Known(h) => h.name.as_str(),
            HostEntry::Discovered(d) => d.name.as_str(),
            HostEntry::Pinned { label, .. } => label.as_str(),
        }
    }

    /// Whether the row carries the actions button: a host does, a pinned card does not.
    pub fn has_menu(&self) -> (r: bool)
        ensures
            r == self@.has_menu(),
    {
        match self {
            HostEntry::Pinned { .. } => false,
            _ => true,
        }
    }

    pub fn host(&self) -> (r: &str)
        ensures
            r@ == self@.host(),
    {
        match self {
            HostEntry::Known(h) => h.addr.as_str(),
            HostEntry::Discovered(d) => d.addr.as_str(),
            HostEntry::Pinned { host, .. } => host.addr.as_str(),
        }
    }

    pub fn port(&self) -> (r: u16)
        ensures
            r == self@.port(),
    {
        match self {
            HostEntry::Known(h) => h.port,
            HostEntry::Discovered(d) => d.port,
            HostEntry::Pinned { host, .. } => host.port,
        }
    }

    pub fn is_paired(&self) -> (r: bool)
        ensures
            r == self@.is_paired(),
    {
        match self {
            HostEntry::Known(h) => h.is_paired(),
            HostEntry::Discovered(_) => false,
            HostEntry::Pinned { host, .. } => host.is_paired(),
        }
    }

    pub fn mgmt_port(&self) -> (r: Option<u16>)
        ensures
            r == self@.mgmt_port(),
    {
        match self {
            HostEntry::Known(h) => h.mgmt_port,
            HostEntry::Discovered(d) => d.mgmt_port,
            HostEntry::Pinned { host, .. } => host.mgmt_port,
        }
    }

    /// Wake-on-LAN addresses known for this entry so far.
    pub fn mac(&self) -> (r: &Vec<String>)
        ensures
            texts(r@) == self@.mac(),
    {
        match self {
            HostEntry::Known(h) => &h.mac,
            HostEntry::Discovered(d) => &d.mac,
            HostEntry::Pinned { host, .. } => &host.mac,
        }
    }

    pub fn os(&self) -> (r: &str)
        ensures
            r@ == self@.os(),
    {
        match self {
            HostEntry::Known(h) => h.os.as_str(),
            HostEntry::Discovered(d) => d.os.as_str(),
            HostEntry::Pinned { host, .. } => host.os.as_str(),
        }
    }

    /// Where the entry's host is.
    pub fn target(&self) -> (r: Target)
        ensures
            r@ == self@.target(),
    {
        Target { host: self.host().to_owned(), port: self.port() }
    }
}

pub open spec fn entry_views(v: Seq<HostEntry>) -> Seq<EntryV> {
    views(v)
}

/// Whether a saved host is at an endpoint.
pub open spec fn host_is(host: Seq<char>, port: u16) -> spec_fn(HostV) -> bool {
    |h: HostV| h.addr == host && h.port == port
}

pub open spec fn host_is_not(host: Seq<char>, port: u16) -> spec_fn(HostV) -> bool {
    |h: HostV| !(h.addr == host && h.port == port)
}

pub open spec fn entry_is(host: Seq<char>, port: u16) -> spec_fn(EntryV) -> bool {
    |e: EntryV| e.host() == host && e.port() == port
}

pub open spec fn profile_is(id: Seq<char>) -> spec_fn(ProfileV) -> bool {
    |p: ProfileV| p.id == id
}

/// The position of the saved host at an endpoint.
pub open spec fn host_pos(known: Seq<HostV>, host: Seq<char>, port: u16) -> Option<int> {
    first_pos(known, host_is(host, port))
}

/// The saved host at an endpoint.
pub open spec fn host_at(known: Seq<HostV>, host: Seq<char>, port: u16) -> Option<HostV> {
    match host_pos(known, host, port) {
        Some(i) => Some(known[i]),
        None => None,
    }
}

/// The first row of an endpoint.
pub open spec fn entry_pos(entries: Seq<EntryV>, host: Seq<char>, port: u16) -> Option<int> {
    first_pos(entries, entry_is(host, port))
}

pub open spec fn profile_pos(profiles: Seq<ProfileV>, id: Seq<char>) -> Option<int> {
    first_pos(profiles, profile_is(id))
}

/// The position of the saved host at an endpoint.
pub fn find_host(known: &Vec<KnownHost>, host: &str, port: u16) -> (r: Option<usize>)
    ensures
        match (r, host_pos(host_views(known@), host@, port)) {
            (Some(k), Some(i)) => k == i && k < known.len() && known[k as int].addr@ == host@ && known[k as int].port
                == port,
            (None, None) => true,
            _ => false,
        },
{
    let ghost p = host_is(host@, port);
    let f = |h: &KnownHost| -> (b: bool)
        ensures
            b == p(h@),
    { same_text(h.addr.as_str(), host) && h.port == port };
    find_by(known, f, Ghost(p))
}

/// The first row of an endpoint.
pub fn find_entry(entries: &Vec<HostEntry>, host: &str, port: u16) -> (r: Option<usize>)
    ensures
        match (r, entry_pos(entry_views(entries@), host@, port)) {
            (Some(k), Some(i)) => k == i && k < entries.len(),
            (None, None) => true,
            _ => false,
        },
{
    let ghost p = entry_is(host@, port);
    let f = |e: &HostEntry| -> (b: bool)
        ensures
            b == p(e@),
    { same_text(e.host(), host) && e.port() == port };
    find_by(entries, f, Ghost(p))
}

/// The position of a profile in the catalog.
pub fn find_profile(profiles: &Vec<StreamProfile>, id: &str) -> (r: Option<usize>)
    ensures
        match (r, profile_pos(profile_views(profiles@), id@)) {
            (Some(k), Some(i)) => k == i && k < profiles.len() && profiles[k as int].id@ == id@,
            (None, None) => true,
            _ => false,
        },
{
    let ghost p = profile_is(id@);
    let f = |x: &StreamProfile| -> (b: bool)
        ensures
            b == p(x@),
    { same_text(x.id.as_str(), id) };
    find_by(profiles, f, Ghost(p))
}

/// "Host · Profile".
pub open spec fn pin_label(host: Seq<char>, profile: Seq<char>) -> Seq<char> {
    host + " · "@ + profile
}

/// The cards of a host's first `n` pins. A pin whose profile has left the catalog is skipped,
/// not shown broken.
pub open spec fn pin_cards(h: HostV, profiles: Seq<ProfileV>, n: int) -> Seq<EntryV>
    decreases n,
{
    if n <= 0 {
        Seq::empty()
    } else {
        let rest = pin_cards(h, profiles, n - 1);
        let id = h.pinned_profiles[n - 1];
        match profile_pos(profiles, id) {
            Some(i) => rest.push(
                EntryV::Pinned { host: h, profile_id: id, label: pin_label(h.name, profiles[i].name) },
            ),
            None => rest,
        }
    }
}

/// The rows of the first `n` saved hosts: each host, then one card per profile pinned under it.
pub open spec fn known_rows(known: Seq<HostV>, profiles: Seq<ProfileV>, n: int) -> Seq<EntryV>
    decreases n,
{
    if n <= 0 {
        Seq::empty()
    } else {
        let h = known[n - 1];
        known_rows(known, profiles, n - 1).push(EntryV::Known(h)) + pin_cards(
            h,
            profiles,
            h.pinned_profiles.len() as int,
        )
    }
}

/// The sidebar's rows from the saved hosts.
pub fn known_entries(known: &Vec<KnownHost>, profiles: &Vec<StreamProfile>) -> (r: Vec<HostEntry>)
    ensures
        entry_views(r@) == known_rows(host_views(known@), profile_views(profiles@), known.len() as int),
{
    let ghost kv = host_views(known@);
    let ghost pv = profile_views(profiles@);
    let mut out: Vec<HostEntry> = Vec::new();
    let mut i: usize = 0;
    assert(entry_views(out@) =~= known_rows(kv, pv, 0));
    while i < known.len()
        invariant
            kv == host_views(known@),
            pv == profile_views(profiles@),
            i <= known.len(),
            entry_views(out@) == known_rows(kv, pv, i as int),
        decreases known.len() - i,
    {
        let h: &KnownHost = &known[i];
        let ghost hv = h@;
        let ghost base = entry_views(out@).push(EntryV::Known(hv));
        assert(kv[i as int] == hv);
        out.push(HostEntry::Known(h.clone()));
        assert(entry_views(out@) =~= base);
        let mut j: usize = 0;
        assert(base + pin_cards(hv, pv, 0) =~= base);
        while j < h.pinned_profiles.len()
            invariant
                pv == profile_views(profiles@),
                hv == h@,
                j <= h.pinned_profiles.len(),
                entry_views(out@) == base + pin_cards(hv, pv, j as int),
            decreases h.pinned_profiles.len() - j,
        {
            let id: &String = &h.pinned_profiles[j];
            assert(hv.pinned_profiles[j as int] == id@);
            match find_profile(profiles, id.as_str()) {
                Some(at) => {
                    let ghost before = entry_views(out@);
                    assert(pv[at as int] == profiles@[at as int]@);
                    let label = join3(h.name.as_str(), " · ", profiles[at].name.as_str());
                    let card = HostEntry::Pinned { host: h.clone(), profile_id: id.clone(), label };
                    let ghost cv = card@;
                    assert(cv == EntryV::Pinned {
                        host: hv,
                        profile_id: id@,
                        label: pin_label(hv.name, pv[at as int].name),
                    });
                    assert(pin_cards(hv, pv, j + 1) == pin_cards(hv, pv, j as int).push(cv));
                    out.push(card);
                    assert(entry_views(out@) =~= before.push(cv));
                    assert(entry_views(out@) =~= base + pin_cards(hv, pv, j + 1));
                },
                None => {
                    assert(pin_cards(hv, pv, j + 1) == pin_cards(hv, pv, j as int));
                },
            }
            j = j + 1;
        }
        i = i + 1;
    }
    out
}

/// One host's last known reachability.
pub struct Reach {
    pub at: Target,
    pub online: bool,
}

pub struct ReachV {
    pub at: TargetV,
    pub online: bool,
}

impl View for Reach {
    type V = ReachV;

    open spec fn view(&self) -> ReachV {
        ReachV { at: self.at@, online: self.online }
    }
}

pub open spec fn reach_is(at: TargetV) -> spec_fn(ReachV) -> bool {
    |r: ReachV| r.at == at
}

/// What is recorded of an endpoint, `None` until something is.
pub open spec fn online_of(reach: Seq<ReachV>, at: TargetV) -> Option<bool> {
    match first_pos(reach, reach_is(at)) {
        Some(i) => Some(reach[i].online),
        None => None,
    }
}

/// The record with an endpoint's state written.
pub open spec fn record(reach: Seq<ReachV>, at: TargetV, online: bool) -> Seq<ReachV> {
    match first_pos(reach, reach_is(at)) {
        Some(i) => reach.update(i, ReachV { at, online }),
        None => reach.push(ReachV { at, online }),
    }
}

/// A written state is what is read back, and no other endpoint's state moves.
pub proof fn law_record_read_back(reach: Seq<ReachV>, at: TargetV, online: bool, other: TargetV)
    ensures
        online_of(record(reach, at, online), at) == Some(online),
        other != at ==> online_of(record(reach, at, online), other) == online_of(reach, other),
{
    let r = record(reach, at, online);
    lemma_first_from(reach, reach_is(at), 0);
    lemma_first_from(r, reach_is(at), 0);
    lemma_first_from(reach, reach_is(other), 0);
    lemma_first_from(r, reach_is(other), 0);
    match first_pos(reach, reach_is(at)) {
        Some(i) => {
            assert(reach_is(at)(r[i]));
        },
        None => {
            assert(reach_is(at)(r[reach.len() as int]));
        },
    }
    if other != at {
        assert forall|j: int| 0 <= j < reach.len() implies reach_is(other)(#[trigger] r[j]) == reach_is(other)(
            reach[j],
        ) by {
            if first_pos(reach, reach_is(at)) == Some(j) {
                assert(reach[j].at == at);
            }
        }
        match first_pos(reach, reach_is(other)) {
            Some(k) => {
                assert(reach_is(other)(r[k]));
                match first_pos(r, reach_is(other)) {
                    Some(m) => {
                        if m < k {
                            assert(reach_is(other)(reach[m]));
                        }
                    },
                    None => {},
                }
            },
            None => {
                match first_pos(r, reach_is(other)) {
                    Some(m) => {
                        if m < reach.len() {
                            assert(reach_is(other)(reach[m]));
                        }
                    },
                    None => {},
                }
            },
        }
    }
}

/// Every host the menu knows about, and what it has learned about them.
pub struct HostsState {
    pub known: Vec<KnownHost>,
    /// The sidebar's rows: saved hosts first, then anything discovery has turned up since.
    pub entries: Vec<HostEntry>,
    /// Last known reachability.
    pub reachable: Vec<Reach>,
    /// When the last reachability sweep ran.
    pub reach_last: Option<u64>,
    /// The host the user has just told to sleep or shut down. While it is set that host is left
    /// alone; picking it again clears it.
    pub powered_down: Option<Target>,
    /// Whether this TV is rooted, `None` until the probe answers.
    pub rooted: Option<bool>,
}

/// A [`HostsState`] as a value.
pub struct HostsV {
    pub known: Seq<HostV>,
    pub entries: Seq<EntryV>,
    pub reachable: Seq<ReachV>,
    pub reach_last: Option<u64>,
    pub powered_down: Option<TargetV>,
    pub rooted: Option<bool>,
}

impl View for HostsState {
    type V = HostsV;

    open spec fn view(&self) -> HostsV {
        HostsV {
            known: host_views(self.known@),
            entries: entry_views(self.entries@),
            reachable: views(self.reachable@),
            reach_last: self.reach_last,
            powered_down: target_of(self.powered_down),
            rooted: self.rooted,
        }
    }
}

impl HostsV {
    pub open spec fn note_reachable(self, at: TargetV, online: bool) -> HostsV {
        if online_of(self.reachable, at) == Some(online) {
            self
        } else {
            HostsV { reachable: record(self.reachable, at, online), ..self }
        }
    }

    /// Whether an endpoint already has a row, saved or discovered.
    pub open spec fn listed(self, host: Seq<char>, port: u16) -> bool {
        ||| host_pos(self.known, host, port) is Some
        ||| exists|i: int|
            0 <= i < self.entries.len() && (#[trigger] self.entries[i]) is Discovered && self.entries[i].host() == host
                && self.entries[i].port() == port
    }

    pub open spec fn host_at(self, at: TargetV) -> Option<HostV> {
        host_at(self.known, at.host, at.port)
    }
}

impl HostsState {
    pub fn new() -> (r: Self)
        ensures
            r@ == (HostsV {
                known: Seq::empty(),
                entries: Seq::empty(),
                reachable: Seq::empty(),
                reach_last: None,
                powered_down: None,
                rooted: None,
            }),
    {
        let r = HostsState {
            known: Vec::new(),
            entries: Vec::new(),
            reachable: Vec::new(),
            reach_last: None,
            powered_down: None,
            rooted: None,
        };
        assert(r@.known =~= Seq::empty());
        assert(r@.entries =~= Seq::empty());
        assert(r@.reachable =~= Seq::empty());
        r
    }

    fn find_reach(&self, host: &str, port: u16) -> (r: Option<usize>)
        ensures
            match (r, first_pos(self@.reachable, reach_is(TargetV { host: host@, port }))) {
                (Some(k), Some(i)) => k == i && k < self.reachable.len(),
                (None, None) => true,
                _ => false,
            },
    {
        let ghost p = reach_is(TargetV { host: host@, port });
        let f = |x: &Reach| -> (b: bool)
            ensures
                b == p(x@),
        { same_text(x.at.host.as_str(), host) && x.at.port == port };
        find_by(&self.reachable, f, Ghost(p))
    }

    /// Last known reachability of an endpoint, `None` until something is known.
    pub fn online(&self, host: &str, port: u16) -> (r: Option<bool>)
        ensures
            r == online_of(self@.reachable, TargetV { host: host@, port }),
    {
        match self.find_reach(host, port) {
            Some(i) => {
                assert(self@.reachable[i as int] == self.reachable@[i as int]@);
                Some(self.reachable[i].online)
            },
            None => None,
        }
    }

    /// The one place reachability is written. Reports whether the recorded state moved.
    pub fn note_reachable(&mut self, host: &str, port: u16, online: bool) -> (r: bool)
        ensures
            final(self)@ == old(self)@.note_reachable(TargetV { host: host@, port }, online),
            r == (online_of(old(self)@.reachable, TargetV { host: host@, port }) != Some(online)),
    {
        let ghost at = TargetV { host: host@, port };
        match self.find_reach(host, port) {
            Some(i) => {
                assert(self@.reachable[i as int] == self.reachable@[i as int]@);
                if self.reachable[i].online == online {
                    return false;
                }
                self.reachable.set(i, Reach { at: Target { host: host.to_owned(), port }, online });
                assert(self@.reachable =~= record(old(self)@.reachable, at, online));
            },
            None => {
                self.reachable.push(Reach { at: Target { host: host.to_owned(), port }, online });
                assert(self@.reachable =~= record(old(self)@.reachable, at, online));
            },
        }
        true
    }

    /// Whether an endpoint already has a sidebar row, saved or merely discovered.
    pub fn host_listed(&self, host: &str, port: u16) -> (r: bool)
        ensures
            r == self@.listed(host@, port),
    {
        if find_host(&self.known, host, port).is_some() {
            return true;
        }
        let mut i: usize = 0;
        while i < self.entries.len()
            invariant
                i <= self.entries.len(),
                host_pos(self@.known, host@, port) is None,
                forall|k: int|
                    0 <= k < i ==> !((#[trigger] self@.entries[k]) is Discovered && self@.entries[k].host() == host@
                        && self@.entries[k].port() == port),
            decreases self.entries.len() - i,
        {
            assert(self@.entries[i as int] == self.entries@[i as int]@);
            let here: bool = match &self.entries[i] {
                HostEntry::Discovered(d) => same_text(d.addr.as_str(), host) && d.port == port,
                _ => false,
            };
            if here {
                return true;
            }
            i = i + 1;
        }
        false
    }

    /// Drops the saved host at an endpoint.
    pub fn drop_known(&mut self, host: &str, port: u16)
        ensures
            final(self)@ == (HostsV { known: keep(old(self)@.known, host_is_not(host@, port)), ..old(self)@ }),
    {
        let ghost p = host_is_not(host@, port);
        let f = |h: &KnownHost| -> (b: bool)
            ensures
                b == p(h@),
        { !(same_text(h.addr.as_str(), host) && h.port == port) };
        retain_by(&mut self.known, f, Ghost(p));
    }
}

/// Dropping a host leaves no saved host at its endpoint.
pub proof fn law_dropped_host_is_gone(known: Seq<HostV>, host: Seq<char>, port: u16)
    ensures
        host_pos(keep(known, host_is_not(host, port)), host, port) is None,
{
    let k = keep(known, host_is_not(host, port));
    crate::seqs::lemma_keep(known, host_is_not(host, port));
    lemma_first_from(k, host_is(host, port), 0);
    match host_pos(k, host, port) {
        Some(i) => {
            assert(host_is_not(host, port)(k[i]));
        },
        None => {},
    }
}

} // verus!
