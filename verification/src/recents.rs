//! Per-host launch history: when each game was last played from this TV.
use vstd::prelude::*;
use crate::seqs::{keep, lemma_keep, retain_by, views};
use crate::text::{has_text, same_text, texts};

verus! {

/// One game's last launch.
pub struct Recent {
    pub host: String,
    pub port: u16,
    pub id: String,
    pub at: u64,
}

/// A [`Recent`] as a value.
pub struct RecentV {
    pub host: Seq<char>,
    pub port: u16,
    pub id: Seq<char>,
    pub at: u64,
}

impl View for Recent {
    type V = RecentV;

    open spec fn view(&self) -> RecentV {
        RecentV { host: self.host@, port: self.port, id: self.id@, at: self.at }
    }
}

/// Every host's launch history.
pub struct Recents {
    pub entries: Vec<Recent>,
}

impl View for Recents {
    type V = Seq<RecentV>;

    open spec fn view(&self) -> Seq<RecentV> {
        views(self.entries@)
    }
}

/// When `id` was last launched on a host, 0 for never, reading from entry `i` on.
pub open spec fn played_from(r: Seq<RecentV>, host: Seq<char>, port: u16, id: Seq<char>, i: int) -> u64
    decreases r.len() - i,
{
    if i < 0 || i >= r.len() {
        0
    } else if r[i].host == host && r[i].port == port && r[i].id == id {
        r[i].at
    } else {
        played_from(r, host, port, id, i + 1)
    }
}

/// When `id` was last launched on a host, 0 for never.
pub open spec fn played(r: Seq<RecentV>, host: Seq<char>, port: u16, id: Seq<char>) -> u64 {
    played_from(r, host, port, id, 0)
}

/// Whether an entry belongs to another host.
pub open spec fn elsewhere(host: Seq<char>, port: u16) -> spec_fn(RecentV) -> bool {
    |e: RecentV| !(e.host == host && e.port == port)
}

/// Whether an entry belongs to another host, or to a game that is still listed.
pub open spec fn still_listed(host: Seq<char>, port: u16, live: Seq<Seq<char>>) -> spec_fn(RecentV) -> bool {
    |e: RecentV| !(e.host == host && e.port == port) || live.contains(e.id)
}

impl Recents {
    pub fn when(&self, host: &str, port: u16, id: &str) -> (r: u64)
        ensures
            r == played(self@, host@, port, id@),
    {
        let mut i: usize = 0;
        while i < self.entries.len()
            invariant
                i <= self.entries.len(),
                played(self@, host@, port, id@) == played_from(self@, host@, port, id@, i as int),
            decreases self.entries.len() - i,
        {
            let e = &self.entries[i];
            assert(self@[i as int] == self.entries@[i as int]@);
            if same_text(e.host.as_str(), host) && e.port == port && same_text(e.id.as_str(), id) {
                return e.at;
            }
            i = i + 1;
        }
        0
    }

    /// Drops a host's history; reports whether it had any.
    pub fn forget_host(&mut self, host: &str, port: u16) -> (r: bool)
        ensures
            final(self)@ == keep(old(self)@, elsewhere(host@, port)),
            r == (final(self)@ != old(self)@),
    {
        let ghost all = self@;
        let ghost p = elsewhere(host@, port);
        let n: usize = self.entries.len();
        let stays = |e: &Recent| -> (b: bool)
            ensures
                b == p(e@),
        { !(same_text(e.host.as_str(), host) && e.port == port) };
        retain_by(&mut self.entries, stays, Ghost(p));
        proof {
            lemma_keep(all, p);
        }
        self.entries.len() != n
    }

    /// Drops a host's history of games it no longer lists; reports whether any went.
    pub fn prune(&mut self, host: &str, port: u16, live: &Vec<String>) -> (r: bool)
        ensures
            final(self)@ == keep(old(self)@, still_listed(host@, port, texts(live@))),
            r == (final(self)@ != old(self)@),
    {
        let ghost all = self@;
        let ghost p = still_listed(host@, port, texts(live@));
        let n: usize = self.entries.len();
        let stays = |e: &Recent| -> (b: bool)
            ensures
                b == p(e@),
        { !(same_text(e.host.as_str(), host) && e.port == port) || has_text(live, e.id.as_str()) };
        retain_by(&mut self.entries, stays, Ghost(p));
        proof {
            lemma_keep(all, p);
        }
        self.entries.len() != n
    }
}

} // verus!
