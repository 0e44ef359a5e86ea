//! Hearing of hosts: announcements, sweeps and answers.
use vstd::prelude::*;
use crate::app::{AppV, DueLineV, RoundV};
use crate::flags::Job;
use crate::hosts::{host_is, host_pos, law_record_read_back, online_of, reach_is, EntryV, ReachV};
use crate::laws::{asked, document, law_saved_host_is_found, saved_at};
use crate::model::{FoundV, HostV, LibraryError, Screen, TargetV};
use crate::seqs::{lemma_first_from, lemma_first_is};
use crate::slots::{EffectV, EndpointV};

verus! {

/// Where an announcement came from.
pub open spec fn whence(f: FoundV) -> TargetV {
    TargetV { host: f.addr, port: f.port }
}

/// The state on record for a target is that of its first mark, and there is none where it has no mark.
pub proof fn law_state_is_the_mark(reach: Seq<ReachV>, at: TargetV, i: int)
    ensures
        (0 <= i < reach.len() && reach[i].at == at && (forall|j: int| 0 <= j < i ==> (#[trigger] reach[j]).at != at))
            ==> online_of(reach, at) == Some(reach[i].online),
        (forall|j: int| 0 <= j < reach.len() ==> (#[trigger] reach[j]).at != at) <==> online_of(reach, at) is None,
{
    lemma_first_from(reach, reach_is(at), 0);
    if 0 <= i < reach.len() && reach[i].at == at && (forall|j: int| 0 <= j < i ==> (#[trigger] reach[j]).at != at) {
        lemma_first_is(reach, reach_is(at), i);
    }
    if online_of(reach, at) is None {
        assert forall|j: int| 0 <= j < reach.len() implies (#[trigger] reach[j]).at != at by {
            assert(!reach_is(at)(reach[j]));
        }
    }
}

/// What one announcement leaves as it was.
proof fn lemma_heard_keeps(r: RoundV, f: FoundV)
    ensures
        ({
            let n = r.heard(f);
            &&& n.app.screens == r.app.screens
            &&& n.app.nav == r.app.nav
            &&& n.app.effects == r.app.effects
            &&& n.app.jobs == r.app.jobs
            &&& n.app.settings == r.app.settings
            &&& n.app.profiles == r.app.profiles
            &&& n.app.recents == r.app.recents
            &&& n.app.launch_ready == r.app.launch_ready
            &&& n.app.library.selected_host == r.app.library.selected_host
            &&& n.app.hosts.powered_down == r.app.hosts.powered_down
            &&& n.app.hosts.known.len() == r.app.hosts.known.len()
            &&& forall|p: int|
                0 <= p < r.app.hosts.known.len() ==> (#[trigger] n.app.hosts.known[p]) == (HostV {
                    mac: n.app.hosts.known[p].mac,
                    os: n.app.hosts.known[p].os,
                    ..r.app.hosts.known[p]
                })
        }),
{
    lemma_first_from(r.app.hosts.known, host_is(f.addr, f.port), 0);
}

/// What a round leaves as it was, and what it marks.
proof fn lemma_round(r: RoundV, found: Seq<FoundV>, n: int)
    requires
        0 <= n <= found.len(),
    ensures
        ({
            let a = r.heard_all(found, n);
            &&& a.app.screens == r.app.screens
            &&& a.app.nav == r.app.nav
            &&& a.app.effects == r.app.effects
            &&& a.app.jobs == r.app.jobs
            &&& a.app.settings == r.app.settings
            &&& a.app.profiles == r.app.profiles
            &&& a.app.recents == r.app.recents
            &&& a.app.launch_ready == r.app.launch_ready
            &&& a.app.library.selected_host == r.app.library.selected_host
            &&& a.app.hosts.powered_down == r.app.hosts.powered_down
            &&& a.app.hosts.known.len() == r.app.hosts.known.len()
            &&& forall|p: int|
                0 <= p < r.app.hosts.known.len() ==> (#[trigger] a.app.hosts.known[p]) == (HostV {
                    mac: a.app.hosts.known[p].mac,
                    os: a.app.hosts.known[p].os,
                    ..r.app.hosts.known[p]
                })
            &&& forall|i: int|
                0 <= i < n ==> online_of(a.app.hosts.reachable, whence(#[trigger] found[i])) == Some(true)
            &&& forall|at: TargetV|
                (forall|i: int| 0 <= i < n ==> whence(#[trigger] found[i]) != at) ==> #[trigger] online_of(
                    a.app.hosts.reachable,
                    at,
                ) == online_of(r.app.hosts.reachable, at)
        }),
    decreases n,
{
    if n > 0 {
        lemma_round(r, found, n - 1);
        let p = r.heard_all(found, n - 1);
        let f = found[n - 1];
        lemma_heard_keeps(p, f);
        let a = p.heard(f);
        assert forall|i: int| 0 <= i < n implies online_of(a.app.hosts.reachable, whence(#[trigger] found[i]))
            == Some(true) by {
            law_record_read_back(p.app.hosts.reachable, whence(f), true, whence(found[i]));
        }
        assert forall|at: TargetV|
            (forall|i: int| 0 <= i < n ==> whence(#[trigger] found[i]) != at) implies #[trigger] online_of(
            a.app.hosts.reachable,
            at,
        ) == online_of(r.app.hosts.reachable, at) by {
            assert(whence(found[n - 1]) != at);
            assert(forall|i: int| 0 <= i < n - 1 ==> whence(#[trigger] found[i]) != at);
            law_record_read_back(p.app.hosts.reachable, whence(f), true, at);
        }
    }
}

/// What is left of a round's own menu when it is drained.
proof fn lemma_drained(app: AppV, found: Seq<FoundV>, now: u64)
    ensures
        ({
            let r = app.discovery_round(found);
            let after = app.drain_discovery(found, now).0;
            &&& after.hosts.reachable == r.app.hosts.reachable
            &&& after.hosts.known == r.app.hosts.known
            &&& after.hosts.entries == r.app.hosts.entries
            &&& after.settings == r.app.settings
            &&& after.profiles == r.app.profiles
        }),
{
}

/// A host that announces itself is on, and a host that does not is as it was.
pub proof fn law_announced_hosts_are_on(app: AppV, found: Seq<FoundV>, now: u64)
    ensures
        ({
            let after = app.drain_discovery(found, now).0;
            &&& forall|i: int|
                0 <= i < found.len() ==> online_of(
                    after.hosts.reachable,
                    (TargetV { host: (#[trigger] found[i]).addr, port: found[i].port }),
                ) == Some(true)
            &&& forall|at: TargetV|
                (forall|i: int|
                    0 <= i < found.len() ==> !((#[trigger] found[i]).addr == at.host && found[i].port == at.port))
                    ==> #[trigger] online_of(after.hosts.reachable, at) == online_of(app.hosts.reachable, at)
        }),
{
    let r = RoundV { app, sidebar: false, metadata: false, grid: false, woke: None };
    let n = found.len() as int;
    lemma_round(r, found, n);
    lemma_drained(app, found, now);
    let after = app.drain_discovery(found, now).0;
    assert forall|i: int| 0 <= i < found.len() implies online_of(
        after.hosts.reachable,
        (TargetV { host: (#[trigger] found[i]).addr, port: found[i].port }),
    ) == Some(true) by {
        assert(whence(found[i]) == TargetV { host: found[i].addr, port: found[i].port });
    }
    assert forall|at: TargetV|
        (forall|i: int|
            0 <= i < found.len() ==> !((#[trigger] found[i]).addr == at.host && found[i].port
                == at.port)) implies #[trigger] online_of(after.hosts.reachable, at) == online_of(
        app.hosts.reachable,
        at,
    ) by {
        assert forall|i: int| 0 <= i < n implies whence(#[trigger] found[i]) != at by {}
    }
}

/// Which announcement a round takes for the end of the wait.
proof fn lemma_round_wakes(r: RoundV, found: Seq<FoundV>, n: int, k: int)
    requires
        0 <= k < n <= found.len(),
        r.app.screens.wake is Some,
        found[k].addr == r.app.screens.wake->0.host,
        found[k].port == r.app.screens.wake->0.port,
        forall|j: int|
            k < j < n ==> !((#[trigger] found[j]).addr == r.app.screens.wake->0.host && found[j].port
                == r.app.screens.wake->0.port),
    ensures
        r.heard_all(found, n).woke == Some((whence(found[k]), found[k].mgmt_port)),
    decreases n,
{
    lemma_round(r, found, n - 1);
    if k < n - 1 {
        lemma_round_wakes(r, found, n - 1, k);
        let f = found[n - 1];
        assert(!(f.addr == r.app.screens.wake->0.host && f.port == r.app.screens.wake->0.port));
    }
}

/// A round in which nothing that is waited for was heard.
proof fn lemma_round_wakes_nothing(r: RoundV, found: Seq<FoundV>, n: int)
    requires
        0 <= n <= found.len(),
        r.app.screens.wake is Some ==> (forall|j: int|
            0 <= j < n ==> !((#[trigger] found[j]).addr == r.app.screens.wake->0.host && found[j].port
                == r.app.screens.wake->0.port)),
    ensures
        r.heard_all(found, n).woke == r.woke,
    decreases n,
{
    if n > 0 {
        lemma_round_wakes_nothing(r, found, n - 1);
        lemma_round(r, found, n - 1);
        let f = found[n - 1];
    }
}

/// A host that was being woken and announces itself is selected, and its library asked for at the port
/// it last announced.
pub proof fn law_announced_wake_selects_its_host(app: AppV, found: Seq<FoundV>, k: int, now: u64)
    requires
        0 <= k < found.len(),
        app.screens.wake is Some,
        found[k].addr == app.screens.wake->0.host,
        found[k].port == app.screens.wake->0.port,
        forall|j: int|
            k < j < found.len() ==> !((#[trigger] found[j]).addr == found[k].addr && found[j].port == found[k].port),
    ensures
        ({
            let at = TargetV { host: found[k].addr, port: found[k].port };
            let after = app.drain_discovery(found, now).0;
            &&& after.library.selected_host == Some(at)
            &&& after.jobs.out.contains(Job::Games)
            &&& after.effects.len() > app.effects.len()
            &&& after.effects.last() is FetchGames
            &&& after.effects.last()->FetchGames_0.at == at
            &&& after.effects.last()->FetchGames_0.mgmt_port == found[k].mgmt_port
            &&& asked(app, after, EffectV::Save(document(after)))
            &&& after.screens.wake is None
            &&& after.nav.screen != Screen::Wake
            &&& after.hosts.powered_down != Some(at)
            &&& after.library_status_due == Some(
                DueLineV { from: now, line: app.screens.wake->0.name + " is back online — loading its library…"@ },
            )
            &&& app.drain_discovery(found, now).1
        }),
{
    let r = RoundV { app, sidebar: false, metadata: false, grid: false, woke: None };
    lemma_round(r, found, found.len() as int);
    lemma_round_wakes(r, found, found.len() as int, k);
    let after = app.drain_discovery(found, now).0;
    assert(after.effects[after.effects.len() - 2] == EffectV::Save(document(after)));
}

/// Announcements of other hosts neither end a wait nor select anything, and leave the screen alone.
pub proof fn law_announcements_select_nothing_else(app: AppV, found: Seq<FoundV>, now: u64)
    requires
        app.screens.wake is Some ==> (forall|j: int|
            0 <= j < found.len() ==> !((#[trigger] found[j]).addr == app.screens.wake->0.host && found[j].port
                == app.screens.wake->0.port)),
    ensures
        ({
            let after = app.drain_discovery(found, now).0;
            &&& after.library.selected_host == app.library.selected_host
            &&& after.screens == app.screens
            &&& after.nav == app.nav
            &&& after.jobs == app.jobs
            &&& after.launch_ready == app.launch_ready
            &&& after.settings == app.settings
            &&& after.profiles == app.profiles
            &&& after.hosts.powered_down == app.hosts.powered_down
            &&& after.effects.len() <= app.effects.len() + 1
            &&& forall|j: int| 0 <= j < app.effects.len() ==> after.effects[j] == app.effects[j]
        }),
{
    let r = RoundV { app, sidebar: false, metadata: false, grid: false, woke: None };
    lemma_round(r, found, found.len() as int);
    lemma_round_wakes_nothing(r, found, found.len() as int);
}

/// What a round learns of one saved host.
proof fn lemma_round_learns(r: RoundV, found: Seq<FoundV>, n: int, p: int, at: TargetV)
    requires
        0 <= n <= found.len(),
        saved_at(r.app.hosts.known, p, at),
    ensures
        ({
            let a = r.heard_all(found, n).app.hosts.known[p];
            let h = r.app.hosts.known[p];
            &&& saved_at(r.heard_all(found, n).app.hosts.known, p, at)
            &&& (forall|j: int| 0 <= j < n && whence(found[j]) == at ==> (#[trigger] found[j]).mac.len() == 0) ==> a.mac
                == h.mac
            &&& (forall|j: int| 0 <= j < n && whence(found[j]) == at ==> (#[trigger] found[j]).os.len() == 0) ==> a.os
                == h.os
            &&& forall|i: int|
                0 <= i < n && whence(#[trigger] found[i]) == at && found[i].mac.len() > 0 && (forall|j: int|
                    i < j < n && whence(found[j]) == at ==> (#[trigger] found[j]).mac.len() == 0) ==> a.mac
                    == found[i].mac
            &&& forall|i: int|
                0 <= i < n && whence(#[trigger] found[i]) == at && found[i].os.len() > 0 && (forall|j: int|
                    i < j < n && whence(found[j]) == at ==> (#[trigger] found[j]).os.len() == 0) ==> a.os == found[i].os
        }),
    decreases n,
{
    if n > 0 {
        lemma_round_learns(r, found, n - 1, p, at);
        let before = r.heard_all(found, n - 1);
        let f = found[n - 1];
        lemma_heard_keeps(before, f);
        let a = before.heard(f);
        law_saved_host_is_found(before.app.hosts.known, p, at);
        lemma_first_from(before.app.hosts.known, host_is(f.addr, f.port), 0);
        if whence(f) != at {
            match host_pos(before.app.hosts.known, f.addr, f.port) {
                Some(q) => {
                    assert(host_is(f.addr, f.port)(before.app.hosts.known[q]));
                    assert(q != p);
                },
                None => {},
            }
            assert(a.app.hosts.known[p] == before.app.hosts.known[p]);
        }
        let h = a.app.hosts.known[p];
        assert forall|i: int|
            0 <= i < n && whence(#[trigger] found[i]) == at && found[i].mac.len() > 0 && (forall|j: int|
                i < j < n && whence(found[j]) == at ==> (#[trigger] found[j]).mac.len() == 0) implies h.mac
            == found[i].mac by {
            if i < n - 1 {
                assert(whence(f) == at ==> f.mac.len() == 0);
                assert(forall|j: int|
                    i < j < n - 1 && whence(found[j]) == at ==> (#[trigger] found[j]).mac.len() == 0);
            }
        }
        assert forall|i: int|
            0 <= i < n && whence(#[trigger] found[i]) == at && found[i].os.len() > 0 && (forall|j: int|
                i < j < n && whence(found[j]) == at ==> (#[trigger] found[j]).os.len() == 0) implies h.os
            == found[i].os by {
            if i < n - 1 {
                assert(whence(f) == at ==> f.os.len() == 0);
                assert(forall|j: int| i < j < n - 1 && whence(found[j]) == at ==> (#[trigger] found[j]).os.len() == 0);
            }
        }
        if forall|j: int| 0 <= j < n && whence(found[j]) == at ==> (#[trigger] found[j]).mac.len() == 0 {
            assert(whence(found[n - 1]) == at ==> found[n - 1].mac.len() == 0);
        }
        if forall|j: int| 0 <= j < n && whence(found[j]) == at ==> (#[trigger] found[j]).os.len() == 0 {
            assert(whence(found[n - 1]) == at ==> found[n - 1].os.len() == 0);
        }
    }
}

/// A saved host is known by the hardware addresses and the system it last announced. An announcement
/// that leaves one out takes nothing away, and nothing else of the record moves.
pub proof fn law_announcement_is_remembered(app: AppV, found: Seq<FoundV>, i: int, p: int, now: u64)
    requires
        0 <= i < found.len(),
        saved_at(app.hosts.known, p, (TargetV { host: found[i].addr, port: found[i].port })),
    ensures
        ({
            let after = app.drain_discovery(found, now).0;
            let h = after.hosts.known[p];
            &&& after.hosts.known.len() == app.hosts.known.len()
            &&& h == (HostV { mac: h.mac, os: h.os, ..app.hosts.known[p] })
            &&& (found[i].mac.len() > 0 && (forall|j: int|
                i < j < found.len() && found[j].addr == found[i].addr && found[j].port == found[i].port ==> (
                #[trigger] found[j]).mac.len() == 0)) ==> h.mac == found[i].mac
            &&& (found[i].os.len() > 0 && (forall|j: int|
                i < j < found.len() && found[j].addr == found[i].addr && found[j].port == found[i].port ==> (
                #[trigger] found[j]).os.len() == 0)) ==> h.os == found[i].os
        }),
{
    let r = RoundV { app, sidebar: false, metadata: false, grid: false, woke: None };
    let at = whence(found[i]);
    lemma_round(r, found, found.len() as int);
    lemma_round_learns(r, found, found.len() as int, p, at);
    lemma_drained(app, found, now);
    assert(r.heard_all(found, found.len() as int).app.hosts.known[p] == app.drain_discovery(found, now).0.hosts.known[p]);
    assert forall|j: int| 0 <= j < found.len() && found[j].addr == found[i].addr && found[j].port
        == found[i].port implies whence(#[trigger] found[j]) == at by {}
}

/// What is learned of any saved host, a round notes to be written.
proof fn lemma_round_notes(r: RoundV, found: Seq<FoundV>, n: int)
    requires
        0 <= n <= found.len(),
    ensures
        r.heard_all(found, n).metadata || r.heard_all(found, n).app.hosts.known == r.app.hosts.known,
        r.metadata ==> r.heard_all(found, n).metadata,
    decreases n,
{
    if n > 0 {
        lemma_round_notes(r, found, n - 1);
        let before = r.heard_all(found, n - 1);
        let f = found[n - 1];
        lemma_first_from(before.app.hosts.known, host_is(f.addr, f.port), 0);
        match host_pos(before.app.hosts.known, f.addr, f.port) {
            Some(q) => {
                let h = before.app.hosts.known[q];
                if !h.news_mac(f) && !h.news_os(f) {
                    assert(before.app.hosts.known.update(q, h.learned(f)) =~= before.app.hosts.known);
                }
            },
            None => {},
        }
    }
}

/// Whatever an announcement taught of a saved host is written.
pub proof fn law_news_is_written(app: AppV, found: Seq<FoundV>, now: u64)
    requires
        app.drain_discovery(found, now).0.hosts.known != app.hosts.known,
    ensures
        ({
            let after = app.drain_discovery(found, now).0;
            exists|k: int|
                app.effects.len() <= k < after.effects.len() && (#[trigger] after.effects[k]) is Save
                    && after.effects[k]->Save_0.known_hosts == after.hosts.known
        }),
{
    let r = RoundV { app, sidebar: false, metadata: false, grid: false, woke: None };
    lemma_round(r, found, found.len() as int);
    lemma_round_notes(r, found, found.len() as int);
    lemma_drained(app, found, now);
    let after = app.drain_discovery(found, now).0;
    assert(after.effects[app.effects.len() as int] is Save);
}

/// Every announced host has a row.
proof fn lemma_round_lists(r: RoundV, found: Seq<FoundV>, n: int)
    requires
        0 <= n <= found.len(),
    ensures
        ({
            let a = r.heard_all(found, n).app.hosts;
            &&& a.entries.len() >= r.app.hosts.entries.len()
            &&& forall|i: int| 0 <= i < r.app.hosts.entries.len() ==> a.entries[i] == r.app.hosts.entries[i]
            &&& forall|i: int| 0 <= i < n ==> a.listed((#[trigger] found[i]).addr, found[i].port)
        }),
    decreases n,
{
    if n > 0 {
        lemma_round_lists(r, found, n - 1);
        lemma_round(r, found, n - 1);
        let before = r.heard_all(found, n - 1);
        let f = found[n - 1];
        lemma_heard_keeps(before, f);
        let a = before.heard(f).app.hosts;
        assert forall|i: int| 0 <= i < n implies a.listed((#[trigger] found[i]).addr, found[i].port) by {
            let g = found[i];
            let b = before.app.hosts;
            if i < n - 1 {
                lemma_first_from(b.known, host_is(g.addr, g.port), 0);
                lemma_first_from(a.known, host_is(g.addr, g.port), 0);
                if host_pos(b.known, g.addr, g.port) is Some {
                    let q = host_pos(b.known, g.addr, g.port)->0;
                    assert(host_is(g.addr, g.port)(b.known[q]));
                    assert(host_is(g.addr, g.port)(a.known[q]));
                } else {
                    let q = choose|q: int|
                        0 <= q < b.entries.len() && (#[trigger] b.entries[q]) is Discovered && b.entries[q].host()
                            == g.addr && b.entries[q].port() == g.port;
                    assert(a.entries[q] == b.entries[q]);
                }
            } else if a.entries.len() > b.entries.len() {
                assert(a.entries[b.entries.len() as int] == EntryV::Discovered(f));
            } else {
                assert(a.entries == b.entries);
                lemma_first_from(b.known, host_is(f.addr, f.port), 0);
                lemma_first_from(a.known, host_is(f.addr, f.port), 0);
                if host_pos(b.known, f.addr, f.port) is Some {
                    let q = host_pos(b.known, f.addr, f.port)->0;
                    assert(host_is(f.addr, f.port)(b.known[q]));
                    assert(host_is(f.addr, f.port)(a.known[q]));
                }
            }
        }
    }
}

/// Every host that announces itself is on the sidebar: it is a saved one, or it has a row of its own.
/// No row that was there moves.
pub proof fn law_announced_hosts_are_listed(app: AppV, found: Seq<FoundV>, i: int, now: u64)
    requires
        0 <= i < found.len(),
    ensures
        ({
            let after = app.drain_discovery(found, now).0;
            &&& after.hosts.entries.len() >= app.hosts.entries.len()
            &&& forall|k: int| 0 <= k < app.hosts.entries.len() ==> after.hosts.entries[k] == app.hosts.entries[k]
            &&& (exists|k: int|
                0 <= k < after.hosts.known.len() && (#[trigger] after.hosts.known[k]).addr == found[i].addr
                    && after.hosts.known[k].port == found[i].port) || (exists|k: int|
                0 <= k < after.hosts.entries.len() && (#[trigger] after.hosts.entries[k]) is Discovered
                    && after.hosts.entries[k]->Discovered_0.addr == found[i].addr
                    && after.hosts.entries[k]->Discovered_0.port == found[i].port)
        }),
{
    let r = RoundV { app, sidebar: false, metadata: false, grid: false, woke: None };
    let n = found.len() as int;
    lemma_round(r, found, n);
    lemma_round_lists(r, found, n);
    lemma_drained(app, found, now);
    let a = r.heard_all(found, n).app.hosts;
    assert(a.listed(found[i].addr, found[i].port));
    let f = found[i];
    lemma_first_from(a.known, host_is(f.addr, f.port), 0);
    match host_pos(a.known, f.addr, f.port) {
        Some(q) => {
            assert(host_is(f.addr, f.port)(a.known[q]));
        },
        None => {
            let q = choose|q: int|
                0 <= q < a.entries.len() && (#[trigger] a.entries[q]) is Discovered && a.entries[q].host() == f.addr
                    && a.entries[q].port() == f.port;
            assert(a.entries[q]->Discovered_0.addr == f.addr);
        },
    }
}

/// A sweep asks after every row, when three minutes have gone by since the last and none is out.
pub proof fn law_sweep_asks_after_every_row(app: AppV, now: u64)
    ensures
        ({
            let after = app.tick_reachability(now);
            let due = !app.jobs.out.contains(Job::Reach) && app.hosts.entries.len() > 0 && (app.hosts.reach_last is None
                || app.hosts.reach_last->0 + 180_000 <= now);
            &&& due ==> {
                &&& after.effects.len() == app.effects.len() + 1
                &&& after.effects.last() is SweepReach
                &&& after.effects.last()->SweepReach_0.len() == app.hosts.entries.len()
                &&& forall|i: int|
                    0 <= i < app.hosts.entries.len() ==> (#[trigger] after.effects.last()->SweepReach_0[i])
                        == match app.hosts.entries[i] {
                        EntryV::Known(h) => TargetV { host: h.addr, port: h.port },
                        EntryV::Discovered(f) => TargetV { host: f.addr, port: f.port },
                        EntryV::Pinned { host, .. } => TargetV { host: host.addr, port: host.port },
                    }
                &&& after.jobs.out.contains(Job::Reach)
                &&& after.hosts.reach_last == Some(now)
                &&& after.hosts.reachable == app.hosts.reachable
            }
            &&& !due ==> after == app
        }),
{
}

/// What a run of answers leaves on record.
proof fn lemma_noted(hosts: crate::hosts::HostsV, results: Seq<ReachV>, n: int, at: TargetV)
    requires
        0 <= n <= results.len(),
    ensures
        ({
            let a = hosts.noted(results, n);
            &&& (forall|j: int| 0 <= j < n ==> (#[trigger] results[j]).at != at) ==> online_of(a.reachable, at)
                == online_of(hosts.reachable, at)
            &&& forall|i: int|
                0 <= i < n && (#[trigger] results[i]).at == at && (forall|j: int|
                    i < j < n ==> (#[trigger] results[j]).at != at) ==> online_of(a.reachable, at) == Some(
                    results[i].online,
                )
            &&& a.known == hosts.known
            &&& a.entries == hosts.entries
            &&& a.powered_down == hosts.powered_down
        }),
    decreases n,
{
    if n > 0 {
        lemma_noted(hosts, results, n - 1, at);
        let b = hosts.noted(results, n - 1);
        let a = hosts.noted(results, n);
        law_record_read_back(b.reachable, results[n - 1].at, results[n - 1].online, at);
        assert forall|i: int|
            0 <= i < n && (#[trigger] results[i]).at == at && (forall|j: int|
                i < j < n ==> (#[trigger] results[j]).at != at) implies online_of(a.reachable, at) == Some(
            results[i].online,
        ) by {
            if i < n - 1 {
                assert(results[n - 1].at != at);
                assert(forall|j: int| i < j < n - 1 ==> (#[trigger] results[j]).at != at);
            }
        }
        if forall|j: int| 0 <= j < n ==> (#[trigger] results[j]).at != at {
            assert(results[n - 1].at != at);
        }
    }
}

/// What a sweep found is what is on record: the last answer for a host is its state, a host without an
/// answer is as it was, and nothing else moves.
pub proof fn law_sweep_is_recorded(app: AppV, results: Seq<ReachV>, finished: bool, at: TargetV)
    requires
        app.jobs.out.contains(Job::Reach),
    ensures
        ({
            let after = app.drain_reachability(results, finished);
            &&& forall|i: int|
                0 <= i < results.len() && (#[trigger] results[i]).at == at && (forall|j: int|
                    i < j < results.len() ==> (#[trigger] results[j]).at != at) ==> online_of(after.hosts.reachable, at)
                    == Some(results[i].online)
            &&& (forall|j: int| 0 <= j < results.len() ==> (#[trigger] results[j]).at != at) ==> online_of(
                after.hosts.reachable,
                at,
            ) == online_of(app.hosts.reachable, at)
            &&& after.jobs.out.contains(Job::Reach) <==> !finished
            &&& after.hosts.known == app.hosts.known
            &&& after.library == app.library
            &&& after.effects == app.effects
            &&& after.hosts.powered_down == app.hosts.powered_down
        }),
{
    lemma_noted(app.hosts, results, results.len() as int, at);
}

/// A host that answered is on, even with a refusal; only silence is off. No other host's state moves.
pub proof fn law_an_answer_is_life(app: AppV, at: TargetV, error: Option<LibraryError>, other: TargetV)
    ensures
        online_of(app.note_api_result(at, error).hosts.reachable, at) == Some(
            !(error is Some && error->0 is Unreachable),
        ),
        other != at ==> online_of(app.note_api_result(at, error).hosts.reachable, other) == online_of(
            app.hosts.reachable,
            other,
        ),
        app.note_api_result(at, error).hosts.known == app.hosts.known,
        app.note_api_result(at, error).effects == app.effects,
{
    law_record_read_back(app.hosts.reachable, at, !(error is Some && error->0 is Unreachable), at);
    law_record_read_back(app.hosts.reachable, at, !(error is Some && error->0 is Unreachable), other);
}

/// What runs on the selected host is asked of it every twenty seconds, on Home, and never while a question is out.
pub proof fn law_running_is_asked(app: AppV, i: int, now: u64)
    requires
        app.library.selected_host is Some,
        saved_at(app.hosts.known, i, app.library.selected_host->0),
    ensures
        ({
            let after = app.tick_running(now);
            let due = !app.jobs.out.contains(Job::Running) && app.nav.screen == Screen::Home && app.library.games.len()
                > 0 && (app.library.running_last is None || app.library.running_last->0 + 20_000
                <= now);
            &&& due ==> after.effects == app.effects.push(
                EffectV::AskRunning(
                    EndpointV {
                        at: app.library.selected_host->0,
                        mgmt_port: app.hosts.known[i].mgmt_port,
                        pin: app.hosts.known[i].pin,
                    },
                ),
            ) && after.jobs.out.contains(Job::Running) && after.library.running_last == Some(now)
            &&& !due ==> after == app
            &&& after.library.running == app.library.running
        }),
{
    law_saved_host_is_found(app.hosts.known, i, app.library.selected_host->0);
}

/// The answer is what runs on the selected host, and an answer of any other host's is dropped.
pub proof fn law_running_is_the_selected_hosts(app: AppV, at: TargetV, running: Set<Seq<char>>)
    requires
        app.jobs.out.contains(Job::Running),
    ensures
        ({
            let after = app.drain_running(at, running);
            &&& !after.jobs.out.contains(Job::Running)
            &&& after.library.running == if app.library.selected_host == Some(at) {
                running
            } else {
                app.library.running
            }
            &&& after.library.games == app.library.games
            &&& after.library.selected_host == app.library.selected_host
        }),
{
}

} // verus!
