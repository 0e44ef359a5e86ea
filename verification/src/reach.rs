//! Which hosts answer, what the selected one runs, and when to ask again.
use vstd::prelude::*;
use crate::app::{elapsed, since, App, AppV};
use crate::flags::Job;
use crate::hosts::{entry_views, online_of, EntryV, HostEntry, HostsState, HostsV, Reach, ReachV};
use crate::library::{Library, LibraryV};
use crate::model::{LibraryError, Screen, Target, TargetV};
use crate::seqs::views;
use crate::slots::{Effect, EffectV};
use crate::text::{has_text, texts};

verus! {

/// How often the whole host list is probed again, in milliseconds.
pub const REACH_INTERVAL: u64 = 180_000;

/// How often the selected host is asked what it runs.
pub const RUNNING_INTERVAL: u64 = 20_000;

/// Whether a management failure means that the host never answered. Every other error is a
/// reply: only silence counts as the host being down.
pub open spec fn is_silence(e: LibraryError) -> bool {
    e is Unreachable
}

pub fn api_error_is_offline(e: &LibraryError) -> (r: bool)
    ensures
        r == is_silence(*e),
{
    match e {
        LibraryError::Unreachable => true,
        _ => false,
    }
}

/// The endpoints of the sidebar's rows.
pub open spec fn row_targets(entries: Seq<EntryV>) -> Seq<TargetV> {
    entries.map_values(|e: EntryV| e.target())
}

/// Whether a clock set at `last` has run for `interval`.
pub open spec fn due(last: Option<u64>, interval: u64, now: u64) -> bool {
    match last {
        Some(t) => since(t, now) >= interval,
        None => true,
    }
}

impl AppV {
    /// A management reply, or the lack of one, recorded as reachability.
    pub open spec fn note_api_result(self, at: TargetV, error: Option<LibraryError>) -> AppV {
        self.note_reachable(
            at,
            match error {
                Some(e) => !is_silence(e),
                None => true,
            },
        )
    }

    pub open spec fn sweep_due(self, now: u64) -> bool {
        !self.jobs.has(Job::Reach) && due(self.hosts.reach_last, REACH_INTERVAL, now) && self.hosts.entries.len() > 0
    }

    pub open spec fn tick_reachability(self, now: u64) -> AppV {
        if self.sweep_due(now) {
            AppV {
                hosts: crate::hosts::HostsV { reach_last: Some(now), ..self.hosts },
                jobs: self.jobs.start(Job::Reach),
                ..self
            }.effect(EffectV::SweepReach(row_targets(self.hosts.entries)))
        } else {
            self
        }
    }

    pub open spec fn drain_reachability(self, results: Seq<ReachV>, finished: bool) -> AppV {
        if !self.jobs.has(Job::Reach) {
            self
        } else {
            AppV { hosts: self.hosts.noted(results, results.len() as int), ..self.reach_done(finished) }
        }
    }

    /// The sweep over, if it is.
    pub open spec fn reach_done(self, finished: bool) -> AppV {
        if finished {
            AppV { jobs: self.jobs.stop(Job::Reach), ..self }
        } else {
            self
        }
    }

    pub open spec fn running_due(self, now: u64) -> bool {
        &&& !self.jobs.has(Job::Running)
        &&& self.nav.screen == Screen::Home
        &&& due(self.library.running_last, RUNNING_INTERVAL, now)
        &&& self.library.selected_host is Some
        &&& self.library.games.len() > 0
    }

    pub open spec fn tick_running(self, now: u64) -> AppV {
        if self.running_due(now) {
            AppV {
                library: LibraryV { running_last: Some(now), ..self.library },
                jobs: self.jobs.start(Job::Running),
                ..self
            }.effect(EffectV::AskRunning(self.endpoint(self.library.selected_host->0)))
        } else {
            self
        }
    }

    /// The answer of a host to what it runs, taken only while that host is the selected one.
    pub open spec fn drain_running(self, at: TargetV, running: Set<Seq<char>>) -> AppV {
        if !self.jobs.has(Job::Running) {
            self
        } else {
            let done = AppV { jobs: self.jobs.stop(Job::Running), ..self };
            if self.library.selected_host == Some(at) {
                AppV { library: LibraryV { running, ..self.library }, ..done }
            } else {
                done
            }
        }
    }
}

/// A sweep asks for nothing but its own interval: one that has just started is not due again
/// before it has run and the interval is over.
pub proof fn law_sweep_waits(app: AppV, now: u64, later: u64)
    requires
        app.sweep_due(now),
        now <= later < now + REACH_INTERVAL,
    ensures
        !app.tick_reachability(now).sweep_due(later),
        !app.tick_reachability(now).reach_done(true).sweep_due(later),
{
}

/// Picking a host makes the question what it runs due at once, whenever the last one was asked, and
/// shows nothing as running meanwhile.
pub proof fn law_host_switch_asks_at_once(app: AppV, at: TargetV, port: Option<u16>, now: u64)
    ensures
        due(app.select_host(at, port, now).library.running_last, RUNNING_INTERVAL, now),
        app.select_host(at, port, now).library.running =~= Set::empty(),
{
}

/// Whether two lists hold the same texts, in whatever order and number.
fn same_set(a: &Vec<String>, b: &Vec<String>) -> (r: bool)
    ensures
        r == (texts(a@).to_set() == texts(b@).to_set()),
{
    let r: bool = holds_all(a, b) && holds_all(b, a);
    proof {
        let (sa, sb) = (texts(a@), texts(b@));
        if r {
            assert(sa.to_set() =~= sb.to_set());
        } else {
            if sa.to_set() == sb.to_set() {
                assert forall|x: Seq<char>| sa.contains(x) <==> sb.contains(x) by {
                    assert(sa.to_set().contains(x) <==> sb.to_set().contains(x));
                }
                assert(false);
            }
        }
    }
    r
}

fn holds_all(a: &Vec<String>, b: &Vec<String>) -> (r: bool)
    ensures
        r == (forall|x: Seq<char>| #[trigger] texts(b@).contains(x) ==> texts(a@).contains(x)),
{
    let mut i: usize = 0;
    while i < b.len()
        invariant
            i <= b.len(),
            forall|k: int| 0 <= k < i ==> texts(a@).contains(#[trigger] texts(b@)[k]),
        decreases b.len() - i,
    {
        assert(texts(b@)[i as int] == b@[i as int]@);
        if !has_text(a, b[i].as_str()) {
            assert(texts(b@).contains(texts(b@)[i as int]));
            return false;
        }
        i = i + 1;
    }
    true
}

impl HostsV {
    /// The first `n` probe results recorded.
    pub open spec fn noted(self, results: Seq<ReachV>, n: int) -> HostsV
        decreases n,
    {
        if n <= 0 {
            self
        } else {
            self.noted(results, n - 1).note_reachable(results[n - 1].at, results[n - 1].online)
        }
    }

    /// Whether any of the first `n` probe results is news when its turn comes.
    pub open spec fn noted_news(self, results: Seq<ReachV>, n: int) -> bool
        decreases n,
    {
        n > 0 && (self.noted_news(results, n - 1) || online_of(
            self.noted(results, n - 1).reachable,
            results[n - 1].at,
        ) != Some(results[n - 1].online))
    }
}

impl HostsState {
    /// Records a sweep's results in order. Reports whether any was news.
    pub fn note_all(&mut self, results: &Vec<Reach>) -> (r: bool)
        ensures
            final(self)@ == old(self)@.noted(views(results@), results.len() as int),
            r == old(self)@.noted_news(views(results@), results.len() as int),
    {
        let ghost start = self@;
        let ghost all = views(results@);
        let mut changed: bool = false;
        let mut i: usize = 0;
        while i < results.len()
            invariant
                i <= results.len(),
                all == views(results@),
                self@ == start.noted(all, i as int),
                changed == start.noted_news(all, i as int),
            decreases results.len() - i,
        {
            assert(all[i as int] == results@[i as int]@);
            let moved: bool = self.note_reachable(
                results[i].at.host.as_str(),
                results[i].at.port,
                results[i].online,
            );
            changed = changed || moved;
            i = i + 1;
        }
        changed
    }

    /// The endpoints of every row.
    pub fn targets(&self) -> (r: Vec<Target>)
        ensures
            views(r@) == row_targets(self@.entries),
    {
        let ghost rows = self@.entries;
        let n: usize = self.entries.len();
        let mut targets: Vec<Target> = Vec::new();
        let mut i: usize = 0;
        while i < n
            invariant
                n == self.entries.len(),
                rows == entry_views(self.entries@),
                i <= n,
                views(targets@) =~= row_targets(rows).take(i as int),
            decreases n - i,
        {
            assert(rows[i as int] == self.entries@[i as int]@);
            let t = self.entries[i].target();
            let ghost before = targets@;
            targets.push(t);
            assert(views(targets@) =~= views(before).push(t@));
            i = i + 1;
        }
        assert(row_targets(rows).take(n as int) =~= row_targets(rows));
        targets
    }
}

impl Library {
    /// Takes over what the host runs. Reports whether that changed.
    pub fn set_running(&mut self, running: Vec<String>) -> (r: bool)
        ensures
            final(self)@ == (LibraryV { running: texts(running@).to_set(), ..old(self)@ }),
            r == (texts(running@).to_set() != old(self)@.running),
    {
        if same_set(&running, &self.running) {
            return false;
        }
        self.running = running;
        true
    }
}

impl App {
    /// Records a management outcome as reachability.
    pub fn note_api_result(&mut self, host: &str, port: u16, error: Option<LibraryError>) -> (r: bool)
        ensures
            final(self)@ == old(self)@.note_api_result(TargetV { host: host@, port }, error),
            r == (final(self)@ != old(self)@ || online_of(
                old(self)@.hosts.reachable,
                TargetV { host: host@, port },
            ) != online_of(final(self)@.hosts.reachable, TargetV { host: host@, port })),
            final(self).wf() == old(self).wf(),
    {
        let online: bool = match error {
            Some(e) => !api_error_is_offline(&e),
            None => true,
        };
        proof {
            let at = TargetV { host: host@, port };
            crate::hosts::law_record_read_back(self@.hosts.reachable, at, online, at);
        }
        self.note_reachable(host, port, online)
    }

    /// Starts a reachability sweep if one is due and none is running. A list that is still empty
    /// arms nothing, so that the first real sweep comes at once.
    pub fn tick_reachability(&mut self, now: u64)
        ensures
            final(self)@ == old(self)@.tick_reachability(now),
            final(self).wf() == old(self).wf(),
    {
        if self.jobs.has(Job::Reach) {
            return;
        }
        let wait: bool = match self.hosts.reach_last {
            Some(t) => elapsed(t, now) < REACH_INTERVAL,
            None => false,
        };
        if wait {
            return;
        }
        if self.hosts.entries.len() == 0 {
            return;
        }
        let targets = self.hosts.targets();
        self.hosts.reach_last = Some(now);
        self.jobs.start(Job::Reach);
        self.ask(Effect::SweepReach(targets));
    }

    /// Takes what a sweep has found so far; `finished` says that it will find no more. Reports
    /// whether the sidebar changed.
    pub fn drain_reachability(&mut self, results: Vec<Reach>, finished: bool) -> (r: bool)
        ensures
            final(self)@ == old(self)@.drain_reachability(views(results@), finished),
            r == (old(self)@.jobs.has(Job::Reach) && old(self)@.hosts.noted_news(views(results@), results.len() as int)),
            final(self).wf() == old(self).wf(),
    {
        if !self.jobs.has(Job::Reach) {
            return false;
        }
        if finished {
            self.jobs.stop(Job::Reach);
        }
        self.hosts.note_all(&results)
    }

    /// Last known reachability of a row's host, `None` before the first word on it.
    pub fn entry_online(&self, entry: &HostEntry) -> (r: Option<bool>)
        ensures
            r == online_of(self@.hosts.reachable, entry@.target()),
    {
        self.hosts.online(entry.host(), entry.port())
    }

    /// Asks the selected host what it runs, if that is due and nothing is in flight. Only from
    /// Home, where the answer shows, and only once there is a library for it to show on.
    pub fn tick_running(&mut self, now: u64)
        ensures
            final(self)@ == old(self)@.tick_running(now),
            final(self).wf() == old(self).wf(),
    {
        if self.jobs.has(Job::Running) || self.nav.screen != Screen::Home {
            return;
        }
        let wait: bool = match self.library.running_last {
            Some(t) => elapsed(t, now) < RUNNING_INTERVAL,
            None => false,
        };
        if wait {
            return;
        }
        let at = match &self.library.selected_host {
            Some(t) => t.clone(),
            None => {
                return;
            },
        };
        if self.library.games.len() == 0 {
            return;
        }
        let endpoint = self.endpoint(at.host.as_str(), at.port);
        self.library.running_last = Some(now);
        self.jobs.start(Job::Running);
        self.ask(Effect::AskRunning(endpoint));
    }

    /// Takes a host's answer to what it runs. Reports whether the set changed: an unchanged
    /// answer must not cost a redraw.
    pub fn drain_running(&mut self, at: Target, running: Vec<String>) -> (r: bool)
        ensures
            final(self)@ == old(self)@.drain_running(at@, texts(running@).to_set()),
            r == (old(self)@.jobs.has(Job::Running) && old(self)@.library.selected_host == Some(at@) && texts(
                running@,
            ).to_set() != old(self)@.library.running),
            final(self).wf() == old(self).wf(),
    {
        if !self.jobs.has(Job::Running) {
            return false;
        }
        self.jobs.stop(Job::Running);
        // A poll may outlive a host switch; it is taken only for the host it was asked of.
        let current: bool = match &self.library.selected_host {
            Some(t) => t.host == at.host && t.port == at.port,
            None => false,
        };
        if !current {
            return false;
        }
        self.library.set_running(running)
    }
}

} // verus!
