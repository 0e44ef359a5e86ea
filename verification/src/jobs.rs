//! What came in from the background since the last tick, applied in one order.
use vstd::prelude::*;
use crate::app::{App, AppV};
use crate::flags::Job;
use crate::frame::{ArtLoaded, ArtV};
use crate::home::{GamesLoaded, GamesLoadedV};
use crate::hosts::{Reach, ReachV};
use crate::menu::PowerRights;
use crate::model::{found_views, DiscoveredHost, FoundV, LibraryError, Target, TargetV};
use crate::seqs::views;
use crate::speedtest::{SpeedMsgV, SpeedTestMsg};
use crate::text::{text_of, texts};

verus! {

/// The games that run on a host.
pub struct Running {
    pub at: Target,
    pub ids: Vec<String>,
}

pub struct RunningV {
    pub at: TargetV,
    pub ids: Set<Seq<char>>,
}

impl View for Running {
    type V = RunningV;

    open spec fn view(&self) -> RunningV {
        RunningV { at: self.at@, ids: texts(self.ids@).to_set() }
    }
}

/// What came in for the library.
pub struct LibraryJobs {
    pub found: Vec<DiscoveredHost>,
    pub art: Vec<ArtLoaded>,
    pub games: Option<GamesLoaded>,
    pub running: Option<Running>,
}

pub struct LibraryJobsV {
    pub found: Seq<FoundV>,
    pub art: Seq<ArtV>,
    pub games: Option<GamesLoadedV>,
    pub running: Option<RunningV>,
}

impl View for LibraryJobs {
    type V = LibraryJobsV;

    open spec fn view(&self) -> LibraryJobsV {
        LibraryJobsV {
            found: found_views(self.found@),
            art: views(self.art@),
            games: match self.games {
                Some(g) => Some(g@),
                None => None,
            },
            running: match self.running {
                Some(r) => Some(r@),
                None => None,
            },
        }
    }
}

/// How a power action went, and how to say so.
pub struct PowerDone {
    pub error: Option<LibraryError>,
    pub line: String,
}

/// What a job that answers once has said so far.
pub enum Reply<A> {
    /// It is still out.
    Waiting,
    Came(A),
    /// It is gone and will not answer.
    Gone,
}

/// What a reply settles, `gone` where the job died without one: what waits for it must not wait for
/// ever.
pub open spec fn settled<A>(reply: Reply<A>, gone: A) -> Option<A> {
    match reply {
        Reply::Waiting => None,
        Reply::Came(x) => Some(x),
        Reply::Gone => Some(gone),
    }
}

impl<A> Reply<A> {
    fn settle(self, gone: A) -> (r: Option<A>)
        ensures
            r == settled(self, gone),
    {
        match self {
            Reply::Waiting => None,
            Reply::Came(x) => Some(x),
            Reply::Gone => Some(gone),
        }
    }
}

/// What the root probe settles: a TV whose probe died is not rooted.
pub fn rooted_reply(reply: Reply<bool>) -> (r: Option<bool>)
    ensures
        r == settled(reply, false),
{
    reply.settle(false)
}

/// What the probe of a pairing's rights settles: a host whose probe died did not answer.
pub fn rights_reply(reply: Reply<Result<PowerRights, LibraryError>>) -> (r: Option<Result<PowerRights, LibraryError>>)
    ensures
        r == settled(reply, Err(LibraryError::Unreachable)),
{
    reply.settle(Err(LibraryError::Unreachable))
}

/// What a power action settles: one that died is one the host did not answer, and `line` says so.
pub fn power_reply(reply: Reply<PowerDone>, line: String) -> (r: Option<PowerDone>)
    ensures
        r == settled(reply, (PowerDone { error: Some(LibraryError::Unreachable), line })),
{
    reply.settle(PowerDone { error: Some(LibraryError::Unreachable), line })
}

/// What came in from the hosts and the TV.
pub struct HostJobs {
    pub rooted: Option<bool>,
    pub rights: Option<Result<PowerRights, LibraryError>>,
    pub power: Option<PowerDone>,
    pub speed: Vec<SpeedTestMsg>,
    /// An upload that is over, with the line that says how it went where there is one.
    pub logs: Option<Option<String>>,
    pub reach: Vec<Reach>,
    /// The sweep has asked every host.
    pub swept: bool,
}

pub struct PowerDoneV {
    pub error: Option<LibraryError>,
    pub line: Seq<char>,
}

pub struct HostJobsV {
    pub rooted: Option<bool>,
    pub rights: Option<Result<PowerRights, LibraryError>>,
    pub power: Option<PowerDoneV>,
    pub speed: Seq<SpeedMsgV>,
    pub logs: Option<Option<Seq<char>>>,
    pub reach: Seq<ReachV>,
    pub swept: bool,
}

impl View for HostJobs {
    type V = HostJobsV;

    open spec fn view(&self) -> HostJobsV {
        HostJobsV {
            rooted: self.rooted,
            rights: self.rights,
            power: match self.power {
                Some(p) => Some(PowerDoneV { error: p.error, line: p.line@ }),
                None => None,
            },
            speed: views(self.speed@),
            logs: match self.logs {
                Some(line) => Some(text_of(line)),
                None => None,
            },
            reach: views(self.reach@),
            swept: self.swept,
        }
    }
}

impl AppV {
    #[verifier::opaque]
    pub open spec fn take_found(self, found: Seq<FoundV>, now: u64) -> (AppV, bool) {
        self.drain_discovery(found, now)
    }

    #[verifier::opaque]
    pub open spec fn take_arts(self, art: Seq<ArtV>) -> (AppV, bool) {
        (self.drain_art(art), self.jobs.has(Job::Art) && art.len() > 0)
    }

    #[verifier::opaque]
    pub open spec fn take_games(self, games: Option<GamesLoadedV>, now: u64) -> (AppV, bool) {
        match games {
            Some(g) => (self.drain_games(g, now), self.jobs.has(Job::Games)),
            None => (self, false),
        }
    }

    #[verifier::opaque]
    pub open spec fn take_running(self, running: Option<RunningV>) -> (AppV, bool) {
        match running {
            Some(r) => (
                self.drain_running(r.at, r.ids),
                self.jobs.has(Job::Running) && self.library.selected_host == Some(r.at) && r.ids
                    != self.library.running,
            ),
            None => (self, false),
        }
    }

    #[verifier::opaque]
    pub open spec fn take_rooted(self, rooted: Option<bool>) -> (AppV, bool) {
        match rooted {
            Some(on) => (self.drain_rooted(on), self.jobs.has(Job::Rooted)),
            None => (self, false),
        }
    }

    #[verifier::opaque]
    pub open spec fn take_rights(self, rights: Option<Result<PowerRights, LibraryError>>) -> (AppV, bool) {
        match rights {
            Some(answer) => (self.drain_power_access(answer), self.jobs.power_access is Some),
            None => (self, false),
        }
    }

    #[verifier::opaque]
    pub open spec fn take_power(self, power: Option<PowerDoneV>, now: u64) -> (AppV, bool) {
        match power {
            Some(p) => (self.drain_power_action(p.error, p.line, now), self.jobs.power_action is Some),
            None => (self, false),
        }
    }

    #[verifier::opaque]
    pub open spec fn take_speed(self, speed: Seq<SpeedMsgV>) -> (AppV, bool) {
        (self.drain_speed_test(speed, 0), self.jobs.has(Job::SpeedTest) && speed.len() > 0)
    }

    #[verifier::opaque]
    pub open spec fn take_logs(self, logs: Option<Option<Seq<char>>>, now: u64) -> (AppV, bool) {
        match logs {
            Some(line) => (self.drain_send_logs(line, now), self.jobs.has(Job::SendLogs) && line is Some),
            None => (self, false),
        }
    }

    #[verifier::opaque]
    pub open spec fn take_reach(self, reach: Seq<ReachV>, swept: bool, now: u64) -> (AppV, bool) {
        let ticked = self.tick_reachability(now);
        (
            ticked.drain_reachability(reach, swept),
            ticked.jobs.has(Job::Reach) && ticked.hosts.noted_news(reach, reach.len() as int),
        )
    }

    /// What came in for the library, hosts found first and what runs last.
    pub open spec fn drain_library_jobs(self, a: LibraryJobsV, animating: bool, now: u64) -> (AppV, bool) {
        let (found, d1) = self.tick_root_probe(animating).take_found(a.found, now);
        let (drawn, d2) = found.take_arts(a.art);
        let (listed, d3) = drawn.take_games(a.games, now);
        let (done, d4) = listed.take_running(a.running);
        (done, d1 || d2 || d3 || d4)
    }

    /// What came in from the hosts and the TV, and the reachability sweep where it is due.
    pub open spec fn drain_host_jobs(self, a: HostJobsV, now: u64) -> (AppV, bool) {
        let (rooted, d1) = self.take_rooted(a.rooted);
        let (righted, d2) = rooted.take_rights(a.rights);
        let (powered, d3) = righted.take_power(a.power, now);
        let (measured, d4) = powered.take_speed(a.speed);
        let (sent, d5) = measured.take_logs(a.logs, now);
        let (done, d6) = sent.take_reach(a.reach, a.swept, now);
        (done, d1 || d2 || d3 || d4 || d5 || d6)
    }
}

pub open spec fn no_library_jobs() -> LibraryJobsV {
    LibraryJobsV { found: Seq::empty(), art: Seq::empty(), games: None, running: None }
}

/// A tick on which nothing came in for the library changes neither it nor the hosts, and owes no
/// frame.
pub proof fn law_quiet_library_tick(app: AppV, animating: bool, now: u64)
    ensures
        app.drain_library_jobs(no_library_jobs(), animating, now) == (app.tick_root_probe(animating), false),
{
    let s = app.tick_root_probe(animating);
    reveal(AppV::take_found);
    reveal(AppV::take_arts);
    reveal(AppV::take_games);
    reveal(AppV::take_running);
}

impl App {
    fn take_found(&mut self, found: Vec<DiscoveredHost>, now: u64) -> (r: bool)
        ensures
            (final(self)@, r) == old(self)@.take_found(found_views(found@), now),
            final(self).wf() == old(self).wf(),
    {
        proof {
            reveal(AppV::take_found);
        }
        self.drain_discovery(found, now)
    }

    fn take_arts(&mut self, art: Vec<ArtLoaded>) -> (r: bool)
        ensures
            (final(self)@, r) == old(self)@.take_arts(views(art@)),
            final(self).wf() == old(self).wf(),
    {
        proof {
            reveal(AppV::take_arts);
        }
        self.drain_art(art)
    }

    fn take_games(&mut self, games: Option<GamesLoaded>, now: u64) -> (r: bool)
        requires
            games matches Some(g) ==> (g.result matches Ok(l) ==> l.len() < usize::MAX),
        ensures
            (final(self)@, r) == old(self)@.take_games(crate::model::views_of(games), now),
            final(self).wf() == old(self).wf(),
    {
        proof {
            reveal(AppV::take_games);
        }
        match games {
            Some(g) => self.drain_games(g, now),
            None => false,
        }
    }

    fn take_running(&mut self, running: Option<Running>) -> (r: bool)
        ensures
            (final(self)@, r) == old(self)@.take_running(crate::model::views_of(running)),
            final(self).wf() == old(self).wf(),
    {
        proof {
            reveal(AppV::take_running);
        }
        match running {
            Some(x) => self.drain_running(x.at, x.ids),
            None => false,
        }
    }

    fn take_rooted(&mut self, rooted: Option<bool>) -> (r: bool)
        ensures
            (final(self)@, r) == old(self)@.take_rooted(rooted),
            final(self).wf() == old(self).wf(),
    {
        proof {
            reveal(AppV::take_rooted);
        }
        match rooted {
            Some(on) => self.drain_rooted(on),
            None => false,
        }
    }

    fn take_rights(&mut self, rights: Option<Result<PowerRights, LibraryError>>) -> (r: bool)
        ensures
            (final(self)@, r) == old(self)@.take_rights(rights),
            final(self).wf() == old(self).wf(),
    {
        proof {
            reveal(AppV::take_rights);
        }
        match rights {
            Some(answer) => self.drain_power_access(answer),
            None => false,
        }
    }

    fn take_power(&mut self, power: Option<PowerDone>, now: u64) -> (r: bool)
        ensures
            (final(self)@, r) == old(self)@.take_power(
                match power {
                    Some(p) => Some(PowerDoneV { error: p.error, line: p.line@ }),
                    None => None,
                },
                now,
            ),
            final(self).wf() == old(self).wf(),
    {
        proof {
            reveal(AppV::take_power);
        }
        match power {
            Some(p) => self.drain_power_action(p.error, p.line, now),
            None => false,
        }
    }

    fn take_speed(&mut self, speed: Vec<SpeedTestMsg>) -> (r: bool)
        ensures
            (final(self)@, r) == old(self)@.take_speed(views(speed@)),
            final(self).wf() == old(self).wf(),
    {
        proof {
            reveal(AppV::take_speed);
        }
        self.drain_speed_test(speed)
    }

    fn take_logs(&mut self, logs: Option<Option<String>>, now: u64) -> (r: bool)
        ensures
            (final(self)@, r) == old(self)@.take_logs(
                match logs {
                    Some(line) => Some(text_of(line)),
                    None => None,
                },
                now,
            ),
            final(self).wf() == old(self).wf(),
    {
        proof {
            reveal(AppV::take_logs);
        }
        match logs {
            Some(line) => self.drain_send_logs(line, now),
            None => false,
        }
    }

    fn take_reach(&mut self, reach: Vec<Reach>, swept: bool, now: u64) -> (r: bool)
        ensures
            (final(self)@, r) == old(self)@.take_reach(views(reach@), swept, now),
            final(self).wf() == old(self).wf(),
    {
        proof {
            reveal(AppV::take_reach);
        }
        self.tick_reachability(now);
        self.drain_reachability(reach, swept)
    }

    /// Applies what came in for the library since the last tick; `animating` holds the root probe
    /// back. Reports whether a frame is owed.
    pub fn drain_library_jobs(&mut self, jobs: LibraryJobs, animating: bool, now: u64) -> (r: bool)
        requires
            jobs.games matches Some(g) ==> (g.result matches Ok(l) ==> l.len() < usize::MAX),
        ensures
            (final(self)@, r) == old(self)@.drain_library_jobs(jobs@, animating, now),
            final(self).wf() == old(self).wf(),
    {
        self.tick_root_probe(animating);
        let d1: bool = self.take_found(jobs.found, now);
        let d2: bool = self.take_arts(jobs.art);
        let d3: bool = self.take_games(jobs.games, now);
        let d4: bool = self.take_running(jobs.running);
        d1 || d2 || d3 || d4
    }

    /// Applies what came in from the hosts and the TV since the last tick. Reports whether a frame
    /// is owed.
    pub fn drain_host_jobs(&mut self, jobs: HostJobs, now: u64) -> (r: bool)
        ensures
            (final(self)@, r) == old(self)@.drain_host_jobs(jobs@, now),
            final(self).wf() == old(self).wf(),
    {
        let d1: bool = self.take_rooted(jobs.rooted);
        let d2: bool = self.take_rights(jobs.rights);
        let d3: bool = self.take_power(jobs.power, now);
        let d4: bool = self.take_speed(jobs.speed);
        let d5: bool = self.take_logs(jobs.logs, now);
        let d6: bool = self.take_reach(jobs.reach, jobs.swept, now);
        d1 || d2 || d3 || d4 || d5 || d6
    }
}

} // verus!
