//! Measuring the network to a host, and the bitrate that follows from it.
use vstd::prelude::*;
use crate::app::{App, AppV};
use crate::flags::Job;
use crate::model::{MenuEvent, Screen, Settings};
use crate::slots::{Effect, EffectV, ProbeOutcome, ScreensV, SpeedTestState, SpeedV};

verus! {

/// The bitrate slider's range, which is a choice made here.
pub const BITRATE_MIN_KBPS: u32 = 5_000;

pub const BITRATE_MAX_KBPS: u32 = 200_000;

/// The part of the measured goodput to recommend, leaving headroom for error correction and loss.
pub const RECOMMEND_NUMERATOR: u32 = 7;

pub const RECOMMEND_DENOMINATOR: u32 = 10;

/// Below this too little got through to recommend anything.
pub const MIN_USEFUL_KBPS: u32 = 2_000;

/// What the measuring reports.
pub enum SpeedTestMsg {
    Progress(ProbeOutcome),
    Done { outcome: ProbeOutcome, confirmed: bool },
    Failed(String),
}

pub enum SpeedMsgV {
    Progress(ProbeOutcome),
    Done { outcome: ProbeOutcome, confirmed: bool },
    Failed(Seq<char>),
}

impl View for SpeedTestMsg {
    type V = SpeedMsgV;

    open spec fn view(&self) -> SpeedMsgV {
        match self {
            SpeedTestMsg::Progress(p) => SpeedMsgV::Progress(*p),
            SpeedTestMsg::Done { outcome, confirmed } => SpeedMsgV::Done { outcome: *outcome, confirmed: *confirmed },
            SpeedTestMsg::Failed(e) => SpeedMsgV::Failed(e@),
        }
    }
}

/// The recommended bitrate: that part of the goodput in whole megabits, kept on the slider.
pub open spec fn recommended(throughput: int) -> Option<int> {
    if throughput < MIN_USEFUL_KBPS {
        None
    } else {
        let raw = throughput / RECOMMEND_DENOMINATOR as int * RECOMMEND_NUMERATOR;
        let whole = if raw / 1000 < 1 {
            1000
        } else {
            raw / 1000 * 1000
        };
        Some(
            if whole < BITRATE_MIN_KBPS {
                BITRATE_MIN_KBPS as int
            } else if whole > BITRATE_MAX_KBPS {
                BITRATE_MAX_KBPS as int
            } else {
                whole
            },
        )
    }
}

/// A recommendation is one the slider can hold, in whole megabits, and asks for no more than that
/// part of what got through wherever that is on the slider; a faster network is never recommended
/// less.
pub proof fn law_recommendation(a: u32, b: u32)
    requires
        MIN_USEFUL_KBPS <= a <= b,
    ensures
        recommended(a as int) matches Some(r) && recommended(b as int) matches Some(s) && {
            &&& BITRATE_MIN_KBPS <= r <= BITRATE_MAX_KBPS
            &&& r % 1000 == 0
            &&& r > BITRATE_MIN_KBPS ==> r * 10 <= a * 7
            &&& r <= s
        },
{
}

/// The bitrate to recommend from a finished measurement, `None` when too little got through.
pub fn recommended_kbps(outcome: &ProbeOutcome) -> (r: Option<u32>)
    ensures
        match (r, recommended(outcome.throughput_kbps as int)) {
            (Some(k), Some(v)) => k == v,
            (None, None) => true,
            _ => false,
        },
{
    if outcome.throughput_kbps < MIN_USEFUL_KBPS {
        return None;
    }
    let raw: u32 = outcome.throughput_kbps / RECOMMEND_DENOMINATOR * RECOMMEND_NUMERATOR;
    let mbps: u32 = if raw / 1000 < 1 {
        1
    } else {
        raw / 1000
    };
    let whole: u32 = mbps * 1000;
    Some(
        if whole < BITRATE_MIN_KBPS {
            BITRATE_MIN_KBPS
        } else if whole > BITRATE_MAX_KBPS {
            BITRATE_MAX_KBPS
        } else {
            whole
        },
    )
}

impl SpeedV {
    pub open spec fn finished(self) -> bool {
        self is Done || self is Failed
    }

    /// The bitrate that "use this" would write.
    pub open spec fn recommendation(self) -> Option<int> {
        match self {
            SpeedV::Done { outcome, confirmed } => recommended(outcome.throughput_kbps as int),
            _ => None,
        }
    }
}

impl AppV {
    pub open spec fn with_speed(self, s: Option<SpeedV>) -> AppV {
        AppV { screens: ScreensV { speed_test: s, ..self.screens }, ..self }
    }

    /// A test opened for a sidebar row, and started.
    pub open spec fn open_speed_test(self, idx: usize) -> AppV {
        if idx < self.hosts.entries.len() {
            let e = self.hosts.entries[idx as int];
            let up = AppV {
                screens: ScreensV {
                    speed_test_name: e.name(),
                    speed_test: Some(SpeedV::Connecting),
                    ..self.screens
                },
                ..self
            }.enter(Screen::SpeedTest, 0);
            AppV { jobs: up.jobs.start(Job::SpeedTest), ..up }.effect(
                EffectV::StartSpeedTest(e.target(), self.endpoint(e.target()).pin),
            )
        } else {
            self
        }
    }

    /// One message taken in. The last one ends the test.
    pub open spec fn speed_msg(self, m: SpeedMsgV) -> AppV {
        match m {
            SpeedMsgV::Progress(p) => self.with_speed(Some(SpeedV::Measuring { partial: Some(p) })),
            SpeedMsgV::Done { outcome, confirmed } => {
                let done = self.with_speed(Some(SpeedV::Done { outcome, confirmed }));
                AppV {
                    nav: done.nav.set_cursor(Screen::SpeedTest, 0),
                    jobs: done.jobs.stop(Job::SpeedTest),
                    ..done
                }
            },
            SpeedMsgV::Failed(e) => {
                let failed = self.with_speed(Some(SpeedV::Failed(e)));
                AppV { jobs: failed.jobs.stop(Job::SpeedTest), ..failed }
            },
        }
    }

    /// The messages from `i` on taken in, as long as the test runs.
    pub open spec fn drain_speed_test(self, msgs: Seq<SpeedMsgV>, i: int) -> AppV
        decreases msgs.len() - i,
    {
        if i < 0 || i >= msgs.len() || !self.jobs.has(Job::SpeedTest) {
            self
        } else {
            self.speed_msg(msgs[i]).drain_speed_test(msgs, i + 1)
        }
    }

    pub open spec fn close_speed_test(self) -> AppV {
        let gone = self.with_speed(None);
        AppV { jobs: gone.jobs.stop(Job::SpeedTest), ..gone }.show(Screen::HostMenu)
    }

    pub open spec fn retry_speed_test(self) -> AppV {
        match self.screens.host_menu_index {
            Some(idx) => self.open_speed_test(idx),
            None => self.close_speed_test(),
        }
    }

    pub open spec fn speed_finished(self) -> bool {
        self.screens.speed_test matches Some(s) && s.finished()
    }

    /// The primary button: the recommendation applied, or the test run again where there is none.
    pub open spec fn apply_speed_test(self) -> AppV {
        match self.screens.speed_test->0.recommendation() {
            Some(kbps) => AppV {
                settings: Settings { bitrate_kbps: kbps as u32, ..self.settings },
                ..self
            }.persist().close_speed_test(),
            None => self.retry_speed_test(),
        }
    }

    #[verifier::opaque]
    pub open spec fn handle_speed_test_event(self, ev: MenuEvent, now: u64) -> AppV {
        if ev == MenuEvent::Back {
            self.close_speed_test()
        } else if !self.speed_finished() {
            self
        } else {
            match self.confirm_nav(ev, now) {
                Some(moved) => moved,
                None => if ev == MenuEvent::Confirm {
                    if self.nav.cursor(Screen::SpeedTest) != 0 {
                        self.close_speed_test()
                    } else {
                        self.apply_speed_test()
                    }
                } else {
                    self
                },
            }
        }
    }
}

/// Backing out abandons the test: nothing that still arrives is taken.
pub proof fn law_closed_test_takes_nothing(app: AppV, now: u64, msgs: Seq<SpeedMsgV>)
    ensures
        app.handle_speed_test_event(MenuEvent::Back, now).drain_speed_test(msgs, 0)
            == app.handle_speed_test_event(MenuEvent::Back, now),
        app.handle_speed_test_event(MenuEvent::Back, now).screens.speed_test is None,
{
    reveal(AppV::handle_speed_test_event);
}

/// Whatever is pressed while a test runs, no half-measured bitrate is written, and nothing is asked for.
pub proof fn law_running_test_writes_nothing(app: AppV, ev: MenuEvent, now: u64)
    requires
        !app.speed_finished(),
    ensures
        app.handle_speed_test_event(ev, now).settings == app.settings,
        app.handle_speed_test_event(ev, now).effects == app.effects,
{
    reveal(AppV::handle_speed_test_event);
}

impl App {
    /// Opens the test of sidebar row `idx` and starts it.
    pub fn open_speed_test(&mut self, idx: usize)
        ensures
            final(self)@ == old(self)@.open_speed_test(idx),
            final(self).wf() == old(self).wf(),
    {
        if idx >= self.hosts.entries.len() {
            return;
        }
        let e = &self.hosts.entries[idx];
        assert(self@.hosts.entries[idx as int] == e@);
        let at = e.target();
        let name = e.name().to_owned();
        let pin = self.endpoint(at.host.as_str(), at.port).pin;
        self.screens.speed_test_name = name;
        self.screens.speed_test = Some(SpeedTestState::Connecting);
        self.nav.enter(Screen::SpeedTest, 0);
        self.jobs.start(Job::SpeedTest);
        self.ask(Effect::StartSpeedTest(at, pin));
    }

    fn speed_msg(&mut self, msg: SpeedTestMsg)
        ensures
            final(self)@ == old(self)@.speed_msg(msg@),
            final(self).wf() == old(self).wf(),
    {
        match msg {
            SpeedTestMsg::Progress(p) => {
                self.screens.speed_test = Some(SpeedTestState::Measuring { partial: Some(p) });
            },
            SpeedTestMsg::Done { outcome, confirmed } => {
                self.screens.speed_test = Some(SpeedTestState::Done { outcome, confirmed });
                self.nav.set_cursor(Screen::SpeedTest, 0);
                self.jobs.stop(Job::SpeedTest);
            },
            SpeedTestMsg::Failed(e) => {
                self.screens.speed_test = Some(SpeedTestState::Failed(e));
                self.jobs.stop(Job::SpeedTest);
            },
        }
    }

    /// Takes what the measuring has reported since the last tick. Reports whether anything did.
    pub fn drain_speed_test(&mut self, msgs: Vec<SpeedTestMsg>) -> (r: bool)
        ensures
            final(self)@ == old(self)@.drain_speed_test(crate::seqs::views(msgs@), 0),
            r == (old(self)@.jobs.has(Job::SpeedTest) && msgs.len() > 0),
            final(self).wf() == old(self).wf(),
    {
        let ghost all = crate::seqs::views(msgs@);
        let ghost start = self@;
        let ghost keeps = self.wf();
        let some: bool = self.jobs.has(Job::SpeedTest) && msgs.len() > 0;
        for m in it: msgs.into_iter()
            invariant
                all == crate::seqs::views(it.seq()),
                self.wf() == keeps,
                start.drain_speed_test(all, 0) == self@.drain_speed_test(all, it.index() as int),
        {
            assert(all[it.index() as int] == m@);
            if self.jobs.has(Job::SpeedTest) {
                self.speed_msg(m);
            }
        }
        some
    }

    fn apply_speed_test(&mut self)
        requires
            old(self)@.screens.speed_test is Some,
        ensures
            final(self)@ == old(self)@.apply_speed_test(),
            final(self).wf() == old(self).wf(),
    {
        let kbps: Option<u32> = match &self.screens.speed_test {
            Some(SpeedTestState::Done { outcome, .. }) => recommended_kbps(outcome),
            _ => None,
        };
        match kbps {
            Some(kbps) => {
                self.settings.bitrate_kbps = kbps;
                self.persist();
                self.close_speed_test();
            },
            None => {
                self.retry_speed_test();
            },
        }
    }

    /// Handles one event on the test. Back cancels it; nothing else does anything while it runs.
    pub fn handle_speed_test_event(&mut self, ev: MenuEvent, now: u64)
        ensures
            final(self)@ == old(self)@.handle_speed_test_event(ev, now),
            final(self).wf() == old(self).wf(),
    {
        proof {
            reveal(AppV::handle_speed_test_event);
        }
        match ev {
            MenuEvent::Back => {
                self.close_speed_test();
                return;
            },
            _ => {},
        }
        let done: bool = match &self.screens.speed_test {
            Some(SpeedTestState::Done { .. }) => true,
            Some(SpeedTestState::Failed(_)) => true,
            _ => false,
        };
        if !done {
            return;
        }
        if self.confirm_nav_event(ev, now) {
            return;
        }
        match ev {
            MenuEvent::Confirm => {
                if self.nav.cursor(Screen::SpeedTest) != 0 {
                    self.close_speed_test();
                } else {
                    self.apply_speed_test();
                }
            },
            _ => {},
        }
    }

    /// Runs the test again against the host the screen was opened for.
    pub fn retry_speed_test(&mut self)
        ensures
            final(self)@ == old(self)@.retry_speed_test(),
            final(self).wf() == old(self).wf(),
    {
        match self.screens.host_menu_index {
            Some(idx) => {
                self.open_speed_test(idx);
            },
            None => {
                self.close_speed_test();
            },
        }
    }

    /// Leaves the screen, abandoning a test that runs.
    pub fn close_speed_test(&mut self)
        ensures
            final(self)@ == old(self)@.close_speed_test(),
            final(self).wf() == old(self).wf(),
    {
        self.screens.speed_test = None;
        self.jobs.cancel_speed_test();
        self.nav.screen = Screen::HostMenu;
    }
}

} // verus!
