//! Small sets of named switches: what the menu is in the middle of, and which work is out.
use vstd::prelude::*;

verus! {

/// A switch of the menu.
#[derive(Clone, Copy, PartialEq, Eq, Structural, Debug)]
pub enum Flag {
    /// A press landed on a slider's track and the button is still down.
    SliderDrag,
    /// The pointer is on the open modal's close button.
    HoverClose,
    /// The press dip is owed: it stands in for a nudge where a press could do nothing.
    PressArmed,
    /// The Home status line survives a library reload.
    StickyStatus,
    /// The hint about the card menu is owed, once a library lands.
    IntroHintOwed,
    /// The system's on-screen keyboard is up.
    KeyboardShown,
}

/// Background work. Taking one off the list abandons it: whatever it still delivers is not taken.
#[derive(Clone, Copy, PartialEq, Eq, Structural, Debug)]
pub enum Job {
    Games,
    Running,
    Art,
    Pairing,
    Reach,
    SpeedTest,
    SendLogs,
    Rooted,
    /// The root probe that the Display page owes, held until the page has finished opening.
    RootProbeOwed,
}

/// A set with `x` in it or not.
pub open spec fn put<A>(s: Set<A>, x: A, on: bool) -> Set<A> {
    if on {
        s.insert(x)
    } else {
        s.remove(x)
    }
}

/// The switches that are on.
pub struct Flags {
    slider_drag: bool,
    hover_close: bool,
    press_armed: bool,
    sticky_status: bool,
    intro_hint_owed: bool,
    keyboard_shown: bool,
}

impl Flags {
    spec fn is_on(&self, f: Flag) -> bool {
        match f {
            Flag::SliderDrag => self.slider_drag,
            Flag::HoverClose => self.hover_close,
            Flag::PressArmed => self.press_armed,
            Flag::StickyStatus => self.sticky_status,
            Flag::IntroHintOwed => self.intro_hint_owed,
            Flag::KeyboardShown => self.keyboard_shown,
        }
    }
}

impl View for Flags {
    type V = Set<Flag>;

    closed spec fn view(&self) -> Set<Flag> {
        Set::new(|f: Flag| self.is_on(f))
    }
}

impl Flags {
    pub fn new() -> (r: Self)
        ensures
            r@ == Set::<Flag>::empty(),
    {
        let r = Flags {
            slider_drag: false,
            hover_close: false,
            press_armed: false,
            sticky_status: false,
            intro_hint_owed: false,
            keyboard_shown: false,
        };
        assert(r@ =~= Set::<Flag>::empty());
        r
    }

    pub fn has(&self, f: Flag) -> (r: bool)
        ensures
            r == self@.contains(f),
    {
        match f {
            Flag::SliderDrag => self.slider_drag,
            Flag::HoverClose => self.hover_close,
            Flag::PressArmed => self.press_armed,
            Flag::StickyStatus => self.sticky_status,
            Flag::IntroHintOwed => self.intro_hint_owed,
            Flag::KeyboardShown => self.keyboard_shown,
        }
    }

    pub fn set(&mut self, f: Flag, on: bool)
        ensures
            final(self)@ == put(old(self)@, f, on),
    {
        match f {
            Flag::SliderDrag => {
                self.slider_drag = on;
            },
            Flag::HoverClose => {
                self.hover_close = on;
            },
            Flag::PressArmed => {
                self.press_armed = on;
            },
            Flag::StickyStatus => {
                self.sticky_status = on;
            },
            Flag::IntroHintOwed => {
                self.intro_hint_owed = on;
            },
            Flag::KeyboardShown => {
                self.keyboard_shown = on;
            },
        }
        assert(self@ =~= put(old(self)@, f, on));
    }
}

/// The work that is out.
pub struct Out {
    games: bool,
    running: bool,
    art: bool,
    pairing: bool,
    reach: bool,
    speed_test: bool,
    send_logs: bool,
    rooted: bool,
    root_probe_owed: bool,
}

impl Out {
    spec fn is_out(&self, j: Job) -> bool {
        match j {
            Job::Games => self.games,
            Job::Running => self.running,
            Job::Art => self.art,
            Job::Pairing => self.pairing,
            Job::Reach => self.reach,
            Job::SpeedTest => self.speed_test,
            Job::SendLogs => self.send_logs,
            Job::Rooted => self.rooted,
            Job::RootProbeOwed => self.root_probe_owed,
        }
    }
}

impl View for Out {
    type V = Set<Job>;

    closed spec fn view(&self) -> Set<Job> {
        Set::new(|j: Job| self.is_out(j))
    }
}

impl Out {
    pub fn new() -> (r: Self)
        ensures
            r@ == Set::<Job>::empty(),
    {
        let r = Out {
            games: false,
            running: false,
            art: false,
            pairing: false,
            reach: false,
            speed_test: false,
            send_logs: false,
            rooted: false,
            root_probe_owed: false,
        };
        assert(r@ =~= Set::<Job>::empty());
        r
    }

    pub fn has(&self, j: Job) -> (r: bool)
        ensures
            r == self@.contains(j),
    {
        match j {
            Job::Games => self.games,
            Job::Running => self.running,
            Job::Art => self.art,
            Job::Pairing => self.pairing,
            Job::Reach => self.reach,
            Job::SpeedTest => self.speed_test,
            Job::SendLogs => self.send_logs,
            Job::Rooted => self.rooted,
            Job::RootProbeOwed => self.root_probe_owed,
        }
    }

    pub fn set(&mut self, j: Job, on: bool)
        ensures
            final(self)@ == put(old(self)@, j, on),
    {
        match j {
            Job::Games => {
                self.games = on;
            },
            Job::Running => {
                self.running = on;
            },
            Job::Art => {
                self.art = on;
            },
            Job::Pairing => {
                self.pairing = on;
            },
            Job::Reach => {
                self.reach = on;
            },
            Job::SpeedTest => {
                self.speed_test = on;
            },
            Job::SendLogs => {
                self.send_logs = on;
            },
            Job::Rooted => {
                self.rooted = on;
            },
            Job::RootProbeOwed => {
                self.root_probe_owed = on;
            },
        }
        assert(self@ =~= put(old(self)@, j, on));
    }
}

} // verus!
