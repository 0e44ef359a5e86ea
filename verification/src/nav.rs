//! Which screen is up and where each screen's cursor is.
use vstd::prelude::*;
use crate::model::Screen;

verus! {

/// How many screens there are.
pub const SCREENS: usize = 20;

/// A screen's number.
pub open spec fn screen_no(s: Screen) -> int {
    match s {
        Screen::Home => 0,
        Screen::Pairing => 1,
        Screen::AddHost => 2,
        Screen::Wake => 3,
        Screen::ForgetHost => 4,
        Screen::EditHost => 5,
        Screen::About => 6,
        Screen::SpeedTest => 7,
        Screen::SendLogs => 8,
        Screen::Collections => 9,
        Screen::RenameCollection => 10,
        Screen::RemoveCollection => 11,
        Screen::ResetHdrCalibration => 12,
        Screen::SettingsPage => 13,
        Screen::RenameProfile => 14,
        Screen::DeleteProfile => 15,
        Screen::HostMenu => 16,
        Screen::HostPower => 17,
        Screen::PickProfile => 18,
        Screen::HdrCalibration => 19,
    }
}

fn screen_index(s: Screen) -> (r: usize)
    ensures
        r == screen_no(s),
        r < 20,
{
    match s {
        Screen::Home => 0,
        Screen::Pairing => 1,
        Screen::AddHost => 2,
        Screen::Wake => 3,
        Screen::ForgetHost => 4,
        Screen::EditHost => 5,
        Screen::About => 6,
        Screen::SpeedTest => 7,
        Screen::SendLogs => 8,
        Screen::Collections => 9,
        Screen::RenameCollection => 10,
        Screen::RemoveCollection => 11,
        Screen::ResetHdrCalibration => 12,
        Screen::SettingsPage => 13,
        Screen::RenameProfile => 14,
        Screen::DeleteProfile => 15,
        Screen::HostMenu => 16,
        Screen::HostPower => 17,
        Screen::PickProfile => 18,
        Screen::HdrCalibration => 19,
    }
}

/// The navigation state as a value: each screen keeps a cursor of its own.
pub struct NavV {
    pub screen: Screen,
    /// The screen of the last frame.
    pub last_screen: Screen,
    pub cursors: Seq<usize>,
}

impl NavV {
    pub open spec fn cursor(self, key: Screen) -> usize {
        self.cursors[screen_no(key)]
    }

    pub open spec fn at(self) -> usize {
        self.cursor(self.screen)
    }

    pub open spec fn set_cursor(self, key: Screen, at: usize) -> NavV {
        NavV { cursors: self.cursors.update(screen_no(key), at), ..self }
    }

    pub open spec fn show(self, screen: Screen) -> NavV {
        NavV { screen, ..self }
    }

    /// Up with the cursor at a given place.
    pub open spec fn enter(self, screen: Screen, at: usize) -> NavV {
        self.show(screen).set_cursor(screen, at)
    }
}

pub struct Nav {
    pub screen: Screen,
    pub last_screen: Screen,
    pub cursors: [usize; 20],
}

impl View for Nav {
    type V = NavV;

    open spec fn view(&self) -> NavV {
        NavV { screen: self.screen, last_screen: self.last_screen, cursors: self.cursors@ }
    }
}

impl Nav {
    pub fn new() -> (r: Self)
        ensures
            r@.screen == Screen::Home,
            r@.last_screen == Screen::Home,
            r@.cursors == Seq::new(20, |i: int| 0usize),
    {
        let r = Nav {
            screen: Screen::Home,
            last_screen: Screen::Home,
            cursors: [0, 0, 0, 0, 0, 0, 0, 0, 0, 0, 0, 0, 0, 0, 0, 0, 0, 0, 0, 0],
        };
        assert(r@.cursors =~= Seq::new(20, |i: int| 0usize));
        r
    }

    pub fn cursor(&self, key: Screen) -> (r: usize)
        ensures
            r == self@.cursor(key),
    {
        self.cursors[screen_index(key)]
    }

    pub fn set_cursor(&mut self, key: Screen, at: usize)
        ensures
            final(self)@ == old(self)@.set_cursor(key, at),
    {
        self.cursors[screen_index(key)] = at;
    }

    /// Raises `screen` with its cursor at `at`.
    pub fn enter(&mut self, screen: Screen, at: usize)
        ensures
            final(self)@ == old(self)@.enter(screen, at),
    {
        self.screen = screen;
        self.set_cursor(screen, at);
    }

    /// Raises `screen` with its cursor where it was left.
    pub fn resume(&mut self, screen: Screen)
        ensures
            final(self)@ == old(self)@.show(screen),
    {
        self.screen = screen;
    }
}

proof fn lemma_screen_no_injective(a: Screen, b: Screen)
    ensures
        screen_no(a) == screen_no(b) ==> a == b,
        0 <= screen_no(a) < 20,
{
}

/// A screen's cursor is its own: entering one leaves every other where it was, and coming back
/// to a screen finds its cursor where it was left.
pub proof fn law_cursors_independent(nav: NavV, a: Screen, at: usize, b: Screen)
    requires
        nav.cursors.len() == 20,
    ensures
        nav.enter(a, at).cursor(a) == at,
        a != b ==> nav.enter(a, at).cursor(b) == nav.cursor(b),
        nav.show(a).cursor(b) == nav.cursor(b),
{
    lemma_screen_no_injective(a, b);
    lemma_screen_no_injective(b, a);
}

} // verus!
