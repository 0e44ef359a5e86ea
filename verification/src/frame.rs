//! One frame's bookkeeping: which animations run on, which screen was left, what arrived by itself.
use vstd::prelude::*;
use crate::app::{elapsed, since, App, AppV, HOME_STATUS_LIFETIME, LIBRARY_STATUS_DELAY};
use crate::flags::{Flag, Job};
use crate::grid::GridV;
use crate::library::{Library, LibraryV};
use crate::model::{HomeFocus, LibraryError, Screen, Target, TargetV};
use crate::nav::NavV;
use crate::seqs::views;
use crate::slots::{Effect, EffectV};
use crate::text::{has_text, texts};

verus! {

/// How long each motion takes, in milliseconds.
#[derive(Clone, Copy, PartialEq, Eq, Structural, Debug)]
pub struct Pace {
    /// A grid card's focus motion.
    pub card_focus_pop: u64,
    /// Every other focus motion, and a switch's slide.
    pub focus_pop: u64,
    /// The launch's fade to black.
    pub launch_fade: u64,
    /// A held card's panel rising.
    pub card_menu_rise: u64,
    /// A status line fading out.
    pub overlay_fade: u64,
}

/// What runs on clocks of its own.
#[derive(Clone, Copy, PartialEq, Eq, Structural, Debug)]
pub struct Motions {
    /// The grid's scroll offset after this tick's easing.
    pub scroll: i32,
    /// That offset has not settled.
    pub scrolling: bool,
    /// A modal is fading in or out.
    pub fading: bool,
    /// The launch backdrop shows.
    pub hero_showing: bool,
    /// The grid's first page is being uncovered.
    pub dissolving: bool,
    /// A list, the sidebar or the settings column is settling.
    pub easing: bool,
    /// The app mark is entering.
    pub mark_entering: bool,
}

/// Whether a clock has run for `span`.
pub open spec fn ran_out(t: Option<u64>, span: u64, now: u64) -> bool {
    t matches Some(t) && since(t, now) >= span
}

/// A clock, gone once it has run for `span`.
pub open spec fn running(t: Option<u64>, span: u64, now: u64) -> Option<u64> {
    if ran_out(t, span, now) {
        None
    } else {
        t
    }
}

fn run_on(t: Option<u64>, span: u64, now: u64) -> (r: Option<u64>)
    ensures
        r == running(t, span, now),
{
    match t {
        Some(at) => if elapsed(at, now) >= span {
            None
        } else {
            Some(at)
        },
        None => None,
    }
}

/// How long Home's focus motion takes.
pub open spec fn focus_span(focus: HomeFocus, pace: Pace) -> u64 {
    match focus {
        HomeFocus::Grid(_) => pace.card_focus_pop,
        _ => pace.focus_pop,
    }
}

/// A cover or backdrop that has finished loading.
pub enum ArtLoaded {
    Card(String),
    /// `accepted` is false where the focus has moved on and the backdrop is of no use.
    Hero { game_id: String, accepted: bool },
}

pub enum ArtV {
    Card(Seq<char>),
    Hero { game_id: Seq<char>, accepted: bool },
}

impl View for ArtLoaded {
    type V = ArtV;

    open spec fn view(&self) -> ArtV {
        match self {
            ArtLoaded::Card(id) => ArtV::Card(id@),
            ArtLoaded::Hero { game_id, accepted } => ArtV::Hero { game_id: game_id@, accepted: *accepted },
        }
    }
}

/// What a frame does to the modals' fades.
#[derive(Clone, Copy, PartialEq, Eq, Structural, Debug)]
pub struct FrameTurn {
    /// Another screen is up than in the last frame.
    pub changed: bool,
    /// The modal that was left and fades out.
    pub closing: Option<Screen>,
    /// It fades against a modal that comes up, rather than away from Home.
    pub crossing: bool,
    /// The modal that came up and fades in; a fade-out of the same one is called off.
    pub opening: Option<Screen>,
}

pub open spec fn modal(screen: Screen) -> Option<Screen> {
    if screen == Screen::Home {
        None
    } else {
        Some(screen)
    }
}

fn as_modal(screen: Screen) -> (r: Option<Screen>)
    ensures
        r == modal(screen),
{
    if screen == Screen::Home {
        None
    } else {
        Some(screen)
    }
}

/// What a step from one screen to another does to the fades.
pub open spec fn turn(left: Screen, entered: Screen) -> FrameTurn {
    FrameTurn {
        changed: left != entered,
        closing: if left != entered {
            modal(left)
        } else {
            None
        },
        crossing: left != entered && left != Screen::Home && entered != Screen::Home,
        opening: if left != entered {
            modal(entered)
        } else {
            None
        },
    }
}

/// Every modal that is left fades out and every one that comes up fades in, and Home does neither.
pub proof fn law_every_exit_fades(left: Screen, entered: Screen)
    ensures
        left == entered ==> turn(left, entered).closing is None && turn(left, entered).opening is None,
        left != entered && left != Screen::Home ==> turn(left, entered).closing == Some(left),
        left != entered && entered != Screen::Home ==> turn(left, entered).opening == Some(entered),
        turn(left, entered).closing != Some(Screen::Home),
        turn(left, entered).opening != Some(Screen::Home),
        turn(left, entered).crossing == (turn(left, entered).closing is Some && turn(left, entered).opening is Some),
{
}

impl AppV {
    /// The clocks of the focus motions and the switch's slide.
    pub open spec fn run_clocks(self, m: Motions, pace: Pace, now: u64) -> AppV {
        AppV {
            grid: GridV { scroll: m.scroll, ..self.grid },
            focus_anim: running(self.focus_anim, focus_span(self.home_focus, pace), now),
            modal_focus_anim: running(self.modal_focus_anim, pace.focus_pop, now),
            switch_anim: match self.switch_anim {
                Some(s) => if since(s.from, now) >= pace.focus_pop {
                    None
                } else {
                    Some(s)
                },
                None => None,
            },
            ..self
        }
    }

    pub open spec fn line_is_due(self, now: u64) -> bool {
        self.library_status_due matches Some(d) && since(d.from, now) >= LIBRARY_STATUS_DELAY
    }

    /// A delayed line whose time has come: it goes up only if the fetch it speaks of is still out.
    pub open spec fn raise_due_line(self, now: u64) -> AppV {
        if self.line_is_due(now) {
            if self.jobs.has(Job::Games) {
                self.set_home_status(Some(self.library_status_due->0.line), false, now)
            } else {
                AppV { library_status_due: None, ..self }
            }
        } else {
            self
        }
    }

    /// A status line that has had its time: it fades, and is gone once it has.
    pub open spec fn expire_status(self, fade: u64, now: u64) -> AppV {
        if self.home_status_shown_at matches Some(t) && since(t, now) >= HOME_STATUS_LIFETIME + fade {
            self.set_home_status(None, false, now)
        } else {
            self
        }
    }

    pub open spec fn tick_card_menu(self, pace: Pace, now: u64) -> AppV {
        match self.card_menu {
            Some(m) => AppV { card_menu: Some(m.tick(pace.card_menu_rise, pace.focus_pop, now)), ..self },
            None => self,
        }
    }

    /// Everything that moves by itself, moved on.
    pub open spec fn tick_animations(self, m: Motions, pace: Pace, now: u64) -> AppV {
        self.run_clocks(m, pace, now).raise_due_line(now).expire_status(pace.overlay_fade, now).tick_card_menu(
            pace,
            now,
        )
    }

    /// Whether a clock of the menu's own runs. One that runs out on this tick counts: its last
    /// frame is still owed.
    pub open spec fn clocks_run(self, pace: Pace, now: u64) -> bool {
        ||| self.focus_anim is Some
        ||| self.modal_focus_anim is Some
        ||| self.switch_anim is Some
        ||| self.flags.contains(Flag::PressArmed)
        ||| (self.grid.card_pop_until matches Some(until) && now < until)
        ||| (self.card_menu matches Some(m) && m.owed())
    }

    /// Whether the status line goes up, fades or goes on this tick.
    pub open spec fn status_moves(self, now: u64) -> bool {
        ||| self.line_is_due(now) && self.jobs.has(Job::Games)
        ||| ran_out(self.raise_due_line(now).home_status_shown_at, HOME_STATUS_LIFETIME, now)
    }

    pub open spec fn launch_moves(self, m: Motions, pace: Pace, now: u64) -> bool {
        self.launch_anim matches Some(t) && (since(t, now) < pace.launch_fade || m.hero_showing)
    }

    /// Whether this tick owes a frame.
    pub open spec fn animating(self, m: Motions, pace: Pace, now: u64) -> bool {
        ||| m.scrolling || m.fading || m.dissolving || m.easing || m.mark_entering
        ||| self.clocks_run(pace, now)
        ||| self.status_moves(now)
        ||| self.launch_moves(m, pace, now)
    }

    /// The frame's card size, and the screen it is drawn for.
    pub open spec fn advance_frame(self, card_size: (u32, u32)) -> AppV {
        AppV {
            grid: GridV { card_size, ..self.grid },
            nav: NavV { last_screen: self.nav.screen, ..self.nav },
            ..self
        }
    }

    /// Everything an open screen changes by itself.
    pub open spec fn tick_screens(
        self,
        probed: Option<(TargetV, Option<LibraryError>)>,
        presenting: bool,
        stalled: bool,
        now: u64,
    ) -> AppV {
        self.tick_wake(probed, now).tick_hdr_pattern(presenting, stalled).tick_running(now)
    }

    /// One loaded image taken.
    pub open spec fn take_art(self, item: ArtV) -> AppV {
        match item {
            ArtV::Card(id) => AppV {
                grid: GridV { cards_dirty: self.grid.cards_dirty.push(id), ..self.grid },
                library: LibraryV { art: self.library.art.insert(id), ..self.library },
                ..self
            },
            ArtV::Hero { game_id, accepted } => if accepted {
                self
            } else {
                self.effect(EffectV::ForgetHero(game_id))
            },
        }
    }

    /// The first `n` loaded images taken.
    pub open spec fn take_all_art(self, loaded: Seq<ArtV>, n: int) -> AppV
        decreases n,
    {
        if n <= 0 {
            self
        } else {
            self.take_all_art(loaded, n - 1).take_art(loaded[n - 1])
        }
    }

    pub open spec fn drain_art(self, loaded: Seq<ArtV>) -> AppV {
        if self.jobs.has(Job::Art) {
            self.take_all_art(loaded, loaded.len() as int)
        } else {
            self
        }
    }
}

/// A menu with nothing under way owes no frame: the loop may sleep until an event comes.
pub proof fn law_idle_menu_sleeps(app: AppV, m: Motions, pace: Pace, now: u64)
    requires
        !m.scrolling && !m.fading && !m.dissolving && !m.easing && !m.mark_entering,
        app.focus_anim is None,
        app.modal_focus_anim is None,
        app.switch_anim is None,
        !app.flags.contains(Flag::PressArmed),
        app.grid.card_pop_until is None,
        app.card_menu is None,
        app.launch_anim is None,
        app.library_status_due is None,
        app.home_status_shown_at is None,
    ensures
        !app.animating(m, pace, now),
        app.tick_animations(m, pace, now) == app.run_clocks(m, pace, now),
{
}

/// A status line is up at full strength for its whole lifetime, and is gone once it has faded.
pub proof fn law_status_lifetime(app: AppV, m: Motions, pace: Pace, now: u64)
    requires
        app.library_status_due is None,
        app.home_status_shown_at is Some,
    ensures
        since(app.home_status_shown_at->0, now) < HOME_STATUS_LIFETIME ==> {
            &&& app.tick_animations(m, pace, now).home_status == app.home_status
            &&& !app.status_moves(now)
        },
        since(app.home_status_shown_at->0, now) >= HOME_STATUS_LIFETIME + pace.overlay_fade ==> app.tick_animations(
            m,
            pace,
            now,
        ).home_status is None,
{
}

/// A delayed line that the fetch has overtaken is dropped without replacing what is up.
pub proof fn law_overtaken_line_is_dropped(app: AppV, now: u64)
    requires
        app.line_is_due(now),
        !app.jobs.has(Job::Games),
    ensures
        app.raise_due_line(now).home_status == app.home_status,
        app.raise_due_line(now).library_status_due is None,
{
}

/// Art that arrives changes no layout: the games, their order and the scroll stay.
pub proof fn law_art_moves_nothing(app: AppV, loaded: Seq<ArtV>, n: int)
    requires
        0 <= n <= loaded.len(),
    ensures
        app.take_all_art(loaded, n).library.games == app.library.games,
        app.take_all_art(loaded, n).library.groups == app.library.groups,
        app.take_all_art(loaded, n).grid.scroll_target == app.grid.scroll_target,
        app.take_all_art(loaded, n).home_focus == app.home_focus,
    decreases n,
{
    if n > 0 {
        law_art_moves_nothing(app, loaded, n - 1);
    }
}

impl Library {
    /// Notes that a card's cover art is in hand.
    pub fn add_art(&mut self, id: String)
        ensures
            final(self)@ == (LibraryV { art: old(self)@.art.insert(id@), ..old(self)@ }),
    {
        let ghost before = texts(self.art@);
        if has_text(&self.art, id.as_str()) {
            assert(before.to_set() =~= before.to_set().insert(id@));
            return;
        }
        self.art.push(id);
        proof {
            assert(texts(self.art@) =~= before.push(id@));
            let after = before.push(id@);
            assert forall|x: Seq<char>| after.to_set().contains(x) == before.to_set().insert(id@).contains(x) by {
                if before.contains(x) {
                    let k = choose|k: int| 0 <= k < before.len() && before[k] == x;
                    assert(after[k] == x);
                }
                if x == id@ {
                    assert(after[before.len() as int] == x);
                }
            }
            assert(after.to_set() =~= before.to_set().insert(id@));
        }
    }
}

impl App {
    /// How long the last tick is ago, `first` on the first one.
    pub fn tick_step(&mut self, first: u64, now: u64) -> (r: u64)
        ensures
            r == (match old(self)@.last_tick {
                Some(t) => since(t, now),
                None => first,
            }),
            final(self)@ == (AppV { last_tick: Some(now), ..old(self)@ }),
            final(self).wf() == old(self).wf(),
    {
        let dt: u64 = match self.last_tick {
            Some(t) => elapsed(t, now),
            None => first,
        };
        self.last_tick = Some(now);
        dt
    }

    fn run_clocks(&mut self, m: Motions, pace: Pace, now: u64)
        ensures
            final(self)@ == old(self)@.run_clocks(m, pace, now),
            final(self).wf() == old(self).wf(),
    {
        self.grid.scroll = m.scroll;
        let span: u64 = match self.home_focus {
            HomeFocus::Grid(_) => pace.card_focus_pop,
            _ => pace.focus_pop,
        };
        self.focus_anim = run_on(self.focus_anim, span, now);
        self.modal_focus_anim = run_on(self.modal_focus_anim, pace.focus_pop, now);
        match self.switch_anim {
            Some(s) => {
                if elapsed(s.from, now) >= pace.focus_pop {
                    self.switch_anim = None;
                }
            },
            None => {},
        }
    }

    fn raise_due_line(&mut self, now: u64) -> (r: bool)
        ensures
            final(self)@ == old(self)@.raise_due_line(now),
            r == (old(self)@.line_is_due(now) && old(self)@.jobs.has(Job::Games)),
            final(self).wf() == old(self).wf(),
    {
        let due: bool = match &self.library_status_due {
            Some(d) => elapsed(d.from, now) >= LIBRARY_STATUS_DELAY,
            None => false,
        };
        if !due {
            return false;
        }
        match self.library_status_due.take() {
            Some(d) => {
                if self.jobs.has(Job::Games) {
                    self.set_home_status(Some(d.line), false, now);
                    return true;
                }
            },
            None => {},
        }
        false
    }

    fn expire_status(&mut self, fade: u64, now: u64) -> (r: bool)
        ensures
            final(self)@ == old(self)@.expire_status(fade, now),
            r == ran_out(old(self)@.home_status_shown_at, HOME_STATUS_LIFETIME, now),
            final(self).wf() == old(self).wf(),
    {
        match self.home_status_shown_at {
            Some(t) => {
                let up: u64 = elapsed(t, now);
                if up < HOME_STATUS_LIFETIME {
                    return false;
                }
                if up - HOME_STATUS_LIFETIME >= fade {
                    self.set_home_status(None, false, now);
                }
                true
            },
            None => false,
        }
    }

    fn tick_card_menu(&mut self, pace: Pace, now: u64) -> (r: bool)
        ensures
            final(self)@ == old(self)@.tick_card_menu(pace, now),
            r == (old(self)@.card_menu matches Some(m) && m.owed()),
            final(self).wf() == old(self).wf(),
    {
        match self.card_menu.take() {
            Some(mut m) => {
                let owed: bool = m.tick(pace.card_menu_rise, pace.focus_pop, now);
                self.card_menu = Some(m);
                owed
            },
            None => false,
        }
    }

    fn clocks_run(&self, now: u64) -> (r: bool)
        ensures
            r == ({
                ||| self@.focus_anim is Some
                ||| self@.modal_focus_anim is Some
                ||| self@.switch_anim is Some
                ||| self@.flags.contains(Flag::PressArmed)
                ||| (self@.grid.card_pop_until matches Some(until) && now < until)
            }),
    {
        self.focus_anim.is_some() || self.modal_focus_anim.is_some() || self.switch_anim.is_some() || self.flags.has(
            Flag::PressArmed,
        ) || self.grid.card_pops_running(now)
    }

    fn launch_moves(&self, m: Motions, pace: Pace, now: u64) -> (r: bool)
        ensures
            r == self@.launch_moves(m, pace, now),
    {
        match self.launch_anim {
            Some(t) => elapsed(t, now) < pace.launch_fade || m.hero_showing,
            None => false,
        }
    }

    /// Moves every animation on by one tick, reporting whether a frame is owed. One that ends on
    /// this tick reports once more, so that its end is drawn.
    pub fn tick_animations(&mut self, m: Motions, pace: Pace, now: u64) -> (r: bool)
        ensures
            final(self)@ == old(self)@.tick_animations(m, pace, now),
            r == old(self)@.animating(m, pace, now),
            final(self).wf() == old(self).wf(),
    {
        let outside: bool = m.scrolling || m.fading || m.dissolving || m.easing || m.mark_entering;
        let clocks: bool = self.clocks_run(now);
        let launch: bool = self.launch_moves(m, pace, now);
        self.run_clocks(m, pace, now);
        let raised: bool = self.raise_due_line(now);
        let faded: bool = self.expire_status(pace.overlay_fade, now);
        let menu: bool = self.tick_card_menu(pace, now);
        outside || clocks || launch || raised || faded || menu
    }

    /// Starts a frame: takes its card size, and reports what a change of screen does to the fades.
    pub fn advance_frame(&mut self, card_size: (u32, u32)) -> (r: FrameTurn)
        ensures
            final(self)@ == old(self)@.advance_frame(card_size),
            r == turn(old(self)@.nav.last_screen, old(self)@.nav.screen),
            final(self).wf() == old(self).wf(),
    {
        self.grid.card_size = card_size;
        let left: Screen = self.nav.last_screen;
        let entered: Screen = self.nav.screen;
        if left == entered {
            return FrameTurn { changed: false, closing: None, crossing: false, opening: None };
        }
        self.nav.last_screen = entered;
        FrameTurn {
            changed: true,
            closing: as_modal(left),
            crossing: left != Screen::Home && entered != Screen::Home,
            opening: as_modal(entered),
        }
    }

    /// Moves on whatever an open screen changes by itself. Reports whether anything shows.
    pub fn tick_screens(
        &mut self,
        probed: Option<(Target, Option<LibraryError>)>,
        presenting: bool,
        stalled: bool,
        now: u64,
    ) -> (r: bool)
        ensures
            final(self)@ == old(self)@.tick_screens(
                match probed {
                    Some((at, error)) => Some((at@, error)),
                    None => None,
                },
                presenting,
                stalled,
                now,
            ),
            r == ((probed is Some && old(self)@.takes_probe()) || (old(self)@.screens.wake matches Some(w)
                && w.retry_due(now)) || final(self)@.screens.hdr != old(self)@.tick_wake(
                match probed {
                    Some((at, error)) => Some((at@, error)),
                    None => None,
                },
                now,
            ).screens.hdr),
            final(self).wf() == old(self).wf(),
    {
        let woken: bool = self.tick_wake(probed, now);
        let pattern: bool = self.tick_hdr_pattern(presenting, stalled);
        self.tick_running(now);
        woken || pattern
    }

    fn take_art(&mut self, item: ArtLoaded)
        ensures
            final(self)@ == old(self)@.take_art(item@),
            final(self).wf() == old(self).wf(),
    {
        match item {
            ArtLoaded::Card(id) => {
                let stale = id.clone();
                let ghost before = self.grid.cards_dirty@;
                self.grid.cards_dirty.push(stale);
                assert(texts(self.grid.cards_dirty@) =~= texts(before).push(id@));
                self.library.add_art(id);
            },
            ArtLoaded::Hero { game_id, accepted } => {
                if !accepted {
                    self.ask(Effect::ForgetHero(game_id));
                }
            },
        }
    }

    /// Takes whatever art has finished loading. Reports whether any has.
    pub fn drain_art(&mut self, loaded: Vec<ArtLoaded>) -> (r: bool)
        ensures
            final(self)@ == old(self)@.drain_art(views(loaded@)),
            r == (old(self)@.jobs.has(Job::Art) && loaded.len() > 0),
            final(self).wf() == old(self).wf(),
    {
        if !self.jobs.has(Job::Art) || loaded.len() == 0 {
            assert(views(loaded@).len() == loaded@.len());
            return false;
        }
        let ghost all = views(loaded@);
        let ghost was = self@;
        let ghost fit = self.wf();
        let mut loaded = loaded;
        let mut rest: Vec<ArtLoaded> = Vec::new();
        // Turned round, so that the images come off the end in the order they came in.
        while loaded.len() > 0
            invariant
                loaded.len() + rest.len() == all.len(),
                views(loaded@) == all.take(loaded.len() as int),
                forall|k: int| 0 <= k < rest.len() ==> (#[trigger] rest@[k])@ == all[all.len() - 1 - k],
            decreases loaded.len(),
        {
            let ghost before = loaded@;
            match loaded.pop() {
                Some(item) => {
                    assert(views(before)[before.len() - 1] == item@);
                    assert(views(loaded@) =~= all.take(loaded.len() as int));
                    rest.push(item);
                },
                None => {},
            }
        }
        while rest.len() > 0
            invariant
                rest.len() <= all.len(),
                forall|k: int| 0 <= k < rest.len() ==> (#[trigger] rest@[k])@ == all[all.len() - 1 - k],
                self@ == was.take_all_art(all, all.len() - rest.len()),
                self.wf() == fit,
            decreases rest.len(),
        {
            let ghost before = rest@;
            match rest.pop() {
                Some(item) => {
                    assert(before[before.len() - 1]@ == item@);
                    self.take_art(item);
                },
                None => {},
            }
        }
        true
    }
}

} // verus!
