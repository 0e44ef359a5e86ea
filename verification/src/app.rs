//! The menu itself: the state every screen works on, and the rules they share.
use vstd::prelude::*;
use vstd::string::*;
use crate::flags::{put, Flag, Flags, Job};
use crate::grid::{GridState, GridV};
use crate::hosts::{
    entry_pos, entry_views, find_entry, find_host, host_at, host_pos, known_entries, known_rows, EntryV, HostEntry,
    HostsState, HostsV,
};
use crate::library::{Library, LibraryV};
use crate::model::{
    connect_of, found_views, host_views, is_target, profile_views, views_of, ConnectTarget, ConnectV,
    DiscoveredHost, ExitAction, FoundV, GamepadType, HomeFocus, HostV, KnownHost, LogLevelOverride, ProfileV,
    Screen, Settings, StreamProfile, Target, TargetV, DESKTOP_PIN_ID,
};
use crate::nav::{Nav, NavV};
use crate::recents::{RecentV, Recents};
use crate::seqs::views;
use crate::slots::{
    Effect, EffectV, Endpoint, EndpointV, ExitPlan, ExitPlanV, Jobs, JobsV, Persisted, PersistedV, ScreenSlots,
    ScreensV,
};
use crate::text::{has_text, join2, join3, text_of, texts};

verus! {

/// How long a Home status line stays up at full opacity before it fades out, in milliseconds.
pub const HOME_STATUS_LIFETIME: u64 = 15_000;

/// How long a library fetch may run before its progress line is worth putting up.
pub const LIBRARY_STATUS_DELAY: u64 = 1_000;

/// Milliseconds from `t` to `now`, none where `t` is still to come.
pub open spec fn since(t: u64, now: u64) -> u64 {
    if now >= t {
        (now - t) as u64
    } else {
        0
    }
}

pub fn elapsed(t: u64, now: u64) -> (r: u64)
    ensures
        r == since(t, now),
{
    if now >= t {
        now - t
    } else {
        0
    }
}

/// A sum that stops at the last index there is.
pub open spec fn index_sum(a: nat, b: nat) -> usize {
    if a + b <= usize::MAX {
        (a + b) as usize
    } else {
        usize::MAX
    }
}

pub fn add_index(a: usize, b: usize) -> (r: usize)
    ensures
        r == index_sum(a as nat, b as nat),
{
    if b <= usize::MAX - a {
        a + b
    } else {
        usize::MAX
    }
}

/// The submenu a held grid card raises over its own title strip.
pub struct CardMenu {
    /// The card it belongs to.
    pub pin_id: String,
    /// That card's grid index when the menu opened.
    pub idx: usize,
    pub title: String,
    pub focused: usize,
    /// When focus last moved, `None` once that motion has played out.
    pub focus_anim: Option<u64>,
    /// When the panel started to rise.
    pub since: u64,
    /// The rise has had its final frame drawn.
    pub risen: bool,
    /// The card has been moved inside its collection and the new order is not written yet.
    pub moved: bool,
}

/// A [`CardMenu`] as a value.
pub struct CardMenuV {
    pub pin_id: Seq<char>,
    pub idx: usize,
    pub title: Seq<char>,
    pub focused: usize,
    pub focus_anim: Option<u64>,
    pub since: u64,
    pub risen: bool,
    pub moved: bool,
}

impl View for CardMenu {
    type V = CardMenuV;

    open spec fn view(&self) -> CardMenuV {
        CardMenuV {
            pin_id: self.pin_id@,
            idx: self.idx,
            title: self.title@,
            focused: self.focused,
            focus_anim: self.focus_anim,
            since: self.since,
            risen: self.risen,
            moved: self.moved,
        }
    }
}

/// A status line waiting out [`LIBRARY_STATUS_DELAY`].
pub struct DueLine {
    pub from: u64,
    pub line: String,
}

pub struct DueLineV {
    pub from: u64,
    pub line: Seq<char>,
}

impl View for DueLine {
    type V = DueLineV;

    open spec fn view(&self) -> DueLineV {
        DueLineV { from: self.from, line: self.line@ }
    }
}

/// A toggle row's knob on its way: when it started, from which value, on which row.
#[derive(Clone, Copy, PartialEq, Eq, Structural, Debug)]
pub struct SwitchAnim {
    pub from: u64,
    pub was_on: bool,
    pub row: usize,
}

pub struct App {
    pub nav: Nav,
    pub jobs: Jobs,
    pub library: Library,
    pub hosts: HostsState,
    pub settings: Settings,
    pub flags: Flags,
    pub screens: ScreenSlots,
    pub grid: GridState,
    /// Home's focus motion clock.
    pub focus_anim: Option<u64>,
    /// The open modal's focus motion clock.
    pub modal_focus_anim: Option<u64>,
    pub switch_anim: Option<SwitchAnim>,
    pub home_focus: HomeFocus,
    pub home_status: Option<String>,
    pub home_status_shown_at: Option<u64>,
    pub library_status_due: Option<DueLine>,
    /// A one-shot message for the overlay.
    pub toast: Option<String>,
    pub launch_ready: Option<ConnectTarget>,
    pub launch_anim: Option<u64>,
    pub launch_anim_idx: Option<usize>,
    pub card_menu: Option<CardMenu>,
    pub recents: Recents,
    pub detected_gamepad_type: Option<GamepadType>,
    /// The level that the logger has in force, which need not be the saved one.
    pub log_level: LogLevelOverride,
    pub profiles: Vec<StreamProfile>,
    pub last_tick: Option<u64>,
    /// The OS chains that have a mark of their own.
    pub marked_os: Vec<String>,
    /// What the outer loop has been asked to do and has not taken yet.
    pub effects: Vec<Effect>,
}

/// The menu as a value.
pub struct AppV {
    pub nav: NavV,
    pub jobs: JobsV,
    pub library: LibraryV,
    pub hosts: HostsV,
    pub settings: Settings,
    pub flags: Set<Flag>,
    pub screens: ScreensV,
    pub grid: GridV,
    pub focus_anim: Option<u64>,
    pub modal_focus_anim: Option<u64>,
    pub switch_anim: Option<SwitchAnim>,
    pub home_focus: HomeFocus,
    pub home_status: Option<Seq<char>>,
    pub home_status_shown_at: Option<u64>,
    pub library_status_due: Option<DueLineV>,
    pub toast: Option<Seq<char>>,
    pub launch_ready: Option<ConnectV>,
    pub launch_anim: Option<u64>,
    pub launch_anim_idx: Option<usize>,
    pub card_menu: Option<CardMenuV>,
    pub recents: Seq<RecentV>,
    pub detected_gamepad_type: Option<GamepadType>,
    pub log_level: LogLevelOverride,
    pub profiles: Seq<ProfileV>,
    pub last_tick: Option<u64>,
    pub marked_os: Seq<Seq<char>>,
    pub effects: Seq<EffectV>,
}

impl View for App {
    type V = AppV;

    open spec fn view(&self) -> AppV {
        AppV {
            nav: self.nav@,
            jobs: self.jobs@,
            library: self.library@,
            hosts: self.hosts@,
            settings: self.settings,
            flags: self.flags@,
            screens: self.screens@,
            grid: self.grid@,
            focus_anim: self.focus_anim,
            modal_focus_anim: self.modal_focus_anim,
            switch_anim: self.switch_anim,
            home_focus: self.home_focus,
            home_status: text_of(self.home_status),
            home_status_shown_at: self.home_status_shown_at,
            library_status_due: views_of(self.library_status_due),
            toast: text_of(self.toast),
            launch_ready: connect_of(self.launch_ready),
            launch_anim: self.launch_anim,
            launch_anim_idx: self.launch_anim_idx,
            card_menu: views_of(self.card_menu),
            recents: self.recents@,
            detected_gamepad_type: self.detected_gamepad_type,
            log_level: self.log_level,
            profiles: profile_views(self.profiles@),
            last_tick: self.last_tick,
            marked_os: texts(self.marked_os@),
            effects: views(self.effects@),
        }
    }
}

/// The sidebar row a focus belongs to, whether on its body or its button.
pub open spec fn sidebar_row_of(focus: HomeFocus) -> Option<usize> {
    match focus {
        HomeFocus::Sidebar(i) => Some(i),
        HomeFocus::SidebarMenu(i) => Some(i),
        HomeFocus::Grid(_) => None,
    }
}

pub fn sidebar_row(focus: HomeFocus) -> (r: Option<usize>)
    ensures
        r == sidebar_row_of(focus),
{
    match focus {
        HomeFocus::Sidebar(i) => Some(i),
        HomeFocus::SidebarMenu(i) => Some(i),
        HomeFocus::Grid(_) => None,
    }
}

/// The card mark of an OS chain: the chain kept whole, where the chain has a mark.
pub open spec fn os_mark(chain: Seq<char>, marked: Seq<Seq<char>>) -> Option<Seq<char>> {
    if marked.contains(chain) {
        Some("os/"@ + chain)
    } else {
        None
    }
}

/// The card icon token for an advertised OS chain, kept whole; `None` when nothing in the chain
/// has a mark, so that the desktop card falls back to its title.
pub fn os_icon_token(chain: &str, has_mark: bool) -> (r: Option<String>)
    ensures
        text_of(r) == (if has_mark {
            Some("os/"@ + chain@)
        } else {
            None
        }),
{
    if has_mark {
        Some(join2("os/", chain))
    } else {
        None
    }
}

/// What is said while a library loads.
pub open spec fn loading_line(name: Seq<char>) -> Seq<char> {
    "Loading library from "@ + name + "…"@
}

/// What is said while the library of a host that came back loads.
pub open spec fn back_online_line(name: Seq<char>) -> Seq<char> {
    name + " is back online — loading its library…"@
}

impl AppV {
    pub open spec fn effect(self, e: EffectV) -> AppV {
        AppV { effects: self.effects.push(e), ..self }
    }

    /// The document as the menu holds it.
    pub open spec fn persisted(self) -> PersistedV {
        PersistedV {
            settings: self.settings,
            known_hosts: self.hosts.known,
            selected_host: self.library.selected_host,
            profiles: self.profiles,
        }
    }

    pub open spec fn persist(self) -> AppV {
        self.effect(EffectV::Save(self.persisted()))
    }

    pub open spec fn set_home_status(self, status: Option<Seq<char>>, sticky: bool, now: u64) -> AppV {
        AppV {
            library_status_due: None,
            home_status_shown_at: if status is Some {
                Some(now)
            } else {
                None
            },
            home_status: status,
            flags: put(self.flags, Flag::StickyStatus, sticky),
            ..self
        }
    }

    pub open spec fn set_home_status_delayed(self, line: Seq<char>, now: u64) -> AppV {
        AppV {
            library_status_due: Some(DueLineV { from: now, line }),
            ..self.set_home_status(None, false, now)
        }
    }

    pub open spec fn show(self, screen: Screen) -> AppV {
        AppV { nav: self.nav.show(screen), ..self }
    }

    pub open spec fn enter(self, screen: Screen, at: usize) -> AppV {
        AppV { nav: self.nav.enter(screen, at), ..self }
    }

    pub open spec fn set_home_focus(self, focus: HomeFocus, now: u64) -> AppV {
        if self.home_focus == focus {
            self
        } else {
            AppV {
                home_focus: focus,
                grid: match focus {
                    HomeFocus::Grid(i) => GridV { focus_last: i, ..self.grid },
                    _ => self.grid,
                },
                focus_anim: if focus is Grid || sidebar_row_of(self.home_focus) != sidebar_row_of(focus) {
                    Some(now)
                } else {
                    self.focus_anim
                },
                ..self
            }
        }
    }

    /// The position of the selected host among the saved ones.
    pub open spec fn selected_pos(self) -> Option<int> {
        match self.library.selected_host {
            Some(t) => host_pos(self.hosts.known, t.host, t.port),
            None => None,
        }
    }

    /// The selected host's record.
    pub open spec fn selected_known_host(self) -> Option<HostV> {
        match self.selected_pos() {
            Some(i) => Some(self.hosts.known[i]),
            None => None,
        }
    }

    pub open spec fn with_known(self, i: int, h: HostV) -> AppV {
        AppV { hosts: HostsV { known: self.hosts.known.update(i, h), ..self.hosts }, ..self }
    }

    /// The selected host's row.
    pub open spec fn sidebar_index_of_selected_host(self) -> Option<int> {
        match self.library.selected_host {
            Some(t) => entry_pos(self.hosts.entries, t.host, t.port),
            None => None,
        }
    }

    pub open spec fn sidebar_index_for_selected(self) -> usize {
        match self.sidebar_index_of_selected_host() {
            Some(i) => i as usize,
            None => 0,
        }
    }

    /// Focus kept on the row the user is on after the list of `before` hosts changed length. The
    /// two rows past the hosts move with the list's end; a host's index is kept inside it.
    pub open spec fn reanchor(self, before: usize) -> AppV {
        let now = self.hosts.entries.len();
        match self.home_focus {
            HomeFocus::Grid(_) => self,
            HomeFocus::Sidebar(i) => if now == before {
                self
            } else {
                AppV { home_focus: HomeFocus::Sidebar(reanchored(i, before, now)), ..self }
            },
            HomeFocus::SidebarMenu(i) => if now == before || i < now {
                self
            } else {
                AppV { home_focus: HomeFocus::Sidebar(reanchored(i, before, now)), ..self }
            },
        }
    }

    pub open spec fn rebuild_entries(self) -> AppV {
        let before = self.hosts.entries.len() as usize;
        AppV {
            hosts: HostsV {
                entries: known_rows(self.hosts.known, self.profiles, self.hosts.known.len() as int),
                ..self.hosts
            },
            ..self
        }.reanchor(before)
    }

    pub open spec fn note_reachable(self, at: TargetV, online: bool) -> AppV {
        AppV { hosts: self.hosts.note_reachable(at, online), ..self }
    }

    /// The grid laid out over the selected host's collections.
    pub open spec fn regroup_games(self) -> AppV {
        match self.selected_pos() {
            Some(i) => {
                let h = self.hosts.known[i];
                AppV {
                    library: self.library.set_desktop_icon(os_mark(h.os, self.marked_os)).regroup(h, self.recents),
                    ..self
                }
            },
            None => AppV { library: LibraryV { groups: Seq::empty(), ..self.library }, ..self },
        }
    }

    /// Where a request to a host goes: what is saved of it says which port and certificate.
    pub open spec fn endpoint(self, at: TargetV) -> EndpointV {
        let known = self.hosts.host_at(at);
        EndpointV {
            at,
            mgmt_port: match known {
                Some(h) => h.mgmt_port,
                None => None,
            },
            pin: match known {
                Some(h) => h.pin,
                None => None,
            },
        }
    }

    /// A host's name, or its address where it is not saved.
    pub open spec fn name_of(self, at: TargetV) -> Seq<char> {
        match self.hosts.host_at(at) {
            Some(h) => h.name,
            None => at.host,
        }
    }

    /// A host made the selected one, its power-down lifted.
    pub open spec fn picked(self, at: TargetV) -> AppV {
        AppV {
            hosts: HostsV {
                powered_down: if self.hosts.powered_down == Some(at) {
                    None
                } else {
                    self.hosts.powered_down
                },
                ..self.hosts
            },
            library: LibraryV { selected_host: Some(at), ..self.library },
            ..self
        }.persist()
    }

    /// Nothing left of the last library, and the next one asked for.
    pub open spec fn emptied(self) -> AppV {
        AppV {
            library: self.library.clear(),
            jobs: self.jobs.stop(Job::Art).start(Job::Games),
            grid: GridV { focus_last: 0, dirty: true, scroll: 0, scroll_target: 0, ..self.grid },
            ..self
        }
    }

    /// A host picked: its power-down is lifted, what was drawn from the last one goes, and its
    /// library is asked for.
    pub open spec fn select_host(self, at: TargetV, mgmt_port: Option<u16>, now: u64) -> AppV {
        self.picked(at).set_home_status_delayed(loading_line(self.name_of(at)), now).emptied().effect(
            EffectV::FetchGames(EndpointV { mgmt_port, ..self.endpoint(at) }),
        )
    }

    /// Nothing selected, and nothing left that was drawn from the host that was.
    pub open spec fn clear_selected_host(self, now: u64) -> AppV {
        AppV {
            library: LibraryV { selected_host: None, ..self.library.clear() },
            jobs: self.jobs.cancel_library(),
            home_focus: HomeFocus::Sidebar(0),
            grid: GridV { focus_last: 0, dirty: true, ..self.grid },
            ..self.set_home_status(None, false, now)
        }
    }

    /// A wake over because the host is back: its prompt goes and the host is picked.
    pub open spec fn wake_succeeded(self, at: TargetV, mgmt_port: Option<u16>, now: u64) -> AppV {
        let dismissed = AppV {
            screens: ScreensV { wake: None, ..self.screens },
            nav: if self.nav.screen == Screen::Wake {
                self.nav.show(Screen::Home)
            } else {
                self.nav
            },
            ..self
        };
        let picked = dismissed.select_host(at, mgmt_port, now);
        match self.screens.wake {
            Some(w) => picked.set_home_status_delayed(back_online_line(w.name), now),
            None => picked,
        }
    }

    /// What to send to a host's management lane for a power action, `None` where there is
    /// nothing to send or no pairing to send it under.
    pub open spec fn power_plan(known: HostV, action: ExitAction) -> Option<ExitPlanV> {
        match known.pin {
            Some(pin) => if action == ExitAction::Nothing {
                None
            } else {
                Some(ExitPlanV { addr: known.addr, mgmt_port: known.mgmt_port, pin, action })
            },
            None => None,
        }
    }

    /// What to do to the selected host on the way out. Only that one, and only while it answers:
    /// the setting is per host, but quitting ends only the session one is in.
    pub open spec fn exit_plan(self) -> Option<ExitPlanV> {
        match self.selected_known_host() {
            Some(h) => if crate::hosts::online_of(
                self.hosts.reachable,
                TargetV { host: h.addr, port: h.port },
            ) == Some(true) {
                AppV::power_plan(h, h.exit_action)
            } else {
                None
            },
            None => None,
        }
    }
}

/// Where a sidebar index goes when a list of `before` hosts becomes one of `now`.
pub open spec fn reanchored(i: usize, before: usize, now: nat) -> usize {
    if i >= before {
        index_sum((i - before) as nat, now)
    } else if i < now {
        i
    } else {
        now as usize
    }
}

/// What a round of discovery has done so far.
pub struct RoundV {
    pub app: AppV,
    pub sidebar: bool,
    pub metadata: bool,
    pub grid: bool,
    pub woke: Option<(TargetV, Option<u16>)>,
}

impl AppV {
    /// Whether an announce tells something new of a saved host.
    pub open spec fn news(self, f: FoundV) -> bool {
        match self.hosts.host_at(TargetV { host: f.addr, port: f.port }) {
            Some(h) => h.news_mac(f) || h.news_os(f),
            None => false,
        }
    }

    /// Whether an announce gives the selected host another OS than was known.
    pub open spec fn new_mark(self, f: FoundV) -> bool {
        let at = TargetV { host: f.addr, port: f.port };
        match self.hosts.host_at(at) {
            Some(h) => h.news_os(f) && self.library.selected_host == Some(at),
            None => false,
        }
    }

    /// What an announce says, kept with the host it is about.
    pub open spec fn learn(self, f: FoundV) -> AppV {
        match host_pos(self.hosts.known, f.addr, f.port) {
            Some(i) => self.with_known(i, self.hosts.known[i].learned(f)),
            None => self,
        }
    }

    /// The desktop card in another OS's mark.
    pub open spec fn restamp(self, os: Seq<char>) -> AppV {
        AppV {
            library: self.library.set_desktop_icon(os_mark(os, self.marked_os)),
            grid: GridV { cards_dirty: self.grid.cards_dirty.push(DESKTOP_PIN_ID@), ..self.grid },
            ..self
        }
    }

    /// A host's own row, where it has none.
    pub open spec fn listed(self, f: FoundV) -> AppV {
        if self.hosts.listed(f.addr, f.port) {
            self
        } else {
            AppV {
                hosts: HostsV { entries: self.hosts.entries.push(EntryV::Discovered(f)), ..self.hosts },
                ..self
            }
        }
    }
}

impl RoundV {
    /// One announce: the host is up; a wake that waits for it is over; what it says of its
    /// addresses and its OS is kept; and it gets a row if it has none.
    pub open spec fn heard(self, f: FoundV) -> RoundV {
        let at = TargetV { host: f.addr, port: f.port };
        let noted = self.app.note_reachable(at, true);
        let stamped = if noted.new_mark(f) {
            noted.learn(f).restamp(f.os)
        } else {
            noted.learn(f)
        };
        RoundV {
            app: stamped.listed(f),
            sidebar: self.sidebar || crate::hosts::online_of(self.app.hosts.reachable, at) != Some(true)
                || !stamped.hosts.listed(f.addr, f.port),
            metadata: self.metadata || noted.news(f),
            grid: self.grid || noted.new_mark(f),
            woke: match self.app.screens.wake {
                Some(w) => if w.host == f.addr && w.port == f.port {
                    Some((at, f.mgmt_port))
                } else {
                    self.woke
                },
                None => self.woke,
            },
        }
    }

    pub open spec fn heard_all(self, found: Seq<FoundV>, n: int) -> RoundV
        decreases n,
    {
        if n <= 0 {
            self
        } else {
            self.heard_all(found, n - 1).heard(found[n - 1])
        }
    }
}

impl AppV {
    pub open spec fn discovery_round(self, found: Seq<FoundV>) -> RoundV {
        RoundV { app: self, sidebar: false, metadata: false, grid: false, woke: None }.heard_all(
            found,
            found.len() as int,
        )
    }

    /// A round of discovery, with what it changed.
    pub open spec fn drain_discovery(self, found: Seq<FoundV>, now: u64) -> (AppV, bool) {
        let r = self.discovery_round(found);
        let saved = if r.metadata {
            r.app.persist()
        } else {
            r.app
        };
        let woken = match r.woke {
            Some((at, mgmt_port)) => saved.wake_succeeded(at, mgmt_port, now),
            None => saved,
        };
        let sidebar = r.sidebar || r.woke is Some;
        (
            if sidebar {
                woken.reanchor(self.hosts.entries.len() as usize)
            } else {
                woken
            },
            sidebar || r.grid,
        )
    }
}

/// Focus on "Add host" or "Settings" stays on that row however many hosts come or go.
pub proof fn law_reanchor_keeps_utility_rows(app: AppV, before: usize, k: usize)
    requires
        k < 2,
        app.home_focus == HomeFocus::Sidebar((before + k) as usize),
        before + k <= usize::MAX,
        app.hosts.entries.len() + 2 <= usize::MAX,
    ensures
        app.reanchor(before).home_focus == HomeFocus::Sidebar((app.hosts.entries.len() + k) as usize),
{
}

/// Focus on a host row never ends up past the list: at most on the row after the last host.
pub proof fn law_reanchor_stays_inside(app: AppV, before: usize, i: usize)
    requires
        i < before,
        app.home_focus == HomeFocus::Sidebar(i) || app.home_focus == HomeFocus::SidebarMenu(i),
        app.hosts.entries.len() <= usize::MAX,
    ensures
        sidebar_row_of(app.reanchor(before).home_focus) matches Some(k) && k
            <= app.hosts.entries.len(),
        i < app.hosts.entries.len() ==> sidebar_row_of(app.reanchor(before).home_focus) == Some(i),
{
}

/// Picking a host that the user put down lifts its mark; picking another one does not.
pub proof fn law_picking_lifts_power_down(app: AppV, at: TargetV, other: TargetV, port: Option<u16>, now: u64)
    ensures
        app.select_host(at, port, now).hosts.powered_down != Some(at),
        app.hosts.powered_down == Some(other) && other != at ==> app.select_host(at, port, now).hosts.powered_down
            == Some(other),
{
}

/// Quitting acts on nothing but the selected host, and only where it is saved, paired, answering,
/// and set to something.
pub proof fn law_exit_plan_selected_only(app: AppV)
    ensures
        app.exit_plan() matches Some(plan) ==> {
            &&& app.library.selected_host is Some
            &&& app.selected_known_host() matches Some(h) && {
                &&& h.is_paired()
                &&& plan.addr == h.addr
                &&& plan.action == h.exit_action
                &&& plan.action != ExitAction::Nothing
                &&& crate::hosts::online_of(app.hosts.reachable, TargetV { host: h.addr, port: h.port }) == Some(true)
            }
        },
{
}

proof fn lemma_heard_keeps(r: RoundV, f: FoundV)
    ensures
        ({
            let n = r.heard(f);
            &&& n.app.hosts.entries.len() >= r.app.hosts.entries.len()
            &&& forall|i: int| 0 <= i < r.app.hosts.entries.len() ==> n.app.hosts.entries[i] == r.app.hosts.entries[i]
            &&& n.app.screens == r.app.screens
            &&& n.app.nav == r.app.nav
            &&& n.app.hosts.known.len() == r.app.hosts.known.len()
        }),
{
    crate::seqs::lemma_first_from(
        r.app.hosts.known,
        crate::hosts::host_is(f.addr, f.port),
        0,
    );
}

/// Discovery only appends: every row that was there keeps its index, so whatever a modal holds by
/// index is still the host it was opened on.
pub proof fn law_discovery_only_appends(r: RoundV, found: Seq<FoundV>, n: int)
    requires
        0 <= n <= found.len(),
    ensures
        ({
            let after = r.heard_all(found, n);
            &&& after.app.hosts.entries.len() >= r.app.hosts.entries.len()
            &&& forall|i: int|
                0 <= i < r.app.hosts.entries.len() ==> after.app.hosts.entries[i] == r.app.hosts.entries[i]
            &&& after.app.screens == r.app.screens
            &&& after.app.nav == r.app.nav
        }),
    decreases n,
{
    if n > 0 {
        law_discovery_only_appends(r, found, n - 1);
        lemma_heard_keeps(r.heard_all(found, n - 1), found[n - 1]);
    }
}

impl App {
    /// What every operation keeps.
    pub open spec fn wf(&self) -> bool {
        self.grid.wf()
    }

    /// The attached pad's type, refreshed when one is plugged or unplugged.
    pub fn set_gamepad_type(&mut self, kind: Option<GamepadType>)
        ensures
            final(self)@ == (AppV { detected_gamepad_type: kind, ..old(self)@ }),
            final(self).wf() == old(self).wf(),
    {
        self.detected_gamepad_type = kind;
    }

    /// Takes the level that the logger has in force.
    pub fn set_log_level(&mut self, level: LogLevelOverride)
        ensures
            final(self)@ == (AppV { log_level: level, ..old(self)@ }),
            final(self).wf() == old(self).wf(),
    {
        self.log_level = level;
    }

    /// Whether the system's on-screen keyboard is up.
    pub fn set_keyboard_shown(&mut self, shown: bool)
        ensures
            final(self)@ == (AppV { flags: put(old(self)@.flags, Flag::KeyboardShown, shown), ..old(self)@ }),
            final(self).wf() == old(self).wf(),
    {
        self.flags.set(Flag::KeyboardShown, shown);
    }

    /// Takes the queued message for the overlay.
    pub fn take_toast(&mut self) -> (r: Option<String>)
        ensures
            text_of(r) == old(self)@.toast,
            final(self)@ == (AppV { toast: None, ..old(self)@ }),
            final(self).wf() == old(self).wf(),
    {
        self.toast.take()
    }

    /// Queues a message; a second one before the tick makes the first stale.
    pub fn toast(&mut self, message: String)
        ensures
            final(self)@ == (AppV { toast: Some(message@), ..old(self)@ }),
            final(self).wf() == old(self).wf(),
    {
        self.toast = Some(message);
    }

    /// Ends a slider drag.
    pub fn end_slider_drag(&mut self)
        ensures
            final(self)@ == (AppV { flags: old(self)@.flags.remove(Flag::SliderDrag), ..old(self)@ }),
            final(self).wf() == old(self).wf(),
    {
        self.flags.set(Flag::SliderDrag, false);
    }

    /// Asks the outer loop for `e`.
    pub fn ask(&mut self, e: Effect)
        ensures
            final(self)@ == old(self)@.effect(e@),
            final(self).wf() == old(self).wf(),
    {
        self.effects.push(e);
        assert(views(self.effects@) =~= views(old(self).effects@).push(e@));
    }

    /// Hands the outer loop everything it has been asked for, oldest first.
    pub fn take_effects(&mut self) -> (r: Vec<Effect>)
        ensures
            views(r@) == old(self)@.effects,
            final(self)@ == (AppV { effects: Seq::empty(), ..old(self)@ }),
            final(self).wf() == old(self).wf(),
    {
        let mut r: Vec<Effect> = Vec::new();
        core::mem::swap(&mut r, &mut self.effects);
        assert(views(self.effects@) =~= Seq::empty());
        r
    }

    /// The document as the menu holds it right now.
    pub fn persisted(&self) -> (r: Persisted)
        ensures
            r@ == self@.persisted(),
    {
        let known_hosts = self.hosts.known.clone();
        let profiles = self.profiles.clone();
        assert(host_views(known_hosts@) =~= host_views(self.hosts.known@));
        assert(profile_views(profiles@) =~= profile_views(self.profiles@));
        let selected_host: Option<Target> = match &self.library.selected_host {
            Some(t) => Some(t.clone()),
            None => None,
        };
        Persisted { settings: self.settings, known_hosts, selected_host, profiles }
    }

    /// Queues the whole document for the background writer. Every change of settings, hosts or
    /// selection comes through here.
    pub fn persist(&mut self)
        ensures
            final(self)@ == old(self)@.persist(),
            final(self).wf() == old(self).wf(),
    {
        let doc = self.persisted();
        self.ask(Effect::Save(doc));
    }

    /// Sets the Home status line. A sticky one survives a reload. Drops a delayed line.
    pub fn set_home_status(&mut self, status: Option<String>, sticky: bool, now: u64)
        ensures
            final(self)@ == old(self)@.set_home_status(text_of(status), sticky, now),
            final(self).wf() == old(self).wf(),
    {
        self.library_status_due = None;
        self.home_status_shown_at = if status.is_some() {
            Some(now)
        } else {
            None
        };
        self.home_status = status;
        self.flags.set(Flag::StickyStatus, sticky);
    }

    /// Shows a status line only if the fetch still runs after [`LIBRARY_STATUS_DELAY`].
    pub fn set_home_status_delayed(&mut self, line: String, now: u64)
        ensures
            final(self)@ == old(self)@.set_home_status_delayed(line@, now),
            final(self).wf() == old(self).wf(),
    {
        self.set_home_status(None, false, now);
        self.library_status_due = Some(DueLine { from: now, line });
    }

    /// Applies an interactive Home focus transition. Reports whether focus moved.
    pub fn set_home_focus(&mut self, focus: HomeFocus, now: u64) -> (r: bool)
        ensures
            final(self)@ == old(self)@.set_home_focus(focus, now),
            r == (old(self)@.home_focus != focus),
            final(self).wf() == old(self).wf(),
    {
        let previous = self.home_focus;
        if previous == focus {
            return false;
        }
        self.home_focus = focus;
        let on_grid: bool = match focus {
            HomeFocus::Grid(index) => {
                self.grid.focus_last = index;
                true
            },
            _ => false,
        };
        if on_grid || sidebar_row(previous) != sidebar_row(focus) {
            self.focus_anim = Some(now);
        }
        true
    }

    /// Sidebar positions in total: host rows, "Add host" and "Settings".
    pub fn sidebar_len(&self) -> (r: usize)
        ensures
            r == index_sum(self@.hosts.entries.len(), 2),
    {
        add_index(self.hosts.entries.len(), 2)
    }

    /// The position of the saved host at an endpoint.
    pub fn known_host(&self, host: &str, port: u16) -> (r: Option<usize>)
        ensures
            match (r, host_pos(self@.hosts.known, host@, port)) {
                (Some(k), Some(i)) => k == i && k < self.hosts.known.len() && self@.hosts.known[i]
                    == self.hosts.known[k as int]@,
                (None, None) => true,
                _ => false,
            },
    {
        find_host(&self.hosts.known, host, port)
    }

    /// The position of the selected host among the saved ones.
    pub fn selected_known_host(&self) -> (r: Option<usize>)
        ensures
            match (r, self@.selected_pos()) {
                (Some(k), Some(i)) => k == i && k < self.hosts.known.len() && self@.hosts.known[i]
                    == self.hosts.known[k as int]@,
                (None, None) => true,
                _ => false,
            },
    {
        match &self.library.selected_host {
            Some(t) => self.known_host(t.host.as_str(), t.port),
            None => None,
        }
    }

    /// The selected host's sidebar row, `None` when nothing is selected and when the selected
    /// host has dropped out of the list.
    pub fn sidebar_index_of_selected_host(&self) -> (r: Option<usize>)
        ensures
            match (r, self@.sidebar_index_of_selected_host()) {
                (Some(k), Some(i)) => k == i && k < self.hosts.entries.len(),
                (None, None) => true,
                _ => false,
            },
    {
        match &self.library.selected_host {
            Some(t) => find_entry(&self.hosts.entries, t.host.as_str(), t.port),
            None => None,
        }
    }

    pub fn sidebar_index_for_selected(&self) -> (r: usize)
        ensures
            r == self@.sidebar_index_for_selected(),
    {
        match self.sidebar_index_of_selected_host() {
            Some(i) => i,
            None => 0,
        }
    }

    /// Keeps sidebar focus on the row the user is on after the host list changed length.
    pub fn reanchor_sidebar_focus(&mut self, before: usize)
        ensures
            final(self)@ == old(self)@.reanchor(before),
            final(self).wf() == old(self).wf(),
    {
        let now: usize = self.hosts.entries.len();
        let (i, on_menu): (usize, bool) = match self.home_focus {
            HomeFocus::Sidebar(i) => (i, false),
            HomeFocus::SidebarMenu(i) => (i, true),
            HomeFocus::Grid(_) => {
                return;
            },
        };
        if now == before {
            return;
        }
        // An actions button belongs to a host row, so it survives only while that row does.
        if on_menu && i < now {
            return;
        }
        let at: usize = if i >= before {
            add_index(i - before, now)
        } else if i < now {
            i
        } else {
            now
        };
        self.home_focus = HomeFocus::Sidebar(at);
    }

    /// Rebuilds the sidebar from the saved hosts, dropping rows that were only discovered.
    pub fn rebuild_entries(&mut self)
        ensures
            final(self)@ == old(self)@.rebuild_entries(),
            final(self).wf() == old(self).wf(),
    {
        let before: usize = self.hosts.entries.len();
        self.hosts.entries = known_entries(&self.hosts.known, &self.profiles);
        self.reanchor_sidebar_focus(before);
    }

    pub fn refresh_entries(&mut self)
        ensures
            final(self)@ == old(self)@.rebuild_entries(),
            final(self).wf() == old(self).wf(),
    {
        self.rebuild_entries();
    }

    /// Records whether a host answered. Reports whether the recorded state moved.
    pub fn note_reachable(&mut self, host: &str, port: u16, online: bool) -> (r: bool)
        ensures
            final(self)@ == old(self)@.note_reachable(TargetV { host: host@, port }, online),
            r == (crate::hosts::online_of(old(self)@.hosts.reachable, TargetV { host: host@, port }) != Some(online)),
            final(self).wf() == old(self).wf(),
    {
        self.hosts.note_reachable(host, port, online)
    }

    /// Lays the grid out over the selected host's collections. Every path that changes a
    /// collection, the selected host or the library ends here.
    pub fn regroup_games(&mut self)
        ensures
            final(self)@ == old(self)@.regroup_games(),
            final(self).wf() == old(self).wf(),
    {
        match self.selected_known_host() {
            Some(i) => {
                let marked: bool = has_text(&self.marked_os, self.hosts.known[i].os.as_str());
                let icon = os_icon_token(self.hosts.known[i].os.as_str(), marked);
                self.library.set_desktop_icon(icon);
                self.library.regroup(&self.hosts.known[i], &self.recents);
            },
            None => {
                self.library.clear_groups();
            },
        }
    }

    /// Where a request to a host goes.
    pub fn endpoint(&self, host: &str, port: u16) -> (r: Endpoint)
        ensures
            r@ == self@.endpoint(TargetV { host: host@, port }),
    {
        let at = Target { host: host.to_owned(), port };
        match self.known_host(host, port) {
            Some(i) => Endpoint { at, mgmt_port: self.hosts.known[i].mgmt_port, pin: self.hosts.known[i].pin },
            None => Endpoint { at, mgmt_port: None, pin: None },
        }
    }

    /// A host's name, or its address where it is not saved.
    pub fn name_of(&self, host: &str, port: u16) -> (r: String)
        ensures
            r@ == self@.name_of(TargetV { host: host@, port }),
    {
        match self.known_host(host, port) {
            Some(i) => self.hosts.known[i].name.clone(),
            None => host.to_owned(),
        }
    }

    /// Selects a host and asks for its library.
    pub fn select_host(&mut self, host: String, port: u16, mgmt_port: Option<u16>, now: u64)
        ensures
            final(self)@ == old(self)@.select_host(TargetV { host: host@, port }, mgmt_port, now),
            final(self).wf() == old(self).wf(),
    {
        let mut fetch = self.endpoint(host.as_str(), port);
        fetch.mgmt_port = mgmt_port;
        let name = self.name_of(host.as_str(), port);
        self.pick(host, port);
        self.set_home_status_delayed(join3("Loading library from ", name.as_str(), "…"), now);
        self.empty_library();
        self.ask(Effect::FetchGames(fetch));
    }

    /// Makes a host the selected one.
    fn pick(&mut self, host: String, port: u16)
        ensures
            final(self)@ == old(self)@.picked(TargetV { host: host@, port }),
            final(self).wf() == old(self).wf(),
    {
        // Picking a host is the "I want it back" that lifts a power-down by hand.
        if is_target(&self.hosts.powered_down, &host, port) {
            self.hosts.powered_down = None;
        }
        self.library.selected_host = Some(Target { host, port });
        self.persist();
    }

    /// Drops what was drawn from the last library, ahead of the next one.
    fn empty_library(&mut self)
        ensures
            final(self)@ == old(self)@.emptied(),
            final(self).wf() == old(self).wf(),
    {
        self.library.clear();
        self.jobs.stop(Job::Art);
        // Focus stays on the sidebar until there are cards to land on.
        self.grid.focus_last = 0;
        self.grid.dirty = true;
        self.grid.scroll = 0;
        self.grid.scroll_target = 0;
        self.jobs.start(Job::Games);
    }

    /// Drops the selected host and everything drawn from its library.
    pub fn clear_selected_host(&mut self, now: u64)
        ensures
            final(self)@ == old(self)@.clear_selected_host(now),
            final(self).wf() == old(self).wf(),
    {
        self.library.selected_host = None;
        self.library.clear();
        self.jobs.cancel_library();
        self.set_home_status(None, false, now);
        self.home_focus = HomeFocus::Sidebar(0);
        self.grid.focus_last = 0;
        self.grid.dirty = true;
    }

    /// Ends a wake in flight because the host is back. The selection moves, since that is what
    /// the wait was for.
    pub fn wake_succeeded(&mut self, host: String, port: u16, mgmt_port: Option<u16>, now: u64)
        ensures
            final(self)@ == old(self)@.wake_succeeded(TargetV { host: host@, port }, mgmt_port, now),
            final(self).wf() == old(self).wf(),
    {
        let name: Option<String> = match self.screens.wake.take() {
            Some(w) => Some(w.name),
            None => None,
        };
        // A wake ends on its own timing, so it dismisses its own modal and nothing else.
        if self.nav.screen == Screen::Wake {
            self.nav.screen = Screen::Home;
        }
        self.select_host(host, port, mgmt_port, now);
        match name {
            Some(name) => {
                self.set_home_status_delayed(
                    join2(name.as_str(), " is back online — loading its library…"),
                    now,
                );
            },
            None => {},
        }
    }

    /// Keeps what an announce says of a saved host. Reports whether it was news, and whether it
    /// was news of the selected host's OS.
    fn learn(&mut self, found: &DiscoveredHost) -> (t: (bool, bool))
        ensures
            final(self)@ == old(self)@.learn(found@),
            t.0 == old(self)@.news(found@),
            t.1 == old(self)@.new_mark(found@),
            final(self).wf() == old(self).wf(),
    {
        let ghost f = found@;
        match self.known_host(found.addr.as_str(), found.port) {
            Some(i) => {
                let ghost before = self.hosts.known@;
                let (new_mac, new_os): (bool, bool) = self.hosts.known[i].learn(found);
                assert(host_views(self.hosts.known@) =~= host_views(before).update(
                    i as int,
                    before[i as int]@.learned(f),
                ));
                (new_mac || new_os, new_os && is_target(&self.library.selected_host, &found.addr, found.port))
            },
            None => (false, false),
        }
    }

    /// Puts the desktop card in an OS's mark.
    fn restamp(&mut self, os: &str)
        ensures
            final(self)@ == old(self)@.restamp(os@),
            final(self).wf() == old(self).wf(),
    {
        let marked: bool = has_text(&self.marked_os, os);
        let icon = os_icon_token(os, marked);
        self.library.set_desktop_icon(icon);
        let ghost dirty = self.grid.cards_dirty@;
        self.grid.cards_dirty.push(DESKTOP_PIN_ID.to_owned());
        assert(texts(self.grid.cards_dirty@) =~= texts(dirty).push(DESKTOP_PIN_ID@));
    }

    /// Gives a discovered host a row. Reports whether it got one.
    fn list(&mut self, found: DiscoveredHost) -> (r: bool)
        ensures
            final(self)@ == old(self)@.listed(found@),
            r == !old(self)@.hosts.listed(found@.addr, found@.port),
            final(self).wf() == old(self).wf(),
    {
        if self.hosts.host_listed(found.addr.as_str(), found.port) {
            return false;
        }
        let ghost f = found@;
        let ghost rows = self.hosts.entries@;
        self.hosts.entries.push(HostEntry::Discovered(found));
        assert(entry_views(self.hosts.entries@) =~= entry_views(rows).push(EntryV::Discovered(f)));
        true
    }

    /// Takes one announce in. Reports whether the rows, the saved records and the desktop card
    /// changed, and whether it is the host a wake is waiting for.
    fn hear(&mut self, found: DiscoveredHost, Ghost(r): Ghost<RoundV>) -> (t: (bool, bool, bool, bool))
        requires
            r.app == old(self)@,
        ensures
            final(self)@ == r.heard(found@).app,
            r.heard(found@).sidebar == (r.sidebar || t.0),
            r.heard(found@).metadata == (r.metadata || t.1),
            r.heard(found@).grid == (r.grid || t.2),
            r.heard(found@).woke == (if t.3 {
                Some((TargetV { host: found.addr@, port: found.port }, found.mgmt_port))
            } else {
                r.woke
            }),
            final(self).wf() == old(self).wf(),
    {
        // An announce is the host saying it is up, on its own initiative.
        let moved: bool = self.note_reachable(found.addr.as_str(), found.port, true);
        let woke: bool = match &self.screens.wake {
            Some(w) => w.host == found.addr && w.port == found.port,
            None => false,
        };
        let (metadata, mark): (bool, bool) = self.learn(&found);
        // The desktop card wears this host's mark, so a newly learned OS restamps it.
        if mark {
            self.restamp(found.os.as_str());
        }
        let row: bool = self.list(found);
        (moved || row, metadata, mark, woke)
    }

    /// Merges freshly discovered hosts into the sidebar, learns each saved host's OS and wake
    /// addresses from its announce, and notices when a waking host reappears. Returns whether
    /// anything on screen changed.
    pub fn drain_discovery(&mut self, found: Vec<DiscoveredHost>, now: u64) -> (r: bool)
        ensures
            final(self)@ == old(self)@.drain_discovery(found_views(found@), now).0,
            r == old(self)@.drain_discovery(found_views(found@), now).1,
            final(self).wf() == old(self).wf(),
    {
        let ghost all = found_views(found@);
        let ghost start = RoundV { app: self@, sidebar: false, metadata: false, grid: false, woke: None };
        let ghost keeps = self.wf();
        let before: usize = self.hosts.entries.len();
        let mut sidebar: bool = false;
        let mut metadata: bool = false;
        let mut grid: bool = false;
        let mut woke: Option<(Target, Option<u16>)> = None;
        let n: usize = found.len();
        let mut i: usize = 0;
        while i < n
            invariant
                n == found.len(),
                i <= n,
                all == found_views(found@),
                self.wf() == keeps,
                ({
                    let r = start.heard_all(all, i as int);
                    &&& r.app == self@
                    &&& r.sidebar == sidebar
                    &&& r.metadata == metadata
                    &&& r.grid == grid
                    &&& match (woke, r.woke) {
                        (Some((t, p)), Some((tv, pv))) => t@ == tv && p == pv,
                        (None, None) => true,
                        _ => false,
                    }
                }),
            decreases n - i,
        {
            let ghost r = start.heard_all(all, i as int);
            let host = found[i].clone();
            assert(all[i as int] == found@[i as int]@);
            let at = Target { host: host.addr.clone(), port: host.port };
            let mgmt_port = host.mgmt_port;
            let (s, m, g, w): (bool, bool, bool, bool) = self.hear(host, Ghost(r));
            sidebar = sidebar || s;
            metadata = metadata || m;
            grid = grid || g;
            if w {
                woke = Some((at, mgmt_port));
            }
            i = i + 1;
        }
        if metadata {
            self.persist();
        }
        match woke {
            Some((at, mgmt_port)) => {
                self.wake_succeeded(at.host, at.port, mgmt_port, now);
                sidebar = true;
            },
            None => {},
        }
        if sidebar {
            // Rows were appended, so the utility rows have moved.
            self.reanchor_sidebar_focus(before);
        }
        sidebar || grid
    }

    /// The management-lane target for one power action, `None` when there is nothing to send or
    /// no pairing to send it under.
    pub fn power_plan(known: &KnownHost, action: ExitAction) -> (r: Option<ExitPlan>)
        ensures
            views_of(r) == AppV::power_plan(known@, action),
    {
        match known.pin {
            Some(pin) => match action {
                ExitAction::Nothing => None,
                _ => Some(ExitPlan { addr: known.addr.clone(), mgmt_port: known.mgmt_port, pin, action }),
            },
            None => None,
        }
    }

    /// What to do to the selected host on the way out.
    pub fn exit_plan(&self) -> (r: Option<ExitPlan>)
        ensures
            views_of(r) == self@.exit_plan(),
    {
        match self.selected_known_host() {
            Some(i) => {
                let known = &self.hosts.known[i];
                match self.hosts.online(known.addr.as_str(), known.port) {
                    Some(true) => App::power_plan(known, known.exit_action),
                    _ => None,
                }
            },
            None => None,
        }
    }
}

} // verus!
