//! Home: the sidebar and the grid, picking a host, its library arriving, moving cards and
//! launching them.
use vstd::prelude::*;
use crate::app::{index_sum, App, AppV};
use crate::flags::{Flag, Job};
use crate::grid::{first_idx, game_ids, layout_fits, position_of, run_start, slot_count, GridV, GroupV, CARD_POP};
use crate::hosts::{entry_views, host_is_not, EntryV, HostEntry, HostsV};
use crate::library::{ids_of, law_each_game_placed_once, law_sections_are_runs, Library, LibraryV};
use crate::model::{
    game_views, host_views, is_target, ConnectTarget, ConnectV, GameEntry, GameV, HomeFocus, LibraryError, Screen,
    Target, TargetV, DESKTOP_PIN_ID,
};
use crate::recents::{elsewhere, still_listed};
use crate::scroll::{
    bring_in, card_top, clamped, furthest, lemma_runs_fit, max_scroll, revealed, scrolled, shelves_fit, GridShape,
    FOCUS_MARGIN,
};
use crate::seqs::keep;
use crate::slots::{Effect, EffectV, EndpointV};
use crate::text::{same_text, text_of, texts};

verus! {

/// Shown once, when the first library lands after the card menu came with an update: the feature
/// is behind a hold, which nothing on screen would reveal.
pub const INTRO_HINT: &'static str =
    "New: hold OK on a card to give that game its own settings — some run smoother with a codec, bitrate or resolution of their own.";

/// Home's two focus containers. A row and its actions button share one.
pub const GROUP_SIDEBAR: u8 = 0;

pub const GROUP_GRID: u8 = 1;

/// The most columns, pixels between rows, shelves and games that the grid is laid out for.
pub const MOST_COLUMNS: usize = 0xffff;

pub const MOST_PIXELS: i32 = 0xffff;

pub const MOST_SHELVES: usize = 0x1fff;

pub const MOST_GAMES: usize = 0x1fff_ffff;

/// Whether a clock leaves room for an arrival that starts now.
pub open spec fn time_fits(now: u64) -> bool {
    now + CARD_POP <= u64::MAX
}

/// A library fetch that came back.
pub struct GamesLoaded {
    pub at: Target,
    pub mgmt_port: u16,
    /// The listing, or why there is none and how to say so.
    pub result: Result<Vec<GameEntry>, (LibraryError, String)>,
}

/// A [`GamesLoaded`] as a value.
pub struct GamesLoadedV {
    pub at: TargetV,
    pub mgmt_port: u16,
    pub result: Result<Seq<GameV>, (LibraryError, Seq<char>)>,
}

impl View for GamesLoaded {
    type V = GamesLoadedV;

    open spec fn view(&self) -> GamesLoadedV {
        GamesLoadedV {
            at: self.at@,
            mgmt_port: self.mgmt_port,
            result: match self.result {
                Ok(games) => Ok(game_views(games@)),
                Err((e, reason)) => Err((e, reason@)),
            },
        }
    }
}

impl GamesLoadedV {
    pub open spec fn error(self) -> Option<LibraryError> {
        match self.result {
            Ok(_) => None,
            Err((e, _)) => Some(e),
        }
    }
}

/// One of Home's focus containers: where a move into it lands, and where it starts.
#[derive(Clone, Copy, PartialEq, Eq, Structural, Debug)]
pub struct FocusGroup {
    pub group: u8,
    /// Whether the last row leads on to the first.
    pub wraps: bool,
    pub remembered: HomeFocus,
    pub first: HomeFocus,
}

/// The focusable sidebar positions of the first `n` rows: a row that has actions leads with its
/// button.
pub open spec fn sidebar_items(entries: Seq<EntryV>, n: int) -> Seq<HomeFocus>
    decreases n,
{
    if n <= 0 {
        Seq::empty()
    } else {
        let rest = sidebar_items(entries, n - 1);
        let k = n - 1;
        if k < entries.len() && entries[k].has_menu() {
            rest.push(HomeFocus::SidebarMenu(k as usize)).push(HomeFocus::Sidebar(k as usize))
        } else {
            rest.push(HomeFocus::Sidebar(k as usize))
        }
    }
}

impl LibraryV {
    /// Whether the sections are runs of no more games than a screen can show.
    pub open spec fn in_runs(self) -> bool {
        &&& forall|k: int|
            0 <= k < self.groups.len() ==> (#[trigger] self.groups[k]).games_start == run_start(self.groups, k)
        &&& run_start(self.groups, self.groups.len() as int) <= MOST_GAMES
    }

    /// The focusable cards of the slots from `from` up to `to`: padding has none.
    pub open spec fn card_items(self, columns: nat, from: int, to: int) -> Seq<HomeFocus>
        decreases to - from,
    {
        if to <= from {
            Seq::empty()
        } else {
            let rest = self.card_items(columns, from, to - 1);
            if self.card_at(columns, (to - 1) as nat) is Some {
                rest.push(HomeFocus::Grid((to - 1) as usize))
            } else {
                rest
            }
        }
    }
}

impl AppV {
    /// Whether the grid's arithmetic stays inside the machine's integers, now and when it is laid
    /// out anew over the selected host's shelves.
    pub open spec fn grid_fits(self, s: GridShape) -> bool {
        &&& s.columns >= 1
        &&& layout_fits(self.library.groups, s.columns as nat, s.metrics)
        &&& self.selected_known_host() matches Some(h) ==> shelves_fit(
            self.library.games.len(),
            h.collections.len(),
            s,
        )
    }

    /// Whether there is room for one shelf more.
    pub open spec fn grid_room(self, s: GridShape) -> bool {
        &&& self.grid_fits(s)
        &&& self.selected_known_host() matches Some(h) ==> shelves_fit(
            self.library.games.len(),
            h.collections.len() + 1,
            s,
        )
    }

    /// Whether the grid is of a size that a screen can show.
    pub open spec fn grid_modest(self, s: GridShape) -> bool {
        &&& 1 <= s.columns <= MOST_COLUMNS
        &&& 0 <= s.metrics.heading_h <= MOST_PIXELS
        &&& 0 <= s.metrics.gap <= MOST_PIXELS
        &&& self.library.groups.len() <= MOST_SHELVES
        &&& self.library.games.len() <= MOST_GAMES
        &&& self.selected_known_host() matches Some(h) ==> h.collections.len() < MOST_SHELVES
        &&& self.library.in_runs()
    }

    /// Grid positions in total, none while no host is selected.
    pub open spec fn grid_len(self, s: GridShape) -> nat {
        if self.library.selected_host is None {
            0
        } else {
            slot_count(self.library.groups, s.columns as nat)
        }
    }

    pub open spec fn grid_card_at(self, idx: usize, s: GridShape) -> Option<GameV> {
        self.library.card_at(s.columns as nat, idx as nat)
    }

    pub open spec fn grid_idx_for_pin_id(self, id: Seq<char>, s: GridShape) -> Option<int> {
        self.library.idx_for_pin_id(s.columns as nat, id)
    }

    /// The id of the focused card.
    pub open spec fn focused_pin_id(self, s: GridShape) -> Option<Seq<char>> {
        match self.home_focus {
            HomeFocus::Grid(idx) => match self.grid_card_at(idx, s) {
                Some(g) => Some(g.id),
                None => None,
            },
            _ => None,
        }
    }

    pub open spec fn max_grid_scroll(self, s: GridShape) -> int {
        max_scroll(self.library.groups, s, self.grid_len(s))
    }

    /// The grid scrolled just far enough to show the card in slot `idx` with its ring.
    pub open spec fn ensure_grid_visible(self, idx: usize, s: GridShape) -> AppV {
        let top = card_top(self.library.groups, s, idx as nat);
        AppV {
            grid: GridV {
                scroll_target: clamped(
                    revealed(
                        top,
                        top + s.card_h,
                        (s.top as int, s.bottom as int),
                        self.grid.scroll_target as int,
                        FOCUS_MARGIN as int,
                    ),
                    self.max_grid_scroll(s),
                ) as i32,
                ..self.grid
            },
            ..self
        }
    }

    pub open spec fn scroll_grid_by(self, dy: i32, s: GridShape) -> AppV {
        if self.library.selected_host is None {
            self
        } else {
            AppV {
                grid: GridV {
                    scroll_target: clamped(self.grid.scroll_target + dy, self.max_grid_scroll(s)) as i32,
                    ..self.grid
                },
                ..self
            }
        }
    }

    /// Which of the selected host's collections holds a card.
    pub open spec fn collection_of_card(self, id: Seq<char>) -> Option<int> {
        match self.selected_known_host() {
            Some(h) => h.collection_of(id),
            None => None,
        }
    }

    /// Focus carried to wherever a card is now.
    pub open spec fn follow_card(self, id: Seq<char>, s: GridShape, now: u64) -> AppV {
        match self.grid_idx_for_pin_id(id, s) {
            Some(k) => self.set_home_focus(HomeFocus::Grid(k as usize), now).ensure_grid_visible(k as usize, s),
            None => self,
        }
    }

    /// A card that a collection takes, or the Library takes back.
    pub open spec fn rehomed(self, i: int, id: Seq<char>, to: Option<usize>) -> AppV {
        self.with_known(i, self.hosts.known[i].move_to(id, to)).persist().regroup_games()
    }

    pub open spec fn moves_card(self, id: Seq<char>, to: Option<usize>) -> bool {
        self.selected_known_host() matches Some(h) && match (h.collection_of(id), to) {
            (Some(c), Some(t)) => c != t,
            (None, None) => false,
            _ => true,
        }
    }

    /// A card moved: the host's record and the grid follow, focus goes with it, and it alone
    /// pops in.
    pub open spec fn move_card(self, id: Seq<char>, to: Option<usize>, s: GridShape, now: u64) -> AppV {
        if self.moves_card(id, to) {
            let there = self.rehomed(self.selected_pos()->0, id, to).follow_card(id, s, now);
            AppV { grid: there.grid.arm_card_pop(id, now), ..there }
        } else {
            self
        }
    }

    pub open spec fn move_focused_card(self, to: Option<usize>, s: GridShape, now: u64) -> AppV {
        match self.focused_pin_id(s) {
            Some(id) => self.move_card(id, to, s, now),
            None => self,
        }
    }

    /// The selected host's record without the games that it no longer lists.
    pub open spec fn prune_known(self) -> AppV {
        match self.selected_pos() {
            Some(i) => {
                let h = self.hosts.known[i];
                let pruned = h.prune_games(ids_of(self.library.games));
                if pruned != h {
                    self.with_known(i, pruned).persist()
                } else {
                    self
                }
            },
            None => self,
        }
    }

    /// The launch history without the games that the selected host no longer lists.
    pub open spec fn prune_recents(self) -> AppV {
        match self.selected_known_host() {
            Some(h) => {
                let kept = keep(self.recents, still_listed(h.addr, h.port, ids_of(self.library.games)));
                if kept != self.recents {
                    AppV { recents: kept, ..self }.effect(EffectV::SaveRecents)
                } else {
                    self
                }
            },
            None => self,
        }
    }

    pub open spec fn prune_stale_game_prefs(self) -> AppV {
        self.prune_known().prune_recents()
    }

    /// The grid's covers asked for.
    pub open spec fn start_art(self, at: TargetV, mgmt_port: u16) -> AppV {
        AppV { jobs: self.jobs.start(Job::Art), ..self }.effect(
            EffectV::StartArt(EndpointV { mgmt_port: Some(mgmt_port), ..self.endpoint(at) }, self.grid.card_size),
        )
    }

    /// The focus that waited for cards to land on, if the user has not moved off the host's row.
    pub open spec fn land_focus(self, now: u64) -> AppV {
        if self.home_focus matches HomeFocus::Sidebar(i) && self.sidebar_index_of_selected_host() == Some(i as int) {
            self.set_home_focus(HomeFocus::Grid(0), now)
        } else {
            self
        }
    }

    /// What the status line says once a library is in.
    pub open spec fn settle_status(self, now: u64) -> AppV {
        let quiet = if self.flags.contains(Flag::StickyStatus) {
            self
        } else {
            self.set_home_status(None, false, now)
        };
        if quiet.flags.contains(Flag::IntroHintOwed) {
            AppV { flags: quiet.flags.remove(Flag::IntroHintOwed), ..quiet }.set_home_status(
                Some(INTRO_HINT@),
                false,
                now,
            )
        } else {
            quiet
        }
    }

    pub open spec fn with_games(self, games: Seq<GameV>) -> AppV {
        AppV { library: self.library.load_games(games), ..self }
    }

    /// A host's listing taken in.
    pub open spec fn library_loaded(self, at: TargetV, mgmt_port: u16, games: Seq<GameV>, now: u64) -> AppV {
        self.start_art(at, mgmt_port).with_games(games).land_focus(
            now,
        ).settle_status(now).prune_stale_game_prefs().regroup_games()
    }

    /// A library that could not be had: a host that is silent is offered to be woken; one that
    /// answered still has its desktop, and says why there is no more.
    pub open spec fn handle_library_error(self, at: TargetV, e: LibraryError, reason: Seq<char>, now: u64) -> AppV {
        let live = AppV { flags: self.flags.remove(Flag::StickyStatus), ..self };
        if crate::reach::is_silence(e) {
            live.start_wake(
                at,
                match self.hosts.host_at(at) {
                    Some(h) => h.mac,
                    None => Seq::empty(),
                },
                reason,
                now,
            )
        } else {
            live.with_games(Seq::empty()).regroup_games().set_home_status(Some(reason), false, now)
        }
    }

    pub open spec fn dirty_grid(self) -> AppV {
        AppV { grid: GridV { dirty: true, ..self.grid }, ..self }
    }

    /// A library fetch taken in, if one was out.
    pub open spec fn drain_games(self, loaded: GamesLoadedV, now: u64) -> AppV {
        if !self.jobs.has(Job::Games) {
            self
        } else {
            let noted = AppV { jobs: self.jobs.stop(Job::Games), ..self }.note_api_result(loaded.at, loaded.error());
            match loaded.result {
                Ok(games) => noted.library_loaded(loaded.at, loaded.mgmt_port, games, now).dirty_grid(),
                Err((e, reason)) => noted.handle_library_error(loaded.at, e, reason, now).dirty_grid(),
            }
        }
    }

    /// Whether a launch is under way.
    pub open spec fn launching(self) -> bool {
        self.launch_ready is Some || self.launch_anim is Some
    }

    /// The id a card launches: the desktop is the host's own session and has none.
    pub open spec fn launch_id(card: GameV) -> Option<Seq<char>> {
        if card.id == DESKTOP_PIN_ID@ {
            None
        } else {
            Some(card.id)
        }
    }

    /// Whether a launch waits for its backdrop: art that is not here yet, of a game that has some.
    pub open spec fn awaits_hero(self, id: Seq<char>, in_hand: bool) -> bool {
        !in_hand && self.jobs.has(Job::Art) && match ids_of(self.library.games).index_of_first(id) {
            Some(p) => self.library.games[p].art.hero is Some || self.library.games[p].art.header is Some,
            None => false,
        }
    }

    /// The backdrop of a launch armed, and waited for if it has to be fetched.
    pub open spec fn arm_hero(self, launch: Option<Seq<char>>, in_hand: bool) -> AppV {
        let armed = self.effect(EffectV::ArmHero(launch));
        match launch {
            Some(id) => if self.awaits_hero(id, in_hand) {
                armed.effect(EffectV::AwaitHero(id))
            } else {
                armed
            },
            None => armed,
        }
    }

    /// A launch ready to be taken by the outer loop.
    pub open spec fn launch(self, target: ConnectV, idx: Option<usize>, now: u64) -> AppV {
        AppV { launch_anim_idx: idx, launch_ready: Some(target), ..self.set_home_status(None, false, now) }
    }

    /// What confirming the card in slot `idx` streams: nothing while a launch is under way, nor
    /// without a paired host or a card.
    pub open spec fn grid_launch(self, idx: usize, s: GridShape) -> Option<ConnectV> {
        if self.launching() {
            None
        } else {
            match (self.selected_known_host(), self.grid_card_at(idx, s)) {
                (Some(h), Some(card)) => match h.pin {
                    Some(fingerprint) => Some(
                        ConnectV {
                            host: self.library.selected_host->0.host,
                            port: self.library.selected_host->0.port,
                            fingerprint,
                            launch: AppV::launch_id(card),
                            profile: None,
                        },
                    ),
                    None => None,
                },
                _ => None,
            }
        }
    }

    pub open spec fn confirm_grid_card(self, idx: usize, s: GridShape, in_hand: bool, now: u64) -> AppV {
        match self.grid_launch(idx, s) {
            Some(target) => self.arm_hero(target.launch, in_hand).launch(target, Some(idx), now),
            None => self,
        }
    }

    /// A host's desktop streamed with a profile for this session only. The host becomes the
    /// selected one, so that its library is what the stream returns to.
    pub open spec fn connect_desktop_with(self, at: TargetV, profile: Option<Seq<char>>, now: u64) -> AppV {
        if self.launching() {
            self
        } else {
            match self.hosts.host_at(at) {
                Some(h) => match h.pin {
                    Some(fingerprint) => {
                        let chosen = if self.library.selected_host == Some(at) {
                            self
                        } else {
                            self.select_host(at, h.mgmt_port, now)
                        };
                        chosen.effect(EffectV::ArmHero(None)).launch(
                            ConnectV { host: at.host, port: at.port, fingerprint, launch: None, profile },
                            None,
                            now,
                        )
                    },
                    None => self,
                },
                None => self,
            }
        }
    }

    /// A sidebar host confirmed: a pinned card streams, a paired host is picked, and any other
    /// asks to be paired.
    pub open spec fn confirm_sidebar_host(self, idx: usize, now: u64) -> AppV {
        match self.hosts.entries[idx as int] {
            EntryV::Pinned { host, profile_id, label } => self.connect_desktop_with(
                TargetV { host: host.addr, port: host.port },
                Some(profile_id),
                now,
            ),
            EntryV::Known(h) => if h.is_paired() {
                self.select_host(TargetV { host: h.addr, port: h.port }, h.mgmt_port, now)
            } else {
                self.effect(EffectV::OpenPairing(idx))
            },
            EntryV::Discovered(_) => self.effect(EffectV::OpenPairing(idx)),
        }
    }

    /// A host's record and history dropped, and its row with them.
    pub open spec fn without_host(self, at: TargetV) -> AppV {
        let gone = AppV {
            hosts: HostsV { known: keep(self.hosts.known, host_is_not(at.host, at.port)), ..self.hosts },
            ..self
        };
        let kept = keep(self.recents, elsewhere(at.host, at.port));
        let unplayed = if kept != self.recents {
            AppV { recents: kept, ..gone }.effect(EffectV::SaveRecents)
        } else {
            gone
        };
        unplayed.effect(EffectV::ReconcileCaches).rebuild_entries()
    }

    pub open spec fn deselect(self, at: TargetV, now: u64) -> AppV {
        if self.library.selected_host == Some(at) {
            self.clear_selected_host(now)
        } else {
            self
        }
    }

    /// Sidebar focus kept on a row that is there.
    pub open spec fn clamp_sidebar(self) -> AppV {
        let n = index_sum(self.hosts.entries.len(), 2);
        match self.home_focus {
            HomeFocus::Sidebar(i) => if i >= n {
                AppV { home_focus: HomeFocus::Sidebar((n - 1) as usize), ..self }
            } else {
                self
            },
            _ => self,
        }
    }

    /// A saved host forgotten. The document is written after the selection is cleared, so that it
    /// never names a host that is gone.
    pub open spec fn forget_host(self, idx: usize, now: u64) -> AppV {
        match self.hosts.entries[idx as int] {
            EntryV::Known(h) => {
                let at = TargetV { host: h.addr, port: h.port };
                self.without_host(at).deselect(at, now).persist().clamp_sidebar().dirty_grid()
            },
            _ => self,
        }
    }

    /// Whether a sent wake is being waited for with no prompt up.
    pub open spec fn wake_wait_in_flight(self) -> bool {
        self.nav.screen != Screen::Wake && (self.screens.wake matches Some(w) && w.sent && w.silent)
    }
}

/// Laying a library out anew keeps its arithmetic inside the machine's integers.
pub proof fn lemma_regroup_fits(app: AppV, s: GridShape, n: nat)
    requires
        s.columns >= 1,
        s.metrics.heading_h >= 0,
        s.metrics.gap >= 0,
        s.metrics.heading_h <= i32::MAX,
        app.selected_known_host() matches Some(h) && h.collections.len() <= n,
        shelves_fit(app.library.games.len(), n, s),
    ensures
        layout_fits(app.regroup_games().library.groups, s.columns as nat, s.metrics),
{
    let i = app.selected_pos()->0;
    let h = app.hosts.known[i];
    let lib = app.library.set_desktop_icon(crate::app::os_mark(h.os, app.marked_os));
    let ids = ids_of(lib.games);
    let times = crate::library::play_times(lib.games, h.addr, h.port, app.recents);
    let cols = h.collections;
    assert(lib.games.len() == app.library.games.len()) by {
        ids_of(app.library.games).index_of_first_ensures(DESKTOP_PIN_ID@);
    }
    if cols.len() == 0 {
        assert(s.metrics.heading_h * 1 == s.metrics.heading_h);
        let g: Seq<crate::grid::GroupV> = Seq::empty();
        assert(crate::grid::runs(g, 0));
        lemma_runs_fit(g, 0, app.library.games.len(), n, s);
        assert(app.regroup_games().library.groups =~= g);
    } else {
        law_sections_are_runs(ids, cols, times);
        law_each_game_placed_once(ids, cols, times);
        crate::library::lemma_sections_count(ids, cols, times);
        let laid = crate::library::laid(ids, cols, times, cols.len() as int);
        crate::library::lemma_distinct_below(laid, ids.len() as int);
        lemma_runs_fit(
            crate::library::sections(ids, cols, times, cols.len() as int),
            laid.len(),
            app.library.games.len(),
            n,
            s,
        );
    }
}

/// A grid that fits still does when it is laid out anew.
pub proof fn lemma_regroup_keeps_fits(app: AppV, s: GridShape)
    requires
        s.columns >= 1,
        s.metrics.heading_h >= 0,
        s.metrics.gap >= 0,
        app.selected_known_host() matches Some(h) ==> shelves_fit(app.library.games.len(), h.collections.len(), s),
    ensures
        app.regroup_games().grid_fits(s),
        app.regroup_games().library.games.len() <= app.library.games.len(),
        app.regroup_games().hosts == app.hosts,
        app.regroup_games().library.selected_host == app.library.selected_host,
{
    match app.selected_known_host() {
        Some(h) => {
            lemma_regroup_fits(app, s, h.collections.len());
            lemma_regroup_shrinks(app);
        },
        None => {
            let g: Seq<GroupV> = Seq::empty();
            assert(app.regroup_games().library.groups =~= g);
            assert(s.metrics.heading_h * (0 + 1) == s.metrics.heading_h) by (nonlinear_arith);
            assert(s.metrics.gap * 0 == 0) by (nonlinear_arith);
            let c = s.columns as nat;
            assert(first_idx(g, c, 0) == 0) by {
                assert(0 * c == 0) by (nonlinear_arith);
            }
        },
    }
}

/// A grid that fits still does after one of its cards changed shelves.
proof fn lemma_rehomed_fits(app: AppV, i: int, id: Seq<char>, to: Option<usize>, s: GridShape)
    requires
        app.grid_fits(s),
        app.selected_pos() == Some(i),
    ensures
        app.rehomed(i, id, to).grid_fits(s),
{
    let at = app.library.selected_host->0;
    crate::seqs::lemma_first_from(app.hosts.known, crate::hosts::host_is(at.host, at.port), 0);
    let h = app.hosts.known[i];
    let moved = app.with_known(i, h.move_to(id, to)).persist();
    crate::seqs::lemma_first_is(moved.hosts.known, crate::hosts::host_is(at.host, at.port), i);
    assert(h.move_to(id, to).collections.len() == h.collections.len());
    assert(moved.selected_known_host() == Some(h.move_to(id, to)));
    lemma_regroup_fits(moved, s, h.collections.len());
    lemma_regroup_shrinks(moved);
}

/// Laying a library out anew adds no game.
proof fn lemma_regroup_shrinks(app: AppV)
    requires
        app.selected_known_host() is Some,
    ensures
        app.regroup_games().library.games.len() <= app.library.games.len(),
        app.regroup_games().library.selected_host == app.library.selected_host,
        app.regroup_games().hosts == app.hosts,
{
    let h = app.selected_known_host()->0;
    let lib = app.library.set_desktop_icon(crate::app::os_mark(h.os, app.marked_os));
    ids_of(app.library.games).index_of_first_ensures(DESKTOP_PIN_ID@);
    let ids = ids_of(lib.games);
    let times = crate::library::play_times(lib.games, h.addr, h.port, app.recents);
    law_each_game_placed_once(ids, h.collections, times);
    crate::library::lemma_distinct_below(
        crate::library::laid(ids, h.collections, times, h.collections.len() as int),
        ids.len() as int,
    );
}

/// A moved card is where it was put: on the collection it was moved to, or back in the Library.
pub proof fn law_move_card_moves(app: AppV, id: Seq<char>, to: Option<usize>, s: GridShape, now: u64)
    requires
        app.selected_known_host() matches Some(h) && (to matches Some(t) ==> t < h.collections.len()
            && !h.collections[t as int].dynamic),
    ensures
        match to {
            Some(t) => app.move_card(id, to, s, now).collection_of_card(id) == Some(t as int),
            None => app.move_card(id, to, s, now).collection_of_card(id) is None,
        },
{
    let i = app.selected_pos()->0;
    let at = app.library.selected_host->0;
    let h = app.hosts.known[i];
    crate::knownhost::law_move_to_moves(h, id, to);
    crate::seqs::lemma_first_from(app.hosts.known, crate::hosts::host_is(at.host, at.port), 0);
    if app.moves_card(id, to) {
        let after = app.rehomed(i, id, to);
        assert(after.library.selected_host == app.library.selected_host);
        assert(after.hosts.known == app.hosts.known.update(i, h.move_to(id, to)));
        crate::seqs::lemma_first_is(after.hosts.known, crate::hosts::host_is(at.host, at.port), i);
        assert(after.selected_pos() == Some(i));
        let there = after.follow_card(id, s, now);
        assert(there.hosts == after.hosts);
        assert(there.library == after.library);
    }
}

/// A forgotten host is gone from the record, is not the selected one, and is not named by what is
/// written.
pub proof fn law_forget_host(app: AppV, idx: usize, now: u64)
    requires
        idx < app.hosts.entries.len(),
        app.hosts.entries[idx as int] is Known,
    ensures
        ({
            let h = app.hosts.entries[idx as int]->Known_0;
            let at = TargetV { host: h.addr, port: h.port };
            let after = app.forget_host(idx, now);
            &&& after.hosts.host_at(at) is None
            &&& after.library.selected_host != Some(at)
            &&& after.effects.last() == EffectV::Save(after.persisted())
        }),
{
    let h = app.hosts.entries[idx as int]->Known_0;
    let at = TargetV { host: h.addr, port: h.port };
    crate::hosts::law_dropped_host_is_gone(app.hosts.known, h.addr, h.port);
    let gone = app.without_host(at);
    assert(gone.hosts.known == keep(app.hosts.known, host_is_not(at.host, at.port)));
}

proof fn lemma_few_shelves_fit(games: nat, shelves: nat, s: GridShape)
    requires
        games <= MOST_GAMES,
        shelves <= MOST_SHELVES,
        1 <= s.columns <= MOST_COLUMNS,
        0 <= s.metrics.heading_h <= MOST_PIXELS,
        0 <= s.metrics.gap <= MOST_PIXELS,
    ensures
        shelves_fit(games, shelves, s),
{
    let c = s.columns as int;
    let (h, g) = (s.metrics.heading_h as int, s.metrics.gap as int);
    let sh = shelves as int;
    assert(sh * c <= 0x1fff * 0xffff) by (nonlinear_arith)
        requires
            1 <= c <= 0xffff,
            0 <= sh <= 0x1fff,
    ;
    assert(h * (sh + 1) + g * sh <= 0x7fff_ffff) by (nonlinear_arith)
        requires
            0 <= h <= 0xffff,
            0 <= g <= 0xffff,
            0 <= sh <= 0x1fff,
    ;
}

proof fn lemma_modest_fits(app: AppV, s: GridShape)
    requires
        app.grid_modest(s),
    ensures
        app.grid_room(s),
{
    let c = s.columns as int;
    let (h, g) = (s.metrics.heading_h as int, s.metrics.gap as int);
    assert(0x1fff * c <= 0x1fff * 0xffff) by (nonlinear_arith)
        requires
            c <= 0xffff,
    ;
    assert(h * (0x1fff + 1) + g * 0x1fff <= 0x7fff_ffff) by (nonlinear_arith)
        requires
            h <= 0xffff,
            g <= 0xffff,
    ;
    lemma_runs_fit(
        app.library.groups,
        run_start(app.library.groups, app.library.groups.len() as int),
        MOST_GAMES as nat,
        MOST_SHELVES as nat,
        s,
    );
    if app.selected_known_host() is Some {
        let sh = app.selected_known_host()->0.collections.len() as int;
        lemma_few_shelves_fit(app.library.games.len(), sh as nat, s);
        lemma_few_shelves_fit(app.library.games.len(), (sh + 1) as nat, s);
    }
}

proof fn lemma_run_start_grows(groups: Seq<GroupV>, i: int, j: int)
    requires
        i <= j,
    ensures
        run_start(groups, i) <= run_start(groups, j),
    decreases j - i,
{
    if i < j {
        lemma_run_start_grows(groups, i, j - 1);
    }
}

impl Library {
    fn in_runs(&self) -> (r: bool)
        ensures
            r == self@.in_runs(),
    {
        let ghost v = self@.groups;
        let n: usize = self.groups.len();
        let mut total: usize = 0;
        let mut i: usize = 0;
        while i < n
            invariant
                n == self.groups.len(),
                v == self@.groups,
                i <= n,
                total <= MOST_GAMES,
                total == run_start(v, i as int),
                forall|k: int| 0 <= k < i ==> (#[trigger] v[k]).games_start == run_start(v, k),
            decreases n - i,
        {
            let g = &self.groups[i];
            assert(v[i as int] == self.groups@[i as int]@);
            if g.games_start != total || g.len > MOST_GAMES - total {
                proof {
                    lemma_run_start_grows(v, i + 1, n as int);
                }
                return false;
            }
            total = total + g.len;
            i = i + 1;
        }
        true
    }

    /// The ids of the games, in grid order.
    pub fn ids(&self) -> (r: Vec<String>)
        ensures
            texts(r@) == ids_of(self@.games),
    {
        let ghost all = ids_of(self@.games);
        let mut r: Vec<String> = Vec::new();
        let mut i: usize = 0;
        while i < self.games.len()
            invariant
                i <= self.games.len(),
                all == ids_of(self@.games),
                texts(r@) =~= all.take(i as int),
            decreases self.games.len() - i,
        {
            assert(self@.games[i as int] == self.games@[i as int]@);
            let ghost before = r@;
            r.push(self.games[i].id.clone());
            assert(texts(r@) =~= texts(before).push(all[i as int]));
            i = i + 1;
        }
        assert(all.take(all.len() as int) =~= all);
        r
    }

    /// The focusable cards of a range of slots.
    fn card_items(&self, s: GridShape, from: usize, to: usize) -> (r: Vec<HomeFocus>)
        requires
            s.columns >= 1,
            self.fits(s.columns, s.metrics),
        ensures
            r@ == self@.card_items(s.columns as nat, from as int, to as int),
    {
        let mut r: Vec<HomeFocus> = Vec::new();
        let mut i: usize = from;
        while i < to
            invariant
                s.columns >= 1,
                self.fits(s.columns, s.metrics),
                from <= i,
                i <= to || i == from,
                r@ == self@.card_items(s.columns as nat, from as int, i as int),
            decreases to - i,
        {
            if self.card_at(i, s.columns, s.metrics).is_some() {
                r.push(HomeFocus::Grid(i));
            }
            i = i + 1;
        }
        r
    }
}

impl App {
    /// Whether the grid is of a size that a screen can show: then its arithmetic stays inside the
    /// machine's integers, now and when it is laid out anew.
    pub fn grid_fits(&self, s: GridShape) -> (r: bool)
        ensures
            r == self@.grid_modest(s),
            r ==> self@.grid_room(s),
    {
        proof {
            if self@.grid_modest(s) {
                lemma_modest_fits(self@, s);
            }
        }
        if s.columns == 0 || s.columns > MOST_COLUMNS {
            return false;
        }
        if s.metrics.heading_h < 0 || s.metrics.heading_h > MOST_PIXELS || s.metrics.gap < 0 || s.metrics.gap
            > MOST_PIXELS {
            return false;
        }
        let shelves: usize = match self.selected_known_host() {
            Some(i) => {
                assert(self@.hosts.known[i as int].collections.len() == self.hosts.known@[i as int].collections.len());
                self.hosts.known[i].collections.len()
            },
            None => 0,
        };
        if self.library.groups.len() > MOST_SHELVES || shelves >= MOST_SHELVES || self.library.games.len() > MOST_GAMES {
            return false;
        }
        self.library.in_runs()
    }

    /// Grid positions in total, none while no host is selected.
    pub fn grid_len(&self, s: GridShape) -> (r: usize)
        requires
            self@.grid_fits(s),
        ensures
            r == self@.grid_len(s),
    {
        if self.library.selected_host.is_none() {
            return 0;
        }
        self.library.grid_len(s.columns, s.metrics)
    }

    /// The card in slot `idx`, `None` for padding and past the end.
    pub fn grid_card_at(&self, idx: usize, s: GridShape) -> (r: Option<&GameEntry>)
        requires
            self@.grid_fits(s),
        ensures
            match (r, self@.grid_card_at(idx, s)) {
                (Some(g), Some(v)) => g@ == v,
                (None, None) => true,
                _ => false,
            },
    {
        self.library.card_at(idx, s.columns, s.metrics)
    }

    /// The id of the card in slot `idx`.
    pub fn pin_id_at_grid_idx(&self, idx: usize, s: GridShape) -> (r: Option<&str>)
        requires
            self@.grid_fits(s),
        ensures
            match (r, self@.grid_card_at(idx, s)) {
                (Some(id), Some(v)) => id@ == v.id,
                (None, None) => true,
                _ => false,
            },
    {
        self.library.pin_id_at(idx, s.columns, s.metrics)
    }

    /// The slot of the card with an id.
    pub fn grid_idx_for_pin_id(&self, id: &str, s: GridShape) -> (r: Option<usize>)
        requires
            self@.grid_fits(s),
        ensures
            match (r, self@.grid_idx_for_pin_id(id@, s)) {
                (Some(k), Some(p)) => k == p,
                (None, None) => true,
                _ => false,
            },
    {
        self.library.idx_for_pin_id(id, s.columns, s.metrics)
    }

    /// Whether slot `idx` holds a card rather than the padding after a partial row.
    pub fn is_grid_card(&self, idx: usize, s: GridShape) -> (r: bool)
        requires
            self@.grid_fits(s),
        ensures
            r == (self@.grid_card_at(idx, s) is Some),
    {
        self.grid_card_at(idx, s).is_some()
    }

    /// The id of the focused card, `None` on the sidebar and on padding.
    pub fn focused_pin_id(&self, s: GridShape) -> (r: Option<String>)
        requires
            self@.grid_fits(s),
        ensures
            text_of(r) == self@.focused_pin_id(s),
    {
        match self.home_focus {
            HomeFocus::Grid(idx) => match self.pin_id_at_grid_idx(idx, s) {
                Some(id) => Some(id.to_owned()),
                None => None,
            },
            _ => None,
        }
    }

    /// Which of the selected host's collections holds a card, `None` for the Library.
    pub fn collection_of_card(&self, pin_id: &str) -> (r: Option<usize>)
        ensures
            match (r, self@.collection_of_card(pin_id@)) {
                (Some(k), Some(c)) => k == c,
                (None, None) => true,
                _ => false,
            },
    {
        match self.selected_known_host() {
            Some(i) => self.hosts.known[i].collection_of(pin_id),
            None => None,
        }
    }

    /// Whether a collection holds a card. The Library is "in no collection".
    pub fn card_is_held(&self, pin_id: &str) -> (r: bool)
        ensures
            r == (self@.collection_of_card(pin_id@) is Some),
    {
        self.collection_of_card(pin_id).is_some()
    }

    /// Home's two focus containers and where a move into each lands.
    pub fn focus_groups(&self) -> (r: (FocusGroup, FocusGroup))
        ensures
            r.0 == (FocusGroup {
                group: GROUP_SIDEBAR,
                wraps: true,
                remembered: HomeFocus::Sidebar(self@.sidebar_index_for_selected()),
                first: HomeFocus::Sidebar(0),
            }),
            r.1 == (FocusGroup {
                group: GROUP_GRID,
                wraps: false,
                remembered: HomeFocus::Grid(self@.grid.focus_last),
                first: HomeFocus::Grid(0),
            }),
    {
        (
            FocusGroup {
                group: GROUP_SIDEBAR,
                wraps: true,
                remembered: HomeFocus::Sidebar(self.sidebar_index_for_selected()),
                first: HomeFocus::Sidebar(0),
            },
            FocusGroup {
                group: GROUP_GRID,
                wraps: false,
                remembered: HomeFocus::Grid(self.grid.focus_last),
                first: HomeFocus::Grid(0),
            },
        )
    }

    /// Everything focusable on Home, the sidebar's rows first: a hole in the layout has no item,
    /// so that no direction can land on it. Of the cards, those in the slots `from..to` that one
    /// move can reach.
    pub fn home_focus_map(&self, s: GridShape, from: usize, to: usize) -> (r: Vec<HomeFocus>)
        requires
            self@.grid_fits(s),
        ensures
            r@ == sidebar_items(
                self@.hosts.entries,
                index_sum(self@.hosts.entries.len(), 2) as int,
            ) + self@.library.card_items(s.columns as nat, from as int, to as int),
    {
        let n: usize = self.sidebar_len();
        let hosts: usize = self.hosts.entries.len();
        let ghost rows = self@.hosts.entries;
        let mut r: Vec<HomeFocus> = Vec::new();
        let mut i: usize = 0;
        while i < n
            invariant
                hosts == self.hosts.entries.len(),
                rows == entry_views(self.hosts.entries@),
                i <= n,
                r@ == sidebar_items(rows, i as int),
            decreases n - i,
        {
            if i < hosts {
                assert(rows[i as int] == self.hosts.entries@[i as int]@);
                if self.hosts.entries[i].has_menu() {
                    r.push(HomeFocus::SidebarMenu(i));
                }
            }
            r.push(HomeFocus::Sidebar(i));
            i = i + 1;
        }
        let mut cards = self.library.card_items(s, from, to);
        r.append(&mut cards);
        r
    }

    /// The furthest the grid can scroll.
    pub fn max_grid_scroll(&self, s: GridShape) -> (r: i32)
        requires
            self@.grid_fits(s),
        ensures
            r == self@.max_grid_scroll(s),
            0 <= r,
    {
        let slots: usize = self.grid_len(s);
        let layout = self.library.layout(s.columns, s.metrics);
        furthest(&layout, s, slots)
    }

    /// Scrolls the grid just far enough that the card in slot `idx`, ring and all, will be on
    /// screen.
    pub fn ensure_grid_visible(&mut self, idx: usize, s: GridShape)
        requires
            old(self)@.grid_fits(s),
        ensures
            final(self)@ == old(self)@.ensure_grid_visible(idx, s),
            final(self).wf() == old(self).wf(),
    {
        let slots: usize = self.grid_len(s);
        let target: i32 = bring_in(
            &self.library.layout(s.columns, s.metrics),
            s,
            idx,
            slots,
            self.grid.scroll_target,
        );
        self.grid.scroll_target = target;
    }

    /// Scrolls the grid by `dy` pixels. Reports whether its target moved.
    pub fn scroll_grid_by(&mut self, dy: i32, s: GridShape) -> (r: bool)
        requires
            old(self)@.grid_fits(s),
        ensures
            final(self)@ == old(self)@.scroll_grid_by(dy, s),
            r == (final(self)@.grid.scroll_target != old(self)@.grid.scroll_target),
            final(self).wf() == old(self).wf(),
    {
        if self.library.selected_host.is_none() {
            return false;
        }
        let max: i32 = self.max_grid_scroll(s);
        let next: i32 = scrolled(self.grid.scroll_target, dy, max);
        let changed: bool = next != self.grid.scroll_target;
        self.grid.scroll_target = next;
        changed
    }
}

impl App {
    /// Carries focus to wherever a card is now.
    fn follow_card(&mut self, id: &str, s: GridShape, now: u64)
        requires
            old(self)@.grid_fits(s),
        ensures
            final(self)@ == old(self)@.follow_card(id@, s, now),
            final(self).wf() == old(self).wf(),
    {
        match self.grid_idx_for_pin_id(id, s) {
            Some(k) => {
                self.set_home_focus(HomeFocus::Grid(k), now);
                self.ensure_grid_visible(k, s);
            },
            None => {},
        }
    }

    /// Puts a card on a shelf of the selected host, or takes it off every one.
    fn rehome(&mut self, i: usize, id: &str, to: Option<usize>)
        requires
            old(self)@.selected_pos() == Some(i as int),
            i < old(self).hosts.known.len(),
        ensures
            final(self)@ == old(self)@.rehomed(i as int, id@, to),
            final(self).wf() == old(self).wf(),
    {
        let ghost before = self.hosts.known@;
        self.hosts.known[i].move_to(id, to);
        assert(host_views(self.hosts.known@) =~= host_views(before).update(
            i as int,
            before[i as int]@.move_to(id@, to),
        ));
        self.persist();
        self.regroup_games();
    }

    /// Moves a card into the collection `to`, or back to the Library. `false` when it sits there
    /// already and nothing moved.
    pub fn move_card(&mut self, id: &str, to: Option<usize>, s: GridShape, now: u64) -> (r: bool)
        requires
            old(self).wf(),
            old(self)@.grid_fits(s),
            time_fits(now),
        ensures
            final(self)@ == old(self)@.move_card(id@, to, s, now),
            r == old(self)@.moves_card(id@, to),
            final(self).wf(),
    {
        let i: usize = match self.selected_known_host() {
            Some(i) => i,
            None => {
                return false;
            },
        };
        let from: Option<usize> = self.hosts.known[i].collection_of(id);
        if from == to {
            return false;
        }
        proof {
            lemma_rehomed_fits(self@, i as int, id@, to, s);
        }
        self.rehome(i, id, to);
        self.follow_card(id, s, now);
        // Only the card that moved pops: every other one slides a slot along, which the eye
        // already follows.
        self.grid.arm_card_pop(id, now);
        true
    }

    /// Moves the focused card.
    pub fn move_focused_card(&mut self, to: Option<usize>, s: GridShape, now: u64)
        requires
            old(self).wf(),
            old(self)@.grid_fits(s),
            time_fits(now),
        ensures
            final(self)@ == old(self)@.move_focused_card(to, s, now),
            final(self).wf(),
    {
        match self.focused_pin_id(s) {
            Some(id) => {
                self.move_card(id.as_str(), to, s, now);
            },
            None => {},
        }
    }

    fn prune_known(&mut self, live: &Vec<String>)
        requires
            texts(live@) == ids_of(old(self)@.library.games),
        ensures
            final(self)@ == old(self)@.prune_known(),
            final(self).wf() == old(self).wf(),
    {
        match self.selected_known_host() {
            Some(i) => {
                let ghost before = self.hosts.known@;
                let changed: bool = self.hosts.known[i].prune_games(live);
                assert(host_views(self.hosts.known@) =~= host_views(before).update(
                    i as int,
                    before[i as int]@.prune_games(texts(live@)),
                ));
                if changed {
                    self.persist();
                } else {
                    assert(host_views(self.hosts.known@) =~= host_views(before));
                }
            },
            None => {},
        }
    }

    fn prune_recents(&mut self, live: &Vec<String>)
        requires
            texts(live@) == ids_of(old(self)@.library.games),
        ensures
            final(self)@ == old(self)@.prune_recents(),
            final(self).wf() == old(self).wf(),
    {
        match self.selected_known_host() {
            Some(i) => {
                let host = self.hosts.known[i].addr.clone();
                let port: u16 = self.hosts.known[i].port;
                if self.recents.prune(host.as_str(), port, live) {
                    self.ask(Effect::SaveRecents);
                }
            },
            None => {},
        }
    }

    /// Drops collection membership, bindings and play times of games that the host no longer
    /// lists. Only for a listing that arrived: against an empty one it would drop everything.
    pub fn prune_stale_game_prefs(&mut self)
        ensures
            final(self)@ == old(self)@.prune_stale_game_prefs(),
            final(self).wf() == old(self).wf(),
    {
        let live = self.library.ids();
        self.prune_known(&live);
        self.prune_recents(&live);
    }

    fn start_art(&mut self, host: &str, port: u16, mgmt_port: u16)
        ensures
            final(self)@ == old(self)@.start_art(TargetV { host: host@, port }, mgmt_port),
            final(self).wf() == old(self).wf(),
    {
        let mut from = self.endpoint(host, port);
        from.mgmt_port = Some(mgmt_port);
        self.jobs.start(Job::Art);
        let size: (u32, u32) = self.grid.card_size;
        self.ask(Effect::StartArt(from, size));
    }

    fn land_focus(&mut self, now: u64)
        ensures
            final(self)@ == old(self)@.land_focus(now),
            final(self).wf() == old(self).wf(),
    {
        match self.home_focus {
            HomeFocus::Sidebar(i) => {
                match self.sidebar_index_of_selected_host() {
                    Some(k) => {
                        if i == k {
                            self.set_home_focus(HomeFocus::Grid(0), now);
                        }
                    },
                    None => {},
                }
            },
            _ => {},
        }
    }

    fn settle_status(&mut self, now: u64)
        ensures
            final(self)@ == old(self)@.settle_status(now),
            final(self).wf() == old(self).wf(),
    {
        if !self.flags.has(Flag::StickyStatus) {
            self.set_home_status(None, false, now);
        }
        // Held until there are cards for the hint to point at, and spent on sight.
        if self.flags.has(Flag::IntroHintOwed) {
            self.flags.set(Flag::IntroHintOwed, false);
            self.set_home_status(Some(INTRO_HINT.to_owned()), false, now);
        }
    }

    fn library_loaded(&mut self, at: Target, mgmt_port: u16, games: Vec<GameEntry>, now: u64)
        requires
            games.len() < usize::MAX,
        ensures
            final(self)@ == old(self)@.library_loaded(at@, mgmt_port, game_views(games@), now),
            final(self).wf() == old(self).wf(),
    {
        self.start_art(at.host.as_str(), at.port, mgmt_port);
        self.library.load_games(games);
        self.land_focus(now);
        self.settle_status(now);
        self.prune_stale_game_prefs();
        self.regroup_games();
    }

    /// Deals with a library that could not be had.
    pub fn handle_library_error(&mut self, host: String, port: u16, e: LibraryError, reason: String, now: u64)
        ensures
            final(self)@ == old(self)@.handle_library_error(TargetV { host: host@, port }, e, reason@, now),
            final(self).wf() == old(self).wf(),
    {
        // A live problem with the host beats the last launch's reason for coming back.
        self.flags.set(Flag::StickyStatus, false);
        if crate::reach::api_error_is_offline(&e) {
            let mac: Vec<String> = match self.known_host(host.as_str(), port) {
                Some(i) => crate::text::copy_texts(&self.hosts.known[i].mac),
                None => Vec::new(),
            };
            assert(texts(mac@) =~= (match self@.hosts.host_at(TargetV { host: host@, port }) {
                Some(h) => h.mac,
                None => Seq::empty(),
            }));
            self.start_wake(host, port, mac, reason, now);
        } else {
            // The host answered, just not with a library, so its desktop is still there.
            let none: Vec<GameEntry> = Vec::new();
            assert(game_views(none@) =~= Seq::empty());
            self.library.load_games(none);
            self.regroup_games();
            self.set_home_status(Some(reason), false, now);
        }
    }

    /// Takes a library fetch in. Reports whether one was out.
    pub fn drain_games(&mut self, loaded: GamesLoaded, now: u64) -> (r: bool)
        requires
            loaded.result matches Ok(games) ==> games.len() < usize::MAX,
        ensures
            final(self)@ == old(self)@.drain_games(loaded@, now),
            r == old(self)@.jobs.has(Job::Games),
            final(self).wf() == old(self).wf(),
    {
        if !self.jobs.has(Job::Games) {
            return false;
        }
        self.jobs.stop(Job::Games);
        let at = loaded.at;
        // The listing is the freshest word on whether this host is up.
        match loaded.result {
            Ok(games) => {
                self.note_api_result(at.host.as_str(), at.port, None);
                self.library_loaded(at, loaded.mgmt_port, games, now);
            },
            Err((e, reason)) => {
                self.note_api_result(at.host.as_str(), at.port, Some(e));
                self.handle_library_error(at.host, at.port, e, reason, now);
            },
        }
        self.grid.dirty = true;
        true
    }

    /// Whether a library fetch is still out.
    pub fn library_fetch_in_flight(&self) -> (r: bool)
        ensures
            r == self@.jobs.has(Job::Games),
    {
        self.jobs.has(Job::Games)
    }

    /// Whether a sent wake is being waited for with no prompt up.
    pub fn wake_wait_in_flight(&self) -> (r: bool)
        ensures
            r == self@.wake_wait_in_flight(),
    {
        let waiting: bool = match &self.screens.wake {
            Some(w) => w.sent && w.silent,
            None => false,
        };
        self.nav.screen != Screen::Wake && waiting
    }

    /// Arms a launch's backdrop, and waits for it if it has to be fetched.
    fn arm_hero(&mut self, launch: Option<String>, in_hand: bool)
        ensures
            final(self)@ == old(self)@.arm_hero(text_of(launch), in_hand),
            final(self).wf() == old(self).wf(),
    {
        let mut fetch: Option<String> = None;
        match &launch {
            Some(id) => {
                proof {
                    assert(ids_of(self@.library.games) =~= game_ids(self.library.games@));
                }
                if !in_hand && self.jobs.has(Job::Art) {
                    match position_of(self.library.games.as_slice(), id.as_str()) {
                        Some(p) => {
                            let art = &self.library.games[p].art;
                            assert(self@.library.games[p as int] == self.library.games@[p as int]@);
                            if art.hero.is_some() || art.header.is_some() {
                                fetch = Some(id.clone());
                            }
                        },
                        None => {},
                    }
                }
            },
            None => {},
        }
        self.ask(Effect::ArmHero(launch));
        match fetch {
            Some(id) => {
                self.ask(Effect::AwaitHero(id));
            },
            None => {},
        }
    }

    fn launch(&mut self, target: ConnectTarget, idx: Option<usize>, now: u64)
        ensures
            final(self)@ == old(self)@.launch(target@, idx, now),
            final(self).wf() == old(self).wf(),
    {
        self.set_home_status(None, false, now);
        self.launch_anim_idx = idx;
        self.launch_ready = Some(target);
    }

    fn grid_launch(&self, idx: usize, s: GridShape) -> (r: Option<ConnectTarget>)
        requires
            self@.grid_fits(s),
        ensures
            crate::model::connect_of(r) == self@.grid_launch(idx, s),
    {
        if self.launch_ready.is_some() || self.launch_anim.is_some() {
            return None;
        }
        let at = match &self.library.selected_host {
            Some(t) => t.clone(),
            None => {
                return None;
            },
        };
        let fingerprint = match self.selected_known_host() {
            Some(i) => match self.hosts.known[i].fingerprint() {
                Some(f) => f,
                None => {
                    return None;
                },
            },
            None => {
                return None;
            },
        };
        match self.grid_card_at(idx, s) {
            Some(card) => {
                let launch: Option<String> = if same_text(card.id.as_str(), DESKTOP_PIN_ID) {
                    None
                } else {
                    Some(card.id.clone())
                };
                Some(ConnectTarget { host: at.host, port: at.port, fingerprint, launch, profile: None })
            },
            None => None,
        }
    }

    /// Confirms a grid card: the launch is armed at once. `in_hand` says that the card's backdrop
    /// is on this TV already, so that nothing has to be waited for.
    pub fn confirm_grid_card(&mut self, idx: usize, s: GridShape, in_hand: bool, now: u64)
        requires
            old(self)@.grid_fits(s),
        ensures
            final(self)@ == old(self)@.confirm_grid_card(idx, s, in_hand, now),
            final(self).wf() == old(self).wf(),
    {
        match self.grid_launch(idx, s) {
            Some(target) => {
                let launch: Option<String> = match &target.launch {
                    Some(id) => Some(id.clone()),
                    None => None,
                };
                self.arm_hero(launch, in_hand);
                self.launch(target, Some(idx), now);
            },
            None => {},
        }
    }

    /// Streams a host's desktop with a profile for this session only.
    pub fn connect_desktop_with(&mut self, host: &str, port: u16, profile: Option<String>, now: u64)
        ensures
            final(self)@ == old(self)@.connect_desktop_with(TargetV { host: host@, port }, text_of(profile), now),
            final(self).wf() == old(self).wf(),
    {
        if self.launch_ready.is_some() || self.launch_anim.is_some() {
            return;
        }
        let (fingerprint, mgmt_port) = match self.known_host(host, port) {
            Some(i) => match self.hosts.known[i].fingerprint() {
                Some(f) => (f, self.hosts.known[i].mgmt_port),
                None => {
                    return;
                },
            },
            None => {
                return;
            },
        };
        let host: String = host.to_owned();
        let selected: bool = is_target(&self.library.selected_host, &host, port);
        if !selected {
            self.select_host(host.clone(), port, mgmt_port, now);
        }
        self.ask(Effect::ArmHero(None));
        self.launch(ConnectTarget { host, port, fingerprint, launch: None, profile }, None, now);
    }

    /// Takes the launch that is ready, if one is.
    pub fn take_ready_launch(&mut self) -> (r: Option<ConnectTarget>)
        ensures
            crate::model::connect_of(r) == old(self)@.launch_ready,
            final(self)@ == (AppV { launch_ready: None, ..old(self)@ }),
            final(self).wf() == old(self).wf(),
    {
        self.launch_ready.take()
    }

    /// Confirms a sidebar host. Confirming the active one again refreshes its library.
    pub fn confirm_sidebar_host(&mut self, idx: usize, now: u64)
        requires
            idx < old(self).hosts.entries.len(),
        ensures
            final(self)@ == old(self)@.confirm_sidebar_host(idx, now),
            final(self).wf() == old(self).wf(),
    {
        assert(self@.hosts.entries[idx as int] == self.hosts.entries@[idx as int]@);
        match &self.hosts.entries[idx] {
            HostEntry::Pinned { host, profile_id, .. } => {
                let addr = host.addr.clone();
                let port: u16 = host.port;
                let profile: Option<String> = Some(profile_id.clone());
                self.connect_desktop_with(addr.as_str(), port, profile, now);
            },
            HostEntry::Known(h) => {
                if h.is_paired() {
                    let addr = h.addr.clone();
                    let port: u16 = h.port;
                    let mgmt_port: Option<u16> = h.mgmt_port;
                    self.select_host(addr, port, mgmt_port, now);
                } else {
                    self.ask(Effect::OpenPairing(idx));
                }
            },
            HostEntry::Discovered(_) => {
                self.ask(Effect::OpenPairing(idx));
            },
        }
    }

    fn drop_host(&mut self, host: &str, port: u16)
        ensures
            final(self)@ == old(self)@.without_host(TargetV { host: host@, port }),
            final(self).wf() == old(self).wf(),
    {
        self.hosts.drop_known(host, port);
        if self.recents.forget_host(host, port) {
            self.ask(Effect::SaveRecents);
        }
        self.ask(Effect::ReconcileCaches);
        self.rebuild_entries();
    }

    fn clamp_sidebar(&mut self)
        ensures
            final(self)@ == old(self)@.clamp_sidebar(),
            final(self).wf() == old(self).wf(),
    {
        let n: usize = self.sidebar_len();
        match self.home_focus {
            HomeFocus::Sidebar(i) => {
                if i >= n {
                    self.home_focus = HomeFocus::Sidebar(n - 1);
                }
            },
            _ => {},
        }
    }

    /// Forgets a saved host: its record, its history and its row. It comes back as not paired if
    /// it is still on the network.
    pub fn forget_host(&mut self, idx: usize, now: u64)
        requires
            idx < old(self).hosts.entries.len(),
        ensures
            final(self)@ == old(self)@.forget_host(idx, now),
            final(self).wf() == old(self).wf(),
    {
        assert(self@.hosts.entries[idx as int] == self.hosts.entries@[idx as int]@);
        let (host, port): (String, u16) = match &self.hosts.entries[idx] {
            HostEntry::Known(h) => (h.addr.clone(), h.port),
            _ => {
                return;
            },
        };
        self.drop_host(host.as_str(), port);
        if is_target(&self.library.selected_host, &host, port) {
            self.clear_selected_host(now);
        }
        self.persist();
        self.clamp_sidebar();
        self.grid.dirty = true;
    }
}

} // verus!
