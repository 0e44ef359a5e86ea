//! What Home draws: the sidebar's rows, the grid's cards, a held card's panel, the pairing card,
//! and the few numbers behind a poster and the running dot.
use vstd::prelude::*;
use crate::app::{elapsed, os_mark, since, App, AppV};
use crate::cardmenu::CardMenuRow;
use crate::grid::{first_idx, group_of_slot};
use crate::hosts::{online_of, EntryV, HostEntry};
use crate::model::{HomeFocus, PairingFocus, Screen};
use crate::scroll::GridShape;
use crate::seqs::views;
use crate::text::{has_text, literal_of, same_text, text_of, texts};

verus! {

/// The mark at a sidebar row's left.
#[derive(Clone, Copy, PartialEq, Eq, Structural, Debug)]
pub enum SidebarMark {
    /// A profile pinned under a host.
    Pin,
    /// A paired host.
    Screen,
    /// A host that is not paired.
    Lock,
    Plus,
    Settings,
}

/// One row of the sidebar as it is drawn.
pub struct SidebarRow {
    pub mark: SidebarMark,
    pub label: String,
    /// It carries the actions button.
    pub has_menu: bool,
    /// The presence dot: none where the row has no button or nothing is known yet.
    pub online: Option<bool>,
    pub focused: bool,
    /// Focus is on its button.
    pub button_lit: bool,
    /// It is the selected host.
    pub selected: bool,
}

/// A [`SidebarRow`] as a value.
pub struct SidebarRowV {
    pub mark: SidebarMark,
    pub label: Seq<char>,
    pub has_menu: bool,
    pub online: Option<bool>,
    pub focused: bool,
    pub button_lit: bool,
    pub selected: bool,
}

impl View for SidebarRow {
    type V = SidebarRowV;

    open spec fn view(&self) -> SidebarRowV {
        SidebarRowV {
            mark: self.mark,
            label: self.label@,
            has_menu: self.has_menu,
            online: self.online,
            focused: self.focused,
            button_lit: self.button_lit,
            selected: self.selected,
        }
    }
}

pub open spec fn entry_mark(e: EntryV) -> SidebarMark {
    if e is Pinned {
        SidebarMark::Pin
    } else if e.is_paired() {
        SidebarMark::Screen
    } else {
        SidebarMark::Lock
    }
}

fn mark_of(e: &HostEntry) -> (r: SidebarMark)
    ensures
        r == entry_mark(e@),
{
    match e {
        HostEntry::Pinned { .. } => SidebarMark::Pin,
        _ => if e.is_paired() {
            SidebarMark::Screen
        } else {
            SidebarMark::Lock
        },
    }
}

/// One row of a held card's panel.
pub struct PanelRow {
    pub kind: CardMenuRow,
    pub focused: bool,
}

/// The strip at the bottom of the focused card.
pub struct CardStrip {
    /// The card's panel is up, rather than its bare title.
    pub panel: bool,
    pub rows: Vec<PanelRow>,
}

/// The pairing card's title.
pub const PAIR_TITLE: &'static str = "Pair with host";

/// What the pairing card says under its title.
pub const PAIR_SUBTITLE: &'static str = "Two ways to pair with this host — either one works.";

/// What the pairing card says under the button that asks for access.
pub const PAIR_BUTTON_CAPTION: &'static str = "Then approve this TV on the host.";

/// What the pairing card says over the digits.
pub const PAIR_PIN_CAPTION: &'static str = "Enter the PIN shown on the host.";

/// The words on the button that asks for access.
pub const REQUEST_LABEL: &'static str = "Request access";

/// What Home says while no host is selected.
pub const NO_HOST: &'static str = "No host selected — pick one from the list, or add one.";

/// What the pairing card shows.
pub struct PairView {
    /// Focus is on the button that asks the host for access.
    pub request_focused: bool,
    /// The digit that focus is on.
    pub lit: Option<usize>,
    pub digits: [u8; 4],
    pub status: Option<String>,
    /// The status reads as an error, not as progress.
    pub error: bool,
}

/// How many lines of its status the pairing card draws.
pub const STATUS_LINES: usize = 2;

/// The lines of a wrapped status that the pairing card draws: no more than it has room for.
pub open spec fn drawn_status(lines: Seq<Seq<char>>) -> Seq<Seq<char>> {
    lines.take(if lines.len() < STATUS_LINES {
        lines.len() as int
    } else {
        STATUS_LINES as int
    })
}

/// The lines of a wrapped status that the pairing card draws.
pub fn status_lines(lines: Vec<String>) -> (r: Vec<String>)
    ensures
        texts(r@) == drawn_status(texts(lines@)),
{
    let ghost all = texts(lines@);
    let mut lines = lines;
    lines.truncate(STATUS_LINES);
    assert(texts(lines@) =~= drawn_status(all));
    lines
}

/// A run of grid slots, `to` not among them.
#[derive(Clone, Copy, PartialEq, Eq, Structural, Debug)]
pub struct Slots {
    pub from: usize,
    pub to: usize,
}

/// One card of the grid as it is drawn.
#[derive(Clone, Copy, PartialEq, Eq, Structural, Debug)]
pub struct GridCard {
    pub idx: usize,
    /// Its collection is being reordered and the order is not written yet.
    pub dimmed: bool,
    /// The host has it running.
    pub running: bool,
}

/// What Home shows beside the sidebar.
#[derive(Clone, Copy, PartialEq, Eq, Structural, Debug)]
pub enum HomeBody {
    /// Nothing, and no sidebar either: the video plane or a launch has the screen.
    Hidden,
    /// A line that says no host is selected.
    NoHost,
    /// The spinner, until the first page is ready.
    Spinner,
    Grid,
}

impl HomeBody {
    /// The line in place of the grid, if there is one.
    pub open spec fn says(self) -> Option<Seq<char>> {
        if self == HomeBody::NoHost {
            Some(NO_HOST@)
        } else {
            None
        }
    }

    /// The line in place of the grid, if there is one.
    pub fn line(self) -> (r: Option<&'static str>)
        ensures
            literal_of(r) == self.says(),
    {
        match self {
            HomeBody::NoHost => Some(NO_HOST),
            _ => None,
        }
    }
}

impl AppV {
    /// What Home shows beside the sidebar. `dissolving` says that a launch's backdrop is on its way
    /// out; past `launch_fade` a launch covers the screen.
    pub open spec fn home_body(self, dissolving: bool, launch_fade: u64, now: u64) -> HomeBody {
        if dissolving || self.nav.screen == Screen::HdrCalibration || (self.launch_anim matches Some(t) && since(
            t,
            now,
        ) >= launch_fade) {
            HomeBody::Hidden
        } else if self.library.selected_host is None {
            HomeBody::NoHost
        } else if !self.grid.revealed {
            HomeBody::Spinner
        } else {
            HomeBody::Grid
        }
    }

    /// The row that sidebar focus is on.
    pub open spec fn sidebar_focus(self) -> Option<usize> {
        crate::app::sidebar_row_of(self.home_focus)
    }

    pub open spec fn host_sidebar_row(self, i: int) -> SidebarRowV {
        let e = self.hosts.entries[i];
        SidebarRowV {
            mark: entry_mark(e),
            label: e.name(),
            has_menu: e.has_menu(),
            online: if e.has_menu() {
                online_of(self.hosts.reachable, e.target())
            } else {
                None
            },
            focused: self.sidebar_focus() == Some(i as usize),
            button_lit: self.home_focus == HomeFocus::SidebarMenu(i as usize) && e.has_menu(),
            selected: self.sidebar_index_of_selected_host() == Some(i),
        }
    }

    pub open spec fn utility_row(self, mark: SidebarMark, label: Seq<char>, i: int) -> SidebarRowV {
        SidebarRowV {
            mark,
            label,
            has_menu: false,
            online: None,
            focused: self.sidebar_focus() == Some(i as usize),
            button_lit: false,
            selected: false,
        }
    }

    /// A row for each host, then the one that adds a host and the one that opens the settings.
    pub open spec fn sidebar_rows(self) -> Seq<SidebarRowV> {
        let n = self.hosts.entries.len();
        Seq::new(n, |i: int| self.host_sidebar_row(i)).push(
            self.utility_row(SidebarMark::Plus, "Add host"@, n as int),
        ).push(self.utility_row(SidebarMark::Settings, "Settings"@, (n + 1) as int))
    }

    /// Whether a card's panel is up. It collapses to the bare title while the card is moved.
    pub open spec fn panel_up(self, pin_id: Seq<char>) -> bool {
        self.card_menu matches Some(m) && !m.moved && m.pin_id == pin_id
    }

    pub open spec fn panel_focus(self, pin_id: Seq<char>) -> Option<usize> {
        if self.panel_up(pin_id) {
            Some(self.card_menu->0.focused)
        } else {
            None
        }
    }

    /// The slots of the collection whose order a held card has changed and not yet fixed.
    pub open spec fn reordering_slots(self, s: GridShape) -> Option<(nat, nat)> {
        match self.card_menu {
            Some(m) => if m.moved {
                match group_of_slot(self.library.groups, s.columns as nat, m.idx as nat) {
                    Some(i) => {
                        let first = first_idx(self.library.groups, s.columns as nat, i);
                        Some((first, first + self.library.groups[i].len))
                    },
                    None => None,
                }
            } else {
                None
            },
            None => None,
        }
    }

    pub open spec fn dims(self, idx: usize, s: GridShape) -> bool {
        self.reordering_slots(s) matches Some(r) && r.0 <= idx < r.1
    }

    /// The grid's focused card, if focus is on one of its slots.
    pub open spec fn focused_slot(self, s: GridShape) -> Option<usize> {
        match self.home_focus {
            HomeFocus::Grid(i) => if i < self.grid_len(s) {
                Some(i)
            } else {
                None
            },
            _ => None,
        }
    }

    pub open spec fn drawn_card(self, idx: usize, s: GridShape) -> Option<GridCard> {
        match self.grid_card_at(idx, s) {
            Some(g) => if self.focused_slot(s) == Some(idx) {
                None
            } else {
                Some(GridCard { idx, dimmed: self.dims(idx, s), running: self.library.running.contains(g.id) })
            },
            None => None,
        }
    }

    /// The cards drawn of the visible slots, in slot order. The focused one is drawn on top of
    /// them, by itself.
    pub open spec fn grid_cards(self, from: int, to: int, s: GridShape) -> Seq<GridCard>
        decreases to - from,
    {
        if from >= to {
            Seq::empty()
        } else {
            let before = self.grid_cards(from, to - 1, s);
            match self.drawn_card((to - 1) as usize, s) {
                Some(card) => before.push(card),
                None => before,
            }
        }
    }
}

/// At most one sidebar row is focused, and none while focus is in the grid.
pub proof fn law_one_focus(app: AppV, i: int, j: int)
    requires
        0 <= i < app.sidebar_rows().len() <= usize::MAX,
        0 <= j < app.sidebar_rows().len(),
        app.sidebar_rows()[i].focused,
        app.sidebar_rows()[j].focused,
    ensures
        i == j,
        app.home_focus !is Grid,
{
}

/// While a card's new place is unwritten no card's panel is up.
pub proof fn law_moved_card_hides_its_panel(app: AppV, pin_id: Seq<char>)
    ensures
        app.card_menu_reordering() ==> !app.panel_up(pin_id),
{
}

/// How long one breath of the running dot takes, in milliseconds.
pub const PULSE_MILLIS: u64 = 1_800;

/// Redraws per breath. Stepped, since a smooth one would redraw the grid on every frame for as
/// long as a game runs.
pub const PULSE_STEPS: u64 = 18;

/// The running dot's pulse: its origin, and the step it was last drawn for.
#[derive(Clone, Copy, PartialEq, Eq, Structural, Debug)]
pub struct RunningPulse {
    pub since: Option<u64>,
    pub step: Option<u32>,
}

/// The step a clock is in.
pub open spec fn pulse_step(from: u64, now: u64) -> u32 {
    ((since(from, now) as int % PULSE_MILLIS as int) * PULSE_STEPS as int / PULSE_MILLIS as int) as u32
}

/// The pulse with no dot on screen.
pub open spec fn parked() -> RunningPulse {
    RunningPulse { since: None, step: None }
}

impl RunningPulse {
    pub open spec fn ticked(self, now: u64, live: bool) -> RunningPulse {
        if live {
            let from = match self.since {
                Some(t) => t,
                None => now,
            };
            RunningPulse { since: Some(from), step: Some(pulse_step(from, now)) }
        } else {
            parked()
        }
    }

    pub fn new() -> (r: RunningPulse)
        ensures
            r == parked(),
    {
        RunningPulse { since: None, step: None }
    }

    /// Advances the breath. Reports whether this frame owes a redraw for it: whether it is in
    /// another step. With no dot on screen the clock is parked, so that the next breath starts at
    /// its peak.
    pub fn tick(&mut self, now: u64, live: bool) -> (r: bool)
        ensures
            *final(self) == old(self).ticked(now, live),
            r == (live && final(self).step != old(self).step),
            final(self).step matches Some(k) ==> k < PULSE_STEPS,
    {
        if !live {
            self.since = None;
            self.step = None;
            return false;
        }
        let from: u64 = match self.since {
            Some(t) => t,
            None => now,
        };
        self.since = Some(from);
        let at: u64 = elapsed(from, now) % PULSE_MILLIS;
        let step: u32 = (at * PULSE_STEPS / PULSE_MILLIS) as u32;
        assert(step == pulse_step(from, now));
        let owed: bool = match self.step {
            Some(k) => k != step,
            None => true,
        };
        self.step = Some(step);
        owed
    }
}

/// A breath starts at its first step, and a tick within a step leaves the dot as it is.
pub proof fn law_pulse_rests_within_a_step(p: RunningPulse, a: u64, b: u64)
    requires
        p.since is Some,
        p.since->0 <= a <= b,
        pulse_step(p.since->0, a) == pulse_step(p.since->0, b),
    ensures
        p.ticked(a, true).ticked(b, true).step == p.ticked(a, true).step,
        parked().ticked(a, true).step == Some(0u32),
{
}

/// A raw image's pixel layout.
#[derive(Clone, Copy, PartialEq, Eq, Structural, Debug)]
pub enum RawFormat {
    Rgb565,
    Rgba8888,
}

impl RawFormat {
    pub open spec fn pixel_bytes(self) -> int {
        match self {
            RawFormat::Rgb565 => 2,
            RawFormat::Rgba8888 => 4,
        }
    }

    pub fn bytes_per_pixel(self) -> (r: usize)
        ensures
            r == self.pixel_bytes(),
    {
        match self {
            RawFormat::Rgb565 => 2,
            RawFormat::Rgba8888 => 4,
        }
    }
}

/// Whether `len` bytes are the pixels of a `w` by `h` image. Where they are, the bytes of one row
/// are returned.
pub fn raw_row_bytes(w: u32, h: u32, format: RawFormat, len: usize) -> (r: Option<usize>)
    ensures
        match r {
            Some(row) => row == w * format.pixel_bytes() && row * h == len,
            None => w * format.pixel_bytes() * h != len || w * format.pixel_bytes() > usize::MAX,
        },
{
    let bpp: u128 = format.bytes_per_pixel() as u128;
    assert(0 <= w * bpp <= 0xffff_ffff * 4) by (nonlinear_arith)
        requires
            0 <= w <= 0xffff_ffff,
            0 <= bpp <= 4,
    ;
    let row: u128 = w as u128 * bpp;
    assert(0 <= row * h <= 0xffff_ffff * 4 * 0xffff_ffff) by (nonlinear_arith)
        requires
            0 <= row <= 0xffff_ffff * 4,
            0 <= h <= 0xffff_ffff,
    ;
    let all: u128 = row * h as u128;
    if all != len as u128 || row > usize::MAX as u128 {
        return None;
    }
    Some(row as usize)
}

/// Which table a card's icon token is looked up in.
pub enum CardMark {
    /// The operating systems, by an advertised chain.
    Os(String),
    /// The launchers, by name.
    Launcher(String),
}

/// A [`CardMark`] as a value.
pub enum CardMarkV {
    Os(Seq<char>),
    Launcher(Seq<char>),
}

impl View for CardMark {
    type V = CardMarkV;

    open spec fn view(&self) -> CardMarkV {
        match self {
            CardMark::Os(chain) => CardMarkV::Os(chain@),
            CardMark::Launcher(name) => CardMarkV::Launcher(name@),
        }
    }
}

pub open spec fn card_mark_of(token: Seq<char>) -> CardMarkV {
    if token.len() >= 3 && token.subrange(0, 3) == "os/"@ {
        CardMarkV::Os(token.subrange(3, token.len() as int))
    } else {
        CardMarkV::Launcher(token)
    }
}

/// Where a card's icon token is looked up: an `os/` token names a chain of operating systems, any
/// other a launcher.
pub fn card_mark(token: &str) -> (r: CardMark)
    ensures
        r@ == card_mark_of(token@),
{
    let n: usize = token.unicode_len();
    if n >= 3 && same_text(token.substring_char(0, 3), "os/") {
        CardMark::Os(token.substring_char(3, n).to_owned())
    } else {
        CardMark::Launcher(token.to_owned())
    }
}

/// The mark that the desktop card is given is the mark that its poster looks up: the advertised
/// chain comes back whole.
pub proof fn law_desktop_mark_is_found_again(chain: Seq<char>, marked: Seq<Seq<char>>)
    requires
        marked.contains(chain),
    ensures
        os_mark(chain, marked) matches Some(token) && card_mark_of(token) == CardMarkV::Os(chain),
{
    reveal_strlit("os/");
    let token = "os/"@ + chain;
    assert(token.subrange(0, 3) =~= "os/"@);
    assert(token.subrange(3, token.len() as int) =~= chain);
}

/// What a poster shows.
#[derive(Clone, Copy, PartialEq, Eq, Structural, Debug)]
pub enum Poster {
    /// Its cover.
    Cover,
    /// A tinted face with the mark its icon names.
    Mark,
    /// A tinted face with the plain icon of that name.
    Icon,
    /// A tinted face with its title.
    Title,
}

/// What a poster shows: its cover where there is one; else what its icon names, a mark before a
/// plain icon; else its title. `marked` and `named` say what the icon's token was found as.
pub fn poster_of(cover: bool, has_icon: bool, marked: bool, named: bool) -> (r: Poster)
    ensures
        r == (if cover {
            Poster::Cover
        } else if has_icon && marked {
            Poster::Mark
        } else if has_icon && named {
            Poster::Icon
        } else {
            Poster::Title
        }),
{
    if cover {
        Poster::Cover
    } else if has_icon && marked {
        Poster::Mark
    } else if has_icon && named {
        Poster::Icon
    } else {
        Poster::Title
    }
}

/// How many tints a coverless card picks from.
pub const FACES: u32 = 6;

/// A title's hash over its first `n` bytes.
pub open spec fn title_hash(bytes: Seq<u8>, n: int) -> int
    decreases n,
{
    if n <= 0 {
        5381
    } else {
        (title_hash(bytes, n - 1) * 33 + bytes[n - 1]) % 0x1_0000_0000
    }
}

/// Which tint a coverless card wears: by its title, so that a library reads as varied and a title
/// looks the same every time.
pub fn face_of(title: &Vec<u8>) -> (r: u32)
    ensures
        r == title_hash(title@, title.len() as int) % FACES as int,
        r < FACES,
{
    let mut hash: u64 = 5381;
    let mut i: usize = 0;
    while i < title.len()
        invariant
            i <= title.len(),
            hash == title_hash(title@, i as int),
            hash < 0x1_0000_0000,
        decreases title.len() - i,
    {
        hash = (hash * 33 + title[i] as u64) % 0x1_0000_0000;
        i = i + 1;
    }
    (hash % FACES as u64) as u32
}

impl App {
    fn host_sidebar_row(&self, i: usize, selected: Option<usize>) -> (r: SidebarRow)
        requires
            i < self.hosts.entries.len(),
            match (selected, self@.sidebar_index_of_selected_host()) {
                (Some(k), Some(j)) => k == j,
                (None, None) => true,
                _ => false,
            },
        ensures
            r@ == self@.host_sidebar_row(i as int),
    {
        assert(self@.hosts.entries[i as int] == self.hosts.entries@[i as int]@);
        let e = &self.hosts.entries[i];
        let has_menu: bool = e.has_menu();
        let online: Option<bool> = if has_menu {
            self.entry_online(e)
        } else {
            None
        };
        let (focused, on_button): (bool, bool) = match self.home_focus {
            HomeFocus::Sidebar(k) => (k == i, false),
            HomeFocus::SidebarMenu(k) => (k == i, k == i),
            HomeFocus::Grid(_) => (false, false),
        };
        SidebarRow {
            mark: mark_of(e),
            label: e.name().to_owned(),
            has_menu,
            online,
            focused,
            button_lit: on_button && has_menu,
            selected: match selected {
                Some(k) => k == i,
                None => false,
            },
        }
    }

    fn utility_row(&self, mark: SidebarMark, label: &str, i: usize) -> (r: SidebarRow)
        ensures
            r@ == self@.utility_row(mark, label@, i as int),
    {
        let focused: bool = match crate::app::sidebar_row(self.home_focus) {
            Some(k) => k == i,
            None => false,
        };
        SidebarRow {
            mark,
            label: label.to_owned(),
            has_menu: false,
            online: None,
            focused,
            button_lit: false,
            selected: false,
        }
    }

    /// The sidebar's rows as they are drawn.
    pub fn sidebar_rows(&self) -> (r: Vec<SidebarRow>)
        requires
            self.hosts.entries.len() <= usize::MAX - 2,
        ensures
            views(r@) == self@.sidebar_rows(),
    {
        let selected: Option<usize> = self.sidebar_index_of_selected_host();
        let n: usize = self.hosts.entries.len();
        let mut rows: Vec<SidebarRow> = Vec::new();
        let mut i: usize = 0;
        while i < n
            invariant
                i <= n,
                n == self.hosts.entries.len(),
                match (selected, self@.sidebar_index_of_selected_host()) {
                    (Some(k), Some(j)) => k == j,
                    (None, None) => true,
                    _ => false,
                },
                rows.len() == i,
                forall|k: int| 0 <= k < i ==> (#[trigger] rows@[k])@ == self@.host_sidebar_row(k),
            decreases n - i,
        {
            rows.push(self.host_sidebar_row(i, selected));
            i = i + 1;
        }
        rows.push(self.utility_row(SidebarMark::Plus, "Add host", n));
        rows.push(self.utility_row(SidebarMark::Settings, "Settings", n + 1));
        assert(self@.hosts.entries.len() == n);
        assert(views(rows@) =~= self@.sidebar_rows());
        rows
    }

    /// What Home shows beside the sidebar.
    pub fn home_body(&self, dissolving: bool, launch_fade: u64, now: u64) -> (r: HomeBody)
        ensures
            r == self@.home_body(dissolving, launch_fade, now),
    {
        let covered: bool = match self.launch_anim {
            Some(t) => elapsed(t, now) >= launch_fade,
            None => false,
        };
        if self.over_video_layers(dissolving) || covered {
            HomeBody::Hidden
        } else if self.library.selected_host.is_none() {
            HomeBody::NoHost
        } else if !self.grid.revealed {
            HomeBody::Spinner
        } else {
            HomeBody::Grid
        }
    }

    /// The strip of the focused card: its bare title, or the panel that a hold grew out of it.
    pub fn card_strip(&self, pin_id: &str) -> (r: CardStrip)
        ensures
            r.panel == self@.panel_up(pin_id@),
            r.rows.len() == self@.card_menu_row_kinds(pin_id@).len(),
            forall|i: int|
                0 <= i < r.rows.len() ==> (#[trigger] r.rows[i]).kind == self@.card_menu_row_kinds(pin_id@)[i]
                    && r.rows[i].focused == (self@.panel_focus(pin_id@) == Some(i as usize)),
    {
        let focus: Option<usize> = match &self.card_menu {
            Some(m) => if !m.moved && same_text(m.pin_id.as_str(), pin_id) {
                Some(m.focused)
            } else {
                None
            },
            None => None,
        };
        let kinds = self.card_menu_row_kinds(pin_id);
        let mut rows: Vec<PanelRow> = Vec::new();
        let mut i: usize = 0;
        while i < kinds.len()
            invariant
                i <= kinds.len(),
                rows.len() == i,
                forall|k: int|
                    0 <= k < i ==> (#[trigger] rows[k]).kind == kinds@[k] && rows[k].focused == (focus == Some(
                        k as usize,
                    )),
            decreases kinds.len() - i,
        {
            let focused: bool = match focus {
                Some(k) => k == i,
                None => false,
            };
            rows.push(PanelRow { kind: kinds[i], focused });
            i = i + 1;
        }
        CardStrip { panel: focus.is_some(), rows }
    }

    /// What the pairing card shows.
    pub fn pair_view(&self) -> (r: PairView)
        ensures
            r.request_focused == (self@.screens.pairing_focus == PairingFocus::RequestAccess),
            r.lit == (if self@.screens.pairing_focus == PairingFocus::Pin {
                Some(self@.screens.pin_digit_index)
            } else {
                None
            }),
            r.digits@ == self@.screens.pin_digits,
            text_of(r.status) == self@.screens.pairing_status,
            r.error == (self@.screens.pairing_status is Some && !self@.screens.pairing_busy),
    {
        let request_focused: bool = self.screens.pairing_focus == PairingFocus::RequestAccess;
        let status: Option<String> = match &self.screens.pairing_status {
            Some(s) => Some(s.clone()),
            None => None,
        };
        PairView {
            request_focused,
            lit: if request_focused {
                None
            } else {
                Some(self.screens.pin_digit_index)
            },
            digits: self.screens.pin_digits,
            error: status.is_some() && !self.screens.pairing_busy,
            status,
        }
    }

    /// The slots of the collection whose order a held card has changed and not yet fixed.
    pub fn reordering_slots(&self, s: GridShape) -> (r: Option<Slots>)
        requires
            self@.grid_fits(s),
        ensures
            match (r, self@.reordering_slots(s)) {
                (Some(k), Some(v)) => k.from == v.0 && k.to == v.1,
                (None, None) => true,
                _ => false,
            },
    {
        let idx: usize = match &self.card_menu {
            Some(m) => if m.moved {
                m.idx
            } else {
                return None;
            },
            None => {
                return None;
            },
        };
        self.library.group_slots(idx, s.columns, s.metrics)
    }

    fn drawn_card(&self, idx: usize, focused: Option<usize>, dim: Option<Slots>, s: GridShape) -> (r: Option<GridCard>)
        requires
            self@.grid_fits(s),
            focused == self@.focused_slot(s),
            match (dim, self@.reordering_slots(s)) {
                (Some(k), Some(v)) => k.from == v.0 && k.to == v.1,
                (None, None) => true,
                _ => false,
            },
        ensures
            r == self@.drawn_card(idx, s),
    {
        match self.grid_card_at(idx, s) {
            Some(game) => {
                let on_top: bool = match focused {
                    Some(k) => k == idx,
                    None => false,
                };
                if on_top {
                    return None;
                }
                let dimmed: bool = match dim {
                    Some(d) => d.from <= idx && idx < d.to,
                    None => false,
                };
                Some(GridCard { idx, dimmed, running: has_text(&self.library.running, game.id.as_str()) })
            },
            None => None,
        }
    }

    /// The cards drawn of the visible slots `from..to`, without the focused one, which is drawn on
    /// top of them.
    pub fn grid_cards(&self, from: usize, to: usize, s: GridShape) -> (r: Vec<GridCard>)
        requires
            self@.grid_fits(s),
        ensures
            r@ == self@.grid_cards(from as int, to as int, s),
    {
        let len: usize = self.grid_len(s);
        let focused: Option<usize> = match self.home_focus {
            HomeFocus::Grid(i) => if i < len {
                Some(i)
            } else {
                None
            },
            _ => None,
        };
        let dim = self.reordering_slots(s);
        let mut out: Vec<GridCard> = Vec::new();
        let mut i: usize = from;
        while i < to
            invariant
                self@.grid_fits(s),
                focused == self@.focused_slot(s),
                match (dim, self@.reordering_slots(s)) {
                    (Some(k), Some(v)) => k.from == v.0 && k.to == v.1,
                    (None, None) => true,
                    _ => false,
                },
                from <= i,
                i <= to || i == from,
                out@ == self@.grid_cards(from as int, i as int, s),
            decreases to - i,
        {
            match self.drawn_card(i, focused, dim, s) {
                Some(card) => {
                    out.push(card);
                },
                None => {},
            }
            i = i + 1;
        }
        out
    }
}

} // verus!
