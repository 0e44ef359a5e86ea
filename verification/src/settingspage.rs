//! The settings page: which rows a page lists, what stepping and confirming one does, and which
//! document the change goes to.
use vstd::prelude::*;
use crate::app::{App, AppV};
use crate::flags::Job;
use crate::hosts::{profile_is, HostsV};
use crate::menu::{
    cycle_index, cycled, log_level_at, log_level_dropdown_current_index, log_level_index, log_levels, LOG_LEVELS,
};
use crate::model::{profile_views, LogLevelOverride, MenuEvent, ProfileV, Screen, Settings, SettingsOverlay};
use crate::seqs::{lemma_first_from, lemma_first_is, views};
use crate::slots::{Effect, EffectV, KitRow, Page, Scope, ScopeV, ScreensV, SettingsPageV};
use crate::text::literal_of;

verus! {

/// How many pages there are.
pub const PAGES: usize = 6;

/// The pages in order.
pub open spec fn pages() -> Seq<Page> {
    seq![Page::General, Page::Display, Page::Input, Page::Audio, Page::Controllers, Page::About]
}

/// A page's place in that order.
pub open spec fn page_no(page: Page) -> usize {
    match page {
        Page::General => 0,
        Page::Display => 1,
        Page::Input => 2,
        Page::Audio => 3,
        Page::Controllers => 4,
        Page::About => 5,
    }
}

/// The page at a place, the last one past the end.
pub fn page_at(index: usize) -> (r: Page)
    ensures
        index < pages().len() ==> r == pages()[index as int],
        index >= pages().len() ==> r == Page::About,
{
    match index {
        0 => Page::General,
        1 => Page::Display,
        2 => Page::Input,
        3 => Page::Audio,
        4 => Page::Controllers,
        _ => Page::About,
    }
}

impl Page {
    pub fn label(self) -> (r: &'static str)
        ensures
            r@ == (match self {
                Page::General => "General"@,
                Page::Display => "Display"@,
                Page::Input => "Input"@,
                Page::Audio => "Audio"@,
                Page::Controllers => "Controllers"@,
                Page::About => "About"@,
            }),
    {
        match self {
            Page::General => "General",
            Page::Display => "Display",
            Page::Input => "Input",
            Page::Audio => "Audio",
            Page::Controllers => "Controllers",
            Page::About => "About",
        }
    }

    pub fn icon(self) -> (r: &'static str)
        ensures
            r@ == (match self {
                Page::General => "settings"@,
                Page::Display => "maximize"@,
                Page::Input => "keyboard"@,
                Page::Audio => "volume-2"@,
                Page::Controllers => "gamepad-2"@,
                Page::About => "circle-help"@,
            }),
    {
        match self {
            Page::General => "settings",
            Page::Display => "maximize",
            Page::Input => "keyboard",
            Page::Audio => "volume-2",
            Page::Controllers => "gamepad-2",
            Page::About => "circle-help",
        }
    }

    /// The page's place in the column.
    pub fn index(self) -> (r: usize)
        ensures
            r == page_no(self),
            r < pages().len(),
            pages()[r as int] == self,
    {
        match self {
            Page::General => 0,
            Page::Display => 1,
            Page::Input => 2,
            Page::Audio => 3,
            Page::Controllers => 4,
            Page::About => 5,
        }
    }
}

/// One row of a page: one that every front end has, or one that only this one has.
#[derive(Clone, Copy, PartialEq, Eq, Structural, Debug)]
pub enum PageRow {
    Kit(KitRow),
    /// Which document is edited.
    Editing,
    /// Rooted TVs only.
    GameMode,
    CalibrateHdr,
    /// Once a calibration is saved.
    ResetHdr,
    /// The controller that is attached.
    Pad,
    Version,
    LogLevel,
    ShowLogs,
    SendLogs,
    Licences,
    Rename,
    Duplicate,
    Delete,
}

/// A row with the group's header, which the first row of a group carries.
pub struct PageLine {
    pub row: PageRow,
    pub header: Option<&'static str>,
}

pub struct PageLineV {
    pub row: PageRow,
    pub header: Option<Seq<char>>,
}

impl View for PageLine {
    type V = PageLineV;

    open spec fn view(&self) -> PageLineV {
        PageLineV { row: self.row, header: literal_of(self.header) }
    }
}

pub open spec fn headed(row: PageRow, header: Seq<char>) -> PageLineV {
    PageLineV { row, header: Some(header) }
}

pub open spec fn plain(row: PageRow) -> PageLineV {
    PageLineV { row, header: None }
}

/// The rows a page lists: everything in the global scope, and in a profile's only what a profile
/// can hold.
pub open spec fn listed_rows(page: Page, profile: bool) -> Seq<PageLineV> {
    match page {
        Page::General => if profile {
            seq![
                headed(PageRow::Editing, "Editing"@),
                headed(PageRow::Rename, "Profile"@),
                plain(PageRow::Duplicate),
                plain(PageRow::Delete),
            ]
        } else {
            seq![
                headed(PageRow::Editing, "Editing"@),
                headed(PageRow::Kit(KitRow::AutoWake), "Session"@),
                headed(PageRow::Kit(KitRow::Stats), "Statistics"@),
                headed(PageRow::Kit(KitRow::Palette), "Interface"@),
                plain(PageRow::Kit(KitRow::GamepadUi)),
                plain(PageRow::Kit(KitRow::GamepadUiMode)),
            ]
        },
        Page::Display => {
            let shared = seq![
                headed(PageRow::Kit(KitRow::Resolution), "Resolution"@),
                plain(PageRow::Kit(KitRow::Refresh)),
                headed(PageRow::Kit(KitRow::Bitrate), "Quality"@),
                plain(PageRow::Kit(KitRow::Codec)),
                plain(PageRow::Kit(KitRow::Hdr)),
            ];
            if profile {
                shared
            } else {
                shared.push(plain(PageRow::CalibrateHdr)).push(plain(PageRow::ResetHdr)).push(
                    headed(PageRow::GameMode, "TV"@),
                )
            }
        },
        Page::Input => if profile {
            seq![
                headed(PageRow::Kit(KitRow::Mouse), "Keyboard & mouse"@),
                plain(PageRow::Kit(KitRow::InvertScroll)),
            ]
        } else {
            seq![
                headed(PageRow::Kit(KitRow::Mouse), "Keyboard & mouse"@),
                plain(PageRow::Kit(KitRow::CursorGestures)),
                plain(PageRow::Kit(KitRow::InvertScroll)),
            ]
        },
        Page::Audio => if profile {
            seq![plain(PageRow::Kit(KitRow::Audio))]
        } else {
            seq![plain(PageRow::Kit(KitRow::Audio)), plain(PageRow::Kit(KitRow::AudioRoute))]
        },
        Page::Controllers => if profile {
            seq![headed(PageRow::Kit(KitRow::PadType), "Gamepad"@)]
        } else {
            seq![
                headed(PageRow::Pad, "Detected controllers"@),
                headed(PageRow::Kit(KitRow::PadType), "Gamepad"@),
                plain(PageRow::Kit(KitRow::PadHaptics)),
                plain(PageRow::Kit(KitRow::PadSpeaker)),
            ]
        },
        Page::About => seq![
            plain(PageRow::Version),
            headed(PageRow::LogLevel, "Diagnostics"@),
            plain(PageRow::ShowLogs),
            plain(PageRow::SendLogs),
            headed(PageRow::Licences, "Legal"@),
        ],
    }
}

fn push_line(rows: &mut Vec<PageLine>, row: PageRow, header: Option<&'static str>)
    ensures
        views(final(rows)@) == views(old(rows)@).push((PageLineV { row, header: literal_of(header) })),
{
    let line = PageLine { row, header };
    let ghost v = line@;
    rows.push(line);
    assert(views(rows@) =~= views(old(rows)@).push(v));
}

/// The rows a page lists.
pub fn page_rows(page: Page, profile: bool) -> (r: Vec<PageLine>)
    ensures
        views(r@) == listed_rows(page, profile),
{
    let mut rows: Vec<PageLine> = Vec::new();
    assert(views(rows@) =~= Seq::empty());
    match page {
        Page::General => {
            push_line(&mut rows, PageRow::Editing, Some("Editing"));
            if profile {
                push_line(&mut rows, PageRow::Rename, Some("Profile"));
                push_line(&mut rows, PageRow::Duplicate, None);
                push_line(&mut rows, PageRow::Delete, None);
            } else {
                push_line(&mut rows, PageRow::Kit(KitRow::AutoWake), Some("Session"));
                push_line(&mut rows, PageRow::Kit(KitRow::Stats), Some("Statistics"));
                push_line(&mut rows, PageRow::Kit(KitRow::Palette), Some("Interface"));
                push_line(&mut rows, PageRow::Kit(KitRow::GamepadUi), None);
                push_line(&mut rows, PageRow::Kit(KitRow::GamepadUiMode), None);
            }
        },
        Page::Display => {
            push_line(&mut rows, PageRow::Kit(KitRow::Resolution), Some("Resolution"));
            push_line(&mut rows, PageRow::Kit(KitRow::Refresh), None);
            push_line(&mut rows, PageRow::Kit(KitRow::Bitrate), Some("Quality"));
            push_line(&mut rows, PageRow::Kit(KitRow::Codec), None);
            push_line(&mut rows, PageRow::Kit(KitRow::Hdr), None);
            if !profile {
                push_line(&mut rows, PageRow::CalibrateHdr, None);
                push_line(&mut rows, PageRow::ResetHdr, None);
                push_line(&mut rows, PageRow::GameMode, Some("TV"));
            }
        },
        Page::Input => {
            push_line(&mut rows, PageRow::Kit(KitRow::Mouse), Some("Keyboard & mouse"));
            if !profile {
                push_line(&mut rows, PageRow::Kit(KitRow::CursorGestures), None);
            }
            push_line(&mut rows, PageRow::Kit(KitRow::InvertScroll), None);
        },
        Page::Audio => {
            push_line(&mut rows, PageRow::Kit(KitRow::Audio), None);
            if !profile {
                push_line(&mut rows, PageRow::Kit(KitRow::AudioRoute), None);
            }
        },
        Page::Controllers => {
            if !profile {
                push_line(&mut rows, PageRow::Pad, Some("Detected controllers"));
            }
            push_line(&mut rows, PageRow::Kit(KitRow::PadType), Some("Gamepad"));
            if !profile {
                push_line(&mut rows, PageRow::Kit(KitRow::PadHaptics), None);
                push_line(&mut rows, PageRow::Kit(KitRow::PadSpeaker), None);
            }
        },
        Page::About => {
            push_line(&mut rows, PageRow::Version, None);
            push_line(&mut rows, PageRow::LogLevel, Some("Diagnostics"));
            push_line(&mut rows, PageRow::ShowLogs, None);
            push_line(&mut rows, PageRow::SendLogs, None);
            push_line(&mut rows, PageRow::Licences, Some("Legal"));
        },
    }
    rows
}

/// Whether a row shows: a shared one where it applies here, the reset where there is something to
/// reset.
pub open spec fn row_shown(row: PageRow, kit: Seq<KitRow>, calibrated: bool) -> bool {
    match row {
        PageRow::Kit(id) => kit.contains(id),
        PageRow::ResetHdr => calibrated,
        _ => true,
    }
}

/// The header that the next shown row of the first `n` gets.
pub open spec fn pending_header(rows: Seq<PageLineV>, kit: Seq<KitRow>, calibrated: bool, n: int) -> Option<Seq<char>>
    decreases n,
{
    if n <= 0 {
        None
    } else if row_shown(rows[n - 1].row, kit, calibrated) {
        None
    } else if rows[n - 1].header is Some {
        rows[n - 1].header
    } else {
        pending_header(rows, kit, calibrated, n - 1)
    }
}

/// The header a row shows: its group's, if no row of the group shows before it.
pub open spec fn shown_header(rows: Seq<PageLineV>, kit: Seq<KitRow>, calibrated: bool, i: int) -> Option<Seq<char>> {
    if rows[i].header is Some {
        rows[i].header
    } else {
        pending_header(rows, kit, calibrated, i)
    }
}

/// The rows of the first `n` that show, each group's header on the first of them.
pub open spec fn shown_rows(rows: Seq<PageLineV>, kit: Seq<KitRow>, calibrated: bool, n: int) -> Seq<PageLineV>
    decreases n,
{
    if n <= 0 {
        Seq::empty()
    } else {
        let before = shown_rows(rows, kit, calibrated, n - 1);
        if row_shown(rows[n - 1].row, kit, calibrated) {
            before.push(
                PageLineV { row: rows[n - 1].row, header: shown_header(rows, kit, calibrated, n - 1) },
            )
        } else {
            before
        }
    }
}

/// Only rows of the page that apply are shown.
pub proof fn law_shown_rows_apply(rows: Seq<PageLineV>, kit: Seq<KitRow>, calibrated: bool, n: int, i: int)
    requires
        0 <= n <= rows.len(),
        0 <= i < shown_rows(rows, kit, calibrated, n).len(),
    ensures
        row_shown(shown_rows(rows, kit, calibrated, n)[i].row, kit, calibrated),
        exists|k: int| 0 <= k < n && (#[trigger] rows[k]).row == shown_rows(rows, kit, calibrated, n)[i].row,
    decreases n,
{
    let before = shown_rows(rows, kit, calibrated, n - 1);
    if i < before.len() {
        law_shown_rows_apply(rows, kit, calibrated, n - 1, i);
        let k = choose|k: int| 0 <= k < n - 1 && (#[trigger] rows[k]).row == before[i].row;
        assert(rows[k].row == shown_rows(rows, kit, calibrated, n)[i].row);
    } else {
        assert(rows[n - 1].row == shown_rows(rows, kit, calibrated, n)[i].row);
    }
}

/// Where every row shows, the page is listed as it is.
pub proof fn law_full_page(rows: Seq<PageLineV>, kit: Seq<KitRow>, calibrated: bool, n: int)
    requires
        0 <= n <= rows.len(),
        forall|k: int| 0 <= k < rows.len() ==> row_shown((#[trigger] rows[k]).row, kit, calibrated),
    ensures
        shown_rows(rows, kit, calibrated, n) == rows.take(n),
    decreases n,
{
    if n > 0 {
        law_full_page(rows, kit, calibrated, n - 1);
        assert(row_shown(rows[n - 1].row, kit, calibrated));
        if n > 1 {
            assert(row_shown(rows[n - 2].row, kit, calibrated));
        }
        assert(rows.take(n) =~= rows.take(n - 1).push(rows[n - 1]));
    } else {
        assert(rows.take(0) =~= Seq::empty());
    }
}

fn has_kit(kit: &Vec<KitRow>, row: KitRow) -> (r: bool)
    ensures
        r == kit@.contains(row),
{
    let mut i: usize = 0;
    while i < kit.len()
        invariant
            i <= kit.len(),
            forall|k: int| 0 <= k < i ==> kit@[k] != row,
        decreases kit.len() - i,
    {
        if kit[i] == row {
            assert(kit@.contains(kit@[i as int]));
            return true;
        }
        i = i + 1;
    }
    false
}

fn shows(row: PageRow, kit: &Vec<KitRow>, calibrated: bool) -> (r: bool)
    ensures
        r == row_shown(row, kit@, calibrated),
{
    match row {
        PageRow::Kit(id) => has_kit(kit, id),
        PageRow::ResetHdr => calibrated,
        _ => true,
    }
}

/// The rows that show, each group's header on the first of them.
pub fn gate_rows(rows: &Vec<PageLine>, kit: &Vec<KitRow>, calibrated: bool) -> (r: Vec<PageLine>)
    ensures
        views(r@) == shown_rows(views(rows@), kit@, calibrated, rows.len() as int),
{
    let ghost all = views(rows@);
    let mut out: Vec<PageLine> = Vec::new();
    let mut pending: Option<&'static str> = None;
    assert(views(out@) =~= Seq::empty());
    let mut i: usize = 0;
    while i < rows.len()
        invariant
            i <= rows.len(),
            all == views(rows@),
            views(out@) == shown_rows(all, kit@, calibrated, i as int),
            literal_of(pending) == pending_header(all, kit@, calibrated, i as int),
        decreases rows.len() - i,
    {
        assert(all[i as int] == rows@[i as int]@);
        if rows[i].header.is_some() {
            pending = rows[i].header;
        }
        if shows(rows[i].row, kit, calibrated) {
            push_line(&mut out, rows[i].row, pending);
            pending = None;
        }
        i = i + 1;
    }
    out
}

/// Whether an overlay pins the field behind a shared row.
pub open spec fn pins(o: SettingsOverlay, row: KitRow) -> bool {
    match row {
        KitRow::Resolution => o.width is Some || o.height is Some || o.match_window is Some,
        KitRow::Refresh => o.refresh_hz is Some,
        KitRow::Bitrate => o.bitrate_kbps is Some,
        KitRow::Codec => o.codec is Some,
        KitRow::Hdr => o.hdr_enabled is Some,
        KitRow::Audio => o.audio_channels is Some,
        KitRow::Mouse => o.mouse_mode is Some,
        KitRow::InvertScroll => o.invert_scroll is Some,
        KitRow::PadType => o.gamepad is Some,
        KitRow::Stats => o.stats_verbosity is Some,
        _ => false,
    }
}

pub fn overridden(o: &SettingsOverlay, row: KitRow) -> (r: bool)
    ensures
        r == pins(*o, row),
{
    match row {
        KitRow::Resolution => o.width.is_some() || o.height.is_some() || o.match_window.is_some(),
        KitRow::Refresh => o.refresh_hz.is_some(),
        KitRow::Bitrate => o.bitrate_kbps.is_some(),
        KitRow::Codec => o.codec.is_some(),
        KitRow::Hdr => o.hdr_enabled.is_some(),
        KitRow::Audio => o.audio_channels.is_some(),
        KitRow::Mouse => o.mouse_mode.is_some(),
        KitRow::InvertScroll => o.invert_scroll.is_some(),
        KitRow::PadType => o.gamepad.is_some(),
        KitRow::Stats => o.stats_verbosity.is_some(),
        _ => false,
    }
}

/// The overlay without what it pins behind a shared row.
pub open spec fn unpinned(o: SettingsOverlay, row: KitRow) -> SettingsOverlay {
    match row {
        KitRow::Resolution => SettingsOverlay { width: None, height: None, match_window: None, ..o },
        KitRow::Refresh => SettingsOverlay { refresh_hz: None, ..o },
        KitRow::Bitrate => SettingsOverlay { bitrate_kbps: None, ..o },
        KitRow::Codec => SettingsOverlay { codec: None, ..o },
        KitRow::Hdr => SettingsOverlay { hdr_enabled: None, ..o },
        KitRow::Audio => SettingsOverlay { audio_channels: None, ..o },
        KitRow::Mouse => SettingsOverlay { mouse_mode: None, ..o },
        KitRow::InvertScroll => SettingsOverlay { invert_scroll: None, ..o },
        KitRow::PadType => SettingsOverlay { gamepad: None, ..o },
        KitRow::Stats => SettingsOverlay { stats_verbosity: None, ..o },
        _ => o,
    }
}

/// Clearing a row unpins that row and no other.
pub proof fn law_clear_unpins_only_its_row(o: SettingsOverlay, row: KitRow, other: KitRow)
    ensures
        !pins(unpinned(o, row), row),
        other != row ==> pins(unpinned(o, row), other) == pins(o, other),
        !pins(o, row) ==> unpinned(o, row) == o,
{
}

impl SettingsOverlay {
    /// Clears what the overlay pins behind a shared row. Reports whether it pinned anything. Which
    /// fields stand behind a row is a choice made here: those that the row's value is read from.
    pub fn clear(&mut self, row: KitRow) -> (r: bool)
        ensures
            *final(self) == unpinned(*old(self), row),
            r == pins(*old(self), row),
    {
        let was: bool = overridden(self, row);
        match row {
            KitRow::Resolution => {
                self.width = None;
                self.height = None;
                self.match_window = None;
            },
            KitRow::Refresh => {
                self.refresh_hz = None;
            },
            KitRow::Bitrate => {
                self.bitrate_kbps = None;
            },
            KitRow::Codec => {
                self.codec = None;
            },
            KitRow::Hdr => {
                self.hdr_enabled = None;
            },
            KitRow::Audio => {
                self.audio_channels = None;
            },
            KitRow::Mouse => {
                self.mouse_mode = None;
            },
            KitRow::InvertScroll => {
                self.invert_scroll = None;
            },
            KitRow::PadType => {
                self.gamepad = None;
            },
            KitRow::Stats => {
                self.stats_verbosity = None;
            },
            _ => {},
        }
        was
    }
}

/// What one event means on the page, by where focus is.
#[derive(Clone, Copy, PartialEq, Eq, Structural, Debug)]
pub enum NavStep {
    /// The previous page (-1) or the next one (+1).
    Page(i32),
    EnterRows,
    ToColumn,
    Leave,
    Row(RowStep),
    Ignore,
}

#[derive(Clone, Copy, PartialEq, Eq, Structural, Debug)]
pub enum RowStep {
    Step(i32),
    Activate,
    Clear,
}

pub open spec fn nav_step(column: bool, ev: MenuEvent) -> NavStep {
    if column {
        match ev {
            MenuEvent::Up => NavStep::Page(-1i32),
            MenuEvent::Down => NavStep::Page(1),
            MenuEvent::Right => NavStep::EnterRows,
            MenuEvent::Confirm => NavStep::EnterRows,
            MenuEvent::Back => NavStep::Leave,
            MenuEvent::Left => NavStep::Ignore,
            MenuEvent::Secondary => NavStep::Ignore,
        }
    } else {
        match ev {
            MenuEvent::Left => NavStep::Row(RowStep::Step(-1i32)),
            MenuEvent::Right => NavStep::Row(RowStep::Step(1)),
            MenuEvent::Confirm => NavStep::Row(RowStep::Activate),
            MenuEvent::Secondary => NavStep::Row(RowStep::Clear),
            MenuEvent::Back => NavStep::ToColumn,
            MenuEvent::Up => NavStep::Row(RowStep::Step(0)),
            MenuEvent::Down => NavStep::Row(RowStep::Step(0)),
        }
    }
}

/// The column is the way in and out of the rows: on the rows Left and Right step the value, and
/// Back climbs to the column.
pub fn settings_nav(column: bool, ev: MenuEvent) -> (r: NavStep)
    ensures
        r == nav_step(column, ev),
{
    if column {
        match ev {
            MenuEvent::Up => NavStep::Page(-1),
            MenuEvent::Down => NavStep::Page(1),
            MenuEvent::Right => NavStep::EnterRows,
            MenuEvent::Confirm => NavStep::EnterRows,
            MenuEvent::Back => NavStep::Leave,
            MenuEvent::Left => NavStep::Ignore,
            MenuEvent::Secondary => NavStep::Ignore,
        }
    } else {
        match ev {
            MenuEvent::Left => NavStep::Row(RowStep::Step(-1)),
            MenuEvent::Right => NavStep::Row(RowStep::Step(1)),
            MenuEvent::Confirm => NavStep::Row(RowStep::Activate),
            MenuEvent::Secondary => NavStep::Row(RowStep::Clear),
            MenuEvent::Back => NavStep::ToColumn,
            MenuEvent::Up => NavStep::Row(RowStep::Step(0)),
            MenuEvent::Down => NavStep::Row(RowStep::Step(0)),
        }
    }
}

/// Back climbs one level at a time, and only the column leaves.
pub proof fn law_only_the_column_leaves(column: bool, ev: MenuEvent)
    ensures
        nav_step(column, ev) == NavStep::Leave <==> column && ev == MenuEvent::Back,
        nav_step(column, ev) == NavStep::ToColumn <==> !column && ev == MenuEvent::Back,
{
}

/// A shared row's change as the outer loop worked it out.
#[derive(Clone, Copy, PartialEq, Eq, Structural, Debug)]
pub enum Adjusted {
    /// The global document, within what this TV can do.
    Document(Settings),
    /// The overlay of the profile in scope.
    Overlay(SettingsOverlay),
}

impl AppV {
    pub open spec fn in_profile_scope(self) -> bool {
        self.screens.settings_page.scope is Profile
    }

    /// The open page's rows, given the shared rows that apply here.
    pub open spec fn settings_page_rows(self, kit: Seq<KitRow>) -> Seq<PageLineV> {
        let rows = listed_rows(self.screens.settings_page.page, self.in_profile_scope());
        shown_rows(rows, kit, self.settings.hdr_calibrated, rows.len() as int)
    }

    pub open spec fn with_settings(self, settings: Settings) -> AppV {
        AppV { settings, ..self }
    }

    pub open spec fn with_column(self, column: bool) -> AppV {
        AppV {
            screens: ScreensV {
                settings_page: SettingsPageV { column, ..self.screens.settings_page },
                ..self.screens
            },
            ..self
        }
    }

    /// A page shown. Going to another one starts on its first row; the Display page owes the root
    /// probe.
    pub open spec fn show_page(self, page: Page, now: u64) -> AppV {
        let turned = if self.screens.settings_page.page != page {
            let there = AppV {
                screens: ScreensV {
                    settings_page: SettingsPageV { page, ..self.screens.settings_page },
                    ..self.screens
                },
                ..self
            };
            AppV { nav: there.nav.set_cursor(Screen::SettingsPage, 0), ..there }.refocus(now)
        } else {
            self
        };
        if page == Page::Display {
            turned.owe_root_probe()
        } else {
            turned
        }
    }

    /// The page before or after the open one, the column ending at both ends.
    pub open spec fn turned_page(self, delta: i32) -> Page {
        let i = page_no(self.screens.settings_page.page);
        if delta < 0 {
            if i > 0 {
                pages()[i - 1]
            } else {
                pages()[0]
            }
        } else if i + 1 < pages().len() {
            pages()[i + 1]
        } else {
            pages()[pages().len() - 1]
        }
    }

    pub open spec fn scope_index(self) -> nat {
        match self.scope_pos() {
            Some(i) => (i + 1) as nat,
            None => 0,
        }
    }

    /// The scope stepped: the default settings, each profile, a new one, and around.
    pub open spec fn step_scope(self, forward: bool, fresh: Seq<char>) -> AppV {
        let n = self.profiles.len() + 2;
        let next = cycled(self.scope_index() as int, n as int, forward);
        if next == 0 {
            self.with_scope(ScopeV::Global)
        } else if next == n - 1 {
            self.new_profile(fresh)
        } else {
            self.with_scope(ScopeV::Profile(self.profiles[next - 1].id))
        }
    }

    /// The level next to the one in force put in force, and saved.
    pub open spec fn step_log_level(self, forward: bool) -> AppV {
        let level = log_levels()[cycled(log_level_index(self.log_level) as int, LOG_LEVELS as int, forward)];
        AppV {
            log_level: level,
            ..self.with_settings(Settings { log_level: level, ..self.settings })
        }.effect(EffectV::LogLevel(level)).persist()
    }

    /// A row stepped by `delta`. The rows that hold no value do nothing with it.
    pub open spec fn step_row(self, row: PageRow, delta: i32, wrap: bool, fresh: Seq<char>) -> AppV {
        if delta == 0 {
            self
        } else {
            match row {
                PageRow::Editing => self.step_scope(delta > 0, fresh),
                PageRow::LogLevel => self.step_log_level(delta > 0),
                PageRow::Kit(id) => self.effect(EffectV::AdjustRow(id, delta, wrap)),
                _ => self,
            }
        }
    }

    /// Game mode flipped, on a TV that is known to be rooted.
    pub open spec fn toggle_game_mode(self) -> AppV {
        if self.hosts.rooted == Some(true) {
            self.with_settings(Settings { game_mode: !self.settings.game_mode, ..self.settings }).persist()
        } else {
            self
        }
    }

    pub open spec fn toggle_show_logs(self) -> AppV {
        let on = !self.settings.show_logs;
        self.with_settings(Settings { show_logs: on, ..self.settings }).effect(EffectV::LogOverlay(on)).persist()
    }

    /// A row confirmed.
    pub open spec fn activate_row(self, row: PageRow, hdr: bool, fresh: Seq<char>) -> AppV {
        match row {
            PageRow::Kit(_) => self.step_row(row, 1, true, fresh),
            PageRow::Editing => self.step_row(row, 1, true, fresh),
            PageRow::LogLevel => self.step_row(row, 1, true, fresh),
            PageRow::GameMode => self.toggle_game_mode(),
            PageRow::CalibrateHdr => if self.settings.hdr_enabled && hdr {
                self.open_hdr_calibration()
            } else {
                self
            },
            PageRow::ShowLogs => self.toggle_show_logs(),
            PageRow::SendLogs => self.effect(EffectV::OfferLogs),
            PageRow::ResetHdr => self.enter(Screen::ResetHdrCalibration, 1),
            PageRow::Licences => self.open_about(),
            PageRow::Rename => self.open_rename_profile(),
            PageRow::Duplicate => self.duplicate_profile(fresh),
            PageRow::Delete => self.open_delete_profile(),
            PageRow::Pad => self,
            PageRow::Version => self,
        }
    }

    /// An overridden row put back to the global value, in a profile's scope.
    pub open spec fn clear_override(self, row: PageRow) -> AppV {
        match (row, self.scope_pos()) {
            (PageRow::Kit(id), Some(i)) => if pins(self.profiles[i].overrides, id) {
                AppV {
                    profiles: self.profiles.update(
                        i,
                        ProfileV { overrides: unpinned(self.profiles[i].overrides, id), ..self.profiles[i] },
                    ),
                    ..self
                }.persist()
            } else {
                self
            },
            _ => self,
        }
    }

    /// A shared row's change written to the document in scope.
    pub open spec fn row_adjusted(self, change: Adjusted) -> AppV {
        match change {
            Adjusted::Document(settings) => if self.in_profile_scope() {
                self
            } else {
                self.with_settings(settings).persist()
            },
            Adjusted::Overlay(overrides) => match self.scope_pos() {
                Some(i) => AppV {
                    profiles: self.profiles.update(i, ProfileV { overrides, ..self.profiles[i] }),
                    ..self
                }.persist(),
                None => self,
            },
        }
    }

    /// A bitrate written to the document in scope, which is saved where that changed it. A profile
    /// pins it.
    #[verifier::opaque]
    pub open spec fn set_bitrate(self, kbps: u32) -> AppV {
        if self.in_profile_scope() {
            match self.scope_pos() {
                Some(i) => if self.profiles[i].overrides.bitrate_kbps == Some(kbps) {
                    self
                } else {
                    self.row_adjusted(
                        Adjusted::Overlay(
                            SettingsOverlay { bitrate_kbps: Some(kbps), ..self.profiles[i].overrides },
                        ),
                    )
                },
                None => self,
            }
        } else if self.settings.bitrate_kbps == kbps {
            self
        } else {
            self.row_adjusted(Adjusted::Document(Settings { bitrate_kbps: kbps, ..self.settings }))
        }
    }

    /// The bitrate that the document in scope sets, `None` where it sets none or is gone.
    pub open spec fn scoped_bitrate(self) -> Option<u32> {
        if self.in_profile_scope() {
            match self.scope_pos() {
                Some(i) => self.profiles[i].overrides.bitrate_kbps,
                None => None,
            }
        } else {
            Some(self.settings.bitrate_kbps)
        }
    }

    /// Whether the cursor is on the bitrate's row. No set fixes that row.
    pub open spec fn on_bitrate_row(self, kit: Seq<KitRow>) -> bool {
        let rows = self.settings_page_rows(kit);
        let at = self.nav.cursor(Screen::SettingsPage);
        at < rows.len() && rows[at as int].row == PageRow::Kit(KitRow::Bitrate)
    }

    pub open spec fn row_event(self, step: RowStep, row: PageRow, hdr: bool, fresh: Seq<char>) -> AppV {
        match step {
            RowStep::Step(delta) => self.step_row(row, delta, false, fresh),
            RowStep::Activate => self.activate_row(row, hdr, fresh),
            RowStep::Clear => self.clear_override(row),
        }
    }

    /// One event on the rows.
    pub open spec fn rows_event(
        self,
        ev: MenuEvent,
        step: RowStep,
        kit: Seq<KitRow>,
        hdr: bool,
        fresh: Seq<char>,
        now: u64,
    ) -> AppV {
        let rows = self.settings_page_rows(kit);
        match self.list_nav(rows.len(), ev, now) {
            Some(moved) => moved,
            None => {
                let at = self.nav.cursor(Screen::SettingsPage);
                if rows.len() == 0 {
                    self
                } else {
                    self.row_event(
                        step,
                        rows[if at < rows.len() {
                            at as int
                        } else {
                            rows.len() - 1
                        }].row,
                        hdr,
                        fresh,
                    )
                }
            },
        }
    }

    /// One event on the page. `kit` are the shared rows that apply here, `hdr` says whether this
    /// set shows HDR, and `fresh` is the id that a profile made here gets.
    #[verifier::opaque]
    pub open spec fn handle_settings_page_event(
        self,
        ev: MenuEvent,
        kit: Seq<KitRow>,
        hdr: bool,
        fresh: Seq<char>,
        now: u64,
    ) -> AppV {
        match nav_step(self.screens.settings_page.column, ev) {
            NavStep::Page(delta) => self.show_page(self.turned_page(delta), now),
            NavStep::EnterRows => self.with_column(false),
            NavStep::ToColumn => self.with_column(true),
            NavStep::Leave => self.show(Screen::Home),
            NavStep::Row(step) => self.rows_event(ev, step, kit, hdr, fresh, now),
            NavStep::Ignore => self,
        }
    }

    /// The root probe's verdict. A game mode that was left on goes with it: the row is locked, so
    /// that nothing could switch it off again.
    pub open spec fn settle_rooted(self, rooted: bool) -> AppV {
        let known = AppV { hosts: HostsV { rooted: Some(rooted), ..self.hosts }, ..self };
        if !rooted && self.settings.game_mode {
            known.with_settings(Settings { game_mode: false, ..self.settings }).persist()
        } else {
            known
        }
    }

    /// The root probe owed by the Display page, started once that page has finished opening.
    pub open spec fn tick_root_probe(self, animating: bool) -> AppV {
        if self.jobs.has(Job::RootProbeOwed) && self.nav.screen == Screen::SettingsPage
            && self.screens.settings_page.page == Page::Display && !animating {
            let paid = AppV { jobs: self.jobs.stop(Job::RootProbeOwed), ..self };
            if self.hosts.rooted is None && !self.jobs.has(Job::Rooted) {
                AppV { jobs: paid.jobs.start(Job::Rooted), ..paid }.effect(EffectV::ProbeRoot)
            } else {
                paid
            }
        } else {
            self
        }
    }

    pub open spec fn drain_rooted(self, rooted: bool) -> AppV {
        if self.jobs.has(Job::Rooted) {
            AppV { jobs: self.jobs.stop(Job::Rooted), ..self }.settle_rooted(rooted)
        } else {
            self
        }
    }
}

/// Game mode is never left on where it cannot be switched off: once the verdict is "not rooted" it
/// is off, and no press turns it on.
pub proof fn law_game_mode_needs_root(app: AppV)
    ensures
        !app.settle_rooted(false).settings.game_mode,
        app.hosts.rooted != Some(true) ==> app.toggle_game_mode() == app,
{
}

/// Stepping the scope one way and back ends where it began, as long as no profile was made.
pub proof fn law_scope_step_undone(app: AppV, forward: bool, fresh: Seq<char>)
    requires
        app.profiles.len() >= 1,
        forall|i: int, j: int|
            0 <= i < app.profiles.len() && 0 <= j < app.profiles.len() && (#[trigger] app.profiles[i]).id == (
            #[trigger] app.profiles[j]).id ==> i == j,
        app.in_profile_scope() ==> app.scope_pos() is Some,
        cycled(app.scope_index() as int, (app.profiles.len() + 2) as int, forward) != app.profiles.len() + 1,
    ensures
        app.step_scope(forward, fresh).step_scope(!forward, fresh).screens.settings_page.scope
            == app.screens.settings_page.scope,
{
    let n = app.profiles.len() + 2;
    let cur = app.scope_index() as int;
    match app.screens.settings_page.scope {
        ScopeV::Profile(id) => {
            crate::seqs::lemma_first_from(app.profiles, crate::hosts::profile_is(id), 0);
        },
        ScopeV::Global => {},
    }
    crate::menu::law_cycle_undone(cur, n as int, forward);
    let next = cycled(cur, n as int, forward);
    let stepped = app.step_scope(forward, fresh);
    if next > 0 {
        let id = app.profiles[next - 1].id;
        assert forall|j: int| 0 <= j < next - 1 implies !crate::hosts::profile_is(id)(#[trigger] app.profiles[j]) by {
            assert(app.profiles[j].id != app.profiles[next - 1].id);
        }
        assert(crate::hosts::profile_is(id)(app.profiles[next - 1]));
        crate::seqs::lemma_first_is(app.profiles, crate::hosts::profile_is(id), next - 1);
        assert(stepped.scope_index() == next);
    }
    assert(stepped.scope_index() == next);
}

/// A step goes on from the level in force, whatever level is saved; after it that level is saved.
pub proof fn law_log_level_steps_from_the_one_in_force(app: AppV, saved: LogLevelOverride, forward: bool)
    ensures
        ({
            let after = app.step_log_level(forward);
            let other = app.with_settings(Settings { log_level: saved, ..app.settings }).step_log_level(forward);
            &&& other.log_level == after.log_level
            &&& after.log_level != app.log_level
            &&& after.settings.log_level == after.log_level
            &&& after.step_log_level(!forward).log_level == app.log_level
        }),
{
}

/// The bitrate that is written is the one that the document in scope sets, which stays in scope;
/// the cursor, the screens and the hosts are left alone.
pub proof fn law_bitrate_is_written(app: AppV, kbps: u32)
    requires
        app.in_profile_scope() ==> app.scope_pos() is Some,
    ensures
        app.set_bitrate(kbps).scoped_bitrate() == Some(kbps),
        app.set_bitrate(kbps).in_profile_scope() == app.in_profile_scope(),
        app.set_bitrate(kbps).scope_pos() == app.scope_pos(),
        app.set_bitrate(kbps).nav == app.nav,
        app.set_bitrate(kbps).screens == app.screens,
        app.set_bitrate(kbps).hosts == app.hosts,
        app.set_bitrate(kbps).flags == app.flags,
{
    reveal(AppV::set_bitrate);
    match app.screens.settings_page.scope {
        ScopeV::Profile(id) => {
            let i = app.scope_pos()->0;
            let after = app.set_bitrate(kbps);
            lemma_first_from(app.profiles, profile_is(id), 0);
            assert forall|j: int| 0 <= j < i implies !profile_is(id)(#[trigger] after.profiles[j]) by {
                assert(after.profiles[j] == app.profiles[j]);
            }
            lemma_first_is(after.profiles, profile_is(id), i);
        },
        ScopeV::Global => {},
    }
}

impl App {
    fn in_profile_scope(&self) -> (r: bool)
        ensures
            r == self@.in_profile_scope(),
    {
        match &self.screens.settings_page.scope {
            Scope::Profile(_) => true,
            Scope::Global => false,
        }
    }

    /// The open page's rows, given the shared rows that apply here.
    pub fn settings_page_rows(&self, kit: &Vec<KitRow>) -> (r: Vec<PageLine>)
        ensures
            views(r@) == self@.settings_page_rows(kit@),
    {
        let rows = page_rows(self.screens.settings_page.page, self.in_profile_scope());
        assert(views(rows@).len() == rows@.len());
        gate_rows(&rows, kit, self.settings.hdr_calibrated)
    }

    /// Shows a page.
    pub fn show_page(&mut self, page: Page, now: u64)
        ensures
            final(self)@ == old(self)@.show_page(page, now),
            final(self).wf() == old(self).wf(),
    {
        if self.screens.settings_page.page != page {
            self.screens.settings_page.page = page;
            self.nav.set_cursor(Screen::SettingsPage, 0);
            self.modal_focus_anim = Some(now);
        }
        if page == Page::Display {
            self.owe_root_probe();
        }
    }

    fn turn_page(&mut self, delta: i32, now: u64)
        ensures
            final(self)@ == old(self)@.show_page(old(self)@.turned_page(delta), now),
            final(self).wf() == old(self).wf(),
    {
        let i: usize = self.screens.settings_page.page.index();
        let next: usize = if delta < 0 {
            if i > 0 {
                i - 1
            } else {
                0
            }
        } else if i + 1 < PAGES {
            i + 1
        } else {
            PAGES - 1
        };
        self.show_page(page_at(next), now);
    }

    fn step_scope(&mut self, forward: bool, fresh: String)
        requires
            old(self).profiles.len() <= usize::MAX - 2,
        ensures
            final(self)@ == old(self)@.step_scope(forward, fresh@),
            final(self).wf() == old(self).wf(),
    {
        let n: usize = self.profiles.len() + 2;
        let cur: usize = match self.scope_profile() {
            Some(i) => i + 1,
            None => 0,
        };
        let next: usize = cycle_index(cur, n, forward);
        if next == 0 {
            self.screens.settings_page.scope = Scope::Global;
        } else if next == n - 1 {
            self.new_profile(fresh);
        } else {
            assert(self@.profiles[next - 1] == self.profiles@[next - 1]@);
            let id = self.profiles[next - 1].id.clone();
            self.screens.settings_page.scope = Scope::Profile(id);
        }
    }

    fn step_log_level(&mut self, forward: bool)
        ensures
            final(self)@ == old(self)@.step_log_level(forward),
            final(self).wf() == old(self).wf(),
    {
        let cur: usize = log_level_dropdown_current_index(self.log_level);
        let level: LogLevelOverride = log_level_at(cycle_index(cur, LOG_LEVELS, forward));
        self.settings.log_level = level;
        self.log_level = level;
        self.ask(Effect::LogLevel(level));
        self.persist();
    }

    fn step_row(&mut self, row: PageRow, delta: i32, wrap: bool, fresh: String)
        requires
            old(self).profiles.len() <= usize::MAX - 2,
        ensures
            final(self)@ == old(self)@.step_row(row, delta, wrap, fresh@),
            final(self).wf() == old(self).wf(),
    {
        if delta == 0 {
            return;
        }
        match row {
            PageRow::Editing => {
                self.step_scope(delta > 0, fresh);
            },
            PageRow::LogLevel => {
                self.step_log_level(delta > 0);
            },
            PageRow::Kit(id) => {
                self.ask(Effect::AdjustRow(id, delta, wrap));
            },
            _ => {},
        }
    }

    fn toggle_game_mode_row(&mut self)
        ensures
            final(self)@ == old(self)@.toggle_game_mode(),
            final(self).wf() == old(self).wf(),
    {
        match self.hosts.rooted {
            Some(true) => {
                let on: bool = !self.settings.game_mode;
                self.settings.game_mode = on;
                self.persist();
            },
            _ => {},
        }
    }

    fn toggle_show_logs(&mut self)
        ensures
            final(self)@ == old(self)@.toggle_show_logs(),
            final(self).wf() == old(self).wf(),
    {
        let on: bool = !self.settings.show_logs;
        self.settings.show_logs = on;
        self.ask(Effect::LogOverlay(on));
        self.persist();
    }

    fn activate_row(&mut self, row: PageRow, hdr: bool, fresh: String)
        requires
            old(self).profiles.len() <= usize::MAX - 2,
        ensures
            final(self)@ == old(self)@.activate_row(row, hdr, fresh@),
            final(self).wf() == old(self).wf(),
    {
        match row {
            PageRow::Kit(_) => {
                self.step_row(row, 1, true, fresh);
            },
            PageRow::Editing => {
                self.step_row(row, 1, true, fresh);
            },
            PageRow::LogLevel => {
                self.step_row(row, 1, true, fresh);
            },
            PageRow::GameMode => {
                self.toggle_game_mode_row();
            },
            PageRow::CalibrateHdr => {
                if self.settings.hdr_enabled && hdr {
                    self.open_hdr_calibration();
                }
            },
            PageRow::ShowLogs => {
                self.toggle_show_logs();
            },
            PageRow::SendLogs => {
                self.ask(Effect::OfferLogs);
            },
            PageRow::ResetHdr => {
                self.open_reset_hdr_calibration();
            },
            PageRow::Licences => {
                self.open_about();
            },
            PageRow::Rename => {
                self.open_rename_profile();
            },
            PageRow::Duplicate => {
                self.duplicate_profile(fresh);
            },
            PageRow::Delete => {
                self.open_delete_profile();
            },
            PageRow::Pad => {},
            PageRow::Version => {},
        }
    }

    fn clear_override(&mut self, row: PageRow)
        ensures
            final(self)@ == old(self)@.clear_override(row),
            final(self).wf() == old(self).wf(),
    {
        match (row, self.scope_profile()) {
            (PageRow::Kit(id), Some(i)) => {
                let ghost before = self.profiles@;
                if overridden(&self.profiles[i].overrides, id) {
                    self.profiles[i].overrides.clear(id);
                    assert(profile_views(self.profiles@) =~= profile_views(before).update(
                        i as int,
                        ProfileV { overrides: unpinned(before[i as int].overrides, id), ..before[i as int]@ },
                    ));
                    self.persist();
                }
            },
            _ => {},
        }
    }

    /// Writes a shared row's change to the document in scope.
    pub fn row_adjusted(&mut self, change: Adjusted)
        ensures
            final(self)@ == old(self)@.row_adjusted(change),
            final(self).wf() == old(self).wf(),
    {
        match change {
            Adjusted::Document(settings) => {
                if !self.in_profile_scope() {
                    self.settings = settings;
                    self.persist();
                }
            },
            Adjusted::Overlay(overrides) => match self.scope_profile() {
                Some(i) => {
                    let ghost before = self.profiles@;
                    self.profiles[i].overrides = overrides;
                    assert(profile_views(self.profiles@) =~= profile_views(before).update(
                        i as int,
                        ProfileV { overrides, ..before[i as int]@ },
                    ));
                    self.persist();
                },
                None => {},
            },
        }
    }

    /// Writes a bitrate to the document in scope, and saves it where that changed it.
    pub fn set_bitrate(&mut self, kbps: u32)
        ensures
            final(self)@ == old(self)@.set_bitrate(kbps),
            final(self).wf() == old(self).wf(),
    {
        proof {
            reveal(AppV::set_bitrate);
        }
        if self.in_profile_scope() {
            match self.scope_profile() {
                Some(i) => {
                    let overrides: SettingsOverlay = self.profiles[i].overrides;
                    if overrides.bitrate_kbps != Some(kbps) {
                        self.row_adjusted(
                            Adjusted::Overlay(SettingsOverlay { bitrate_kbps: Some(kbps), ..overrides }),
                        );
                    }
                },
                None => {},
            }
        } else if self.settings.bitrate_kbps != kbps {
            let settings: Settings = self.settings;
            self.row_adjusted(Adjusted::Document(Settings { bitrate_kbps: kbps, ..settings }));
        }
    }

    /// Whether the cursor is on the bitrate's row.
    pub fn on_bitrate_row(&self, kit: &Vec<KitRow>) -> (r: bool)
        ensures
            r == self@.on_bitrate_row(kit@),
    {
        let rows = self.settings_page_rows(kit);
        let at: usize = self.nav.cursor(Screen::SettingsPage);
        assert(views(rows@).len() == rows.len());
        if at >= rows.len() {
            return false;
        }
        assert(views(rows@)[at as int] == rows@[at as int]@);
        match rows[at].row {
            PageRow::Kit(KitRow::Bitrate) => true,
            _ => false,
        }
    }

    fn row_event(&mut self, step: RowStep, row: PageRow, hdr: bool, fresh: String)
        requires
            old(self).profiles.len() <= usize::MAX - 2,
        ensures
            final(self)@ == old(self)@.row_event(step, row, hdr, fresh@),
            final(self).wf() == old(self).wf(),
    {
        match step {
            RowStep::Step(delta) => {
                self.step_row(row, delta, false, fresh);
            },
            RowStep::Activate => {
                self.activate_row(row, hdr, fresh);
            },
            RowStep::Clear => {
                self.clear_override(row);
            },
        }
    }

    fn rows_event(&mut self, ev: MenuEvent, step: RowStep, kit: &Vec<KitRow>, hdr: bool, fresh: String, now: u64)
        requires
            old(self).profiles.len() <= usize::MAX - 2,
        ensures
            final(self)@ == old(self)@.rows_event(ev, step, kit@, hdr, fresh@, now),
            final(self).wf() == old(self).wf(),
    {
        let rows = self.settings_page_rows(kit);
        let ghost all = views(rows@);
        assert(all.len() == rows@.len());
        if self.list_nav_event(rows.len(), ev, now) {
            return;
        }
        if rows.len() == 0 {
            return;
        }
        let at: usize = self.nav.cursor(Screen::SettingsPage);
        let i: usize = if at < rows.len() {
            at
        } else {
            rows.len() - 1
        };
        assert(all[i as int] == rows@[i as int]@);
        self.row_event(step, rows[i].row, hdr, fresh);
    }

    /// Handles one event on the page.
    pub fn handle_settings_page_event(
        &mut self,
        ev: MenuEvent,
        kit: &Vec<KitRow>,
        hdr: bool,
        fresh: String,
        now: u64,
    )
        requires
            old(self).profiles.len() <= usize::MAX - 2,
        ensures
            final(self)@ == old(self)@.handle_settings_page_event(ev, kit@, hdr, fresh@, now),
            final(self).wf() == old(self).wf(),
    {
        proof {
            reveal(AppV::handle_settings_page_event);
        }
        match settings_nav(self.screens.settings_page.column, ev) {
            NavStep::Page(delta) => {
                self.turn_page(delta, now);
            },
            NavStep::EnterRows => {
                self.screens.settings_page.column = false;
            },
            NavStep::ToColumn => {
                self.screens.settings_page.column = true;
            },
            NavStep::Leave => {
                self.nav.screen = Screen::Home;
            },
            NavStep::Row(step) => {
                self.rows_event(ev, step, kit, hdr, fresh, now);
            },
            NavStep::Ignore => {},
        }
    }

    fn settle_rooted(&mut self, rooted: bool)
        ensures
            final(self)@ == old(self)@.settle_rooted(rooted),
            final(self).wf() == old(self).wf(),
    {
        self.hosts.rooted = Some(rooted);
        if !rooted && self.settings.game_mode {
            self.settings.game_mode = false;
            self.persist();
        }
    }

    /// Starts the root probe that the Display page owes, once that page has finished opening.
    pub fn tick_root_probe(&mut self, animating: bool)
        ensures
            final(self)@ == old(self)@.tick_root_probe(animating),
            final(self).wf() == old(self).wf(),
    {
        if !self.jobs.has(Job::RootProbeOwed) || self.nav.screen != Screen::SettingsPage
            || self.screens.settings_page.page != Page::Display || animating {
            return;
        }
        let wanted: bool = self.hosts.rooted.is_none() && !self.jobs.has(Job::Rooted);
        self.jobs.stop(Job::RootProbeOwed);
        if wanted {
            self.jobs.start(Job::Rooted);
            self.ask(Effect::ProbeRoot);
        }
    }

    /// Takes the root probe's verdict; a probe that died is "not rooted". Reports whether one was
    /// out.
    pub fn drain_rooted(&mut self, rooted: bool) -> (r: bool)
        ensures
            final(self)@ == old(self)@.drain_rooted(rooted),
            r == old(self)@.jobs.has(Job::Rooted),
            final(self).wf() == old(self).wf(),
    {
        if !self.jobs.has(Job::Rooted) {
            return false;
        }
        self.jobs.stop(Job::Rooted);
        self.settle_rooted(rooted);
        true
    }
}

} // verus!
