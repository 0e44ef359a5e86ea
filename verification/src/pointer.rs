//! Pointer input: what the remote's cursor is over, and what a click there does. A hover previews
//! exactly what a click will hit, since both are told the same hit.
use vstd::prelude::*;
use crate::app::{App, AppV};
use crate::flags::{put, Flag};
use crate::hosts::profile_is;
use crate::model::{HomeFocus, PairingFocus, Screen};
use crate::rows::{confirms, is_confirm, is_list_modal, lists};
use crate::scroll::GridShape;
use crate::settingspage::law_bitrate_is_written;
use crate::seqs::lemma_first_from;
use crate::slots::{KitRow, RowButton, ScopeV, ScreensV};

verus! {

/// A rectangle on the screen.
#[derive(Clone, Copy, PartialEq, Eq, Structural, Debug)]
pub struct Rect {
    pub x: i32,
    pub y: i32,
    pub w: u32,
    pub h: u32,
}

impl Rect {
    pub open spec fn spec_right(self) -> int {
        self.x + self.w
    }

    pub open spec fn spec_bottom(self) -> int {
        self.y + self.h
    }

    pub open spec fn holds(self, x: int, y: int) -> bool {
        self.x <= x < self.spec_right() && self.y <= y < self.spec_bottom()
    }

    pub fn right(self) -> (r: i64)
        ensures
            r == self.spec_right(),
    {
        self.x as i64 + self.w as i64
    }

    pub fn bottom(self) -> (r: i64)
        ensures
            r == self.spec_bottom(),
    {
        self.y as i64 + self.h as i64
    }

    pub fn contains_point(self, x: i32, y: i32) -> (r: bool)
        ensures
            r == self.holds(x as int, y as int),
    {
        self.x <= x && (x as i64) < self.right() && self.y <= y && (y as i64) < self.bottom()
    }
}

/// Whether a press lands on a slider's track. The whole row's height counts: a pointer held in the
/// air is not asked for more.
pub fn on_track(x: i32, y: i32, track: Rect, row: Rect) -> (r: bool)
    ensures
        r == (track.x <= x < track.spec_right() && row.y <= y < row.spec_bottom()),
{
    x >= track.x && (x as i64) < track.right() && y >= row.y && (y as i64) < row.bottom()
}

/// The rows of a list: each `row_h` high, `stride` apart, scrolled by `scroll`.
#[derive(Clone, Copy, PartialEq, Eq, Structural, Debug)]
pub struct RowStack {
    /// The viewport the rows are drawn in.
    pub content: Rect,
    pub rows: usize,
    pub stride: u32,
    pub row_h: u32,
    pub scroll: i32,
}

impl RowStack {
    pub open spec fn top_of(self, r: int) -> int {
        self.content.y + r * self.stride - self.scroll
    }

    /// Whether a row is wholly inside the viewport, and under the pointer.
    pub open spec fn hit(self, r: int, x: int, y: int) -> bool {
        &&& self.content.holds(x, y)
        &&& self.content.y <= self.top_of(r)
        &&& self.top_of(r) + self.row_h <= self.content.spec_bottom()
        &&& self.top_of(r) <= y < self.top_of(r) + self.row_h
    }

    /// The row under the pointer: none in a gap between rows, and none where the row is cut off at
    /// an edge.
    pub fn row_at(self, x: i32, y: i32) -> (r: Option<usize>)
        ensures
            match r {
                Some(i) => i < self.rows && self.hit(i as int, x as int, y as int) && (forall|k: int|
                    0 <= k < i ==> !(#[trigger] self.hit(k, x as int, y as int))),
                None => forall|k: int| 0 <= k < self.rows ==> !(#[trigger] self.hit(k, x as int, y as int)),
            },
    {
        if !self.content.contains_point(x, y) {
            return None;
        }
        let mut i: usize = 0;
        let bottom: i128 = self.content.bottom() as i128;
        let top_edge: i128 = self.content.y as i128;
        let height: i128 = self.row_h as i128;
        while i < self.rows
            invariant
                i <= self.rows,
                self.content.holds(x as int, y as int),
                bottom == self.content.spec_bottom(),
                top_edge == self.content.y,
                height == self.row_h,
                forall|k: int| 0 <= k < i ==> !(#[trigger] self.hit(k, x as int, y as int)),
            decreases self.rows - i,
        {
            assert(0 <= i * self.stride <= 0xffff_ffff_ffff_ffff * 0xffff_ffff) by (nonlinear_arith)
                requires
                    0 <= i <= 0xffff_ffff_ffff_ffff,
                    0 <= self.stride <= 0xffff_ffff,
            ;
            let down: i128 = i as i128 * self.stride as i128;
            let top: i128 = top_edge + down - self.scroll as i128;
            if top_edge <= top && top + height <= bottom && top <= y as i128 && (y as i128) < top + height {
                assert(self.hit(i as int, x as int, y as int));
                return Some(i);
            }
            i = i + 1;
        }
        None
    }
}

/// A point is on at most one row, as long as the rows do not overlap.
pub proof fn law_one_row_per_point(s: RowStack, a: int, b: int, x: int, y: int)
    requires
        0 <= a < b,
        s.row_h <= s.stride,
    ensures
        !(s.hit(a, x, y) && s.hit(b, x, y)),
{
    assert((b - a) * s.stride >= s.stride) by (nonlinear_arith)
        requires
            b - a >= 1,
            s.stride >= 0,
    ;
    assert(b * s.stride - a * s.stride == (b - a) * s.stride) by (nonlinear_arith);
}

/// What is under the pointer.
#[derive(Clone, Copy, PartialEq, Eq, Structural, Debug)]
pub enum Hit {
    Nothing,
    /// A row of a held card's submenu.
    CardMenuRow(usize),
    /// The button of a sidebar row.
    MenuButton(usize),
    SidebarRow(usize),
    /// A grid slot, whether a card fills it or not.
    Slot(usize),
    /// A row of the open list, and which of its buttons.
    Row(usize, Option<RowButton>),
    /// A button of the open dialog.
    Answer(usize),
    /// The pairing card's button.
    RequestAccess,
}

/// Where the pointer is.
#[derive(Clone, Copy, PartialEq, Eq, Structural, Debug)]
pub struct Pointer {
    pub hit: Hit,
    /// On the open card's close mark; `None` where no card is up.
    pub close: Option<bool>,
    /// On the open slider's track.
    pub on_track: bool,
    /// The luminance that the pointer is at along the slider.
    pub luminance: u16,
    /// The bitrate that the pointer is at along the slider, in kbps.
    pub bitrate: u32,
}

/// What a hover moved. A row whose button the pointer steps onto keeps its focus, and a row that
/// keeps its focus must not play its focus motion again.
#[derive(Clone, Copy, PartialEq, Eq, Structural, Debug)]
pub struct HoverChange {
    /// Something visible changed.
    pub any: bool,
    /// The row under the pointer changed.
    pub row: bool,
}

pub open spec fn no_change() -> HoverChange {
    HoverChange { any: false, row: false }
}

impl HoverChange {
    /// A hover that either moved the row or moved nothing.
    pub fn row(changed: bool) -> (r: HoverChange)
        ensures
            r == (HoverChange { any: changed, row: changed }),
    {
        HoverChange { any: changed, row: changed }
    }

    /// A hover on a list, where the row and the button it carries move independently.
    pub fn split(row: bool, button: bool) -> (r: HoverChange)
        ensures
            r == (HoverChange { any: row || button, row }),
    {
        HoverChange { any: row || button, row }
    }

    fn nothing() -> (r: HoverChange)
        ensures
            r == no_change(),
    {
        HoverChange { any: false, row: false }
    }
}

/// What a click comes to.
#[derive(Clone, Copy, PartialEq, Eq, Structural, Debug)]
pub enum Click {
    /// It is spent.
    Spent,
    /// It was on the close mark: Back.
    Back,
    /// It confirms what has focus now.
    Press,
}

/// The screens whose rows the pointer moves over.
pub open spec fn row_screen(screen: Screen) -> bool {
    lists(screen) || screen == Screen::Collections || screen == Screen::SettingsPage
}

fn is_row_screen(screen: Screen) -> (r: bool)
    ensures
        r == row_screen(screen),
{
    is_list_modal(screen) || screen == Screen::Collections || screen == Screen::SettingsPage
}

impl AppV {
    /// Where Home's focus goes for a hit.
    pub open spec fn hit_focus(self, hit: Hit, s: GridShape) -> Option<HomeFocus> {
        match hit {
            Hit::MenuButton(i) => Some(HomeFocus::SidebarMenu(i)),
            Hit::SidebarRow(i) => Some(HomeFocus::Sidebar(i)),
            Hit::Slot(i) => if self.grid_card_at(i, s) is Some {
                Some(HomeFocus::Grid(i))
            } else {
                None
            },
            _ => None,
        }
    }

    /// A hover on Home.
    #[verifier::opaque]
    pub open spec fn hover_home(self, hit: Hit, s: GridShape, now: u64) -> (AppV, HoverChange) {
        match self.card_menu {
            Some(m) => match hit {
                Hit::CardMenuRow(row) => (
                    self.with_card_menu(Some(m.focus(row, now))),
                    HoverChange { any: m.focused != row, row: m.focused != row },
                ),
                _ => (self, no_change()),
            },
            None => match self.hit_focus(hit, s) {
                Some(focus) => (
                    self.set_home_focus(focus, now),
                    HoverChange { any: self.home_focus != focus, row: self.home_focus != focus },
                ),
                None => (self, no_change()),
            },
        }
    }

    /// A hover on a list. A held row follows the keys, not the pointer.
    #[verifier::opaque]
    pub open spec fn hover_row(self, hit: Hit) -> (AppV, HoverChange) {
        match hit {
            Hit::Row(row, button) => if !lists(self.nav.screen) && self.screens.collections.dragging is Some {
                (self, no_change())
            } else {
                (
                    self.with_row(row).with_button(button),
                    HoverChange {
                        any: self.row() != row || self.screens.row_button != button,
                        row: self.row() != row,
                    },
                )
            },
            _ => (self, no_change()),
        }
    }

    /// A hover on a dialog: the pointer picks which button has focus. A dialog with nothing to
    /// press takes no hover.
    #[verifier::opaque]
    pub open spec fn hover_answer(self, hit: Hit) -> (AppV, HoverChange) {
        match hit {
            Hit::Answer(i) => if self.confirm_for(self.nav.screen) is Some {
                let moved = self.confirm_focused() matches Some(at) && at != i;
                (self.with_confirm_focused(i), HoverChange { any: moved, row: moved })
            } else {
                (self, no_change())
            },
            _ => (self, no_change()),
        }
    }

    pub open spec fn with_pairing_button(self) -> AppV {
        AppV { screens: ScreensV { pairing_focus: PairingFocus::RequestAccess, ..self.screens }, ..self }
    }

    #[verifier::opaque]
    pub open spec fn hover_pairing(self, hit: Hit) -> (AppV, HoverChange) {
        if hit == Hit::RequestAccess {
            let moved = self.screens.pairing_focus != PairingFocus::RequestAccess;
            (self.with_pairing_button(), HoverChange { any: moved, row: moved })
        } else {
            (self, no_change())
        }
    }

    /// Focus moved onto whatever is under the pointer. Empty space leaves it where it is.
    pub open spec fn hover_focus_at(self, hit: Hit, s: GridShape, now: u64) -> (AppV, HoverChange) {
        let screen = self.nav.screen;
        if screen == Screen::Home {
            self.hover_home(hit, s, now)
        } else if row_screen(screen) {
            self.hover_row(hit)
        } else if confirms(screen) {
            self.hover_answer(hit)
        } else if screen == Screen::Pairing {
            self.hover_pairing(hit)
        } else {
            (self, no_change())
        }
    }

    pub open spec fn with_hover_close(self, on: bool) -> AppV {
        AppV { flags: put(self.flags, Flag::HoverClose, on), ..self }
    }

    /// The close mark's hover. Home has no such mark, so that it can only be cleared there.
    pub open spec fn hover_close_at(self, close: Option<bool>) -> AppV {
        match close {
            Some(on) => self.with_hover_close(on),
            None => self.with_hover_close(false),
        }
    }

    /// The slider under a drag moved to the pointer: the calibration's luminance, anywhere else the
    /// settings' bitrate.
    #[verifier::opaque]
    pub open spec fn drag_slider(self, p: Pointer) -> AppV {
        if self.nav.screen == Screen::HdrCalibration {
            self.set_hdr_value(p.luminance)
        } else {
            self.set_bitrate(p.bitrate)
        }
    }

    /// A press on a slider's track: the value under the pointer is taken, and a drag begins.
    pub open spec fn grab_slider(self, p: Pointer) -> AppV {
        AppV { flags: put(self.flags, Flag::SliderDrag, true), ..self }.drag_slider(p)
    }

    /// The pointer moved.
    #[verifier::opaque]
    pub open spec fn handle_mouse_motion(self, p: Pointer, s: GridShape, now: u64) -> (AppV, bool) {
        if self.flags.contains(Flag::SliderDrag) {
            (self.drag_slider(p), true)
        } else {
            let (moved, change) = self.hover_focus_at(p.hit, s, now);
            let popped = if change.row && self.nav.screen != Screen::Home {
                moved.refocus(now)
            } else {
                moved
            };
            (
                popped.hover_close_at(p.close),
                change.any || (p.close matches Some(on) && on != popped.flags.contains(Flag::HoverClose)),
            )
        }
    }

    /// A click on Home places focus; one on a sidebar row's button opens the host's menu.
    #[verifier::opaque]
    pub open spec fn click_home(self, hit: Hit, s: GridShape, now: u64) -> (AppV, Click) {
        match self.card_menu {
            Some(m) => if m.moved {
                (self.fix_card_position(now), Click::Spent)
            } else {
                match hit {
                    Hit::CardMenuRow(row) => (self.with_card_menu(Some(m.focus(row, now))), Click::Press),
                    _ => (self, Click::Press),
                }
            },
            None => match self.hit_focus(hit, s) {
                Some(focus) => match focus {
                    HomeFocus::SidebarMenu(i) => (
                        self.set_home_focus(focus, now).open_host_menu(i),
                        Click::Spent,
                    ),
                    _ => (self.set_home_focus(focus, now), Click::Press),
                },
                None => (self, Click::Spent),
            },
        }
    }

    /// A click on a list places the cursor. One that lands on no row confirms the row that has it.
    #[verifier::opaque]
    pub open spec fn click_row(self, hit: Hit) -> AppV {
        match hit {
            Hit::Row(row, button) => self.with_row(row).with_button(button),
            _ => self.with_button(None),
        }
    }

    /// A click on the collections: one of the inputs that drop a held row, and then only that.
    #[verifier::opaque]
    pub open spec fn click_shelves(self, hit: Hit, now: u64) -> (AppV, Click) {
        if self.screens.collections.dragging is Some {
            (self.commit_collection_drag(now), Click::Spent)
        } else {
            (self.click_row(hit), Click::Press)
        }
    }

    /// A click on the calibration's one row: on its button it confirms, on its track it starts a
    /// drag.
    #[verifier::opaque]
    pub open spec fn click_slider(self, p: Pointer) -> (AppV, Click) {
        match p.hit {
            Hit::Row(_, button) => {
                let placed = self.with_button(button);
                if button is Some {
                    (placed, Click::Press)
                } else if p.on_track {
                    (placed.grab_slider(p), Click::Spent)
                } else {
                    (placed, Click::Spent)
                }
            },
            _ => (self, Click::Spent),
        }
    }

    /// A click on the settings page: it places the cursor and leaves the row's button as it is. On
    /// the bitrate's track it takes the value there and starts a drag, rather than confirm.
    #[verifier::opaque]
    pub open spec fn click_settings(self, p: Pointer, kit: Seq<KitRow>) -> (AppV, Click) {
        match p.hit {
            Hit::Row(row, _) => {
                let placed = self.with_row(row);
                if p.on_track && placed.on_bitrate_row(kit) {
                    (placed.grab_slider(p), Click::Spent)
                } else {
                    (placed, Click::Press)
                }
            },
            _ => (self, Click::Press),
        }
    }

    #[verifier::opaque]
    pub open spec fn click_pairing(self, hit: Hit) -> (AppV, Click) {
        if hit == Hit::RequestAccess {
            (self.with_pairing_button(), Click::Press)
        } else {
            (self, Click::Spent)
        }
    }

    /// What a click that is not on the close mark does.
    pub open spec fn click_screen(self, p: Pointer, kit: Seq<KitRow>, s: GridShape, now: u64) -> (AppV, Click) {
        let screen = self.nav.screen;
        if screen == Screen::Home {
            self.click_home(p.hit, s, now)
        } else if screen == Screen::Collections {
            self.click_shelves(p.hit, now)
        } else if screen == Screen::HdrCalibration {
            self.click_slider(p)
        } else if screen == Screen::SettingsPage {
            self.click_settings(p, kit)
        } else if row_screen(screen) {
            (self.click_row(p.hit), Click::Press)
        } else if screen == Screen::Pairing {
            self.click_pairing(p.hit)
        } else if confirms(screen) {
            (self, Click::Press)
        } else {
            (self, Click::Spent)
        }
    }

    /// The pointer clicked: its position is taken first, since the press may have moved it. `kit` are
    /// the shared settings rows that apply here.
    pub open spec fn handle_mouse_click(self, p: Pointer, kit: Seq<KitRow>, s: GridShape, now: u64) -> (
        AppV,
        Click,
    ) {
        let moved = self.handle_mouse_motion(p, s, now).0;
        if moved.flags.contains(Flag::HoverClose) {
            (moved, Click::Back)
        } else {
            moved.click_screen(p, kit, s, now)
        }
    }
}

/// A pointer over empty space moves nothing: it never fights the keys.
pub proof fn law_resting_pointer_moves_nothing(app: AppV, s: GridShape, now: u64)
    ensures
        app.hover_focus_at(Hit::Nothing, s, now) == (app, no_change()),
{
    reveal(AppV::hover_home);
    reveal(AppV::hover_row);
    reveal(AppV::hover_answer);
    reveal(AppV::hover_pairing);
}

/// A row that keeps its focus does not play its motion again when the pointer steps between its
/// body and its buttons.
pub proof fn law_button_hover_keeps_the_row(
    app: AppV,
    p: Pointer,
    button: Option<RowButton>,
    s: GridShape,
    now: u64,
)
    requires
        row_screen(app.nav.screen),
        p.hit == Hit::Row(app.row(), button),
        !app.flags.contains(Flag::SliderDrag),
    ensures
        !app.hover_focus_at(p.hit, s, now).1.row,
        app.handle_mouse_motion(p, s, now).0.modal_focus_anim == app.modal_focus_anim,
{
    reveal(AppV::hover_row);
    reveal(AppV::handle_mouse_motion);
}

/// While a row is held, hovering moves no cursor, and a click only drops the row.
pub proof fn law_held_row_ignores_the_pointer(app: AppV, p: Pointer, kit: Seq<KitRow>, s: GridShape, now: u64)
    requires
        app.nav.screen == Screen::Collections,
        app.screens.collections.dragging is Some,
    ensures
        app.hover_focus_at(p.hit, s, now) == (app, no_change()),
        app.click_screen(p, kit, s, now) == (app.commit_collection_drag(now), Click::Spent),
{
    reveal(AppV::hover_row);
    reveal(AppV::click_shelves);
}

/// On Home a stale close hover cannot swallow a click: moving the pointer there clears it.
pub proof fn law_home_clears_the_close_hover(app: AppV, p: Pointer, kit: Seq<KitRow>, s: GridShape, now: u64)
    requires
        p.close is None,
        !app.flags.contains(Flag::SliderDrag),
    ensures
        !app.handle_mouse_motion(p, s, now).0.flags.contains(Flag::HoverClose),
        app.handle_mouse_click(p, kit, s, now).1 != Click::Back,
{
    reveal(AppV::handle_mouse_motion);
    reveal(AppV::click_home);
    reveal(AppV::click_shelves);
    reveal(AppV::click_slider);
    reveal(AppV::click_settings);
    reveal(AppV::click_pairing);
    reveal(AppV::hover_home);
    reveal(AppV::hover_row);
    reveal(AppV::hover_answer);
    reveal(AppV::hover_pairing);
}

/// A press on the bitrate's track takes the bitrate under the pointer and confirms nothing, and from
/// then on the bitrate follows the pointer wherever it goes on the page.
pub proof fn law_bitrate_follows_the_pointer(
    app: AppV,
    p: Pointer,
    q: Pointer,
    kit: Seq<KitRow>,
    s: GridShape,
    now: u64,
)
    requires
        app.nav.screen == Screen::SettingsPage,
        app.in_profile_scope() ==> app.scope_pos() is Some,
        p.hit is Row,
        p.on_track,
        app.with_row(p.hit->Row_0).on_bitrate_row(kit),
    ensures
        ({
            let (pressed, click) = app.click_screen(p, kit, s, now);
            let dragged = pressed.handle_mouse_motion(q, s, now).0;
            &&& click == Click::Spent
            &&& pressed.scoped_bitrate() == Some(p.bitrate)
            &&& dragged.scoped_bitrate() == Some(q.bitrate)
            &&& dragged.nav == pressed.nav
        }),
{
    reveal(AppV::click_settings);
    reveal(AppV::drag_slider);
    reveal(AppV::handle_mouse_motion);
    let placed = app.with_row(p.hit->Row_0);
    law_bitrate_is_written(AppV { flags: put(placed.flags, Flag::SliderDrag, true), ..placed }, p.bitrate);
    law_bitrate_is_written(app.click_screen(p, kit, s, now).0, q.bitrate);
}

/// A click on the settings page leaves the row's button as it is, whether it lands on a row or not.
pub proof fn law_settings_click_keeps_the_button(app: AppV, p: Pointer, kit: Seq<KitRow>, s: GridShape, now: u64)
    requires
        app.nav.screen == Screen::SettingsPage,
    ensures
        app.click_screen(p, kit, s, now).0.screens.row_button == app.screens.row_button,
{
    reveal(AppV::click_settings);
    reveal(AppV::drag_slider);
    reveal(AppV::set_bitrate);
}

impl App {
    fn hit_focus(&self, hit: Hit, s: GridShape) -> (r: Option<HomeFocus>)
        requires
            self@.grid_fits(s),
        ensures
            r == self@.hit_focus(hit, s),
    {
        match hit {
            Hit::MenuButton(i) => Some(HomeFocus::SidebarMenu(i)),
            Hit::SidebarRow(i) => Some(HomeFocus::Sidebar(i)),
            Hit::Slot(i) => if self.is_grid_card(i, s) {
                Some(HomeFocus::Grid(i))
            } else {
                None
            },
            _ => None,
        }
    }

    fn hover_home(&mut self, hit: Hit, s: GridShape, now: u64) -> (r: HoverChange)
        requires
            old(self)@.grid_fits(s),
        ensures
            (final(self)@, r) == old(self)@.hover_home(hit, s, now),
            final(self).wf() == old(self).wf(),
    {
        proof {
            reveal(AppV::hover_home);
        }
        match self.card_menu.take() {
            Some(mut m) => {
                let change = match hit {
                    Hit::CardMenuRow(row) => {
                        let changed: bool = m.focused != row;
                        m.focus(row, now);
                        HoverChange::row(changed)
                    },
                    _ => HoverChange::nothing(),
                };
                self.card_menu = Some(m);
                change
            },
            None => match self.hit_focus(hit, s) {
                Some(focus) => HoverChange::row(self.set_home_focus(focus, now)),
                None => HoverChange::nothing(),
            },
        }
    }

    fn hover_row(&mut self, hit: Hit) -> (r: HoverChange)
        ensures
            (final(self)@, r) == old(self)@.hover_row(hit),
            final(self).wf() == old(self).wf(),
    {
        proof {
            reveal(AppV::hover_row);
        }
        match hit {
            Hit::Row(row, button) => {
                let screen: Screen = self.nav.screen;
                if !is_list_modal(screen) && self.screens.collections.dragging.is_some() {
                    return HoverChange::nothing();
                }
                let row_changed: bool = self.nav.cursor(screen) != row;
                let button_changed: bool = self.screens.row_button != button;
                self.nav.set_cursor(screen, row);
                self.screens.row_button = button;
                HoverChange::split(row_changed, button_changed)
            },
            _ => HoverChange::nothing(),
        }
    }

    fn hover_answer(&mut self, hit: Hit) -> (r: HoverChange)
        ensures
            (final(self)@, r) == old(self)@.hover_answer(hit),
            final(self).wf() == old(self).wf(),
    {
        proof {
            reveal(AppV::hover_answer);
        }
        match hit {
            Hit::Answer(i) => {
                if self.confirm_for(self.nav.screen).is_none() {
                    return HoverChange::nothing();
                }
                HoverChange::row(self.set_confirm_focused(i))
            },
            _ => HoverChange::nothing(),
        }
    }

    fn hover_pairing(&mut self, hit: Hit) -> (r: HoverChange)
        ensures
            (final(self)@, r) == old(self)@.hover_pairing(hit),
            final(self).wf() == old(self).wf(),
    {
        proof {
            reveal(AppV::hover_pairing);
        }
        if hit == Hit::RequestAccess {
            let moved: bool = self.screens.pairing_focus != PairingFocus::RequestAccess;
            self.screens.pairing_focus = PairingFocus::RequestAccess;
            HoverChange::row(moved)
        } else {
            HoverChange::nothing()
        }
    }

    /// Moves focus onto whatever is under the pointer.
    pub fn hover_focus_at(&mut self, hit: Hit, s: GridShape, now: u64) -> (r: HoverChange)
        requires
            old(self)@.grid_fits(s),
        ensures
            (final(self)@, r) == old(self)@.hover_focus_at(hit, s, now),
            final(self).wf() == old(self).wf(),
    {
        let screen: Screen = self.nav.screen;
        if screen == Screen::Home {
            self.hover_home(hit, s, now)
        } else if is_row_screen(screen) {
            self.hover_row(hit)
        } else if is_confirm(screen) {
            self.hover_answer(hit)
        } else if screen == Screen::Pairing {
            self.hover_pairing(hit)
        } else {
            HoverChange::nothing()
        }
    }

    /// Takes whether the pointer is on the close mark. Reports whether that is new.
    pub fn set_hover_close(&mut self, on: bool) -> (r: bool)
        ensures
            final(self)@ == old(self)@.with_hover_close(on),
            r == (on != old(self)@.flags.contains(Flag::HoverClose)),
            final(self).wf() == old(self).wf(),
    {
        let changed: bool = on != self.flags.has(Flag::HoverClose);
        self.flags.set(Flag::HoverClose, on);
        changed
    }

    fn hover_close_at(&mut self, close: Option<bool>) -> (r: bool)
        ensures
            final(self)@ == old(self)@.hover_close_at(close),
            r == (close matches Some(on) && on != old(self)@.flags.contains(Flag::HoverClose)),
            final(self).wf() == old(self).wf(),
    {
        match close {
            Some(on) => self.set_hover_close(on),
            None => {
                self.set_hover_close(false);
                false
            },
        }
    }

    fn drag_slider(&mut self, p: Pointer)
        ensures
            final(self)@ == old(self)@.drag_slider(p),
            final(self).wf() == old(self).wf(),
    {
        proof {
            reveal(AppV::drag_slider);
        }
        if self.nav.screen == Screen::HdrCalibration {
            self.set_hdr_value(p.luminance);
        } else {
            self.set_bitrate(p.bitrate);
        }
    }

    fn grab_slider(&mut self, p: Pointer)
        ensures
            final(self)@ == old(self)@.grab_slider(p),
            final(self).wf() == old(self).wf(),
    {
        self.flags.set(Flag::SliderDrag, true);
        self.drag_slider(p);
    }

    /// Takes a move of the pointer. Reports whether anything visible changed.
    pub fn handle_mouse_motion(&mut self, p: Pointer, s: GridShape, now: u64) -> (r: bool)
        requires
            old(self)@.grid_fits(s),
        ensures
            (final(self)@, r) == old(self)@.handle_mouse_motion(p, s, now),
            final(self).wf() == old(self).wf(),
    {
        proof {
            reveal(AppV::handle_mouse_motion);
        }
        if self.flags.has(Flag::SliderDrag) {
            self.drag_slider(p);
            return true;
        }
        let screen: Screen = self.nav.screen;
        let change = self.hover_focus_at(p.hit, s, now);
        if change.row && screen != Screen::Home {
            self.modal_focus_anim = Some(now);
        }
        let closed: bool = self.hover_close_at(p.close);
        change.any || closed
    }

    fn click_home(&mut self, hit: Hit, s: GridShape, now: u64) -> (r: Click)
        requires
            old(self)@.grid_fits(s),
        ensures
            (final(self)@, r) == old(self)@.click_home(hit, s, now),
            final(self).wf() == old(self).wf(),
    {
        proof {
            reveal(AppV::click_home);
        }
        if self.card_menu.is_some() {
            if self.fix_card_position(now) {
                return Click::Spent;
            }
            match hit {
                Hit::CardMenuRow(row) => {
                    match self.card_menu.take() {
                        Some(mut m) => {
                            m.focus(row, now);
                            self.card_menu = Some(m);
                        },
                        None => {},
                    }
                },
                _ => {},
            }
            return Click::Press;
        }
        match self.hit_focus(hit, s) {
            Some(focus) => {
                self.set_home_focus(focus, now);
                match focus {
                    HomeFocus::SidebarMenu(i) => {
                        self.open_host_menu(i);
                        Click::Spent
                    },
                    _ => Click::Press,
                }
            },
            None => Click::Spent,
        }
    }

    fn click_row(&mut self, hit: Hit)
        ensures
            final(self)@ == old(self)@.click_row(hit),
            final(self).wf() == old(self).wf(),
    {
        proof {
            reveal(AppV::click_row);
        }
        match hit {
            Hit::Row(row, button) => {
                let screen: Screen = self.nav.screen;
                self.nav.set_cursor(screen, row);
                self.screens.row_button = button;
            },
            _ => {
                self.screens.row_button = None;
            },
        }
    }

    fn click_shelves(&mut self, hit: Hit, now: u64) -> (r: Click)
        ensures
            (final(self)@, r) == old(self)@.click_shelves(hit, now),
            final(self).wf() == old(self).wf(),
    {
        proof {
            reveal(AppV::click_shelves);
        }
        if self.screens.collections.dragging.is_some() {
            self.commit_collection_drag(now);
            return Click::Spent;
        }
        self.click_row(hit);
        Click::Press
    }

    fn click_slider(&mut self, p: Pointer) -> (r: Click)
        ensures
            (final(self)@, r) == old(self)@.click_slider(p),
            final(self).wf() == old(self).wf(),
    {
        proof {
            reveal(AppV::click_slider);
        }
        match p.hit {
            Hit::Row(_, button) => {
                self.screens.row_button = button;
                if button.is_some() {
                    return Click::Press;
                }
                if p.on_track {
                    self.grab_slider(p);
                }
                Click::Spent
            },
            _ => Click::Spent,
        }
    }

    fn click_settings(&mut self, p: Pointer, kit: &Vec<KitRow>) -> (r: Click)
        requires
            old(self)@.nav.screen == Screen::SettingsPage,
        ensures
            (final(self)@, r) == old(self)@.click_settings(p, kit@),
            final(self).wf() == old(self).wf(),
    {
        proof {
            reveal(AppV::click_settings);
        }
        match p.hit {
            Hit::Row(row, _) => {
                self.nav.set_cursor(Screen::SettingsPage, row);
                if p.on_track && self.on_bitrate_row(kit) {
                    self.grab_slider(p);
                    return Click::Spent;
                }
            },
            _ => {},
        }
        Click::Press
    }

    fn click_pairing(&mut self, hit: Hit) -> (r: Click)
        ensures
            (final(self)@, r) == old(self)@.click_pairing(hit),
            final(self).wf() == old(self).wf(),
    {
        proof {
            reveal(AppV::click_pairing);
        }
        if hit == Hit::RequestAccess {
            self.screens.pairing_focus = PairingFocus::RequestAccess;
            Click::Press
        } else {
            Click::Spent
        }
    }

    fn click_screen(&mut self, p: Pointer, kit: &Vec<KitRow>, s: GridShape, now: u64) -> (r: Click)
        requires
            old(self)@.grid_fits(s),
        ensures
            (final(self)@, r) == old(self)@.click_screen(p, kit@, s, now),
            final(self).wf() == old(self).wf(),
    {
        let screen: Screen = self.nav.screen;
        if screen == Screen::Home {
            self.click_home(p.hit, s, now)
        } else if screen == Screen::Collections {
            self.click_shelves(p.hit, now)
        } else if screen == Screen::HdrCalibration {
            self.click_slider(p)
        } else if screen == Screen::SettingsPage {
            self.click_settings(p, kit)
        } else if is_row_screen(screen) {
            self.click_row(p.hit);
            Click::Press
        } else if screen == Screen::Pairing {
            self.click_pairing(p.hit)
        } else if is_confirm(screen) {
            Click::Press
        } else {
            Click::Spent
        }
    }

    /// Takes a click: focus is placed where it landed, and what the click comes to is returned.
    /// One that is spent does nothing more; one on the close mark is Back; any other confirms what
    /// has focus now. `kit` are the shared settings rows that apply here.
    pub fn handle_mouse_click(&mut self, p: Pointer, kit: &Vec<KitRow>, s: GridShape, now: u64) -> (r: Click)
        requires
            old(self)@.grid_fits(s),
        ensures
            (final(self)@, r) == old(self)@.handle_mouse_click(p, kit@, s, now),
            final(self).wf() == old(self).wf(),
    {
        let ghost was = self@;
        self.handle_mouse_motion(p, s, now);
        proof {
            lemma_motion_keeps(was, p, s, now);
        }
        if self.flags.has(Flag::HoverClose) {
            return Click::Back;
        }
        self.click_screen(p, kit, s, now)
    }
}

proof fn lemma_motion_keeps(app: AppV, p: Pointer, s: GridShape, now: u64)
    ensures
        ({
            let after = app.handle_mouse_motion(p, s, now).0;
            &&& after.library == app.library
            &&& after.hosts == app.hosts
            &&& after.profiles.len() == app.profiles.len()
        }),
{
    reveal(AppV::handle_mouse_motion);
    reveal(AppV::drag_slider);
    reveal(AppV::set_bitrate);
    reveal(AppV::hover_home);
    reveal(AppV::hover_row);
    reveal(AppV::hover_answer);
    reveal(AppV::hover_pairing);
    match app.screens.settings_page.scope {
        ScopeV::Profile(id) => lemma_first_from(app.profiles, profile_is(id), 0),
        ScopeV::Global => {},
    }
}

proof fn lemma_press_keeps(app: AppV, p: Pointer, kit: Seq<KitRow>, s: GridShape, now: u64)
    ensures
        app.click_screen(p, kit, s, now).1 != Click::Spent ==> {
            let after = app.click_screen(p, kit, s, now).0;
            &&& after.library == app.library
            &&& after.hosts == app.hosts
            &&& after.profiles == app.profiles
        },
{
    reveal(AppV::click_home);
    reveal(AppV::click_row);
    reveal(AppV::click_shelves);
    reveal(AppV::click_slider);
    reveal(AppV::click_settings);
    reveal(AppV::click_pairing);
}

/// A click that is not spent only moves focus and values: the hosts, the library and the list of
/// profiles are as they were.
pub proof fn lemma_click_keeps(app: AppV, p: Pointer, kit: Seq<KitRow>, s: GridShape, now: u64)
    ensures
        app.handle_mouse_click(p, kit, s, now).1 != Click::Spent ==> {
            let after = app.handle_mouse_click(p, kit, s, now).0;
            &&& after.library == app.library
            &&& after.hosts == app.hosts
            &&& after.profiles.len() == app.profiles.len()
        },
{
    lemma_motion_keeps(app, p, s, now);
    lemma_press_keeps(app.handle_mouse_motion(p, s, now).0, p, kit, s, now);
}

} // verus!
