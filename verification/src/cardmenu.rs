//! The submenu a held grid card raises over its own title strip, and moving that card inside its
//! collection while the menu is up.
use vstd::prelude::*;
use crate::app::{elapsed, since, App, AppV, CardMenu, CardMenuV};
use crate::home::time_fits;
use crate::flags::Flag;
use crate::library::ids_of;
use crate::menu::{dir_of, list_nav, list_step, nav_dir};
use crate::model::{host_views, HomeFocus, MenuEvent};
use crate::scroll::GridShape;
use crate::slots::{ProfilePick, ProfilePickV};
use crate::text::literal_of;

verus! {

/// What one row of the submenu does.
#[derive(Clone, Copy, PartialEq, Eq, Structural, Debug)]
pub enum CardMenuRow {
    /// Opens the collections over this card.
    MoveTo,
    /// Back to the Library, with no dialog. Only on a card that a collection holds.
    Remove,
    /// Which profile this title streams with. Only where there is one to pick.
    Profile,
    /// Opens the profile of this title, made first where it has none.
    Settings,
}

impl CardMenuRow {
    /// The name of the row's icon.
    pub open spec fn marked(self) -> Seq<char> {
        match self {
            CardMenuRow::MoveTo => "pin"@,
            CardMenuRow::Remove => "trash-2"@,
            CardMenuRow::Profile => "wrench"@,
            CardMenuRow::Settings => "settings"@,
        }
    }

    /// The name of the row's icon.
    pub fn icon(self) -> (r: &'static str)
        ensures
            r@ == self.marked(),
    {
        match self {
            CardMenuRow::MoveTo => "pin",
            CardMenuRow::Remove => "trash-2",
            CardMenuRow::Profile => "wrench",
            CardMenuRow::Settings => "settings",
        }
    }

    /// The row's words, `None` where they depend on whether a collection holds the card.
    pub open spec fn says(self) -> Option<Seq<char>> {
        match self {
            CardMenuRow::MoveTo => None,
            CardMenuRow::Remove => Some("Remove"@),
            CardMenuRow::Profile => Some("Profile"@),
            CardMenuRow::Settings => Some("Settings"@),
        }
    }

    /// The row's words, `None` where they depend on whether a collection holds the card.
    pub fn label(self) -> (r: Option<&'static str>)
        ensures
            literal_of(r) == self.says(),
    {
        match self {
            CardMenuRow::MoveTo => None,
            CardMenuRow::Remove => Some("Remove"),
            CardMenuRow::Profile => Some("Profile"),
            CardMenuRow::Settings => Some("Settings"),
        }
    }
}

impl CardMenuV {
    pub open spec fn focus(self, row: usize, now: u64) -> CardMenuV {
        if row != self.focused {
            CardMenuV { focused: row, focus_anim: Some(now), ..self }
        } else {
            self
        }
    }

    pub open spec fn rise_again(self, now: u64) -> CardMenuV {
        CardMenuV { since: now, risen: false, ..self }
    }

    /// The panel one tick on: the rise is over once it has run, and so is the focus motion.
    pub open spec fn tick(self, rise: u64, pop: u64, now: u64) -> CardMenuV {
        CardMenuV {
            risen: self.risen || since(self.since, now) >= rise,
            focus_anim: match self.focus_anim {
                Some(t) => if since(t, now) < pop {
                    Some(t)
                } else {
                    None
                },
                None => None,
            },
            ..self
        }
    }

    /// Whether the panel still owes a frame.
    pub open spec fn owed(self) -> bool {
        !self.risen || self.focus_anim is Some
    }
}

/// The tick that finds every animation run out drops them: no frame is owed after it, and a later
/// tick leaves the menu as it is.
pub proof fn law_card_menu_settles(m: CardMenuV, rise: u64, pop: u64, now: u64, later: u64)
    requires
        now <= later,
        m.since <= now,
        m.focus_anim matches Some(t) ==> t <= now,
        since(m.since, now) >= rise,
        m.focus_anim matches Some(t) ==> since(t, now) >= pop,
    ensures
        !m.tick(rise, pop, now).owed(),
        m.tick(rise, pop, now).tick(rise, pop, later) == m.tick(rise, pop, now),
{
}

impl CardMenu {
    /// Moves focus and starts its motion. Nothing where the row is focused already.
    pub fn focus(&mut self, row: usize, now: u64)
        ensures
            final(self)@ == old(self)@.focus(row, now),
    {
        if row != self.focused {
            self.focus_anim = Some(now);
            self.focused = row;
        }
    }

    /// Plays the panel's rise again.
    pub fn rise_again(&mut self, now: u64)
        ensures
            final(self)@ == old(self)@.rise_again(now),
    {
        self.since = now;
        self.risen = false;
    }

    /// Advances the panel's rise, `rise` long, and its focus motion, `pop` long. Reports whether
    /// a frame is owed: also on the tick that ends one of them.
    pub fn tick(&mut self, rise: u64, pop: u64, now: u64) -> (r: bool)
        ensures
            final(self)@ == old(self)@.tick(rise, pop, now),
            r == old(self)@.owed(),
    {
        let mut owed: bool = false;
        if !self.risen {
            self.risen = elapsed(self.since, now) >= rise;
            owed = true;
        }
        match self.focus_anim {
            Some(t) => {
                if elapsed(t, now) >= pop {
                    self.focus_anim = None;
                }
                owed = true;
            },
            None => {},
        }
        owed
    }
}

impl AppV {
    pub open spec fn with_card_menu(self, menu: Option<CardMenuV>) -> AppV {
        AppV { card_menu: menu, ..self }
    }

    /// The rows of a card's submenu.
    pub open spec fn card_menu_row_kinds(self, pin_id: Seq<char>) -> Seq<CardMenuRow> {
        let held = if self.collection_of_card(pin_id) is Some {
            seq![CardMenuRow::MoveTo, CardMenuRow::Remove]
        } else {
            seq![CardMenuRow::MoveTo]
        };
        let bound = if self.profiles.len() > 0 {
            held.push(CardMenuRow::Profile)
        } else {
            held
        };
        bound.push(CardMenuRow::Settings)
    }

    /// The submenu raised over the focused card.
    pub open spec fn open_card_menu(self, s: GridShape, now: u64) -> AppV {
        match self.home_focus {
            HomeFocus::Grid(idx) => match self.grid_card_at(idx, s) {
                Some(card) => self.with_card_menu(
                    Some(
                        CardMenuV {
                            pin_id: card.id,
                            idx,
                            title: card.title,
                            focused: 0,
                            focus_anim: Some(now),
                            since: now,
                            risen: false,
                            moved: false,
                        },
                    ),
                ),
                None => self,
            },
            _ => self,
        }
    }

    /// The order that a swap left unwritten, written.
    pub open spec fn commit_card_reorder(self) -> AppV {
        if self.card_menu_reordering() {
            self.persist()
        } else {
            self
        }
    }

    pub open spec fn card_menu_reordering(self) -> bool {
        self.card_menu matches Some(m) && m.moved
    }

    /// The submenu gone. Every way of leaving it keeps a reorder, none discards one.
    pub open spec fn close_card_menu(self) -> AppV {
        self.commit_card_reorder().with_card_menu(None)
    }

    /// The card fixed where it now sits, the menu still up.
    pub open spec fn fix_card_position(self, now: u64) -> AppV {
        match self.card_menu {
            Some(m) => if m.moved {
                self.persist().with_card_menu(Some(CardMenuV { moved: false, ..m }.rise_again(now)))
            } else {
                self
            },
            None => self,
        }
    }

    /// The card the held one trades places with, if there is one that way.
    pub open spec fn swap_partner(self, forward: bool) -> Option<Seq<char>> {
        match (self.card_menu, self.selected_known_host()) {
            (Some(m), Some(h)) => h.collection_neighbour(m.pin_id, forward),
            _ => None,
        }
    }

    /// Two cards traded in the host's record and in the grid alike.
    pub open spec fn traded(self, forward: bool, other: Seq<char>) -> AppV {
        let m = self.card_menu->0;
        let i = self.selected_pos()->0;
        let swapped = self.with_known(i, self.hosts.known[i].swap_within_collection(m.pin_id, forward));
        AppV { library: swapped.library.swap_games(m.pin_id, other), ..swapped }
    }

    /// The menu and the focus carried along with the card.
    pub open spec fn follow_held(self, s: GridShape, now: u64) -> AppV {
        let m = self.card_menu->0;
        match self.grid_idx_for_pin_id(m.pin_id, s) {
            Some(k) => self.with_card_menu(
                Some(CardMenuV { idx: k as usize, moved: true, ..m }),
            ).set_home_focus(HomeFocus::Grid(k as usize), now).ensure_grid_visible(k as usize, s),
            None => self.with_card_menu(Some(CardMenuV { moved: true, ..m })),
        }
    }

    /// The held card moved one place inside its collection. Nothing is written yet.
    pub open spec fn swap_card_in_collection(self, forward: bool, s: GridShape, now: u64) -> AppV {
        match self.swap_partner(forward) {
            Some(other) => self.traded(forward, other).follow_held(s, now),
            None => self,
        }
    }

    pub open spec fn arm_press(self) -> AppV {
        AppV { flags: self.flags.insert(Flag::PressArmed), ..self }
    }

    /// What confirming a row of the submenu does.
    pub open spec fn card_menu_confirm(self, m: CardMenuV, fresh: Seq<char>, s: GridShape, now: u64) -> AppV {
        let rows = self.card_menu_row_kinds(m.pin_id);
        if m.focused < rows.len() {
            match rows[m.focused as int] {
                CardMenuRow::MoveTo => self.open_collections(m.pin_id, m.title),
                CardMenuRow::Settings => self.open_game_profile(m.pin_id, m.title, fresh),
                CardMenuRow::Profile => self.open_pick_profile(
                    ProfilePickV::BindGame { pin_id: m.pin_id, title: m.title },
                ),
                CardMenuRow::Remove => self.close_card_menu().move_focused_card(None, s, now),
            }
        } else {
            self.close_card_menu()
        }
    }

    /// One event while the submenu is up; nothing while it is not.
    #[verifier::opaque]
    pub open spec fn handle_card_menu_event(self, ev: MenuEvent, fresh: Seq<char>, s: GridShape, now: u64) -> AppV {
        match self.card_menu {
            Some(m) => match list_step(m.focused, self.card_menu_row_kinds(m.pin_id).len(), dir_of(ev)) {
                Some(next) => self.with_card_menu(Some(m.focus(next, now))),
                None => match ev {
                    MenuEvent::Confirm => if m.moved {
                        self.fix_card_position(now)
                    } else {
                        self.card_menu_confirm(m, fresh, s, now)
                    },
                    MenuEvent::Left => if self.swap_partner(false) is Some {
                        self.swap_card_in_collection(false, s, now)
                    } else {
                        self.arm_press()
                    },
                    MenuEvent::Right => if self.swap_partner(true) is Some {
                        self.swap_card_in_collection(true, s, now)
                    } else {
                        self.arm_press()
                    },
                    _ => self.close_card_menu(),
                },
            },
            None => self,
        }
    }
}

/// Moving a card inside its collection writes nothing; closing the menu writes the order once.
pub proof fn law_reorder_saved_once(app: AppV, forward: bool, s: GridShape, now: u64)
    requires
        app.swap_partner(forward) is Some,
    ensures
        ({
            let moved = app.swap_card_in_collection(forward, s, now);
            &&& moved.effects == app.effects
            &&& moved.close_card_menu().effects == moved.effects.push(
                crate::slots::EffectV::Save(moved.persisted()),
            )
            &&& moved.close_card_menu().card_menu is None
            &&& moved.fix_card_position(now).close_card_menu().effects == moved.effects.push(
                crate::slots::EffectV::Save(moved.persisted()),
            )
        }),
{
}

/// A grid that fits still does after two of its cards traded places.
proof fn lemma_traded_fits(app: AppV, forward: bool, other: Seq<char>, s: GridShape)
    requires
        app.grid_fits(s),
        app.card_menu is Some,
        app.selected_pos() is Some,
    ensures
        app.traded(forward, other).grid_fits(s),
{
    let m = app.card_menu->0;
    let i = app.selected_pos()->0;
    let at = app.library.selected_host->0;
    let h = app.hosts.known[i];
    crate::seqs::lemma_first_from(app.hosts.known, crate::hosts::host_is(at.host, at.port), 0);
    let after = app.traded(forward, other);
    assert(after.hosts.known == app.hosts.known.update(i, h.swap_within_collection(m.pin_id, forward)));
    crate::seqs::lemma_first_is(after.hosts.known, crate::hosts::host_is(at.host, at.port), i);
    crate::seqs::lemma_first_from(h.collections, crate::knownhost::holds_card(m.pin_id), 0);
    assert(h.swap_within_collection(m.pin_id, forward).collections.len() == h.collections.len());
    ids_of(app.library.games).index_of_first_ensures(m.pin_id);
    ids_of(app.library.games).index_of_first_ensures(other);
    assert(after.library.games.len() == app.library.games.len());
    assert(after.library.groups == app.library.groups);
}

impl App {
    /// The rows of a card's submenu.
    pub fn card_menu_row_kinds(&self, pin_id: &str) -> (r: Vec<CardMenuRow>)
        ensures
            r@ == self@.card_menu_row_kinds(pin_id@),
    {
        let mut rows: Vec<CardMenuRow> = Vec::new();
        rows.push(CardMenuRow::MoveTo);
        if self.card_is_held(pin_id) {
            rows.push(CardMenuRow::Remove);
            assert(rows@ =~= seq![CardMenuRow::MoveTo, CardMenuRow::Remove]);
        } else {
            assert(rows@ =~= seq![CardMenuRow::MoveTo]);
        }
        if self.profiles.len() > 0 {
            rows.push(CardMenuRow::Profile);
        }
        rows.push(CardMenuRow::Settings);
        rows
    }

    /// Raises the submenu over the focused card.
    pub fn open_card_menu(&mut self, s: GridShape, now: u64)
        requires
            old(self)@.grid_fits(s),
        ensures
            final(self)@ == old(self)@.open_card_menu(s, now),
            final(self).wf() == old(self).wf(),
    {
        let idx: usize = match self.home_focus {
            HomeFocus::Grid(idx) => idx,
            _ => {
                return;
            },
        };
        let (pin_id, title): (String, String) = match self.grid_card_at(idx, s) {
            Some(card) => (card.id.clone(), card.title.clone()),
            None => {
                return;
            },
        };
        self.card_menu = Some(
            CardMenu {
                pin_id,
                idx,
                title,
                focused: 0,
                focus_anim: Some(now),
                since: now,
                risen: false,
                moved: false,
            },
        );
    }

    fn commit_card_reorder(&mut self)
        ensures
            final(self)@ == old(self)@.commit_card_reorder(),
            final(self).wf() == old(self).wf(),
    {
        if self.card_menu_reordering() {
            self.persist();
        }
    }

    /// Whether the held card is being moved: the next Confirm fixes it where it sits.
    pub fn card_menu_reordering(&self) -> (r: bool)
        ensures
            r == self@.card_menu_reordering(),
    {
        match &self.card_menu {
            Some(m) => m.moved,
            None => false,
        }
    }

    /// Drops the submenu, keeping any reorder it was holding.
    pub fn close_card_menu(&mut self)
        ensures
            final(self)@ == old(self)@.close_card_menu(),
            final(self).wf() == old(self).wf(),
    {
        self.commit_card_reorder();
        self.card_menu = None;
    }

    /// Fixes the held card where it now sits. `false` when it was not being moved, which is what
    /// lets Confirm go on to mean the focused row.
    pub fn fix_card_position(&mut self, now: u64) -> (r: bool)
        ensures
            final(self)@ == old(self)@.fix_card_position(now),
            r == old(self)@.card_menu_reordering(),
            final(self).wf() == old(self).wf(),
    {
        if !self.card_menu_reordering() {
            return false;
        }
        self.persist();
        match self.card_menu.take() {
            Some(mut m) => {
                m.moved = false;
                m.rise_again(now);
                self.card_menu = Some(m);
            },
            None => {},
        }
        true
    }

    fn swap_partner(&self, forward: bool) -> (r: Option<String>)
        ensures
            crate::text::text_of(r) == self@.swap_partner(forward),
    {
        match &self.card_menu {
            Some(m) => match self.selected_known_host() {
                Some(i) => self.hosts.known[i].collection_neighbour(m.pin_id.as_str(), forward),
                None => None,
            },
            None => None,
        }
    }

    fn trade(&mut self, forward: bool, other: &str)
        requires
            old(self)@.card_menu is Some,
            old(self)@.selected_pos() is Some,
        ensures
            final(self)@ == old(self)@.traded(forward, other@),
            final(self).wf() == old(self).wf(),
    {
        let pin_id: String = match &self.card_menu {
            Some(m) => m.pin_id.clone(),
            None => {
                return;
            },
        };
        match self.selected_known_host() {
            Some(i) => {
                let ghost before = self.hosts.known@;
                self.hosts.known[i].swap_within_collection(pin_id.as_str(), forward);
                assert(host_views(self.hosts.known@) =~= host_views(before).update(
                    i as int,
                    before[i as int]@.swap_within_collection(pin_id@, forward),
                ));
                self.library.swap_games(pin_id.as_str(), other);
            },
            None => {},
        }
    }

    fn follow_held(&mut self, s: GridShape, now: u64)
        requires
            old(self)@.grid_fits(s),
            old(self)@.card_menu is Some,
        ensures
            final(self)@ == old(self)@.follow_held(s, now),
            final(self).wf() == old(self).wf(),
    {
        match self.card_menu.take() {
            Some(mut m) => {
                m.moved = true;
                match self.grid_idx_for_pin_id(m.pin_id.as_str(), s) {
                    Some(k) => {
                        m.idx = k;
                        self.card_menu = Some(m);
                        self.set_home_focus(HomeFocus::Grid(k), now);
                        self.ensure_grid_visible(k, s);
                    },
                    None => {
                        self.card_menu = Some(m);
                    },
                }
            },
            None => {},
        }
    }

    /// Moves the held card one place inside its own collection: a swap, so that every other card
    /// keeps its place. `false` at either end, and in the Library, whose order is recency.
    pub fn swap_card_in_collection(&mut self, forward: bool, s: GridShape, now: u64) -> (r: bool)
        requires
            old(self)@.grid_fits(s),
        ensures
            final(self)@ == old(self)@.swap_card_in_collection(forward, s, now),
            r == (old(self)@.swap_partner(forward) is Some),
            final(self).wf() == old(self).wf(),
    {
        match self.swap_partner(forward) {
            Some(other) => {
                proof {
                    lemma_traded_fits(self@, forward, other@, s);
                }
                self.trade(forward, other.as_str());
                self.follow_held(s, now);
                true
            },
            None => false,
        }
    }

    fn card_menu_confirm(&mut self, menu: &CardMenu, fresh: String, s: GridShape, now: u64)
        requires
            old(self).wf(),
            old(self)@.grid_fits(s),
            time_fits(now),
        ensures
            final(self)@ == old(self)@.card_menu_confirm(menu@, fresh@, s, now),
            final(self).wf(),
    {
        let rows = self.card_menu_row_kinds(menu.pin_id.as_str());
        if menu.focused >= rows.len() {
            self.close_card_menu();
            return;
        }
        match rows[menu.focused] {
            CardMenuRow::MoveTo => {
                self.open_collections(menu.pin_id.as_str(), menu.title.as_str());
            },
            CardMenuRow::Settings => {
                self.open_game_profile(menu.pin_id.as_str(), menu.title.as_str(), fresh);
            },
            CardMenuRow::Profile => {
                self.open_pick_profile(
                    ProfilePick::BindGame { pin_id: menu.pin_id.clone(), title: menu.title.clone() },
                );
            },
            CardMenuRow::Remove => {
                self.close_card_menu();
                self.move_focused_card(None, s, now);
            },
        }
    }

    /// Handles one event while the submenu is up. `false` when it is not, so that Home's own
    /// handling runs instead. `fresh` is the id that a profile made here gets.
    pub fn handle_card_menu_event(&mut self, ev: MenuEvent, fresh: String, s: GridShape, now: u64) -> (r: bool)
        requires
            old(self).wf(),
            old(self)@.grid_fits(s),
            time_fits(now),
        ensures
            final(self)@ == old(self)@.handle_card_menu_event(ev, fresh@, s, now),
            r == (old(self)@.card_menu is Some),
            final(self).wf(),
    {
        proof {
            reveal(AppV::handle_card_menu_event);
        }
        let menu: CardMenu = match &self.card_menu {
            Some(m) => CardMenu {
                pin_id: m.pin_id.clone(),
                idx: m.idx,
                title: m.title.clone(),
                focused: m.focused,
                focus_anim: m.focus_anim,
                since: m.since,
                risen: m.risen,
                moved: m.moved,
            },
            None => {
                return false;
            },
        };
        let rows = self.card_menu_row_kinds(menu.pin_id.as_str());
        let mut next: usize = menu.focused;
        if list_nav(&mut next, rows.len(), nav_dir(ev)) {
            let mut menu = menu;
            menu.focus(next, now);
            self.card_menu = Some(menu);
            return true;
        }
        match ev {
            MenuEvent::Confirm => {
                // The first Confirm after a move means "there": there is no row to have meant.
                if !self.fix_card_position(now) {
                    self.card_menu_confirm(&menu, fresh, s, now);
                }
            },
            MenuEvent::Left => {
                if !self.swap_card_in_collection(false, s, now) {
                    self.flags.set(Flag::PressArmed, true);
                }
            },
            MenuEvent::Right => {
                if !self.swap_card_in_collection(true, s, now) {
                    self.flags.set(Flag::PressArmed, true);
                }
            },
            _ => {
                self.close_card_menu();
            },
        }
        true
    }
}

} // verus!
