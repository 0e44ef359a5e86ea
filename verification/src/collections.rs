//! Moving a card between collections, and naming, ordering and removing them.
use vstd::prelude::*;
use crate::app::{App, AppV};
use crate::flags::Flag;
use crate::home::{lemma_regroup_keeps_fits, time_fits};
use crate::knownhost::MAX_COLLECTION_NAME;
use crate::model::{host_views, Collection, HostV, MenuEvent, Screen};
use crate::scroll::GridShape;
use crate::slots::{no_collections, CollectionsState, CollectionsV, EffectV, RowButton, ScreensV};
use crate::text::{erase, erased, join3, trim, trimmed, type_char, typed};

verus! {

/// What a collection's row carries besides its own action, at its right end.
#[derive(Clone, Copy, PartialEq, Eq, Structural, Debug)]
pub enum ShelfButton {
    Rename,
    Remove,
}

/// Why a typed name is refused.
#[derive(Clone, Copy, PartialEq, Eq, Structural, Debug)]
pub enum NameRefusal {
    Empty,
    Taken,
}

/// Every collection can be renamed; the Library cannot be removed.
pub open spec fn shelf_buttons(dynamic: bool) -> Seq<ShelfButton> {
    if dynamic {
        seq![ShelfButton::Rename]
    } else {
        seq![ShelfButton::Rename, ShelfButton::Remove]
    }
}

/// What is said once a card has moved.
pub open spec fn moved_toast(card: Seq<char>, to: Seq<char>) -> Seq<char> {
    card + " added to "@ + to
}

impl HostV {
    /// The row of the collection that holds a card, the Library's where none does.
    pub open spec fn holding_row(self, id: Seq<char>) -> usize {
        match self.collection_of(id) {
            Some(c) => c as usize,
            None => match self.library_index() {
                Some(c) => c as usize,
                None => 0,
            },
        }
    }
}

impl AppV {
    pub open spec fn with_collections(self, c: CollectionsV) -> AppV {
        AppV { screens: ScreensV { collections: c, ..self.screens }, ..self }
    }

    pub open spec fn holding_row(self, id: Seq<char>) -> usize {
        match self.selected_known_host() {
            Some(h) => h.holding_row(id),
            None => 0,
        }
    }

    /// The collections raised over a card, on the one that holds it.
    pub open spec fn open_collections(self, pin_id: Seq<char>, title: Seq<char>) -> AppV {
        self.with_collections(
            CollectionsV { target: Some(pin_id), title, ..no_collections() },
        ).with_button(None).enter(Screen::Collections, self.holding_row(pin_id))
    }

    /// How many collections the selected host has.
    pub open spec fn shelves(self) -> nat {
        match self.selected_known_host() {
            Some(h) => h.collections.len(),
            None => 0,
        }
    }

    /// A row for each collection and one to add another; none without a host.
    pub open spec fn collections_row_count(self) -> nat {
        match self.selected_known_host() {
            Some(h) => h.collections.len() + 1,
            None => 0,
        }
    }

    /// The buttons at the right end of a collection's row.
    pub open spec fn shelf_buttons(self, row: usize) -> Seq<ShelfButton> {
        match self.selected_known_host() {
            Some(h) => if row < h.collections.len() {
                shelf_buttons(h.collections[row as int].dynamic)
            } else {
                Seq::empty()
            },
            None => Seq::empty(),
        }
    }

    /// What row `row` of the open list carries at its ends: whether it can be picked up, and how
    /// many buttons stand at its right.
    pub open spec fn row_ends(self, row: usize) -> (bool, nat) {
        match self.nav.screen {
            Screen::HdrCalibration => (false, 1),
            Screen::Collections => (row < self.shelves(), self.shelf_buttons(row).len()),
            _ => (false, 0),
        }
    }

    /// A step along the focused row's buttons, `None` where there is nowhere left to step.
    pub open spec fn step_row_button(self, forward: bool) -> Option<AppV> {
        let (leading, trailing) = self.row_ends(self.row());
        match crate::rows::step_button(self.screens.row_button, forward, leading, trailing) {
            Some(next) => Some(self.with_button(next)),
            None => None,
        }
    }

    /// The held row dropped: one save and one new layout for the whole drag.
    pub open spec fn commit_collection_drag(self, now: u64) -> AppV {
        if self.screens.collections.dragging is Some {
            self.with_collections(
                CollectionsV { dragging: None, ..self.screens.collections },
            ).persist().regroup_games().refocus(now)
        } else {
            self
        }
    }

    /// The screen left, and the submenu behind it. What was held is dropped, not discarded.
    pub open spec fn close_collections(self, now: u64) -> AppV {
        self.commit_collection_drag(now).with_collections(no_collections()).with_button(
            None,
        ).close_card_menu().show(Screen::Home)
    }

    pub open spec fn toasted(self, message: Seq<char>) -> AppV {
        AppV { toast: Some(message), ..self }
    }

    /// The name form raised over the list, on a collection or for a new one.
    pub open spec fn open_name_collection(self, at: Option<usize>) -> AppV {
        self.with_collections(
            CollectionsV {
                renaming: at,
                name: match (at, self.selected_known_host()) {
                    (Some(i), Some(h)) => if i < h.collections.len() {
                        h.collections[i as int].name
                    } else {
                        Seq::empty()
                    },
                    _ => Seq::empty(),
                },
                ..self.screens.collections
            },
        ).show(Screen::RenameCollection)
    }

    pub open spec fn open_remove_collection(self, at: usize) -> AppV {
        self.with_collections(
            CollectionsV { removing: Some(at), ..self.screens.collections },
        ).enter(Screen::RemoveCollection, 1)
    }

    pub open spec fn start_collection_drag(self, at: usize, now: u64) -> AppV {
        self.with_collections(CollectionsV { dragging: Some(at), ..self.screens.collections }).refocus(now)
    }

    /// What a press on one of a row's buttons does.
    pub open spec fn press_shelf_button(self, row: usize, button: RowButton, now: u64) -> AppV {
        match button {
            RowButton::Leading => self.start_collection_drag(row, now),
            RowButton::Trailing(i) => if i < self.shelf_buttons(row).len() {
                match self.shelf_buttons(row)[i as int] {
                    ShelfButton::Rename => self.open_name_collection(Some(row)),
                    ShelfButton::Remove => self.open_remove_collection(row),
                }
            } else {
                self
            },
        }
    }

    /// The target card moved into a collection, or out of whatever holds it for the Library.
    pub open spec fn move_target(self, target: Seq<char>, row: usize, s: GridShape, now: u64) -> AppV {
        let c = self.selected_known_host()->0.collections[row as int];
        let to = if c.dynamic {
            None
        } else {
            Some(row)
        };
        let closed = self.close_collections(now);
        let moved = closed.move_card(target, to, s, now);
        if closed.moves_card(target, to) {
            moved.toasted(moved_toast(self.screens.collections.title, c.name))
        } else {
            moved
        }
    }

    pub open spec fn confirm_collections_row(self, s: GridShape, now: u64) -> AppV {
        let row = self.nav.cursor(Screen::Collections);
        match self.screens.row_button {
            Some(button) => self.press_shelf_button(row, button, now),
            None => match (self.screens.collections.target, self.selected_known_host()) {
                (Some(target), Some(h)) => if row < h.collections.len() {
                    self.move_target(target, row, s, now)
                } else {
                    self.open_name_collection(None)
                },
                _ => self,
            },
        }
    }

    /// Where a held row goes.
    pub open spec fn drag_to(self, at: usize, ev: MenuEvent) -> Option<usize> {
        if ev == MenuEvent::Up {
            if at > 0 && at - 1 < self.shelves() {
                Some((at - 1) as usize)
            } else {
                None
            }
        } else if at < usize::MAX && at + 1 < self.shelves() {
            Some((at + 1) as usize)
        } else {
            None
        }
    }

    pub open spec fn reorder_selected(self, from: usize, to: usize) -> AppV {
        match self.selected_pos() {
            Some(i) => self.with_known(i, self.hosts.known[i].reorder_collection(from, to)),
            None => self,
        }
    }

    /// One event while a row is held: Up and Down carry it, anything else drops it and is spent
    /// doing so.
    pub open spec fn drag_collection_event(self, ev: MenuEvent, now: u64) -> AppV {
        match self.screens.collections.dragging {
            Some(at) => if ev == MenuEvent::Up || ev == MenuEvent::Down {
                match self.drag_to(at, ev) {
                    Some(to) => {
                        let carried = self.reorder_selected(at, to).with_collections(
                            CollectionsV { dragging: Some(to), ..self.screens.collections },
                        );
                        AppV { nav: carried.nav.set_cursor(Screen::Collections, to), ..carried }.refocus(now)
                    },
                    None => self.arm_press(),
                }
            } else {
                self.commit_collection_drag(now)
            },
            None => self,
        }
    }

    /// One event on the list.
    #[verifier::opaque]
    pub open spec fn handle_collections_event(self, ev: MenuEvent, s: GridShape, now: u64) -> AppV {
        if self.screens.collections.dragging is Some {
            self.drag_collection_event(ev, now)
        } else {
            match self.list_nav(self.collections_row_count(), ev, now) {
                Some(moved) => moved,
                None => match ev {
                    MenuEvent::Confirm => self.confirm_collections_row(s, now),
                    MenuEvent::Back => self.close_collections(now),
                    MenuEvent::Secondary => self.close_collections(now),
                    MenuEvent::Left => self.step_shelf_button(false),
                    MenuEvent::Right => self.step_shelf_button(true),
                    _ => self,
                },
            }
        }
    }

    pub open spec fn step_shelf_button(self, forward: bool) -> AppV {
        let row = self.nav.cursor(Screen::Collections);
        match crate::rows::step_button(
            self.screens.row_button,
            forward,
            row < self.shelves(),
            self.shelf_buttons(row).len(),
        ) {
            Some(next) => self.with_button(next),
            None => self,
        }
    }

    /// Why a name is refused to the collection being named.
    pub open spec fn collection_name_refusal(self, name: Seq<char>) -> Option<NameRefusal> {
        match self.selected_known_host() {
            Some(h) => if name.len() == 0 {
                Some(NameRefusal::Empty)
            } else if h.can_name(self.screens.collections.renaming, name) {
                None
            } else {
                Some(NameRefusal::Taken)
            },
            None => None,
        }
    }

    /// Why the typed name is refused.
    pub open spec fn collection_name_hint(self) -> Option<NameRefusal> {
        self.collection_name_refusal(trimmed(self.screens.collections.name))
    }

    pub open spec fn rename_shelf(self, pos: int, at: usize, name: Seq<char>) -> AppV {
        self.with_known(
            pos,
            self.hosts.known[pos].rename_collection(at, name),
        ).persist().regroup_games().show(Screen::Collections)
    }

    pub open spec fn with_shelf(self, pos: int, name: Seq<char>) -> AppV {
        self.with_known(pos, self.hosts.known[pos].add_collection(name)).persist()
    }

    /// A collection made, and the held card moved straight into it.
    pub open spec fn add_shelf(self, pos: int, name: Seq<char>, s: GridShape, now: u64) -> AppV {
        let added = self.hosts.known[pos].collections.len() as usize;
        let made = self.with_shelf(pos, name);
        match self.screens.collections.target {
            Some(target) => made.close_collections(now).move_card(target, Some(added), s, now).toasted(
                moved_toast(self.screens.collections.title, name),
            ),
            None => made.enter(Screen::Collections, added),
        }
    }

    /// The typed name committed.
    pub open spec fn confirm_collection_name(self, s: GridShape, now: u64) -> AppV {
        self.name_collection(trimmed(self.screens.collections.name), s, now)
    }

    /// A name committed: a collection renamed, or a new one made.
    pub open spec fn name_collection(self, name: Seq<char>, s: GridShape, now: u64) -> AppV {
        let at = self.screens.collections.renaming;
        match self.selected_pos() {
            Some(pos) => if self.hosts.known[pos].can_name(at, name) {
                match at {
                    Some(i) => self.rename_shelf(pos, i, name),
                    None => self.add_shelf(pos, name, s, now),
                }
            } else {
                self
            },
            None => self,
        }
    }

    pub open spec fn with_shelf_name(self, name: Seq<char>) -> AppV {
        self.with_collections(CollectionsV { name, ..self.screens.collections })
    }

    #[verifier::opaque]
    pub open spec fn handle_name_collection_event(self, ev: MenuEvent, s: GridShape, now: u64) -> AppV {
        match ev {
            MenuEvent::Left => self.with_shelf_name(erased(self.screens.collections.name)),
            MenuEvent::Confirm => self.confirm_collection_name(s, now),
            MenuEvent::Back => self.show(Screen::Collections),
            MenuEvent::Secondary => self.show(Screen::Collections),
            _ => self,
        }
    }

    /// The collection the dialog asks about removed; its games fall back to the Library.
    pub open spec fn remove_shelf(self) -> AppV {
        match (self.screens.collections.removing, self.selected_pos()) {
            (Some(at), Some(pos)) => if self.hosts.known[pos].removable(at) {
                self.with_known(pos, self.hosts.known[pos].remove_collection(at)).persist().regroup_games()
            } else {
                self
            },
            _ => self,
        }
    }

    /// Back to the list, its cursor kept inside it.
    pub open spec fn back_to_collections(self) -> AppV {
        let n = self.collections_row_count();
        let last = if n > 0 {
            n - 1
        } else {
            0
        };
        let at = self.nav.cursor(Screen::Collections);
        self.with_button(None).enter(
            Screen::Collections,
            if at < last {
                at
            } else {
                last as usize
            },
        )
    }

    #[verifier::opaque]
    pub open spec fn handle_remove_collection_event(self, ev: MenuEvent, now: u64) -> AppV {
        match self.confirm_nav(ev, now) {
            Some(moved) => moved,
            None => match ev {
                MenuEvent::Confirm => if self.nav.cursor(Screen::RemoveCollection) == 0 {
                    self.remove_shelf().back_to_collections()
                } else {
                    self.back_to_collections()
                },
                MenuEvent::Back => self.back_to_collections(),
                MenuEvent::Secondary => self.back_to_collections(),
                _ => self,
            },
        }
    }
}

/// Nothing is written while a row is carried, however many steps it takes; dropping it writes the
/// order once.
pub proof fn law_drag_saved_once(app: AppV, ev: MenuEvent, now: u64)
    requires
        app.screens.collections.dragging is Some,
    ensures
        (ev == MenuEvent::Up || ev == MenuEvent::Down) ==> app.drag_collection_event(ev, now).effects == app.effects,
        (ev == MenuEvent::Up || ev == MenuEvent::Down) ==> app.drag_collection_event(
            ev,
            now,
        ).screens.collections.dragging is Some,
        app.commit_collection_drag(now).effects == app.effects.push(EffectV::Save(app.persisted())),
        app.commit_collection_drag(now).screens.collections.dragging is None,
{
}

/// Leaving the collections drops whatever they held and closes the submenu behind them.
pub proof fn law_close_collections(app: AppV, now: u64)
    ensures
        app.close_collections(now).screens.collections == no_collections(),
        app.close_collections(now).card_menu is None,
        app.close_collections(now).nav.screen == Screen::Home,
        app.screens.collections.dragging is Some ==> app.close_collections(now).effects.len() > app.effects.len(),
{
}

/// The dialogs that destroy something open on Cancel.
pub proof fn law_remove_opens_on_cancel(app: AppV, at: usize, hdr: bool, fresh: Seq<char>)
    requires
        app.nav.cursors.len() == crate::nav::SCREENS,
    ensures
        app.open_remove_collection(at).nav.cursor(Screen::RemoveCollection) == 1,
        app.open_forget_host().nav.cursor(Screen::ForgetHost) == 1,
        app.in_profile_scope() ==> app.open_delete_profile().nav.cursor(Screen::DeleteProfile) == 1,
        app.activate_row(crate::settingspage::PageRow::ResetHdr, hdr, fresh).nav.cursor(Screen::ResetHdrCalibration)
            == 1,
{
}

/// A closed screen leaves a grid that fits.
proof fn lemma_close_fits(app: AppV, s: GridShape, now: u64)
    requires
        s.columns >= 1,
        app.grid_fits(s),
    ensures
        app.close_collections(now).grid_fits(s),
        app.close_collections(now).selected_pos() == app.selected_pos(),
{
    if app.screens.collections.dragging is Some {
        let saved = app.with_collections(CollectionsV { dragging: None, ..app.screens.collections }).persist();
        assert(saved.selected_known_host() == app.selected_known_host());
        lemma_regroup_keeps_fits(saved, s);
        let dropped = app.commit_collection_drag(now);
        assert(dropped.library == saved.regroup_games().library);
        assert(dropped.hosts == app.hosts);
    }
    let closed = app.close_collections(now);
    let dropped = app.commit_collection_drag(now);
    assert(closed.library == dropped.library);
    assert(closed.hosts == dropped.hosts);
}

/// A grid with room for a shelf fits once that shelf is there.
proof fn lemma_shelf_fits(app: AppV, pos: int, name: Seq<char>, s: GridShape)
    requires
        app.grid_room(s),
        app.selected_pos() == Some(pos),
    ensures
        app.with_shelf(pos, name).grid_fits(s),
        app.with_shelf(pos, name).selected_pos() == Some(pos),
{
    let at = app.library.selected_host->0;
    let h = app.hosts.known[pos];
    crate::seqs::lemma_first_from(app.hosts.known, crate::hosts::host_is(at.host, at.port), 0);
    let made = app.with_shelf(pos, name);
    assert(made.hosts.known == app.hosts.known.update(pos, h.add_collection(name)));
    crate::seqs::lemma_first_is(made.hosts.known, crate::hosts::host_is(at.host, at.port), pos);
}

fn shelf_button(dynamic: bool, i: usize) -> (r: Option<ShelfButton>)
    ensures
        match r {
            Some(b) => i < shelf_buttons(dynamic).len() && b == shelf_buttons(dynamic)[i as int],
            None => i >= shelf_buttons(dynamic).len(),
        },
{
    if i == 0 {
        Some(ShelfButton::Rename)
    } else if i == 1 && !dynamic {
        Some(ShelfButton::Remove)
    } else {
        None
    }
}

impl App {
    fn holding_row(&self, pin_id: &str) -> (r: usize)
        ensures
            r == self@.holding_row(pin_id@),
    {
        match self.selected_known_host() {
            Some(i) => match self.hosts.known[i].collection_of(pin_id) {
                Some(c) => c,
                None => match self.hosts.known[i].library_index() {
                    Some(c) => c,
                    None => 0,
                },
            },
            None => 0,
        }
    }

    /// Raises the collections over a card, with the cursor on the one that holds it.
    pub fn open_collections(&mut self, pin_id: &str, title: &str)
        ensures
            final(self)@ == old(self)@.open_collections(pin_id@, title@),
            final(self).wf() == old(self).wf(),
    {
        let holding: usize = self.holding_row(pin_id);
        let mut state = CollectionsState::new();
        state.target = Some(pin_id.to_owned());
        state.title = title.to_owned();
        self.screens.collections = state;
        self.screens.row_button = None;
        self.nav.enter(Screen::Collections, holding);
    }

    /// What the heading says after the title: the card being moved, and nothing of it while a row
    /// is held.
    pub fn collections_heading(&self) -> (r: Option<&str>)
        ensures
            match r {
                Some(t) => self@.screens.collections.dragging is None && t@ == self@.screens.collections.title,
                None => self@.screens.collections.dragging is Some,
            },
    {
        if self.screens.collections.dragging.is_some() {
            None
        } else {
            Some(self.screens.collections.title.as_str())
        }
    }

    /// Whether a collection holds the card that is being moved.
    pub fn collections_target_held(&self) -> (r: bool)
        ensures
            r == (self@.screens.collections.target matches Some(id) && self@.collection_of_card(id) is Some),
    {
        match &self.screens.collections.target {
            Some(id) => self.card_is_held(id.as_str()),
            None => false,
        }
    }

    fn shelves(&self) -> (r: usize)
        ensures
            r == self@.shelves(),
    {
        match self.selected_known_host() {
            Some(i) => {
                assert(self@.hosts.known[i as int].collections.len() == self.hosts.known@[i as int].collections.len());
                self.hosts.known[i].collections.len()
            },
            None => 0,
        }
    }

    /// A row for each collection and one to add another.
    pub fn collections_row_count(&self) -> (r: usize)
        requires
            self@.shelves() < usize::MAX,
        ensures
            r == self@.collections_row_count(),
    {
        let n: usize = self.shelves();
        match self.selected_known_host() {
            Some(_) => n + 1,
            None => 0,
        }
    }

    /// Whether a row's collection is the Library, `None` past the last collection.
    fn shelf_dynamic(&self, row: usize) -> (r: Option<bool>)
        ensures
            match r {
                Some(d) => row < self@.shelves() && d == self@.selected_known_host()->0.collections[row as int].dynamic
                    && self@.shelf_buttons(row) == shelf_buttons(d),
                None => row >= self@.shelves() && self@.shelf_buttons(row) == Seq::<ShelfButton>::empty(),
            },
    {
        match self.selected_known_host() {
            Some(i) => {
                let h = &self.hosts.known[i];
                assert(self@.hosts.known[i as int] == h@);
                if row < h.collections.len() {
                    assert(h@.collections[row as int] == h.collections@[row as int]@);
                    Some(h.collections[row].dynamic)
                } else {
                    None
                }
            },
            None => None,
        }
    }

    /// Drops the held row.
    pub fn commit_collection_drag(&mut self, now: u64)
        ensures
            final(self)@ == old(self)@.commit_collection_drag(now),
            final(self).wf() == old(self).wf(),
    {
        if self.screens.collections.dragging.is_none() {
            return;
        }
        self.screens.collections.dragging = None;
        self.persist();
        self.regroup_games();
        self.modal_focus_anim = Some(now);
    }

    /// Leaves the collections and the submenu behind them together.
    pub fn close_collections(&mut self, now: u64)
        ensures
            final(self)@ == old(self)@.close_collections(now),
            final(self).wf() == old(self).wf(),
    {
        self.commit_collection_drag(now);
        self.screens.collections = CollectionsState::new();
        self.screens.row_button = None;
        self.close_card_menu();
        self.nav.screen = Screen::Home;
    }

    /// Raises the name form: on a collection to rename it, on none to name a new one.
    pub fn open_name_collection(&mut self, at: Option<usize>)
        ensures
            final(self)@ == old(self)@.open_name_collection(at),
            final(self).wf() == old(self).wf(),
    {
        let mut existing: String = String::new();
        match (at, self.selected_known_host()) {
            (Some(i), Some(k)) => {
                let h = &self.hosts.known[k];
                assert(self@.hosts.known[k as int] == h@);
                if i < h.collections.len() {
                    assert(h@.collections[i as int] == h.collections@[i as int]@);
                    existing = h.collections[i].name.clone();
                }
            },
            _ => {},
        }
        self.screens.collections.renaming = at;
        self.screens.collections.name = existing;
        self.nav.screen = Screen::RenameCollection;
    }

    /// Raises the remove dialog over the list, focused on Cancel.
    pub fn open_remove_collection(&mut self, at: usize)
        ensures
            final(self)@ == old(self)@.open_remove_collection(at),
            final(self).wf() == old(self).wf(),
    {
        self.screens.collections.removing = Some(at);
        self.nav.enter(Screen::RemoveCollection, 1);
    }

    fn press_shelf_button(&mut self, row: usize, button: RowButton, now: u64)
        ensures
            final(self)@ == old(self)@.press_shelf_button(row, button, now),
            final(self).wf() == old(self).wf(),
    {
        match button {
            RowButton::Leading => {
                self.screens.collections.dragging = Some(row);
                self.modal_focus_anim = Some(now);
            },
            RowButton::Trailing(i) => match self.shelf_dynamic(row) {
                Some(dynamic) => match shelf_button(dynamic, i) {
                    Some(ShelfButton::Rename) => {
                        self.open_name_collection(Some(row));
                    },
                    Some(ShelfButton::Remove) => {
                        self.open_remove_collection(row);
                    },
                    None => {},
                },
                None => {},
            },
        }
    }

    fn move_target(&mut self, target: &str, row: usize, s: GridShape, now: u64)
        requires
            old(self).wf(),
            old(self)@.grid_fits(s),
            time_fits(now),
            row < old(self)@.shelves(),
        ensures
            final(self)@ == old(self)@.move_target(target@, row, s, now),
            final(self).wf(),
    {
        let (dynamic, name): (bool, String) = match self.selected_known_host() {
            Some(i) => {
                let h = &self.hosts.known[i];
                assert(self@.hosts.known[i as int] == h@);
                assert(h@.collections[row as int] == h.collections@[row as int]@);
                (h.collections[row].dynamic, h.collections[row].name.clone())
            },
            None => {
                return;
            },
        };
        // The Library is "in no collection", so it commits as none.
        let to: Option<usize> = if dynamic {
            None
        } else {
            Some(row)
        };
        let told = join3(self.screens.collections.title.as_str(), " added to ", name.as_str());
        proof {
            lemma_close_fits(self@, s, now);
        }
        self.close_collections(now);
        if self.move_card(target, to, s, now) {
            self.toast(told);
        }
    }

    /// Confirms the focused row: one of its buttons, or the move it stands for.
    pub fn confirm_collections_row(&mut self, s: GridShape, now: u64)
        requires
            old(self).wf(),
            old(self)@.grid_fits(s),
            time_fits(now),
        ensures
            final(self)@ == old(self)@.confirm_collections_row(s, now),
            final(self).wf(),
    {
        let row: usize = self.nav.cursor(Screen::Collections);
        match self.screens.row_button {
            Some(button) => {
                self.press_shelf_button(row, button, now);
                return;
            },
            None => {},
        }
        let target: String = match &self.screens.collections.target {
            Some(t) => t.clone(),
            None => {
                return;
            },
        };
        if self.selected_known_host().is_none() {
            return;
        }
        if row < self.shelves() {
            self.move_target(target.as_str(), row, s, now);
        } else {
            self.open_name_collection(None);
        }
    }

    fn carry(&mut self, from: usize, to: usize, now: u64)
        requires
            old(self)@.screens.collections.dragging == Some(from),
        ensures
            final(self)@ == ({
                let carried = old(self)@.reorder_selected(from, to).with_collections(
                    CollectionsV { dragging: Some(to), ..old(self)@.screens.collections },
                );
                (AppV { nav: carried.nav.set_cursor(Screen::Collections, to), ..carried }).refocus(now)
            }),
            final(self).wf() == old(self).wf(),
    {
        match self.selected_known_host() {
            Some(i) => {
                let ghost before = self.hosts.known@;
                self.hosts.known[i].reorder_collection(from, to);
                assert(host_views(self.hosts.known@) =~= host_views(before).update(
                    i as int,
                    before[i as int]@.reorder_collection(from, to),
                ));
            },
            None => {},
        }
        self.screens.collections.dragging = Some(to);
        self.nav.set_cursor(Screen::Collections, to);
        self.modal_focus_anim = Some(now);
    }

    fn drag_to(&self, at: usize, up: bool) -> (r: Option<usize>)
        ensures
            r == self@.drag_to(
                at,
                if up {
                    MenuEvent::Up
                } else {
                    MenuEvent::Down
                },
            ),
    {
        let count: usize = self.shelves();
        if up {
            if at > 0 && at - 1 < count {
                Some(at - 1)
            } else {
                None
            }
        } else if at < count && at + 1 < count {
            Some(at + 1)
        } else {
            None
        }
    }

    fn drag_collection_event(&mut self, ev: MenuEvent, now: u64)
        ensures
            final(self)@ == old(self)@.drag_collection_event(ev, now),
            final(self).wf() == old(self).wf(),
    {
        let at: usize = match self.screens.collections.dragging {
            Some(at) => at,
            None => {
                return;
            },
        };
        let up: bool = match ev {
            MenuEvent::Up => true,
            MenuEvent::Down => false,
            _ => {
                self.commit_collection_drag(now);
                return;
            },
        };
        match self.drag_to(at, up) {
            Some(to) => {
                self.carry(at, to, now);
            },
            None => {
                // Nowhere further to go: "it stopped" and "it ignored me" stay tellable apart.
                self.flags.set(Flag::PressArmed, true);
            },
        }
    }

    fn shelf_ends(&self, row: usize) -> (r: (bool, usize))
        ensures
            r.0 == (row < self@.shelves()),
            r.1 == self@.shelf_buttons(row).len(),
    {
        match self.shelf_dynamic(row) {
            Some(dynamic) => (
                true,
                if dynamic {
                    1
                } else {
                    2
                },
            ),
            None => (false, 0),
        }
    }

    /// What row `row` of the open list carries at its ends: whether it can be picked up, and how
    /// many buttons stand at its right.
    pub fn row_buttons(&self, row: usize) -> (r: (bool, usize))
        ensures
            r.0 == self@.row_ends(row).0,
            r.1 == self@.row_ends(row).1,
    {
        match self.nav.screen {
            Screen::HdrCalibration => (false, 1),
            Screen::Collections => self.shelf_ends(row),
            _ => (false, 0),
        }
    }

    /// Steps focus along the focused row's buttons, `false` when there is nowhere left to step.
    pub fn step_row_button(&mut self, forward: bool) -> (r: bool)
        ensures
            match old(self)@.step_row_button(forward) {
                Some(next) => r && final(self)@ == next,
                None => !r && final(self)@ == old(self)@,
            },
            final(self).wf() == old(self).wf(),
    {
        let row: usize = self.nav.cursor(self.nav.screen);
        let (leading, trailing): (bool, usize) = self.row_buttons(row);
        self.step_among(forward, leading, trailing)
    }

    fn step_shelf_button(&mut self, forward: bool)
        ensures
            final(self)@ == old(self)@.step_shelf_button(forward),
            final(self).wf() == old(self).wf(),
    {
        let row: usize = self.nav.cursor(Screen::Collections);
        let (leading, trailing): (bool, usize) = self.shelf_ends(row);
        self.step_among(forward, leading, trailing);
    }

    /// Handles one event on the collections.
    pub fn handle_collections_event(&mut self, ev: MenuEvent, s: GridShape, now: u64)
        requires
            old(self).wf(),
            old(self)@.grid_room(s),
            time_fits(now),
        ensures
            final(self)@ == old(self)@.handle_collections_event(ev, s, now),
            final(self).wf(),
    {
        proof {
            reveal(AppV::handle_collections_event);
        }
        if self.screens.collections.dragging.is_some() {
            self.drag_collection_event(ev, now);
            return;
        }
        proof {
            lemma_shelves_small(self@, s);
        }
        let rows: usize = self.collections_row_count();
        if self.list_nav_event(rows, ev, now) {
            return;
        }
        match ev {
            MenuEvent::Confirm => {
                self.confirm_collections_row(s, now);
            },
            MenuEvent::Back => {
                self.close_collections(now);
            },
            MenuEvent::Secondary => {
                self.close_collections(now);
            },
            MenuEvent::Left => {
                self.step_shelf_button(false);
            },
            MenuEvent::Right => {
                self.step_shelf_button(true);
            },
            _ => {},
        }
    }

    /// Types one character of the name.
    pub fn enter_collection_name_char(&mut self, c: char)
        ensures
            final(self)@ == old(self)@.with_shelf_name(
                typed(old(self)@.screens.collections.name, c, MAX_COLLECTION_NAME),
            ),
            final(self).wf() == old(self).wf(),
    {
        type_char(&mut self.screens.collections.name, c, MAX_COLLECTION_NAME);
    }

    /// Why the typed name is refused, `None` while it is not.
    pub fn collection_name_hint(&self) -> (r: Option<NameRefusal>)
        ensures
            r == self@.collection_name_hint(),
    {
        let name = trim(self.screens.collections.name.as_str());
        self.collection_name_refusal(name.as_str())
    }

    /// Why a trimmed name is refused to the collection being named, `None` where it is fine.
    pub fn collection_name_refusal(&self, name: &str) -> (r: Option<NameRefusal>)
        ensures
            r == self@.collection_name_refusal(name@),
    {
        match self.selected_known_host() {
            Some(i) => {
                if name.unicode_len() == 0 {
                    Some(NameRefusal::Empty)
                } else if self.hosts.known[i].can_name(self.screens.collections.renaming, name) {
                    None
                } else {
                    Some(NameRefusal::Taken)
                }
            },
            None => None,
        }
    }

    fn rename_shelf(&mut self, pos: usize, at: usize, name: &str)
        requires
            old(self)@.selected_pos() == Some(pos as int),
            pos < old(self).hosts.known.len(),
        ensures
            final(self)@ == old(self)@.rename_shelf(pos as int, at, name@),
            final(self).wf() == old(self).wf(),
    {
        let ghost before = self.hosts.known@;
        self.hosts.known[pos].rename_collection(at, name);
        assert(host_views(self.hosts.known@) =~= host_views(before).update(
            pos as int,
            before[pos as int]@.rename_collection(at, name@),
        ));
        self.persist();
        self.regroup_games();
        self.nav.screen = Screen::Collections;
    }

    fn make_shelf(&mut self, pos: usize, name: &str) -> (r: usize)
        requires
            old(self)@.selected_pos() == Some(pos as int),
            pos < old(self).hosts.known.len(),
            old(self)@.hosts.known[pos as int].can_name(None, name@),
            old(self)@.hosts.known[pos as int].collections.len() < usize::MAX,
        ensures
            final(self)@ == old(self)@.with_shelf(pos as int, name@),
            r == old(self)@.hosts.known[pos as int].collections.len(),
            final(self).wf() == old(self).wf(),
    {
        let ghost before = self.hosts.known@;
        assert(self@.hosts.known[pos as int] == before[pos as int]@);
        let added: usize = match self.hosts.known[pos].add_collection(name) {
            Some(k) => k,
            None => 0,
        };
        assert(host_views(self.hosts.known@) =~= host_views(before).update(
            pos as int,
            before[pos as int]@.add_collection(name@),
        ));
        self.persist();
        added
    }

    fn add_shelf(&mut self, pos: usize, name: &str, s: GridShape, now: u64)
        requires
            old(self).wf(),
            old(self)@.grid_room(s),
            time_fits(now),
            old(self)@.selected_pos() == Some(pos as int),
            pos < old(self).hosts.known.len(),
            old(self)@.hosts.known[pos as int].can_name(None, name@),
        ensures
            final(self)@ == old(self)@.add_shelf(pos as int, name@, s, now),
            final(self).wf(),
    {
        proof {
            lemma_shelves_small(self@, s);
            lemma_shelf_fits(self@, pos as int, name@, s);
        }
        let added: usize = self.make_shelf(pos, name);
        let target: String = match &self.screens.collections.target {
            Some(t) => t.clone(),
            None => {
                self.nav.enter(Screen::Collections, added);
                return;
            },
        };
        let told = join3(self.screens.collections.title.as_str(), " added to ", name);
        proof {
            lemma_close_fits(self@, s, now);
        }
        self.close_collections(now);
        self.move_card(target.as_str(), Some(added), s, now);
        self.toast(told);
    }

    /// Commits the typed name: renames the collection the form was opened on, or makes one and
    /// moves the held card straight into it.
    pub fn confirm_collection_name(&mut self, s: GridShape, now: u64)
        requires
            old(self).wf(),
            old(self)@.grid_room(s),
            time_fits(now),
        ensures
            final(self)@ == old(self)@.confirm_collection_name(s, now),
            final(self).wf(),
    {
        let name = trim(self.screens.collections.name.as_str());
        self.name_collection(name.as_str(), s, now);
    }

    /// Commits a trimmed name: renames the collection being named, or makes a new one. A refused
    /// name changes nothing.
    pub fn name_collection(&mut self, name: &str, s: GridShape, now: u64)
        requires
            old(self).wf(),
            old(self)@.grid_room(s),
            time_fits(now),
        ensures
            final(self)@ == old(self)@.name_collection(name@, s, now),
            final(self).wf(),
    {
        let at: Option<usize> = self.screens.collections.renaming;
        let pos: usize = match self.selected_known_host() {
            Some(pos) => pos,
            None => {
                return;
            },
        };
        if !self.hosts.known[pos].can_name(at, name) {
            return;
        }
        match at {
            Some(i) => {
                self.rename_shelf(pos, i, name);
            },
            None => {
                self.add_shelf(pos, name, s, now);
            },
        }
    }

    /// Handles one event on the name form. Left erases.
    pub fn handle_name_collection_event(&mut self, ev: MenuEvent, s: GridShape, now: u64)
        requires
            old(self).wf(),
            old(self)@.grid_room(s),
            time_fits(now),
        ensures
            final(self)@ == old(self)@.handle_name_collection_event(ev, s, now),
            final(self).wf(),
    {
        proof {
            reveal(AppV::handle_name_collection_event);
        }
        match ev {
            MenuEvent::Left => {
                erase(&mut self.screens.collections.name);
            },
            MenuEvent::Confirm => {
                self.confirm_collection_name(s, now);
            },
            MenuEvent::Back => {
                self.nav.screen = Screen::Collections;
            },
            MenuEvent::Secondary => {
                self.nav.screen = Screen::Collections;
            },
            _ => {},
        }
    }

    /// The collection the remove dialog asks about: its name, and how many games come back to the
    /// Library with it.
    pub fn removed_collection(&self) -> (r: Option<(String, usize)>)
        ensures
            match r {
                Some((name, games)) => self@.screens.collections.removing matches Some(at) && at < self@.shelves()
                    && name@ == self@.selected_known_host()->0.collections[at as int].name && games
                    == self@.selected_known_host()->0.collections[at as int].games.len(),
                None => self@.screens.collections.removing matches Some(at) ==> at >= self@.shelves(),
            },
    {
        match (self.screens.collections.removing, self.selected_known_host()) {
            (Some(at), Some(i)) => {
                let h = &self.hosts.known[i];
                assert(self@.hosts.known[i as int] == h@);
                if at < h.collections.len() {
                    assert(h@.collections[at as int] == h.collections@[at as int]@);
                    let c: &Collection = &h.collections[at];
                    Some((c.name.clone(), c.games.len()))
                } else {
                    None
                }
            },
            _ => None,
        }
    }

    fn remove_shelf(&mut self)
        ensures
            final(self)@ == old(self)@.remove_shelf(),
            final(self).wf() == old(self).wf(),
    {
        match (self.screens.collections.removing, self.selected_known_host()) {
            (Some(at), Some(pos)) => {
                let ghost before = self.hosts.known@;
                let gone: bool = self.hosts.known[pos].remove_collection(at);
                assert(host_views(self.hosts.known@) =~= host_views(before).update(
                    pos as int,
                    before[pos as int]@.remove_collection(at),
                ));
                if gone {
                    self.persist();
                    self.regroup_games();
                } else {
                    assert(host_views(self.hosts.known@) =~= host_views(before));
                }
            },
            _ => {},
        }
    }

    fn back_to_collections(&mut self)
        requires
            old(self)@.shelves() < usize::MAX,
        ensures
            final(self)@ == old(self)@.back_to_collections(),
            final(self).wf() == old(self).wf(),
    {
        let n: usize = self.collections_row_count();
        let last: usize = if n > 0 {
            n - 1
        } else {
            0
        };
        let at: usize = self.nav.cursor(Screen::Collections);
        self.screens.row_button = None;
        self.nav.enter(
            Screen::Collections,
            if at < last {
                at
            } else {
                last
            },
        );
    }

    /// Handles one event on the remove dialog.
    pub fn handle_remove_collection_event(&mut self, ev: MenuEvent, now: u64)
        requires
            old(self)@.shelves() < usize::MAX,
        ensures
            final(self)@ == old(self)@.handle_remove_collection_event(ev, now),
            final(self).wf() == old(self).wf(),
    {
        proof {
            reveal(AppV::handle_remove_collection_event);
        }
        if self.confirm_nav_event(ev, now) {
            return;
        }
        match ev {
            MenuEvent::Confirm => {
                if self.nav.cursor(Screen::RemoveCollection) == 0 {
                    proof {
                        lemma_remove_shrinks(self@);
                    }
                    self.remove_shelf();
                }
                self.back_to_collections();
            },
            MenuEvent::Back => {
                self.back_to_collections();
            },
            MenuEvent::Secondary => {
                self.back_to_collections();
            },
            _ => {},
        }
    }
}

/// With room for one more shelf there are fewer than an index can count.
proof fn lemma_shelves_small(app: AppV, s: GridShape)
    requires
        app.grid_room(s),
    ensures
        app.shelves() < usize::MAX,
{
    if app.selected_known_host() is Some {
        let n = app.shelves() as int;
        let c = s.columns as int;
        assert(n + 1 <= (n + 1) * c) by (nonlinear_arith)
            requires
                c >= 1,
                n >= 0,
        ;
    }
}

/// Removing a shelf adds none.
proof fn lemma_remove_shrinks(app: AppV)
    ensures
        app.remove_shelf().shelves() <= app.shelves(),
{
    match (app.screens.collections.removing, app.selected_pos()) {
        (Some(at), Some(pos)) => if app.hosts.known[pos].removable(at) {
            let t = app.library.selected_host->0;
            crate::seqs::lemma_first_from(app.hosts.known, crate::hosts::host_is(t.host, t.port), 0);
            let h = app.hosts.known[pos];
            let cut = app.with_known(pos, h.remove_collection(at)).persist();
            crate::seqs::lemma_first_is(cut.hosts.known, crate::hosts::host_is(t.host, t.port), pos);
            assert(cut.regroup_games().hosts == cut.hosts);
            assert(cut.regroup_games().library.selected_host == cut.library.selected_host);
        },
        _ => {},
    }
}

} // verus!
