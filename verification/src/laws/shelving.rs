//! Shelves: carrying, naming, filling and removing them, and the cards on them.
use vstd::prelude::*;
use crate::app::{AppV, CardMenuV};
use crate::cardmenu::CardMenuRow;
use crate::flags::Flag;
use crate::knownhost::{holds_card, other_than, shelf_keep};
use crate::laws::{asked, document, law_selected_host_is_found, lemma_asked_last, selected_at};
use crate::library::ids_of;
use crate::model::{CollectionV, GameV, HomeFocus, HostV, MenuEvent, Screen};
use crate::recents::{played, played_from, RecentV};
use crate::scroll::GridShape;
use crate::seqs::{keep, lemma_first_from, lemma_first_is, lemma_keep};
use crate::slots::{CollectionsV, EffectV, ProfilePickV, RowButton};

verus! {

/// What a step of a carried row leaves as it was: everything but the order of the selected host's shelves.
pub open spec fn only_shelves_moved(app: AppV, after: AppV, i: int) -> bool {
    &&& after.hosts.known.len() == app.hosts.known.len()
    &&& forall|j: int| 0 <= j < app.hosts.known.len() && j != i ==> after.hosts.known[j] == app.hosts.known[j]
    &&& after.hosts.known[i] == (HostV { collections: after.hosts.known[i].collections, ..app.hosts.known[i] })
    &&& after.hosts.known[i].collections.len() == app.hosts.known[i].collections.len()
    &&& after.library == app.library
    &&& after.effects == app.effects
    &&& after.nav.screen == app.nav.screen
}

/// A carried row goes up by one: it and the row above it change places, the row stays in hand and under the
/// cursor, and no other row moves.
pub proof fn law_carried_row_goes_up(app: AppV, i: int, at: usize, s: GridShape, now: u64)
    requires
        selected_at(app, i),
        app.screens.collections.dragging == Some(at),
        0 < at < app.hosts.known[i].collections.len(),
        app.nav.cursors.len() == 20,
    ensures
        ({
            let was = app.hosts.known[i].collections;
            let after = app.handle_collections_event(MenuEvent::Up, s, now);
            let held = after.hosts.known[i].collections;
            &&& after.screens.collections == (CollectionsV {
                dragging: Some((at - 1) as usize),
                ..app.screens.collections
            })
            &&& after.nav.cursors.len() == 20
            &&& after.nav.cursor(Screen::Collections) == at - 1
            &&& held[at - 1] == was[at as int]
            &&& held[at as int] == was[at - 1]
            &&& forall|j: int| 0 <= j < was.len() && j != at && j != at - 1 ==> #[trigger] held[j] == was[j]
            &&& only_shelves_moved(app, after, i)
        }),
{
    assert(app.handle_collections_event(MenuEvent::Up, s, now) == app.drag_collection_event(MenuEvent::Up, now))
        by {
        reveal(AppV::handle_collections_event);
    }
    law_selected_host_is_found(app, i);
}

/// A carried row goes down by one, as it goes up.
pub proof fn law_carried_row_goes_down(app: AppV, i: int, at: usize, s: GridShape, now: u64)
    requires
        selected_at(app, i),
        app.screens.collections.dragging == Some(at),
        at < usize::MAX,
        at + 1 < app.hosts.known[i].collections.len(),
        app.nav.cursors.len() == 20,
    ensures
        ({
            let was = app.hosts.known[i].collections;
            let after = app.handle_collections_event(MenuEvent::Down, s, now);
            let held = after.hosts.known[i].collections;
            &&& after.screens.collections == (CollectionsV {
                dragging: Some((at + 1) as usize),
                ..app.screens.collections
            })
            &&& after.nav.cursors.len() == 20
            &&& after.nav.cursor(Screen::Collections) == at + 1
            &&& held[at + 1] == was[at as int]
            &&& held[at as int] == was[at + 1]
            &&& forall|j: int| 0 <= j < was.len() && j != at && j != at + 1 ==> #[trigger] held[j] == was[j]
            &&& only_shelves_moved(app, after, i)
        }),
{
    assert(app.handle_collections_event(MenuEvent::Down, s, now) == app.drag_collection_event(MenuEvent::Down, now))
        by {
        reveal(AppV::handle_collections_event);
    }
    law_selected_host_is_found(app, i);
}

/// A row that is carried one way and back is where it was, in hand, and so is every other.
pub proof fn law_carried_row_comes_back(app: AppV, i: int, at: usize, s: GridShape, now: u64)
    requires
        selected_at(app, i),
        app.screens.collections.dragging == Some(at),
        at < app.hosts.known[i].collections.len() <= usize::MAX,
        app.nav.cursors.len() == 20,
    ensures
        at > 0 ==> ({
            let there = app.handle_collections_event(MenuEvent::Up, s, now);
            let back = there.handle_collections_event(MenuEvent::Down, s, now);
            back.hosts.known == app.hosts.known && back.screens.collections == app.screens.collections
        }),
        at + 1 < app.hosts.known[i].collections.len() ==> ({
            let there = app.handle_collections_event(MenuEvent::Down, s, now);
            let back = there.handle_collections_event(MenuEvent::Up, s, now);
            back.hosts.known == app.hosts.known && back.screens.collections == app.screens.collections
        }),
{
    let was = app.hosts.known[i].collections;
    if at > 0 {
        let there = app.handle_collections_event(MenuEvent::Up, s, now);
        law_carried_row_goes_up(app, i, at, s, now);
        lemma_still_selected(app, there, i);
        law_carried_row_goes_down(there, i, (at - 1) as usize, s, now);
        let back = there.handle_collections_event(MenuEvent::Down, s, now);
        assert(back.hosts.known[i].collections =~= was);
        assert(back.hosts.known =~= app.hosts.known);
    }
    if at + 1 < was.len() {
        let there = app.handle_collections_event(MenuEvent::Down, s, now);
        law_carried_row_goes_down(app, i, at, s, now);
        lemma_still_selected(app, there, i);
        law_carried_row_goes_up(there, i, (at + 1) as usize, s, now);
        let back = there.handle_collections_event(MenuEvent::Up, s, now);
        assert(back.hosts.known[i].collections =~= was);
        assert(back.hosts.known =~= app.hosts.known);
    }
}

/// Shelves can change without the selected host becoming another.
proof fn lemma_still_selected(app: AppV, after: AppV, i: int)
    requires
        selected_at(app, i),
        only_shelves_moved(app, after, i),
    ensures
        selected_at(after, i),
{
    let at = app.library.selected_host->0;
    assert forall|j: int| 0 <= j < i implies !((#[trigger] after.hosts.known[j]).addr == at.host
        && after.hosts.known[j].port == at.port) by {
        assert(after.hosts.known[j] == app.hosts.known[j]);
    }
}

/// The first row goes no higher and the last no lower.
pub proof fn law_carried_row_stops_at_the_ends(app: AppV, i: int, at: usize, s: GridShape, now: u64)
    requires
        selected_at(app, i),
        app.screens.collections.dragging == Some(at),
    ensures
        at == 0 ==> ({
            let after = app.handle_collections_event(MenuEvent::Up, s, now);
            after.hosts == app.hosts && after.screens == app.screens && after.nav == app.nav && after.effects
                == app.effects
        }),
        at + 1 == app.hosts.known[i].collections.len() ==> ({
            let after = app.handle_collections_event(MenuEvent::Down, s, now);
            after.hosts == app.hosts && after.screens == app.screens && after.nav == app.nav && after.effects
                == app.effects
        }),
{
    reveal(AppV::handle_collections_event);
    law_selected_host_is_found(app, i);
}

/// Any other key puts the row down where it is, and the order is written.
pub proof fn law_carried_row_is_put_down(app: AppV, i: int, ev: MenuEvent, s: GridShape, now: u64)
    requires
        selected_at(app, i),
        app.screens.collections.dragging is Some,
        ev != MenuEvent::Up,
        ev != MenuEvent::Down,
    ensures
        ({
            let after = app.handle_collections_event(ev, s, now);
            &&& after.screens.collections.dragging is None
            &&& after.effects == app.effects.push(EffectV::Save(document(app)))
            &&& after.hosts == app.hosts
            &&& after.nav == app.nav
            &&& after.screens.collections.target == app.screens.collections.target
        }),
{
    reveal(AppV::handle_collections_event);
    law_selected_host_is_found(app, i);
}

/// A shelf's handle takes its row up, its first button names it, and its second asks whether to remove it:
/// the Library has no second.
pub proof fn law_shelf_buttons(app: AppV, i: int, s: GridShape, now: u64)
    requires
        selected_at(app, i),
        app.screens.collections.dragging is None,
        app.nav.cursor(Screen::Collections) < app.hosts.known[i].collections.len(),
        app.nav.cursors.len() == 20,
    ensures
        ({
            let row = app.nav.cursor(Screen::Collections);
            let c = app.hosts.known[i].collections[row as int];
            let after = app.handle_collections_event(MenuEvent::Confirm, s, now);
            &&& app.screens.row_button == Some(RowButton::Leading) ==> after.screens.collections.dragging == Some(row)
                && after.hosts == app.hosts && after.effects == app.effects && after.nav == app.nav
            &&& app.screens.row_button == Some(RowButton::Trailing(0)) ==> after.nav.screen == Screen::RenameCollection
                && after.screens.collections.renaming == Some(row) && after.screens.collections.name == c.name
                && after.hosts == app.hosts && after.effects == app.effects
            &&& (app.screens.row_button == Some(RowButton::Trailing(1)) && !c.dynamic) ==> after.nav.screen
                == Screen::RemoveCollection && after.screens.collections.removing == Some(row) && after.nav.cursor(
                Screen::RemoveCollection,
            ) == 1 && after.hosts == app.hosts && after.effects == app.effects
            &&& (app.screens.row_button == Some(RowButton::Trailing(1)) && c.dynamic) ==> after == app
        }),
{
    assert(app.handle_collections_event(MenuEvent::Confirm, s, now) == app.confirm_collections_row(s, now)) by {
        reveal(AppV::handle_collections_event);
    }
    law_selected_host_is_found(app, i);
}

/// Moving a card touches no other card: it leaves every shelf it was on, joins the end of the one it was
/// moved to, and each other card is on the shelves it was on.
pub proof fn law_move_touches_one_card(h: HostV, id: Seq<char>, to: Option<usize>, k: int, other: Seq<char>)
    requires
        0 <= k < h.collections.len(),
        to matches Some(t) ==> t < h.collections.len() && !h.collections[t as int].dynamic,
    ensures
        ({
            let m = h.move_to(id, to);
            &&& m.collections.len() == h.collections.len()
            &&& m.collections[k].name == h.collections[k].name
            &&& m.collections[k].dynamic == h.collections[k].dynamic
            &&& m.collections[k].games.contains(id) <==> to == Some(k as usize) && k <= usize::MAX
            &&& to == Some(k as usize) && k <= usize::MAX ==> m.collections[k].games.last() == id
            &&& other != id ==> (m.collections[k].games.contains(other) <==> h.collections[k].games.contains(other))
            &&& m == (HostV { collections: m.collections, ..h })
        }),
{
    lemma_keep(h.collections[k].games, other_than(id));
    let off = crate::knownhost::shelves_keep(h.collections, other_than(id));
    assert(off[k] == shelf_keep(h.collections[k], other_than(id)));
    let kept = keep(h.collections[k].games, other_than(id));
    let m = h.move_to(id, to);
    if to == Some(k as usize) && k <= usize::MAX {
        let g = m.collections[k].games;
        assert(g == kept.push(id));
        assert(g[kept.len() as int] == id);
        if kept.contains(other) {
            let p = choose|p: int| 0 <= p < kept.len() && kept[p] == other;
            assert(g[p] == other);
        }
        if g.contains(other) && other != id {
            let p = choose|p: int| 0 <= p < g.len() && g[p] == other;
            assert(kept[p] == other);
        }
    } else {
        assert(m.collections[k] == off[k]);
    }
}

/// A card that is moved is on the shelf it was moved to and on no other; the record is written, and no
/// other card and no other host is touched.
pub proof fn law_card_moves(
    app: AppV,
    i: int,
    id: Seq<char>,
    to: Option<usize>,
    k: int,
    other: Seq<char>,
    s: GridShape,
    now: u64,
)
    requires
        selected_at(app, i),
        0 <= k < app.hosts.known[i].collections.len(),
        app.hosts.known[i].collections.len() <= usize::MAX,
        to matches Some(t) ==> t < app.hosts.known[i].collections.len()
            && !app.hosts.known[i].collections[t as int].dynamic,
        app.moves_card(id, to),
    ensures
        ({
            let after = app.move_card(id, to, s, now);
            let was = app.hosts.known[i];
            let h = after.hosts.known[i];
            &&& h.collections.len() == was.collections.len()
            &&& h.collections[k].name == was.collections[k].name
            &&& h.collections[k].games.contains(id) <==> to == Some(k as usize)
            &&& other != id ==> (h.collections[k].games.contains(other) <==> was.collections[k].games.contains(other))
            &&& h == (HostV { collections: h.collections, ..was })
            &&& forall|j: int| 0 <= j < app.hosts.known.len() && j != i ==> after.hosts.known[j] == app.hosts.known[j]
            &&& asked(app, after, EffectV::Save(document(after)))
        }),
{
    law_selected_host_is_found(app, i);
    law_move_touches_one_card(app.hosts.known[i], id, to, k, other);
    let after = app.move_card(id, to, s, now);
    let put = app.rehomed(i, id, to);
    assert(put.effects.last() == EffectV::Save(document(put)));
    assert(after.effects == put.effects);
    lemma_asked_last(app, after, EffectV::Save(document(after)));
}

/// A card is told to move only where that changes something: it is on another shelf, or on one where it
/// should be on none.
pub proof fn law_when_a_card_moves(app: AppV, i: int, id: Seq<char>, to: Option<usize>, c: int)
    requires
        selected_at(app, i),
        app.hosts.known[i].collections.len() <= usize::MAX,
        0 <= c < app.hosts.known[i].collections.len(),
        !app.hosts.known[i].collections[c].dynamic,
        app.hosts.known[i].collections[c].games.contains(id),
        forall|k: int|
            0 <= k < c ==> (#[trigger] app.hosts.known[i].collections[k]).dynamic
                || !app.hosts.known[i].collections[k].games.contains(id),
    ensures
        app.moves_card(id, to) <==> to != Some(c as usize),
        app.collection_of_card(id) == Some(c),
{
    law_selected_host_is_found(app, i);
    lemma_first_is(app.hosts.known[i].collections, holds_card(id), c);
}

/// Choosing a shelf for the card in hand puts it there, closes the list, and says which card went where;
/// choosing the Library takes it off every shelf.
pub proof fn law_shelf_takes_the_card(app: AppV, i: int, id: Seq<char>, k: int, s: GridShape, now: u64)
    requires
        selected_at(app, i),
        app.hosts.known[i].collections.len() <= usize::MAX,
        app.screens.collections.dragging is None,
        app.screens.row_button is None,
        app.screens.collections.target == Some(id),
        app.nav.cursor(Screen::Collections) < app.hosts.known[i].collections.len(),
        0 <= k < app.hosts.known[i].collections.len(),
        app.card_menu is None,
    ensures
        ({
            let row = app.nav.cursor(Screen::Collections);
            let c = app.hosts.known[i].collections[row as int];
            let to = if c.dynamic {
                None
            } else {
                Some(row)
            };
            let after = app.handle_collections_event(MenuEvent::Confirm, s, now);
            &&& after.nav.screen == Screen::Home
            &&& after.screens.collections.target is None
            &&& app.moves_card(id, to) ==> {
                &&& after.hosts.known[i].collections[k].games.contains(id) <==> !c.dynamic && k == row
                &&& after.toast == Some(app.screens.collections.title + " added to "@ + c.name)
                &&& asked(app, after, EffectV::Save(document(after)))
            }
            &&& !app.moves_card(id, to) ==> after.hosts.known == app.hosts.known && after.toast == app.toast
                && after.effects == app.effects
        }),
{
    assert(app.handle_collections_event(MenuEvent::Confirm, s, now) == app.confirm_collections_row(s, now)) by {
        reveal(AppV::handle_collections_event);
    }
    law_selected_host_is_found(app, i);
    let row = app.nav.cursor(Screen::Collections);
    let c = app.hosts.known[i].collections[row as int];
    let to = if c.dynamic {
        None
    } else {
        Some(row)
    };
    let closed = app.close_collections(now);
    assert(selected_at(closed, i));
    assert(closed.moves_card(id, to) == app.moves_card(id, to));
    if app.moves_card(id, to) {
        law_card_moves(closed, i, id, to, k, id, s, now);
        let moved = closed.move_card(id, to, s, now);
        let after = app.handle_collections_event(MenuEvent::Confirm, s, now);
        let m = choose|m: int|
            closed.effects.len() <= m < moved.effects.len() && moved.effects[m] == EffectV::Save(document(moved));
        assert(after.effects[m] == EffectV::Save(document(after)));
    }
}

/// The row below the shelves makes a new one: it opens on an empty name.
pub proof fn law_new_shelf_is_named_first(app: AppV, i: int, s: GridShape, now: u64)
    requires
        selected_at(app, i),
        app.screens.collections.dragging is None,
        app.screens.row_button is None,
        app.screens.collections.target is Some,
        app.nav.cursor(Screen::Collections) >= app.hosts.known[i].collections.len(),
    ensures
        ({
            let after = app.handle_collections_event(MenuEvent::Confirm, s, now);
            &&& after.nav.screen == Screen::RenameCollection
            &&& after.screens.collections.renaming is None
            &&& after.screens.collections.name.len() == 0
            &&& after.screens.collections.target == app.screens.collections.target
            &&& after.hosts == app.hosts
            &&& after.effects == app.effects
        }),
{
    reveal(AppV::handle_collections_event);
    law_selected_host_is_found(app, i);
}

/// A shelf takes the name it is given and keeps its place, its kind and its games; no other shelf changes.
/// A name that is empty, or that another shelf has, is not taken.
pub proof fn law_shelf_is_renamed(app: AppV, i: int, at: usize, name: Seq<char>, s: GridShape, now: u64)
    requires
        selected_at(app, i),
        app.screens.collections.renaming == Some(at),
        at < app.hosts.known[i].collections.len() <= usize::MAX,
    ensures
        ({
            let was = app.hosts.known[i].collections;
            let after = app.name_collection(name, s, now);
            let held = after.hosts.known[i].collections;
            let free = name.len() > 0 && forall|k: int| 0 <= k < was.len() && k != at ==> (#[trigger] was[k]).name != name;
            &&& free ==> {
                &&& held.len() == was.len()
                &&& held[at as int] == (CollectionV { name, ..was[at as int] })
                &&& forall|k: int| 0 <= k < was.len() && k != at ==> #[trigger] held[k] == was[k]
                &&& after.effects == app.effects.push(EffectV::Save(document(after)))
                &&& after.nav.screen == Screen::Collections
            }
            &&& !free ==> after == app
        }),
{
    law_selected_host_is_found(app, i);
    let was = app.hosts.known[i].collections;
    let free = name.len() > 0 && forall|k: int| 0 <= k < was.len() && k != at ==> (#[trigger] was[k]).name != name;
    if free {
        assert(app.hosts.known[i].can_name(Some(at), name));
    } else if name.len() > 0 {
        let k = choose|k: int| 0 <= k < was.len() && k != at && (#[trigger] was[k]).name == name;
        assert(!app.hosts.known[i].can_name(Some(at), name));
    }
}

/// A new shelf stands after the others, under the name it was given and with nothing on it but the card
/// that it was made for. Every other shelf keeps its name.
pub proof fn law_shelf_is_made(app: AppV, i: int, name: Seq<char>, s: GridShape, now: u64)
    requires
        selected_at(app, i),
        app.screens.collections.renaming is None,
        app.screens.collections.dragging is None,
        app.card_menu is None,
        app.hosts.known[i].collections.len() < usize::MAX,
    ensures
        ({
            let was = app.hosts.known[i].collections;
            let after = app.name_collection(name, s, now);
            let held = after.hosts.known[i].collections;
            let free = name.len() > 0 && forall|k: int| 0 <= k < was.len() ==> (#[trigger] was[k]).name != name;
            &&& free ==> {
                &&& held.len() == was.len() + 1
                &&& held.last().name == name
                &&& !held.last().dynamic
                &&& forall|k: int|
                    0 <= k < was.len() ==> (#[trigger] held[k]).name == was[k].name && held[k].dynamic == was[k].dynamic
                &&& after.effects.len() > app.effects.len()
                &&& after.effects.last() is Save
                &&& after.effects.last()->Save_0.known_hosts == after.hosts.known
                &&& app.screens.collections.target is Some ==> {
                    &&& held.last().games =~= seq![app.screens.collections.target->0]
                    &&& forall|k: int|
                        0 <= k < was.len() ==> !(#[trigger] held[k]).games.contains(app.screens.collections.target->0)
                    &&& after.nav.screen == Screen::Home
                    &&& after.toast == Some(app.screens.collections.title + " added to "@ + name)
                }
                &&& app.screens.collections.target is None ==> {
                    &&& held.last().games.len() == 0
                    &&& forall|k: int| 0 <= k < was.len() ==> #[trigger] held[k] == was[k]
                    &&& after.nav.screen == Screen::Collections
                }
            }
            &&& !free ==> after == app
        }),
{
    law_selected_host_is_found(app, i);
    let was = app.hosts.known[i].collections;
    let free = name.len() > 0 && forall|k: int| 0 <= k < was.len() ==> (#[trigger] was[k]).name != name;
    if free {
        assert(app.hosts.known[i].can_name(None, name));
        let after = app.name_collection(name, s, now);
        match app.screens.collections.target {
            Some(id) => {
                let made = app.with_shelf(i, name).close_collections(now);
                assert(selected_at(made, i));
                law_selected_host_is_found(made, i);
                let h = made.hosts.known[i];
                let n = was.len() as int;
                assert(h.collections == was.push(CollectionV { name, dynamic: false, games: Seq::empty() }));
                assert(!h.collections[n].games.contains(id));
                lemma_first_from(h.collections, holds_card(id), 0);
                assert(made.moves_card(id, Some(n as usize)));
                law_move_touches_one_card(h, id, Some(n as usize), n, id);
                assert forall|k: int| 0 <= k < n implies !(#[trigger] after.hosts.known[i].collections[k]).games.contains(
                    id,
                ) && after.hosts.known[i].collections[k].name == was[k].name
                    && after.hosts.known[i].collections[k].dynamic == was[k].dynamic by {
                    law_move_touches_one_card(h, id, Some(n as usize), k, id);
                }
                let last = after.hosts.known[i].collections[n].games;
                assert(keep(Seq::<Seq<char>>::empty(), other_than(id)).len() == 0) by {
                    lemma_keep(Seq::<Seq<char>>::empty(), other_than(id));
                }
                assert(last =~= seq![id]);
                let put = made.rehomed(i, id, Some(n as usize));
                assert(put.effects.last() == EffectV::Save(document(put)));
                assert(after.effects == put.effects);
            },
            None => {},
        }
    } else if name.len() > 0 {
        let k = choose|k: int| 0 <= k < was.len() && (#[trigger] was[k]).name == name;
        assert(!app.hosts.known[i].can_name(None, name));
    }
}

/// Removing a shelf takes it away and nothing else, once it is confirmed; the Library cannot be removed.
pub proof fn law_shelf_is_removed(app: AppV, i: int, at: usize, now: u64)
    requires
        selected_at(app, i),
        app.screens.collections.removing == Some(at),
        at < app.hosts.known[i].collections.len(),
        app.nav.screen == Screen::RemoveCollection,
    ensures
        ({
            let was = app.hosts.known[i].collections;
            let after = app.handle_remove_collection_event(MenuEvent::Confirm, now);
            let held = after.hosts.known[i].collections;
            let sure = app.nav.cursor(Screen::RemoveCollection) == 0;
            &&& after.nav.screen == Screen::Collections
            &&& sure && !was[at as int].dynamic ==> {
                &&& held.len() == was.len() - 1
                &&& forall|k: int| 0 <= k < at ==> #[trigger] held[k] == was[k]
                &&& forall|k: int| at <= k < held.len() ==> #[trigger] held[k] == was[k + 1]
                &&& after.effects == app.effects.push(EffectV::Save(document(after)))
            }
            &&& !(sure && !was[at as int].dynamic) ==> after.hosts == app.hosts && after.effects == app.effects
            &&& app.handle_remove_collection_event(MenuEvent::Back, now).hosts == app.hosts
            &&& app.handle_remove_collection_event(MenuEvent::Back, now).nav.screen == Screen::Collections
        }),
{
    reveal(AppV::handle_remove_collection_event);
    law_selected_host_is_found(app, i);
}

/// Holding a card opens its menu over it: its own id and title, on the first row.
pub proof fn law_card_menu_is_the_cards(app: AppV, idx: usize, s: GridShape, card: GameV, now: u64)
    requires
        app.home_focus == HomeFocus::Grid(idx),
        app.library.card_at(s.columns as nat, idx as nat) == Some(card),
    ensures
        app.open_card_menu(s, now).card_menu matches Some(m) && m.pin_id == card.id && m.title == card.title && m.idx
            == idx && m.focused == 0 && !m.moved,
        app.open_card_menu(s, now).hosts == app.hosts,
        app.open_card_menu(s, now).effects == app.effects,
{
}

/// A card's menu offers to move it, and to change its settings; to take it off its shelf where it is on
/// one; and to bind a profile where there are any.
pub proof fn law_card_menu_rows(app: AppV, id: Seq<char>)
    ensures
        ({
            let rows = app.card_menu_row_kinds(id);
            let on_shelf = app.collection_of_card(id) is Some;
            let bind = app.profiles.len() > 0;
            &&& rows.len() == 2 + (if on_shelf {
                1int
            } else {
                0
            }) + (if bind {
                1int
            } else {
                0
            })
            &&& rows[0] == CardMenuRow::MoveTo
            &&& rows[rows.len() - 1] == CardMenuRow::Settings
            &&& on_shelf ==> rows[1] == CardMenuRow::Remove
            &&& bind ==> rows[rows.len() - 2] == CardMenuRow::Profile
        }),
{
}

/// Each row of a card's menu does what it says, to that card.
pub proof fn law_card_menu_row_acts(
    app: AppV,
    i: int,
    m: CardMenuV,
    row: int,
    fresh: Seq<char>,
    s: GridShape,
    now: u64,
)
    requires
        selected_at(app, i),
        app.card_menu == Some(m),
        !m.moved,
        m.focused == row,
        0 <= row < app.card_menu_row_kinds(m.pin_id).len(),
    ensures
        ({
            let kind = app.card_menu_row_kinds(m.pin_id)[row];
            let after = app.handle_card_menu_event(MenuEvent::Confirm, fresh, s, now);
            &&& kind is MoveTo ==> after.nav.screen == Screen::Collections && after.screens.collections.target == Some(
                m.pin_id,
            ) && after.screens.collections.title == m.title && after.screens.collections.dragging is None
                && after.hosts == app.hosts && after.effects == app.effects
            &&& kind is Profile ==> after.nav.screen == Screen::PickProfile && after.screens.profile_pick == Some(
                ProfilePickV::BindGame { pin_id: m.pin_id, title: m.title },
            ) && after.hosts == app.hosts && after.effects == app.effects
            &&& kind is Settings ==> after.nav.screen == Screen::SettingsPage
            &&& (kind is Remove && app.focused_pin_id(s) == Some(m.pin_id)) ==> after.card_menu is None && forall|k: int|
                0 <= k < after.hosts.known[i].collections.len() ==> !(
                #[trigger] after.hosts.known[i].collections[k]).games.contains(m.pin_id)
        }),
{
    assert(app.handle_card_menu_event(MenuEvent::Confirm, fresh, s, now) == app.card_menu_confirm(m, fresh, s, now)) by {
        reveal(AppV::handle_card_menu_event);
    }
    law_selected_host_is_found(app, i);
    let rows = app.card_menu_row_kinds(m.pin_id);
    let kind = rows[row];
    let after = app.handle_card_menu_event(MenuEvent::Confirm, fresh, s, now);
    if kind is Remove && app.focused_pin_id(s) == Some(m.pin_id) {
        let shut = app.close_card_menu();
        assert(selected_at(shut, i));
        law_selected_host_is_found(shut, i);
        assert(app.collection_of_card(m.pin_id) is Some);
        assert(shut.moves_card(m.pin_id, None));
        assert forall|k: int| 0 <= k < after.hosts.known[i].collections.len() implies !(
        #[trigger] after.hosts.known[i].collections[k]).games.contains(m.pin_id) by {
            law_move_touches_one_card(app.hosts.known[i], m.pin_id, None, k, m.pin_id);
        }
    }
}

/// A held card trades places with its neighbour on its shelf, on the record and on the screen, and the menu
/// goes with it. Nothing is written until it is put down.
pub proof fn law_held_card_trades_places(
    app: AppV,
    i: int,
    m: CardMenuV,
    c: int,
    p: int,
    forward: bool,
    s: GridShape,
    now: u64,
)
    requires
        selected_at(app, i),
        app.card_menu == Some(m),
        0 <= c < app.hosts.known[i].collections.len(),
        !app.hosts.known[i].collections[c].dynamic,
        forall|k: int|
            0 <= k < c ==> (#[trigger] app.hosts.known[i].collections[k]).dynamic
                || !app.hosts.known[i].collections[k].games.contains(m.pin_id),
        0 <= p < app.hosts.known[i].collections[c].games.len(),
        app.hosts.known[i].collections[c].games[p] == m.pin_id,
        app.hosts.known[i].collections[c].games.no_duplicates(),
        if forward {
            p + 1 < app.hosts.known[i].collections[c].games.len()
        } else {
            p > 0
        },
    ensures
        ({
            let q = if forward {
                p + 1
            } else {
                p - 1
            };
            let was = app.hosts.known[i].collections;
            let after = app.swap_card_in_collection(forward, s, now);
            let held = after.hosts.known[i].collections;
            &&& held.len() == was.len()
            &&& held[c].games.len() == was[c].games.len()
            &&& held[c].games[q] == m.pin_id
            &&& held[c].games[p] == was[c].games[q]
            &&& forall|j: int|
                0 <= j < was[c].games.len() && j != p && j != q ==> #[trigger] held[c].games[j] == was[c].games[j]
            &&& held[c].name == was[c].name
            &&& forall|k: int| 0 <= k < was.len() && k != c ==> #[trigger] held[k] == was[k]
            &&& after.effects == app.effects
            &&& after.card_menu matches Some(n) && n.pin_id == m.pin_id && n.moved
            &&& after.library.games == app.library.swap_games(m.pin_id, was[c].games[q]).games
            &&& after.close_card_menu().effects == app.effects.push(EffectV::Save(document(after)))
            &&& after.fix_card_position(now).effects == app.effects.push(EffectV::Save(document(after)))
            &&& after.fix_card_position(now).card_menu matches Some(n) && !n.moved && n.pin_id == m.pin_id
        }),
{
    law_selected_host_is_found(app, i);
    let h = app.hosts.known[i];
    let games = h.collections[c].games;
    assert(games.contains(m.pin_id));
    lemma_first_is(h.collections, holds_card(m.pin_id), c);
    games.index_of_first_ensures(m.pin_id);
    assert(games.index_of_first(m.pin_id) == Some(p));
}

/// Left and Right trade a held card only where its shelf has a neighbour that way; where it has none, the
/// press is felt and nothing moves.
pub proof fn law_end_of_the_shelf(app: AppV, m: CardMenuV, forward: bool, fresh: Seq<char>, s: GridShape, now: u64)
    requires
        app.card_menu == Some(m),
        app.swap_partner(forward) is None,
    ensures
        ({
            let ev = if forward {
                MenuEvent::Right
            } else {
                MenuEvent::Left
            };
            let after = app.handle_card_menu_event(ev, fresh, s, now);
            &&& after.flags.contains(Flag::PressArmed)
            &&& after.hosts == app.hosts
            &&& after.library == app.library
            &&& after.card_menu == app.card_menu
            &&& after.effects == app.effects
        }),
{
    let ev = if forward {
        MenuEvent::Right
    } else {
        MenuEvent::Left
    };
    assert(app.handle_card_menu_event(ev, fresh, s, now) == app.arm_press()) by {
        reveal(AppV::handle_card_menu_event);
    }
}

/// Exchanging two cards exchanges these and moves no other.
pub proof fn law_cards_exchanged(lib: crate::library::LibraryV, a: Seq<char>, b: Seq<char>, p: int, q: int)
    requires
        0 <= p < lib.games.len(),
        0 <= q < lib.games.len(),
        lib.games[p].id == a,
        lib.games[q].id == b,
        forall|j: int| 0 <= j < p ==> (#[trigger] lib.games[j]).id != a,
        forall|j: int| 0 <= j < q ==> (#[trigger] lib.games[j]).id != b,
    ensures
        lib.swap_games(a, b).games.len() == lib.games.len(),
        lib.swap_games(a, b).games[p] == lib.games[q],
        lib.swap_games(a, b).games[q] == lib.games[p],
        forall|j: int|
            0 <= j < lib.games.len() && j != p && j != q ==> #[trigger] lib.swap_games(a, b).games[j] == lib.games[j],
        lib.swap_games(a, b).groups == lib.groups,
{
    let ids = ids_of(lib.games);
    ids.index_of_first_ensures(a);
    ids.index_of_first_ensures(b);
    assert(ids[p] == a && ids[q] == b);
    assert(ids.contains(a) && ids.contains(b));
    let x = ids.index_of_first(a)->0;
    let y = ids.index_of_first(b)->0;
    assert(lib.games[x].id == a && lib.games[y].id == b);
    assert(x >= p && y >= q);
}

/// A game counts as played when its host's last record of it says, and never where there is none.
pub proof fn law_play_is_on_record(r: Seq<RecentV>, host: Seq<char>, port: u16, id: Seq<char>, i: int)
    ensures
        (0 <= i < r.len() && r[i].host == host && r[i].port == port && r[i].id == id && (forall|j: int|
            0 <= j < i ==> !((#[trigger] r[j]).host == host && r[j].port == port && r[j].id == id))) ==> played(
            r,
            host,
            port,
            id,
        ) == r[i].at,
        (forall|j: int|
            0 <= j < r.len() ==> !((#[trigger] r[j]).host == host && r[j].port == port && r[j].id == id)) ==> played(
            r,
            host,
            port,
            id,
        ) == 0,
{
    lemma_played(r, host, port, id, 0, i);
}

proof fn lemma_played(r: Seq<RecentV>, host: Seq<char>, port: u16, id: Seq<char>, from: int, i: int)
    requires
        0 <= from,
    ensures
        (from <= i < r.len() && r[i].host == host && r[i].port == port && r[i].id == id && (forall|j: int|
            from <= j < i ==> !((#[trigger] r[j]).host == host && r[j].port == port && r[j].id == id))) ==> played_from(
            r,
            host,
            port,
            id,
            from,
        ) == r[i].at,
        (forall|j: int|
            from <= j < r.len() ==> !((#[trigger] r[j]).host == host && r[j].port == port && r[j].id == id))
            ==> played_from(r, host, port, id, from) == 0,
    decreases r.len() - from,
{
    if from < r.len() && !(r[from].host == host && r[from].port == port && r[from].id == id) {
        lemma_played(r, host, port, id, from + 1, i);
    }
}

/// Moving a card opens the shelves on the one that holds it, or on the Library where none does.
pub proof fn law_shelves_open_on_the_card(app: AppV, i: int, id: Seq<char>, title: Seq<char>, c: int)
    requires
        selected_at(app, i),
        0 <= c < app.hosts.known[i].collections.len() <= usize::MAX,
        !app.hosts.known[i].collections[c].dynamic,
        app.hosts.known[i].collections[c].games.contains(id),
        forall|k: int|
            0 <= k < c ==> (#[trigger] app.hosts.known[i].collections[k]).dynamic
                || !app.hosts.known[i].collections[k].games.contains(id),
        app.nav.cursors.len() == 20,
    ensures
        ({
            let after = app.open_collections(id, title);
            &&& after.nav.screen == Screen::Collections
            &&& after.nav.cursor(Screen::Collections) == c
            &&& after.screens.collections.target == Some(id)
            &&& after.screens.collections.title == title
            &&& after.screens.row_button is None
            &&& after.hosts == app.hosts
        }),
{
    law_selected_host_is_found(app, i);
    lemma_first_is(app.hosts.known[i].collections, holds_card(id), c);
}

/// A card that no shelf holds is the Library's.
pub proof fn law_shelves_open_on_the_library(app: AppV, i: int, id: Seq<char>, title: Seq<char>, l: int)
    requires
        selected_at(app, i),
        0 <= l < app.hosts.known[i].collections.len() <= usize::MAX,
        app.hosts.known[i].collections[l].dynamic,
        forall|k: int| 0 <= k < l ==> !(#[trigger] app.hosts.known[i].collections[k]).dynamic,
        forall|k: int|
            0 <= k < app.hosts.known[i].collections.len() ==> (#[trigger] app.hosts.known[i].collections[k]).dynamic
                || !app.hosts.known[i].collections[k].games.contains(id),
        app.nav.cursors.len() == 20,
    ensures
        app.open_collections(id, title).nav.cursor(Screen::Collections) == l,
{
    law_selected_host_is_found(app, i);
    let cols = app.hosts.known[i].collections;
    lemma_first_from(cols, holds_card(id), 0);
    match app.hosts.known[i].collection_of(id) {
        Some(k) => {
            assert(holds_card(id)(cols[k]));
        },
        None => {},
    }
    lemma_first_is(cols, crate::knownhost::is_library(), l);
}

/// What is typed for a shelf's name is taken without the blanks around it; Left takes its last character off,
/// and Back leaves it.
pub proof fn law_shelf_form(app: AppV, s: GridShape, now: u64)
    ensures
        app.handle_name_collection_event(MenuEvent::Confirm, s, now) == app.name_collection(
            crate::text::trimmed(app.screens.collections.name),
            s,
            now,
        ),
        app.handle_name_collection_event(MenuEvent::Left, s, now).screens.collections.name == crate::text::erased(
            app.screens.collections.name,
        ),
        app.handle_name_collection_event(MenuEvent::Back, s, now).nav.screen == Screen::Collections,
        app.handle_name_collection_event(MenuEvent::Back, s, now).hosts == app.hosts,
        app.handle_name_collection_event(MenuEvent::Left, s, now).hosts == app.hosts,
{
    reveal(AppV::handle_name_collection_event);
}

/// Up and Down go along a card's menu.
pub proof fn law_card_menu_goes_round(app: AppV, m: CardMenuV, fresh: Seq<char>, s: GridShape, now: u64)
    requires
        app.card_menu == Some(m),
        m.focused < app.card_menu_row_kinds(m.pin_id).len(),
    ensures
        ({
            let n = app.card_menu_row_kinds(m.pin_id).len();
            let down = app.handle_card_menu_event(MenuEvent::Down, fresh, s, now);
            let up = app.handle_card_menu_event(MenuEvent::Up, fresh, s, now);
            &&& down.card_menu is Some && up.card_menu is Some
            &&& down.card_menu->0.focused == (if m.focused + 1 == n {
                0int
            } else {
                m.focused + 1
            })
            &&& up.card_menu->0.focused == (if m.focused == 0 {
                n - 1
            } else {
                m.focused - 1
            })
            &&& down.card_menu->0.pin_id == m.pin_id && up.card_menu->0.pin_id == m.pin_id
            &&& down.hosts == app.hosts && up.hosts == app.hosts
        }),
{
    let n = app.card_menu_row_kinds(m.pin_id).len();
    let next = crate::menu::list_step(m.focused, n, Some(crate::menu::Dir::Down));
    let last = crate::menu::list_step(m.focused, n, Some(crate::menu::Dir::Up));
    assert(app.handle_card_menu_event(MenuEvent::Down, fresh, s, now) == app.with_card_menu(
        Some(m.focus(next->0, now)),
    )) by {
        reveal(AppV::handle_card_menu_event);
    }
    assert(app.handle_card_menu_event(MenuEvent::Up, fresh, s, now) == app.with_card_menu(
        Some(m.focus(last->0, now)),
    )) by {
        reveal(AppV::handle_card_menu_event);
    }
}

} // verus!
