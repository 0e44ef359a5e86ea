//! A saved host's shelves and bindings: which collection holds a card, and what editing one does.
use vstd::prelude::*;
use crate::model::{Binding, BindingV, Collection, CollectionV, DiscoveredHost, FoundV, HostV, KnownHost};
use crate::seqs::{find_by, first_pos, keep, lemma_first_from, lemma_keep, retain_by};
use crate::text::{copy_texts, find_text, has_text, same_text, same_texts, text_of, texts};

verus! {

/// The longest name a collection or a profile can have, which is a choice made here.
pub const MAX_COLLECTION_NAME: usize = 32;

/// Whether a shelf is one that a card was put on.
pub open spec fn holds_card(id: Seq<char>) -> spec_fn(CollectionV) -> bool {
    |c: CollectionV| !c.dynamic && c.games.contains(id)
}

pub open spec fn is_library() -> spec_fn(CollectionV) -> bool {
    |c: CollectionV| c.dynamic
}

pub open spec fn other_than(id: Seq<char>) -> spec_fn(Seq<char>) -> bool {
    |g: Seq<char>| g != id
}

pub open spec fn among(live: Seq<Seq<char>>) -> spec_fn(Seq<char>) -> bool {
    |g: Seq<char>| live.contains(g)
}

pub open spec fn binds(id: Seq<char>) -> spec_fn(BindingV) -> bool {
    |b: BindingV| b.game == id
}

pub open spec fn binds_other(id: Seq<char>) -> spec_fn(BindingV) -> bool {
    |b: BindingV| b.game != id
}

pub open spec fn binds_among(live: Seq<Seq<char>>) -> spec_fn(BindingV) -> bool {
    |b: BindingV| live.contains(b.game)
}

/// A shelf without the members that `p` does not hold of.
pub open spec fn shelf_keep(c: CollectionV, p: spec_fn(Seq<char>) -> bool) -> CollectionV {
    CollectionV { games: keep(c.games, p), ..c }
}

/// Every shelf without the members that `p` does not hold of.
pub open spec fn shelves_keep(cols: Seq<CollectionV>, p: spec_fn(Seq<char>) -> bool) -> Seq<CollectionV> {
    cols.map_values(|c: CollectionV| shelf_keep(c, p))
}

impl HostV {
    pub open spec fn is_paired(self) -> bool {
        self.pin is Some
    }

    /// The shelf holding a card, `None` for the Library.
    pub open spec fn collection_of(self, id: Seq<char>) -> Option<int> {
        first_pos(self.collections, holds_card(id))
    }

    pub open spec fn library_index(self) -> Option<int> {
        first_pos(self.collections, is_library())
    }

    /// The card taken off every shelf, then put last on shelf `to`. The Library is no shelf: a
    /// card is there by being on none.
    pub open spec fn move_to(self, id: Seq<char>, to: Option<usize>) -> HostV {
        let off = shelves_keep(self.collections, other_than(id));
        match to {
            Some(i) if i < off.len() && !off[i as int].dynamic => HostV {
                collections: off.update(
                    i as int,
                    CollectionV { games: off[i as int].games.push(id), ..off[i as int] },
                ),
                ..self
            },
            _ => HostV { collections: off, ..self },
        }
    }

    /// Whether `name` can name shelf `at`, or a new one: it says something, and no other shelf
    /// has it.
    pub open spec fn can_name(self, at: Option<usize>, name: Seq<char>) -> bool {
        &&& name.len() > 0
        &&& forall|k: int|
            0 <= k < self.collections.len() && at != Some(k as usize) ==> (#[trigger] self.collections[k]).name != name
    }

    pub open spec fn rename_collection(self, at: usize, name: Seq<char>) -> HostV {
        if at < self.collections.len() {
            HostV {
                collections: self.collections.update(
                    at as int,
                    CollectionV { name, ..self.collections[at as int] },
                ),
                ..self
            }
        } else {
            self
        }
    }

    pub open spec fn add_collection(self, name: Seq<char>) -> HostV {
        if self.can_name(None, name) {
            HostV {
                collections: self.collections.push(CollectionV { name, dynamic: false, games: Seq::empty() }),
                ..self
            }
        } else {
            self
        }
    }

    /// Whether shelf `at` can be removed: it exists and is not the Library.
    pub open spec fn removable(self, at: usize) -> bool {
        at < self.collections.len() && !self.collections[at as int].dynamic
    }

    pub open spec fn remove_collection(self, at: usize) -> HostV {
        if self.removable(at) {
            HostV { collections: self.collections.remove(at as int), ..self }
        } else {
            self
        }
    }

    pub open spec fn reorder_collection(self, from: usize, to: usize) -> HostV {
        if from < self.collections.len() && to < self.collections.len() {
            HostV {
                collections: self.collections.remove(from as int).insert(to as int, self.collections[from as int]),
                ..self
            }
        } else {
            self
        }
    }

    /// Where a card sits on its shelf and the place next to it, if there is one that way.
    pub open spec fn step_on_shelf(self, id: Seq<char>, forward: bool) -> Option<(int, int, int)> {
        match self.collection_of(id) {
            Some(c) => {
                let games = self.collections[c].games;
                match games.index_of_first(id) {
                    Some(p) => if forward && p + 1 < games.len() {
                        Some((c, p, p + 1))
                    } else if !forward && p > 0 {
                        Some((c, p, p - 1))
                    } else {
                        None
                    },
                    None => None,
                }
            },
            None => None,
        }
    }

    pub open spec fn collection_neighbour(self, id: Seq<char>, forward: bool) -> Option<Seq<char>> {
        match self.step_on_shelf(id, forward) {
            Some((c, _, q)) => Some(self.collections[c].games[q]),
            None => None,
        }
    }

    pub open spec fn swap_within_collection(self, id: Seq<char>, forward: bool) -> HostV {
        match self.step_on_shelf(id, forward) {
            Some((c, p, q)) => {
                let games = self.collections[c].games;
                HostV {
                    collections: self.collections.update(
                        c,
                        CollectionV { games: games.update(p, games[q]).update(q, games[p]), ..self.collections[c] },
                    ),
                    ..self
                }
            },
            None => self,
        }
    }

    /// The host without what it remembers of games that are no longer listed.
    pub open spec fn prune_games(self, live: Seq<Seq<char>>) -> HostV {
        HostV {
            collections: shelves_keep(self.collections, among(live)),
            game_profiles: keep(self.game_profiles, binds_among(live)),
            ..self
        }
    }

    pub open spec fn game_profile(self, id: Seq<char>) -> Option<Seq<char>> {
        match first_pos(self.game_profiles, binds(id)) {
            Some(i) => Some(self.game_profiles[i].profile),
            None => None,
        }
    }

    pub open spec fn bind_game_profile(self, id: Seq<char>, profile: Option<Seq<char>>) -> HostV {
        let others = keep(self.game_profiles, binds_other(id));
        match profile {
            Some(p) => HostV { game_profiles: others.push(BindingV { game: id, profile: p }), ..self },
            None => HostV { game_profiles: others, ..self },
        }
    }
}

impl KnownHost {
    pub fn is_paired(&self) -> (r: bool)
        ensures
            r == self@.is_paired(),
    {
        self.pin.is_some()
    }

    pub fn fingerprint(&self) -> (r: Option<[u8; 32]>)
        ensures
            r == self@.pin,
    {
        self.pin
    }

    /// The shelf holding `id`, `None` for the Library.
    pub fn collection_of(&self, id: &str) -> (r: Option<usize>)
        ensures
            match (r, self@.collection_of(id@)) {
                (Some(k), Some(i)) => k == i && k < self.collections.len(),
                (None, None) => true,
                _ => false,
            },
    {
        let ghost p = holds_card(id@);
        let f = |c: &Collection| -> (b: bool)
            ensures
                b == p(c@),
        { !c.dynamic && has_text(&c.games, id) };
        find_by(&self.collections, f, Ghost(p))
    }

    pub fn library_index(&self) -> (r: Option<usize>)
        ensures
            match (r, self@.library_index()) {
                (Some(k), Some(i)) => k == i && k < self.collections.len(),
                (None, None) => true,
                _ => false,
            },
    {
        let ghost p = is_library();
        let f = |c: &Collection| -> (b: bool)
            ensures
                b == p(c@),
        { c.dynamic };
        find_by(&self.collections, f, Ghost(p))
    }

    /// Takes `id` off every shelf.
    fn take_off_shelves(&mut self, id: &str)
        ensures
            final(self)@ == (HostV {
                collections: shelves_keep(old(self)@.collections, other_than(id@)),
                ..old(self)@
            }),
    {
        let ghost p = other_than(id@);
        let ghost all = self@.collections;
        let n: usize = self.collections.len();
        let mut i: usize = 0;
        while i < n
            invariant
                n == self.collections.len(),
                n == all.len(),
                i <= n,
                p == other_than(id@),
                forall|k: int| 0 <= k < i ==> (#[trigger] self@.collections[k]) == shelf_keep(all[k], p),
                forall|k: int| i <= k < n ==> (#[trigger] self@.collections[k]) == all[k],
                self@ == (HostV { collections: self@.collections, ..old(self)@ }),
            decreases n - i,
        {
            let f = |g: &String| -> (b: bool)
                ensures
                    b == p(g@),
            { !same_text(g.as_str(), id) };
            let ghost before = self@.collections;
            assert(before[i as int] == self.collections@[i as int]@);
            retain_by(&mut self.collections[i].games, f, Ghost(p));
            assert(self@.collections =~= before.update(i as int, shelf_keep(all[i as int], p)));
            i = i + 1;
        }
        assert(self@.collections =~= shelves_keep(all, p));
    }

    /// Moves `id` onto shelf `to`, or back to the Library.
    pub fn move_to(&mut self, id: &str, to: Option<usize>)
        ensures
            final(self)@ == old(self)@.move_to(id@, to),
    {
        self.take_off_shelves(id);
        match to {
            Some(i) => {
                if i < self.collections.len() && !self.collections[i].dynamic {
                    let ghost before = self@.collections;
                    let ghost games = self.collections@[i as int].games@;
                    self.collections[i].games.push(id.to_owned());
                    assert(texts(self.collections@[i as int].games@) =~= texts(games).push(id@));
                    assert(self@.collections =~= old(self)@.move_to(id@, to).collections);
                }
            },
            None => {},
        }
    }

    /// Whether `name` can name shelf `at`, or a new one.
    pub fn can_name(&self, at: Option<usize>, name: &str) -> (r: bool)
        ensures
            r == self@.can_name(at, name@),
    {
        if name.is_empty() {
            return false;
        }
        let mut i: usize = 0;
        while i < self.collections.len()
            invariant
                i <= self.collections.len(),
                name@.len() > 0,
                forall|k: int|
                    0 <= k < i && at != Some(k as usize) ==> (#[trigger] self@.collections[k]).name != name@,
            decreases self.collections.len() - i,
        {
            let own: bool = match at {
                Some(a) => a == i,
                None => false,
            };
            assert(self@.collections[i as int] == self.collections@[i as int]@);
            if !own && same_text(self.collections[i].name.as_str(), name) {
                assert(at != Some(i as int as usize));
                return false;
            }
            i = i + 1;
        }
        true
    }

    pub fn rename_collection(&mut self, at: usize, name: &str)
        ensures
            final(self)@ == old(self)@.rename_collection(at, name@),
    {
        if at < self.collections.len() {
            self.collections[at].name = name.to_owned();
            assert(self@.collections =~= old(self)@.rename_collection(at, name@).collections);
        }
    }

    /// Adds a shelf last; `None` when the name is refused.
    pub fn add_collection(&mut self, name: &str) -> (r: Option<usize>)
        requires
            old(self).collections.len() < usize::MAX,
        ensures
            final(self)@ == old(self)@.add_collection(name@),
            match r {
                Some(k) => old(self)@.can_name(None, name@) && k == old(self)@.collections.len(),
                None => !old(self)@.can_name(None, name@),
            },
    {
        if !self.can_name(None, name) {
            return None;
        }
        let at: usize = self.collections.len();
        self.collections.push(Collection { name: name.to_owned(), dynamic: false, games: Vec::new() });
        assert(texts(self.collections@[at as int].games@) =~= Seq::empty());
        assert(self@.collections =~= old(self)@.add_collection(name@).collections);
        Some(at)
    }

    /// Removes a shelf; its games fall back to the Library. Reports whether there was one.
    pub fn remove_collection(&mut self, at: usize) -> (r: bool)
        ensures
            final(self)@ == old(self)@.remove_collection(at),
            r == old(self)@.removable(at),
    {
        if at >= self.collections.len() || self.collections[at].dynamic {
            assert(!self@.removable(at));
            return false;
        }
        assert(self@.collections[at as int] == self.collections@[at as int]@);
        self.collections.remove(at);
        assert(self@.collections =~= old(self)@.remove_collection(at).collections);
        true
    }

    pub fn reorder_collection(&mut self, from: usize, to: usize)
        ensures
            final(self)@ == old(self)@.reorder_collection(from, to),
    {
        if from < self.collections.len() && to < self.collections.len() {
            let c = self.collections.remove(from);
            self.collections.insert(to, c);
            assert(self@.collections =~= old(self)@.reorder_collection(from, to).collections);
        }
    }

    /// Where `id` sits on its shelf and the place next to it, if there is one that way.
    fn step_on_shelf(&self, id: &str, forward: bool) -> (r: Option<(usize, usize, usize)>)
        ensures
            match (r, self@.step_on_shelf(id@, forward)) {
                (Some((c, p, q)), Some((cc, pp, qq))) => c == cc && p == pp && q == qq && c < self.collections.len()
                    && p < self.collections[c as int].games.len() && q < self.collections[c as int].games.len(),
                (None, None) => true,
                _ => false,
            },
    {
        match self.collection_of(id) {
            Some(c) => {
                assert(self@.collections[c as int] == self.collections@[c as int]@);
                match find_text(&self.collections[c].games, id) {
                    Some(p) => {
                        if forward {
                            if p < self.collections[c].games.len() - 1 {
                                Some((c, p, p + 1))
                            } else {
                                None
                            }
                        } else if p > 0 {
                            Some((c, p, p - 1))
                        } else {
                            None
                        }
                    },
                    None => None,
                }
            },
            None => None,
        }
    }

    /// The card next to `id` on its shelf.
    pub fn collection_neighbour(&self, id: &str, forward: bool) -> (r: Option<String>)
        ensures
            text_of(r) == self@.collection_neighbour(id@, forward),
    {
        match self.step_on_shelf(id, forward) {
            Some((c, _, q)) => {
                assert(self@.collections[c as int] == self.collections@[c as int]@);
                Some(self.collections[c].games[q].clone())
            },
            None => None,
        }
    }

    /// Exchanges `id` with its neighbour; `false` at either end of the shelf, and in the Library.
    pub fn swap_within_collection(&mut self, id: &str, forward: bool) -> (r: bool)
        ensures
            final(self)@ == old(self)@.swap_within_collection(id@, forward),
            r == (old(self)@.step_on_shelf(id@, forward) is Some),
    {
        match self.step_on_shelf(id, forward) {
            Some((c, p, q)) => {
                assert(self@.collections[c as int] == self.collections@[c as int]@);
                let ghost games = self.collections@[c as int].games@;
                let a = self.collections[c].games[p].clone();
                let b = self.collections[c].games[q].clone();
                self.collections[c].games.set(p, b);
                self.collections[c].games.set(q, a);
                assert(texts(self.collections@[c as int].games@) =~= texts(games).update(
                    p as int,
                    texts(games)[q as int],
                ).update(q as int, texts(games)[p as int]));
                assert(self@.collections =~= old(self)@.swap_within_collection(id@, forward).collections);
                true
            },
            None => false,
        }
    }

    /// Drops what is remembered of games that are no longer listed; reports whether any was.
    pub fn prune_games(&mut self, live: &Vec<String>) -> (r: bool)
        ensures
            final(self)@ == old(self)@.prune_games(texts(live@)),
            r == (final(self)@ != old(self)@),
    {
        let ghost p = among(texts(live@));
        let ghost all = self@.collections;
        let ghost first = self@;
        let n: usize = self.collections.len();
        let mut changed: bool = false;
        let mut i: usize = 0;
        while i < n
            invariant
                n == self.collections.len(),
                n == all.len(),
                i <= n,
                p == among(texts(live@)),
                first == old(self)@,
                all == first.collections,
                forall|k: int| 0 <= k < i ==> (#[trigger] self@.collections[k]) == shelf_keep(all[k], p),
                forall|k: int| i <= k < n ==> (#[trigger] self@.collections[k]) == all[k],
                self@ == (HostV { collections: self@.collections, ..first }),
                changed <==> exists|k: int| 0 <= k < i && shelf_keep(all[k], p) != #[trigger] all[k],
            decreases n - i,
        {
            let f = |g: &String| -> (b: bool)
                ensures
                    b == p(g@),
            { has_text(live, g.as_str()) };
            let ghost before = self@.collections;
            assert(before[i as int] == self.collections@[i as int]@);
            let had: usize = self.collections[i].games.len();
            retain_by(&mut self.collections[i].games, f, Ghost(p));
            assert(self@.collections =~= before.update(i as int, shelf_keep(all[i as int], p)));
            proof {
                lemma_keep(all[i as int].games, p);
            }
            if self.collections[i].games.len() != had {
                changed = true;
                assert(shelf_keep(all[i as int], p) != all[i as int]);
            } else {
                assert(shelf_keep(all[i as int], p) == all[i as int]);
            }
            i = i + 1;
        }
        assert(self@.collections =~= shelves_keep(all, p));
        let ghost q = binds_among(texts(live@));
        let g = |b: &Binding| -> (r: bool)
            ensures
                r == q(b@),
        { has_text(live, b.game.as_str()) };
        let bound: usize = self.game_profiles.len();
        retain_by(&mut self.game_profiles, g, Ghost(q));
        proof {
            lemma_keep(first.game_profiles, q);
            if changed {
                let k = choose|k: int| 0 <= k < n && shelf_keep(all[k], p) != #[trigger] all[k];
                assert(self@.collections[k] != all[k]);
            } else {
                assert forall|k: int| 0 <= k < n implies self@.collections[k] == all[k] by {
                    assert(all[k] == all[k]);
                }
                assert(self@.collections =~= all);
            }
        }
        changed || self.game_profiles.len() != bound
    }

    /// The profile bound to a title.
    pub fn game_profile(&self, id: &str) -> (r: Option<String>)
        ensures
            text_of(r) == self@.game_profile(id@),
    {
        let ghost p = binds(id@);
        let f = |b: &Binding| -> (r: bool)
            ensures
                r == p(b@),
        { same_text(b.game.as_str(), id) };
        match find_by(&self.game_profiles, f, Ghost(p)) {
            Some(i) => {
                assert(self@.game_profiles[i as int] == self.game_profiles@[i as int]@);
                Some(self.game_profiles[i].profile.clone())
            },
            None => None,
        }
    }

    /// Binds a title to a profile, or to none.
    pub fn bind_game_profile(&mut self, id: &str, profile: Option<String>)
        ensures
            final(self)@ == old(self)@.bind_game_profile(id@, text_of(profile)),
    {
        let ghost p = binds_other(id@);
        let f = |b: &Binding| -> (r: bool)
            ensures
                r == p(b@),
        { !same_text(b.game.as_str(), id) };
        retain_by(&mut self.game_profiles, f, Ghost(p));
        match profile {
            Some(profile) => {
                let ghost before = self@.game_profiles;
                self.game_profiles.push(Binding { game: id.to_owned(), profile });
                assert(self@.game_profiles =~= before.push(BindingV { game: id@, profile: profile@ }));
            },
            None => {},
        }
    }
}

/// After a move the card is on the shelf it was moved to, and after a move to the Library it is
/// on none.
pub proof fn law_move_to_moves(h: HostV, id: Seq<char>, to: Option<usize>)
    requires
        to matches Some(i) ==> i < h.collections.len() && !h.collections[i as int].dynamic,
    ensures
        match to {
            Some(i) => h.move_to(id, to).collection_of(id) == Some(i as int),
            None => h.move_to(id, to).collection_of(id) is None,
        },
{
    let m = h.move_to(id, to);
    let off = shelves_keep(h.collections, other_than(id));
    assert forall|k: int| 0 <= k < off.len() implies !(#[trigger] off[k]).games.contains(id) by {
        lemma_keep(h.collections[k].games, other_than(id));
    }
    lemma_first_from(m.collections, holds_card(id), 0);
    match to {
        Some(i) => {
            let g = off[i as int].games;
            assert(g.push(id)[g.len() as int] == id);
            assert(m.collections[i as int].games == g.push(id));
            assert(m.collections[i as int].games.contains(id));
            assert(holds_card(id)(m.collections[i as int]));
            match m.collection_of(id) {
                Some(k) => {
                    if k != i {
                        assert(m.collections[k] == off[k]);
                    }
                },
                None => {},
            }
        },
        None => {},
    }
}

/// A step along the shelf and a step back leave the shelf as it was.
pub proof fn law_swap_within_collection_undone(h: HostV, id: Seq<char>, forward: bool)
    requires
        forall|k: int| 0 <= k < h.collections.len() ==> (#[trigger] h.collections[k]).games.no_duplicates(),
        h.step_on_shelf(id, forward) is Some,
    ensures
        h.swap_within_collection(id, forward).swap_within_collection(id, !forward) == h,
{
    let (c, p, q) = h.step_on_shelf(id, forward)->0;
    let games = h.collections[c].games;
    lemma_first_from(h.collections, holds_card(id), 0);
    games.index_of_first_ensures(id);
    let s = h.swap_within_collection(id, forward);
    let g2 = s.collections[c].games;
    assert(g2[q] == id);
    assert(g2.contains(id));
    g2.index_of_first_ensures(id);
    lemma_first_from(s.collections, holds_card(id), 0);
    assert(holds_card(id)(s.collections[c]));
    assert forall|k: int| 0 <= k < c implies !holds_card(id)(#[trigger] s.collections[k]) by {
        assert(s.collections[k] == h.collections[k]);
    }
    assert(s.collection_of(id) == Some(c));
    let p2 = g2.index_of_first(id)->0;
    assert(p2 == q) by {
        if p2 != q {
            if p2 == p {
                assert(g2[p] == games[q]);
                assert(games[q] != games[p]);
            } else {
                assert(g2[p2] == games[p2]);
                assert(games[p2] != games[p]);
            }
        }
    }
    let t = s.swap_within_collection(id, !forward);
    assert(t.collections[c].games =~= games);
    assert(t.collections =~= h.collections);
}

/// A bound profile is what is read back.
pub proof fn lemma_bound_profile(h: HostV, id: Seq<char>, profile: Seq<char>)
    ensures
        h.bind_game_profile(id, Some(profile)).game_profile(id) == Some(profile),
{
    let kept = keep(h.game_profiles, binds_other(id));
    lemma_keep(h.game_profiles, binds_other(id));
    let after = h.bind_game_profile(id, Some(profile)).game_profiles;
    lemma_first_from(after, binds(id), 0);
    let k = kept.len() as int;
    assert(after[k] == (BindingV { game: id, profile }));
    assert(binds(id)(after[k]));
}

impl HostV {
    /// A host's record with what an announce says of its addresses and its OS.
    pub open spec fn learned(self, f: FoundV) -> HostV {
        HostV {
            mac: if self.news_mac(f) {
                f.mac
            } else {
                self.mac
            },
            os: if self.news_os(f) {
                f.os
            } else {
                self.os
            },
            ..self
        }
    }

    pub open spec fn news_mac(self, f: FoundV) -> bool {
        f.mac.len() > 0 && self.mac != f.mac
    }

    pub open spec fn news_os(self, f: FoundV) -> bool {
        f.os.len() > 0 && self.os != f.os
    }
}

impl KnownHost {
    /// Takes over what an announce says of the host's addresses and OS. Reports which of the two
    /// was news.
    pub fn learn(&mut self, found: &DiscoveredHost) -> (r: (bool, bool))
        ensures
            final(self)@ == old(self)@.learned(found@),
            r.0 == old(self)@.news_mac(found@),
            r.1 == old(self)@.news_os(found@),
    {
        assert(texts(found.mac@).len() == found.mac@.len());
        let new_mac: bool = found.mac.len() > 0 && !same_texts(&self.mac, &found.mac);
        let new_os: bool = !found.os.as_str().is_empty() && !(self.os == found.os);
        if new_mac {
            self.mac = copy_texts(&found.mac);
        }
        if new_os {
            self.os = found.os.clone();
        }
        (new_mac, new_os)
    }
}

} // verus!
