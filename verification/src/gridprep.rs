//! Which covers are resident this frame, and whether the page behind the spinner is ready to show.
//! Every step runs over a window of grid slots, never over the library.
use vstd::prelude::*;
use crate::app::{App, AppV};
use crate::flags::Job;
use crate::grid::{GridState, GridV};
use crate::home::time_fits;
use crate::library::{Library, LibraryV};
use crate::model::{GameV, Screen};
use crate::scroll::GridShape;
use crate::seqs::{keep, lemma_keep, retain_by, views};
use crate::slots::{Effect, EffectV};
use crate::text::{copy_texts, has_text, same_text, texts};

verus! {

/// A run of grid slots.
#[derive(Clone, Copy, PartialEq, Eq, Structural, Debug)]
pub struct Window {
    pub from: usize,
    pub to: usize,
}

/// What the spinner over the grid is told each frame.
#[derive(Clone, Copy, PartialEq, Eq, Structural, Debug)]
pub struct RevealStep {
    /// The library is still being fetched, or a host being woken for it.
    pub fetching: bool,
    /// A card of the page is still without its art.
    pub art_pending: bool,
}

/// Nothing more can arrive for a card: its cover is in hand, or it has none.
pub open spec fn card_ready(game: GameV, art: Set<Seq<char>>) -> bool {
    art.contains(game.id) || (game.art.portrait is None && game.art.header is None)
}

impl GridV {
    /// A card seen in the build window. The first sighting on a settled grid is what pops.
    pub open spec fn sight(self, id: Seq<char>, now: u64) -> GridV {
        if self.arrivals.dom().contains(id) {
            self
        } else {
            let noted = GridV { arrivals: self.arrivals.insert(id, None), ..self };
            if self.revealed {
                noted.arm_card_pop(id, now)
            } else {
                noted
            }
        }
    }

    /// Nothing resident: the games or the host changed.
    pub open spec fn released(self) -> GridV {
        GridV {
            arrivals: Map::empty(),
            kept: (0, 0),
            card_pop_until: None,
            dirty: false,
            cards_dirty: Seq::empty(),
            revealed: false,
            ..self
        }
    }
}

/// Whether a card is not among `ids`.
pub open spec fn not_among(ids: Seq<Seq<char>>) -> spec_fn(Seq<char>) -> bool {
    |x: Seq<char>| !ids.contains(x)
}

/// The covers that stand once the stale ones are gone: none on a change of the library, else those
/// whose art was not refreshed.
pub open spec fn standing(covers: Seq<Seq<char>>, g: GridV) -> Seq<Seq<char>> {
    if g.dirty {
        Seq::empty()
    } else {
        keep(covers, not_among(g.cards_dirty))
    }
}

/// Cards that are there already do not pop, and those that arrive on a grid still hidden do not
/// either: the reveal is theirs.
pub proof fn law_only_new_cards_pop(g: GridV, id: Seq<char>, now: u64)
    ensures
        g.arrivals.dom().contains(id) ==> g.sight(id, now) == g,
        !g.revealed && !g.arrivals.dom().contains(id) ==> g.sight(id, now).arrivals[id] is None
            && g.sight(id, now).card_pop_until == g.card_pop_until,
        g.revealed && !g.arrivals.dom().contains(id) ==> g.sight(id, now).arrivals[id] is Some,
        g.sight(id, now).arrivals.dom().contains(id),
{
}

impl AppV {
    /// Whether the pass can be skipped: nothing of the grid changes behind an open modal.
    pub open spec fn grid_window_frozen(self) -> bool {
        self.nav.screen != Screen::Home && self.grid.revealed && !self.grid.dirty && self.grid.cards_dirty.len() == 0
    }

    /// The covers of the cards in `ids` dropped, one by one.
    pub open spec fn drop_covers(self, ids: Seq<Seq<char>>, n: int) -> AppV
        decreases n,
    {
        if n <= 0 {
            self
        } else {
            self.drop_covers(ids, n - 1).effect(EffectV::StaleCover(ids[n - 1]))
        }
    }

    /// Stale covers dropped: all of them on a change of the library, else those whose art was
    /// refreshed.
    pub open spec fn release_stale_cards(self) -> AppV {
        if self.grid.dirty {
            AppV { grid: self.grid.released(), ..self }.effect(EffectV::StaleCovers)
        } else {
            let fresh = AppV { grid: GridV { cards_dirty: Seq::empty(), ..self.grid }, ..self };
            fresh.drop_covers(self.grid.cards_dirty, self.grid.cards_dirty.len() as int)
        }
    }

    /// The id of the card in a slot.
    pub open spec fn slot_id(self, i: int, s: GridShape) -> Option<Seq<char>> {
        match self.library.card_at(s.columns as nat, i as nat) {
            Some(g) => Some(g.id),
            None => None,
        }
    }

    /// Whether the card in a slot still waits for its art.
    pub open spec fn slot_pending(self, i: int, s: GridShape) -> bool {
        match self.library.card_at(s.columns as nat, i as nat) {
            Some(g) => !card_ready(g, self.library.art),
            None => false,
        }
    }

    /// The ids of the cards in a window.
    pub open spec fn window_ids(self, from: int, to: int, s: GridShape) -> Set<Seq<char>> {
        Set::new(|id: Seq<char>| exists|i: int| from <= i < to && #[trigger] self.slot_id(i, s) == Some(id))
    }

    /// One card let go: its cover, its decoded art and its arrival.
    pub open spec fn let_go(self, id: Seq<char>) -> AppV {
        AppV {
            grid: GridV { arrivals: self.grid.arrivals.remove(id), ..self.grid },
            library: LibraryV { art: self.library.art.remove(id), ..self.library },
            ..self
        }.effect(EffectV::DropCover(id))
    }

    pub open spec fn let_all_go(self, ids: Seq<Seq<char>>, n: int) -> AppV
        decreases n,
    {
        if n <= 0 {
            self
        } else {
            self.let_all_go(ids, n - 1).let_go(ids[n - 1])
        }
    }

    /// One card of the build window: its art asked for, its first sighting noted, its cover built
    /// from art that is in hand.
    pub open spec fn build_card(self, id: Seq<char>, covers: Seq<Seq<char>>, now: u64) -> AppV {
        let asked = if self.jobs.has(Job::Art) {
            self.effect(EffectV::RequestArt(id))
        } else {
            self
        };
        let seen = AppV { grid: self.grid.sight(id, now), ..asked };
        if !covers.contains(id) && self.library.art.contains(id) {
            seen.effect(EffectV::BuildCover(id))
        } else {
            seen
        }
    }

    /// The cards of a window built, in slot order.
    pub open spec fn build_card_window(
        self,
        from: int,
        to: int,
        covers: Seq<Seq<char>>,
        s: GridShape,
        now: u64,
    ) -> AppV
        decreases to - from,
    {
        if from >= to {
            self
        } else {
            let before = self.build_card_window(from, to - 1, covers, s, now);
            match self.library.card_at(s.columns as nat, (to - 1) as nat) {
                Some(g) => before.build_card(g.id, covers, now),
                None => before,
            }
        }
    }

    /// The focused card's backdrop asked for ahead of its launch, once the grid shows.
    pub open spec fn prefetch_focused_hero(self, s: GridShape) -> AppV {
        match self.focused_pin_id(s) {
            Some(id) => if self.grid.revealed {
                self.effect(EffectV::WantHero(id))
            } else {
                self
            },
            None => self,
        }
    }

    /// Whether a card of a window still waits for its art.
    pub open spec fn art_pending(self, from: int, to: int, s: GridShape) -> bool {
        exists|i: int| from <= i < to && #[trigger] self.slot_pending(i, s)
    }

    /// What the spinner is told, while it is up.
    pub open spec fn reveal_step(self, page: Window, s: GridShape) -> Option<RevealStep> {
        if self.grid.revealed {
            None
        } else {
            Some(
                RevealStep {
                    fetching: self.jobs.has(Job::Games) || self.wake_wait_in_flight(),
                    art_pending: self.art_pending(page.from as int, page.to as int, s),
                },
            )
        }
    }

    pub open spec fn with_revealed(self, revealed: bool) -> AppV {
        AppV { grid: GridV { revealed, ..self.grid }, ..self }
    }

    /// Whether `ids` are the resident cards outside the keep window, each once.
    pub open spec fn outside(self, ids: Seq<Seq<char>>, w: Window, s: GridShape) -> bool {
        &&& ids.no_duplicates()
        &&& forall|id: Seq<char>|
            ids.contains(id) <==> self.grid.arrivals.dom().contains(id) && !self.window_ids(
                w.from as int,
                w.to as int,
                s,
            ).contains(id)
    }

    /// Whether `after` is this with the cards outside the keep window let go, in some order.
    pub open spec fn evicted(self, w: Window, s: GridShape, after: AppV) -> bool {
        if self.grid.kept == (w.from, w.to) {
            after == self
        } else {
            let moved = AppV { grid: GridV { kept: (w.from, w.to), ..self.grid }, ..self };
            exists|ids: Seq<Seq<char>>|
                #[trigger] self.outside(ids, w, s) && after == moved.let_all_go(ids, ids.len() as int)
        }
    }
}

proof fn lemma_let_all_go(app: AppV, ids: Seq<Seq<char>>, n: int)
    requires
        0 <= n <= ids.len(),
    ensures
        ({
            let after = app.let_all_go(ids, n);
            &&& after.library.games == app.library.games
            &&& after.library.groups == app.library.groups
            &&& forall|id: Seq<char>|
                after.grid.arrivals.dom().contains(id) <==> app.grid.arrivals.dom().contains(id) && !ids.take(
                    n,
                ).contains(id)
            &&& forall|id: Seq<char>|
                after.library.art.contains(id) <==> app.library.art.contains(id) && !ids.take(n).contains(id)
        }),
    decreases n,
{
    if n > 0 {
        lemma_let_all_go(app, ids, n - 1);
        let part = ids.take(n);
        let less = ids.take(n - 1);
        assert(part =~= less.push(ids[n - 1]));
        assert forall|id: Seq<char>| part.contains(id) <==> less.contains(id) || id == ids[n - 1] by {
            if less.contains(id) {
                let k = choose|k: int| 0 <= k < less.len() && less[k] == id;
                assert(part[k] == id);
            }
            if id == ids[n - 1] {
                assert(part[n - 1] == id);
            }
        }
    } else {
        assert(ids.take(0) =~= Seq::empty());
    }
}

/// After an eviction no card outside the keep window is resident, and every card that was
/// resident inside it still is.
pub proof fn law_evicted_cards_leave(app: AppV, w: Window, s: GridShape, after: AppV)
    requires
        app.evicted(w, s, after),
        app.grid.kept != (w.from, w.to),
    ensures
        forall|id: Seq<char>|
            after.grid.arrivals.dom().contains(id) <==> app.grid.arrivals.dom().contains(id) && app.window_ids(
                w.from as int,
                w.to as int,
                s,
            ).contains(id),
        after.library.games == app.library.games,
{
    let moved = AppV { grid: GridV { kept: (w.from, w.to), ..app.grid }, ..app };
    let ids = choose|ids: Seq<Seq<char>>|
        #[trigger] app.outside(ids, w, s) && after == moved.let_all_go(ids, ids.len() as int);
    lemma_let_all_go(moved, ids, ids.len() as int);
    assert(ids.take(ids.len() as int) =~= ids);
}

/// A grid that is frozen behind an open modal has nothing stale to let go.
pub proof fn law_frozen_grid_owes_nothing(app: AppV)
    requires
        app.grid_window_frozen(),
    ensures
        !app.grid.dirty,
        app.grid.cards_dirty.len() == 0,
        app.release_stale_cards() == app,
{
    assert(app.grid.cards_dirty =~= Seq::empty());
}

proof fn lemma_window_builds(
    app: AppV,
    from: int,
    to: int,
    covers: Seq<Seq<char>>,
    s: GridShape,
    now: u64,
    i: int,
    id: Seq<char>,
)
    requires
        from <= to,
        from <= i < to ==> app.slot_id(i, s) == Some(id) && app.library.art.contains(id) && !covers.contains(id),
    ensures
        app.build_card_window(from, to, covers, s, now).library == app.library,
        from <= i < to ==> app.build_card_window(from, to, covers, s, now).effects.contains(EffectV::BuildCover(id)),
    decreases to - from,
{
    if from < to {
        lemma_window_builds(app, from, to - 1, covers, s, now, i, id);
        let before = app.build_card_window(from, to - 1, covers, s, now);
        let after = app.build_card_window(from, to, covers, s, now);
        if i == to - 1 {
            assert(after.effects.last() == EffectV::BuildCover(id));
        } else if from <= i < to {
            let k = choose|k: int|
                0 <= k < before.effects.len() && before.effects[k] == EffectV::BuildCover(id);
            assert(after.effects[k] == EffectV::BuildCover(id));
        }
    }
}

/// A cover that went stale is built again in the same pass: a card of the build window that the keep
/// window covers too, whose art is in hand, and whose art was refreshed or whose library changed.
pub proof fn law_stale_cover_is_built_again(
    app: AppV,
    left: AppV,
    build: Window,
    keep_window: Window,
    covers: Seq<Seq<char>>,
    s: GridShape,
    now: u64,
    i: int,
    id: Seq<char>,
)
    requires
        app.release_stale_cards().evicted(keep_window, s, left),
        build.from <= i < build.to,
        keep_window.from <= i < keep_window.to,
        app.slot_id(i, s) == Some(id),
        app.library.art.contains(id),
        app.grid.dirty || app.grid.cards_dirty.contains(id),
    ensures
        left.build_card_window(
            build.from as int,
            build.to as int,
            standing(covers, app.grid),
            s,
            now,
        ).prefetch_focused_hero(s).effects.contains(EffectV::BuildCover(id)),
{
    let stands = standing(covers, app.grid);
    if !app.grid.dirty {
        lemma_keep(covers, not_among(app.grid.cards_dirty));
    }
    assert(!stands.contains(id));
    let released = app.release_stale_cards();
    lemma_drop_covers_keeps(
        AppV { grid: GridV { cards_dirty: Seq::empty(), ..app.grid }, ..app },
        app.grid.cards_dirty,
        app.grid.cards_dirty.len() as int,
    );
    assert(released.library == app.library);
    assert(released.slot_id(i, s) == Some(id));
    if released.grid.kept != (keep_window.from, keep_window.to) {
        let moved = AppV { grid: GridV { kept: (keep_window.from, keep_window.to), ..released.grid }, ..released };
        let ids = choose|ids: Seq<Seq<char>>|
            #[trigger] released.outside(ids, keep_window, s) && left == moved.let_all_go(ids, ids.len() as int);
        lemma_let_all_go(moved, ids, ids.len() as int);
        assert(ids.take(ids.len() as int) =~= ids);
        assert(released.window_ids(keep_window.from as int, keep_window.to as int, s).contains(id));
    }
    assert(left.slot_id(i, s) == Some(id));
    lemma_window_builds(left, build.from as int, build.to as int, stands, s, now, i, id);
    let built = left.build_card_window(build.from as int, build.to as int, stands, s, now);
    let k = choose|k: int| 0 <= k < built.effects.len() && built.effects[k] == EffectV::BuildCover(id);
    assert(built.prefetch_focused_hero(s).effects[k] == EffectV::BuildCover(id));
}

impl Library {
    /// Lets a card's cover art go.
    pub fn drop_art(&mut self, id: &str)
        ensures
            final(self)@ == (LibraryV { art: old(self)@.art.remove(id@), ..old(self)@ }),
    {
        let ghost before = self.art@;
        let ghost p = |x: Seq<char>| x != id@;
        let stays = |x: &String| -> (b: bool)
            ensures
                b == p(x@),
            {
                !same_text(x.as_str(), id)
            };
        retain_by(&mut self.art, stays, Ghost(p));
        proof {
            let all = texts(before);
            let left = texts(self.art@);
            assert(views(before) =~= all);
            assert(views(self.art@) =~= left);
            assert forall|x: Seq<char>| left.to_set().contains(x) == all.to_set().remove(id@).contains(x) by {
                lemma_keep(all, p);
                if all.contains(x) && x != id@ {
                    assert(left.contains(x));
                }
                if left.contains(x) {
                    let k = choose|k: int| 0 <= k < left.len() && left[k] == x;
                    assert(left[k] == x);
                }
            }
            assert(left.to_set() =~= all.to_set().remove(id@));
        }
    }
}

impl GridState {
    /// Notes a card in the build window; the first sighting on a settled grid pops.
    pub fn sight(&mut self, id: &str, now: u64)
        requires
            old(self).wf(),
            time_fits(now),
        ensures
            final(self)@ == old(self)@.sight(id@, now),
            final(self).wf(),
    {
        let settled: bool = self.revealed;
        if self.arrivals.note(id) && settled {
            self.arm_card_pop(id, now);
        }
    }

    fn standing(&self, covers: &Vec<String>) -> (r: Vec<String>)
        ensures
            texts(r@) == standing(texts(covers@), self@),
    {
        if self.dirty {
            let none: Vec<String> = Vec::new();
            assert(texts(none@) =~= Seq::empty());
            return none;
        }
        let mut r = copy_texts(covers);
        let ghost all = r@;
        let ghost p = not_among(self@.cards_dirty);
        let stays = |x: &String| -> (b: bool)
            ensures
                b == p(x@),
            {
                !has_text(&self.cards_dirty, x.as_str())
            };
        retain_by(&mut r, stays, Ghost(p));
        assert(views(all) =~= texts(covers@));
        r
    }

    fn release_all(&mut self)
        requires
            old(self).wf(),
        ensures
            final(self)@ == old(self)@.released(),
            final(self).wf(),
    {
        self.arrivals.clear();
        self.kept = 0..0;
        self.card_pop_until = None;
        self.dirty = false;
        self.cards_dirty = Vec::new();
        self.revealed = false;
        assert(texts(self.cards_dirty@) =~= Seq::empty());
    }
}

impl App {
    pub fn grid_window_frozen(&self) -> (r: bool)
        ensures
            r == self@.grid_window_frozen(),
    {
        self.nav.screen != Screen::Home && self.grid.revealed && !self.grid.dirty && self.grid.cards_dirty.len() == 0
    }

    /// Drops stale covers.
    pub fn release_stale_cards(&mut self)
        requires
            old(self).wf(),
        ensures
            final(self)@ == old(self)@.release_stale_cards(),
            final(self).wf(),
    {
        if self.grid.dirty {
            self.grid.release_all();
            self.ask(Effect::StaleCovers);
            return;
        }
        let ghost was = self@;
        let mut stale: Vec<String> = Vec::new();
        std::mem::swap(&mut stale, &mut self.grid.cards_dirty);
        let ghost ids = texts(stale@);
        assert(texts(self.grid.cards_dirty@) =~= Seq::empty());
        let ghost fresh = self@;
        let mut i: usize = 0;
        while i < stale.len()
            invariant
                i <= stale.len(),
                ids == texts(stale@),
                self@ == fresh.drop_covers(ids, i as int),
                self.wf(),
            decreases stale.len() - i,
        {
            self.ask(Effect::StaleCover(stale[i].clone()));
            i = i + 1;
        }
    }

    fn let_go(&mut self, id: String)
        requires
            old(self).wf(),
        ensures
            final(self)@ == old(self)@.let_go(id@),
            final(self).wf(),
    {
        self.grid.arrivals.release(id.as_str());
        self.library.drop_art(id.as_str());
        self.ask(Effect::DropCover(id));
    }

    /// The ids of the cards in a window.
    fn window_ids(&self, w: Window, s: GridShape) -> (r: Vec<String>)
        requires
            self@.grid_fits(s),
        ensures
            forall|id: Seq<char>|
                texts(r@).contains(id) <==> self@.window_ids(w.from as int, w.to as int, s).contains(id),
    {
        let mut out: Vec<String> = Vec::new();
        let mut i: usize = w.from;
        assert(texts(out@) =~= Seq::empty());
        while i < w.to
            invariant
                self@.grid_fits(s),
                w.from <= i,
                i <= w.to || i == w.from,
                forall|id: Seq<char>|
                    texts(out@).contains(id) <==> self@.window_ids(w.from as int, i as int, s).contains(id),
            decreases w.to - i,
        {
            let ghost before = texts(out@);
            let ghost had = self@.window_ids(w.from as int, i as int, s);
            let ghost has = self@.window_ids(w.from as int, i + 1, s);
            match self.grid_card_at(i, s) {
                Some(game) => {
                    let ghost g = game@;
                    out.push(game.id.clone());
                    proof {
                        assert(texts(out@) =~= before.push(g.id));
                        assert(self@.slot_id(i as int, s) == Some(g.id));
                        assert forall|id: Seq<char>| texts(out@).contains(id) <==> has.contains(id) by {
                            if before.contains(id) {
                                let k = choose|k: int| 0 <= k < before.len() && before[k] == id;
                                assert(texts(out@)[k] == id);
                            }
                            if id == g.id {
                                assert(texts(out@)[before.len() as int] == id);
                            }
                            if had.contains(id) {
                                let j = choose|j: int|
                                    w.from <= j < i && #[trigger] self@.slot_id(j, s) == Some(id);
                                assert(w.from <= j < i + 1 && self@.slot_id(j, s) == Some(id));
                            }
                        }
                    }
                },
                None => {
                    proof {
                        assert(self@.slot_id(i as int, s) is None);
                        assert forall|id: Seq<char>| had.contains(id) == has.contains(id) by {
                            if had.contains(id) {
                                let j = choose|j: int|
                                    w.from <= j < i && #[trigger] self@.slot_id(j, s) == Some(id);
                                assert(w.from <= j < i + 1 && self@.slot_id(j, s) == Some(id));
                            }
                        }
                    }
                },
            }
            i = i + 1;
        }
        out
    }

    /// Lets the cards outside the keep window go, without walking the library.
    pub fn evict_cards_outside(&mut self, w: Window, s: GridShape)
        requires
            old(self).wf(),
            old(self)@.grid_fits(s),
        ensures
            old(self)@.evicted(w, s, final(self)@),
            final(self)@.grid_fits(s),
            final(self).wf(),
    {
        if self.grid.kept.start == w.from && self.grid.kept.end == w.to {
            return;
        }
        let ghost was = self@;
        let kept = self.window_ids(w, s);
        self.grid.kept = w.from..w.to;
        let ghost moved = self@;
        let mut gone = self.grid.arrivals.ids();
        let ghost resident = texts(gone@);
        let ghost p = |x: Seq<char>| !texts(kept@).contains(x);
        let outside = |x: &String| -> (b: bool)
            ensures
                b == p(x@),
            {
                !has_text(&kept, x.as_str())
            };
        let ghost all = gone@;
        retain_by(&mut gone, outside, Ghost(p));
        let ghost ids = texts(gone@);
        proof {
            assert(views(all) =~= resident);
            assert(views(gone@) =~= ids);
            lemma_keep(resident, p);
            lemma_keep_distinct(resident, p);
            assert forall|id: Seq<char>|
                ids.contains(id) <==> was.grid.arrivals.dom().contains(id) && !was.window_ids(
                    w.from as int,
                    w.to as int,
                    s,
                ).contains(id) by {
                if resident.contains(id) && p(id) {
                    assert(ids.contains(id));
                }
                if ids.contains(id) {
                    let k = choose|k: int| 0 <= k < ids.len() && ids[k] == id;
                    assert(p(ids[k]));
                    assert(resident.contains(ids[k]));
                }
            }
            assert(was.outside(ids, w, s));
        }
        let mut i: usize = 0;
        while i < gone.len()
            invariant
                i <= gone.len(),
                ids == texts(gone@),
                self@ == moved.let_all_go(ids, i as int),
                self.wf(),
            decreases gone.len() - i,
        {
            self.let_go(gone[i].clone());
            i = i + 1;
        }
        proof {
            lemma_let_all_go_keeps(moved, ids, ids.len() as int);
        }
    }

    fn build_card(&mut self, id: String, covers: &Vec<String>, now: u64)
        requires
            old(self).wf(),
            time_fits(now),
        ensures
            final(self)@ == old(self)@.build_card(id@, texts(covers@), now),
            final(self).wf(),
    {
        if self.jobs.has(Job::Art) {
            self.ask(Effect::RequestArt(id.clone()));
        }
        self.grid.sight(id.as_str(), now);
        let in_hand: bool = has_text(&self.library.art, id.as_str());
        if !has_text(covers, id.as_str()) && in_hand {
            self.ask(Effect::BuildCover(id));
        }
    }

    /// Asks for the art of the cards in the build window, and has what has landed built into
    /// covers. `covers` are the covers that are built already.
    pub fn build_card_window(&mut self, w: Window, covers: &Vec<String>, s: GridShape, now: u64)
        requires
            old(self).wf(),
            old(self)@.grid_fits(s),
            time_fits(now),
        ensures
            final(self)@ == old(self)@.build_card_window(w.from as int, w.to as int, texts(covers@), s, now),
            final(self)@.library == old(self)@.library,
            final(self)@.hosts == old(self)@.hosts,
            final(self).wf(),
    {
        let ghost was = self@;
        let mut i: usize = w.from;
        while i < w.to
            invariant
                w.from <= i,
                i <= w.to || i == w.from,
                self@ == was.build_card_window(w.from as int, i as int, texts(covers@), s, now),
                self@.library == was.library,
                self@.hosts == was.hosts,
                was.grid_fits(s),
                time_fits(now),
                self.wf(),
            decreases w.to - i,
        {
            assert(self@.grid_fits(s));
            let id: Option<String> = match self.grid_card_at(i, s) {
                Some(game) => Some(game.id.clone()),
                None => None,
            };
            match id {
                Some(id) => {
                    self.build_card(id, covers, now);
                },
                None => {},
            }
            i = i + 1;
        }
    }

    /// Asks for the focused card's backdrop ahead of its launch.
    pub fn prefetch_focused_hero(&mut self, s: GridShape)
        requires
            old(self)@.grid_fits(s),
        ensures
            final(self)@ == old(self)@.prefetch_focused_hero(s),
            final(self).wf() == old(self).wf(),
    {
        if !self.grid.revealed {
            return;
        }
        match self.focused_pin_id(s) {
            Some(id) => {
                self.ask(Effect::WantHero(id));
            },
            None => {},
        }
    }

    fn card_pending(&self, idx: usize, s: GridShape) -> (r: bool)
        requires
            self@.grid_fits(s),
        ensures
            r == self@.slot_pending(idx as int, s),
    {
        match self.grid_card_at(idx, s) {
            Some(game) => !has_text(&self.library.art, game.id.as_str()) && (game.art.portrait.is_some()
                || game.art.header.is_some()),
            None => false,
        }
    }

    fn art_pending(&self, w: Window, s: GridShape) -> (r: bool)
        requires
            self@.grid_fits(s),
        ensures
            r == self@.art_pending(w.from as int, w.to as int, s),
    {
        let mut i: usize = w.from;
        while i < w.to
            invariant
                self@.grid_fits(s),
                w.from <= i,
                forall|k: int| w.from <= k < i ==> !(#[trigger] self@.slot_pending(k, s)),
            decreases w.to - i,
        {
            if self.card_pending(i, s) {
                assert(self@.slot_pending(i as int, s));
                return true;
            }
            i = i + 1;
        }
        false
    }

    /// What the spinner over the grid is told, while it is up.
    pub fn reveal_step(&self, page: Window, s: GridShape) -> (r: Option<RevealStep>)
        requires
            self@.grid_fits(s),
        ensures
            r == self@.reveal_step(page, s),
    {
        if self.grid.revealed {
            return None;
        }
        let fetching: bool = self.library_fetch_in_flight() || self.wake_wait_in_flight();
        Some(RevealStep { fetching, art_pending: self.art_pending(page, s) })
    }

    /// Takes whether the grid shows, rather than the spinner.
    pub fn set_revealed(&mut self, revealed: bool)
        ensures
            final(self)@ == old(self)@.with_revealed(revealed),
            final(self).wf() == old(self).wf(),
    {
        self.grid.revealed = revealed;
    }

    /// The grid's pass over one frame: stale covers go, cards outside the keep window go, the
    /// build window's art is asked for and built, the focused card's backdrop is asked for. With
    /// no host there is nothing to wait for, and the grid shows. Returns what the spinner over the
    /// grid is told. `covers` are the covers that are built as the pass begins; a stale one is built
    /// again in the same pass.
    pub fn prepare_grid(
        &mut self,
        page: Window,
        build: Window,
        keep_window: Window,
        covers: &Vec<String>,
        s: GridShape,
        now: u64,
    ) -> (r: Option<RevealStep>)
        requires
            old(self).wf(),
            old(self)@.grid_fits(s),
            time_fits(now),
        ensures
            final(self).wf(),
            old(self)@.library.selected_host is None ==> final(self)@ == old(self)@.with_revealed(true) && r is None,
            old(self)@.library.selected_host is Some && old(self)@.grid_window_frozen() ==> final(self)@ == old(self)@
                && r is None,
            old(self)@.library.selected_host is Some && !old(self)@.grid_window_frozen() ==> {
                &&& exists|left: AppV|
                    #[trigger] old(self)@.release_stale_cards().evicted(keep_window, s, left) && final(self)@
                        == left.build_card_window(
                        build.from as int,
                        build.to as int,
                        standing(texts(covers@), old(self)@.grid),
                        s,
                        now,
                    ).prefetch_focused_hero(s)
                &&& r == final(self)@.reveal_step(page, s)
            },
    {
        if self.library.selected_host.is_none() {
            self.grid.revealed = true;
            return None;
        }
        if self.grid_window_frozen() {
            return None;
        }
        let ghost was = self@;
        let left_covers = self.grid.standing(covers);
        self.release_stale_cards();
        proof {
            lemma_drop_covers_keeps(
                AppV { grid: GridV { cards_dirty: Seq::empty(), ..was.grid }, ..was },
                was.grid.cards_dirty,
                was.grid.cards_dirty.len() as int,
            );
        }
        assert(self@.library == was.library && self@.hosts == was.hosts);
        self.evict_cards_outside(keep_window, s);
        let ghost left = self@;
        self.build_card_window(build, &left_covers, s, now);
        self.prefetch_focused_hero(s);
        assert(was.release_stale_cards().evicted(keep_window, s, left));
        self.reveal_step(page, s)
    }
}

proof fn lemma_drop_covers_keeps(app: AppV, ids: Seq<Seq<char>>, n: int)
    requires
        0 <= n <= ids.len(),
    ensures
        app.drop_covers(ids, n).library == app.library,
        app.drop_covers(ids, n).hosts == app.hosts,
    decreases n,
{
    if n > 0 {
        lemma_drop_covers_keeps(app, ids, n - 1);
    }
}

proof fn lemma_let_all_go_keeps(app: AppV, ids: Seq<Seq<char>>, n: int)
    requires
        0 <= n <= ids.len(),
    ensures
        app.let_all_go(ids, n).library.games == app.library.games,
        app.let_all_go(ids, n).library.groups == app.library.groups,
        app.let_all_go(ids, n).library.selected_host == app.library.selected_host,
        app.let_all_go(ids, n).hosts == app.hosts,
    decreases n,
{
    if n > 0 {
        lemma_let_all_go_keeps(app, ids, n - 1);
    }
}

proof fn lemma_keep_distinct(s: Seq<Seq<char>>, p: spec_fn(Seq<char>) -> bool)
    requires
        s.no_duplicates(),
    ensures
        keep(s, p).no_duplicates(),
    decreases s.len(),
{
    if s.len() > 0 {
        let t = s.drop_last();
        assert forall|i: int, j: int| 0 <= i < t.len() && 0 <= j < t.len() && i != j implies t[i] != t[j] by {
            assert(s[i] != s[j]);
        }
        lemma_keep_distinct(t, p);
        lemma_keep(t, p);
        let kt = keep(t, p);
        if p(s.last()) {
            assert forall|i: int| 0 <= i < kt.len() implies kt[i] != s.last() by {
                assert(kt.contains(kt[i]));
                assert(t.contains(kt[i]));
                let k = choose|k: int| 0 <= k < t.len() && t[k] == kt[i];
                assert(s[k] != s[s.len() - 1]);
            }
        }
    }
}

} // verus!
