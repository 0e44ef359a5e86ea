//! The selected host's library: its games and the grid grouping read every frame.
//!
//! The games are laid out group by group, so each [`Group`]'s games are one contiguous run.
//! [`Library::regroup`] is what maintains that.
use vstd::prelude::*;
use crate::grid::{
    card_of_slot, column_count, first_idx, game_ids, group_views, position_of, run_start, runs, slot_count, slot_for_id,
    GridLayout, Group, GroupV, SectionMetrics,
};
use crate::model::{
    game_views, target_of, Artwork, ArtworkV, CollectionV, GameEntry, GameV, HostV, KnownHost, Target, TargetV,
    DESKTOP_PIN_ID,
};
use crate::recents::{played, RecentV, Recents};
use crate::seqs::{increasing, insert_by, law_sort_by, lemma_insert_at, sort_by, total_order};
use crate::sorting::{arrange, arranged, ints, key_order, keys_of, law_key_order, sorted_order};
use crate::text::{chars_of, lex_le, lowercase, lowercase_of, text_of, texts};

verus! {

/// The ids of a list of games.
pub open spec fn ids_of(games: Seq<GameV>) -> Seq<Seq<char>> {
    games.map_values(|g: GameV| g.id)
}

/// The last position holding the id `id`.
pub open spec fn last_with_id(ids: Seq<Seq<char>>, id: Seq<char>) -> Option<int>
    decreases ids.len(),
{
    if ids.len() == 0 {
        None
    } else if ids.last() == id {
        Some(ids.len() - 1)
    } else {
        last_with_id(ids.drop_last(), id)
    }
}

/// The listed games a collection names, in the collection's order. A member the host does not
/// list has no place.
pub open spec fn claims(ids: Seq<Seq<char>>, members: Seq<Seq<char>>) -> Seq<int>
    decreases members.len(),
{
    if members.len() == 0 {
        Seq::empty()
    } else {
        let rest = claims(ids, members.drop_last());
        match last_with_id(ids, members.last()) {
            Some(i) => rest.push(i),
            None => rest,
        }
    }
}

/// Whether any collection, wherever it is ordered, names game `i`.
pub open spec fn claimed(ids: Seq<Seq<char>>, cols: Seq<CollectionV>, i: int) -> bool {
    exists|k: int| 0 <= k < cols.len() && (#[trigger] claims(ids, cols[k].games)).contains(i)
}

/// What is wanted in order, each once, without what is taken already.
pub open spec fn fresh(taken: Seq<int>, wanted: Seq<int>) -> Seq<int>
    decreases wanted.len(),
{
    if wanted.len() == 0 {
        Seq::empty()
    } else {
        let rest = fresh(taken, wanted.drop_last());
        let x = wanted.last();
        if taken.contains(x) || rest.contains(x) {
            rest
        } else {
            rest.push(x)
        }
    }
}

/// The games below `n` that nothing claims and nothing has taken, in listing order.
pub open spec fn unclaimed(ids: Seq<Seq<char>>, cols: Seq<CollectionV>, taken: Seq<int>, n: int) -> Seq<int>
    decreases n,
{
    if n <= 0 {
        Seq::empty()
    } else {
        let rest = unclaimed(ids, cols, taken, n - 1);
        if claimed(ids, cols, n - 1) || taken.contains(n - 1) {
            rest
        } else {
            rest.push(n - 1)
        }
    }
}

/// Most recently played first; the never-played, at 0, last.
pub open spec fn recent_first(times: Seq<u64>) -> spec_fn(int, int) -> bool {
    |a: int, b: int| times[a] >= times[b]
}

/// The games collection `k` shows, given those that the collections before it took.
pub open spec fn run_of(
    ids: Seq<Seq<char>>,
    cols: Seq<CollectionV>,
    times: Seq<u64>,
    k: int,
    taken: Seq<int>,
) -> Seq<int> {
    if cols[k].dynamic {
        sort_by(unclaimed(ids, cols, taken, ids.len() as int), recent_first(times))
    } else {
        fresh(taken, claims(ids, cols[k].games))
    }
}

/// The games of the first `k` collections, in grid order.
pub open spec fn laid(ids: Seq<Seq<char>>, cols: Seq<CollectionV>, times: Seq<u64>, k: int) -> Seq<int>
    decreases k,
{
    if k <= 0 {
        Seq::empty()
    } else {
        let before = laid(ids, cols, times, k - 1);
        before + run_of(ids, cols, times, k - 1, before)
    }
}

/// The sections of the first `k` collections. One with nothing to show has none.
pub open spec fn sections(ids: Seq<Seq<char>>, cols: Seq<CollectionV>, times: Seq<u64>, k: int) -> Seq<GroupV>
    decreases k,
{
    if k <= 0 {
        Seq::empty()
    } else {
        let rest = sections(ids, cols, times, k - 1);
        let before = laid(ids, cols, times, k - 1);
        let run = run_of(ids, cols, times, k - 1, before);
        if run.len() == 0 {
            rest
        } else {
            rest.push(GroupV { name: cols[k - 1].name, len: run.len(), games_start: before.len() })
        }
    }
}

/// When each game was last played on a host.
pub open spec fn play_times(games: Seq<GameV>, host: Seq<char>, port: u16, recents: Seq<RecentV>) -> Seq<u64> {
    games.map_values(|g: GameV| played(recents, host, port, g.id))
}

/// What the listing is sorted by: the titles without regard to case.
pub open spec fn title_keys(games: Seq<GameV>) -> Seq<Seq<char>> {
    games.map_values(|g: GameV| lowercase_of(g.title))
}

/// The games alphabetically, equal titles in the order they came.
pub open spec fn alphabetical(games: Seq<GameV>) -> Seq<GameV> {
    arranged(games, key_order(title_keys(games)))
}

/// The card of the host's own desktop.
pub open spec fn desktop_card() -> GameV {
    GameV {
        id: DESKTOP_PIN_ID@,
        title: "Desktop"@,
        art: ArtworkV { portrait: None, header: None, hero: None },
        icon: None,
    }
}

/// A library as a value.
pub struct LibraryV {
    pub selected_host: Option<TargetV>,
    pub games: Seq<GameV>,
    pub groups: Seq<GroupV>,
    pub art: Set<Seq<char>>,
    pub running: Set<Seq<char>>,
    pub running_last: Option<u64>,
}

impl LibraryV {
    /// The library holding a host's listing, the desktop among it.
    pub open spec fn load_games(self, games: Seq<GameV>) -> LibraryV {
        LibraryV { games: alphabetical(games.push(desktop_card())), ..self }
    }

    /// The library laid out over `host`'s collections.
    pub open spec fn regroup(self, host: HostV, recents: Seq<RecentV>) -> LibraryV {
        let ids = ids_of(self.games);
        let times = play_times(self.games, host.addr, host.port, recents);
        let n = host.collections.len() as int;
        if n == 0 {
            LibraryV { groups: Seq::empty(), ..self }
        } else {
            LibraryV {
                games: arranged(self.games, laid(ids, host.collections, times, n)),
                groups: sections(ids, host.collections, times, n),
                ..self
            }
        }
    }

    /// The library with the desktop card's icon set.
    pub open spec fn set_desktop_icon(self, icon: Option<Seq<char>>) -> LibraryV {
        match ids_of(self.games).index_of_first(DESKTOP_PIN_ID@) {
            Some(i) => LibraryV { games: self.games.update(i, GameV { icon, ..self.games[i] }), ..self },
            None => self,
        }
    }

    /// The library with two cards' places exchanged.
    pub open spec fn swap_games(self, a: Seq<char>, b: Seq<char>) -> LibraryV {
        match (ids_of(self.games).index_of_first(a), ids_of(self.games).index_of_first(b)) {
            (Some(i), Some(j)) => LibraryV {
                games: self.games.update(i, self.games[j]).update(j, self.games[i]),
                ..self
            },
            _ => self,
        }
    }

    /// The library with nothing drawn from a host left in it.
    pub open spec fn clear(self) -> LibraryV {
        LibraryV {
            games: Seq::empty(),
            groups: Seq::empty(),
            art: Set::empty(),
            running: Set::empty(),
            running_last: None,
            ..self
        }
    }

    pub open spec fn card_at(self, columns: nat, idx: nat) -> Option<GameV> {
        match card_of_slot(self.groups, columns, self.games.len(), idx) {
            Some(p) => Some(self.games[p]),
            None => None,
        }
    }

    pub open spec fn idx_for_pin_id(self, columns: nat, id: Seq<char>) -> Option<int> {
        slot_for_id(self.groups, columns, ids_of(self.games), id)
    }
}

pub struct Library {
    pub selected_host: Option<Target>,
    /// Every game, laid out group by group.
    pub games: Vec<GameEntry>,
    /// The grid's sections, in grid order. Empty collections have none.
    pub groups: Vec<Group>,
    /// Ids whose cover art is in hand.
    pub art: Vec<String>,
    /// Ids the selected host has launched right now.
    pub running: Vec<String>,
    /// When the selected host was last asked what it runs.
    pub running_last: Option<u64>,
}

impl View for Library {
    type V = LibraryV;

    open spec fn view(&self) -> LibraryV {
        LibraryV {
            selected_host: target_of(self.selected_host),
            games: game_views(self.games@),
            groups: group_views(self.groups@),
            art: texts(self.art@).to_set(),
            running: texts(self.running@).to_set(),
            running_last: self.running_last,
        }
    }
}

// ---------------------------------------------------------------------------- lemmas --

proof fn lemma_last_with_id(ids: Seq<Seq<char>>, id: Seq<char>)
    ensures
        match last_with_id(ids, id) {
            Some(i) => 0 <= i < ids.len() && ids[i] == id && (forall|k: int| i < k < ids.len() ==> ids[k] != id),
            None => !ids.contains(id),
        },
    decreases ids.len(),
{
    if ids.len() > 0 && ids.last() != id {
        lemma_last_with_id(ids.drop_last(), id);
        let d = ids.drop_last();
        match last_with_id(d, id) {
            Some(i) => {
                assert forall|k: int| i < k < ids.len() implies ids[k] != id by {
                    if k < d.len() {
                        assert(d[k] == ids[k]);
                    }
                }
            },
            None => {
                if ids.contains(id) {
                    let k = choose|k: int| 0 <= k < ids.len() && ids[k] == id;
                    assert(d[k] == id);
                    assert(d.contains(id));
                }
            },
        }
    }
}

proof fn lemma_claims_range(ids: Seq<Seq<char>>, members: Seq<Seq<char>>)
    ensures
        forall|j: int| 0 <= j < claims(ids, members).len() ==> 0 <= #[trigger] claims(ids, members)[j] < ids.len(),
        claims(ids, members).len() <= members.len(),
    decreases members.len(),
{
    if members.len() > 0 {
        lemma_claims_range(ids, members.drop_last());
        lemma_last_with_id(ids, members.last());
    }
}

proof fn lemma_fresh(taken: Seq<int>, wanted: Seq<int>)
    ensures
        fresh(taken, wanted).no_duplicates(),
        forall|x: int| #[trigger]
            fresh(taken, wanted).contains(x) <==> (wanted.contains(x) && !taken.contains(x)),
    decreases wanted.len(),
{
    if wanted.len() > 0 {
        let d = wanted.drop_last();
        lemma_fresh(taken, d);
        let r = fresh(taken, d);
        let f = fresh(taken, wanted);
        let z = wanted.last();
        assert(f == (if taken.contains(z) || r.contains(z) {
            r
        } else {
            r.push(z)
        }));
        assert forall|x: int| #[trigger] f.contains(x) <==> (wanted.contains(x) && !taken.contains(x)) by {
            if f.contains(x) {
                let i = choose|i: int| 0 <= i < f.len() && f[i] == x;
                if i < r.len() {
                    assert(r[i] == x);
                    assert(r.contains(x));
                    let m = choose|m: int| 0 <= m < d.len() && d[m] == x;
                    assert(wanted[m] == x);
                } else {
                    assert(wanted[wanted.len() - 1] == x);
                }
            }
            if wanted.contains(x) && !taken.contains(x) {
                let m = choose|m: int| 0 <= m < wanted.len() && wanted[m] == x;
                if m < d.len() {
                    assert(d[m] == x);
                    assert(d.contains(x));
                    assert(r.contains(x));
                    let i = choose|i: int| 0 <= i < r.len() && r[i] == x;
                    assert(f[i] == x);
                } else if !r.contains(x) {
                    assert(f[f.len() - 1] == x);
                } else {
                    assert(f =~= r);
                }
            }
        }
    }
}

proof fn lemma_unclaimed(ids: Seq<Seq<char>>, cols: Seq<CollectionV>, taken: Seq<int>, n: int)
    requires
        0 <= n,
    ensures
        increasing(unclaimed(ids, cols, taken, n)),
        forall|x: int| #[trigger]
            unclaimed(ids, cols, taken, n).contains(x) <==> (0 <= x < n && !claimed(ids, cols, x) && !taken.contains(
                x,
            )),
        forall|j: int|
            0 <= j < unclaimed(ids, cols, taken, n).len() ==> 0 <= #[trigger] unclaimed(ids, cols, taken, n)[j] < n,
    decreases n,
{
    if n > 0 {
        lemma_unclaimed(ids, cols, taken, n - 1);
        let r = unclaimed(ids, cols, taken, n - 1);
        let u = unclaimed(ids, cols, taken, n);
        assert(u == (if claimed(ids, cols, n - 1) || taken.contains(n - 1) {
            r
        } else {
            r.push(n - 1)
        }));
        assert forall|x: int| #[trigger] u.contains(x) <==> (0 <= x < n && !claimed(ids, cols, x) && !taken.contains(
            x,
        )) by {
            if u.contains(x) {
                let i = choose|i: int| 0 <= i < u.len() && u[i] == x;
                if i < r.len() {
                    assert(r[i] == x);
                    assert(r.contains(x));
                }
            }
            if 0 <= x < n && !claimed(ids, cols, x) && !taken.contains(x) {
                if x < n - 1 {
                    assert(r.contains(x));
                    let i = choose|i: int| 0 <= i < r.len() && r[i] == x;
                    assert(u[i] == x);
                } else {
                    assert(u[u.len() - 1] == x);
                }
            }
        }
    }
}

proof fn lemma_recent_first_order(times: Seq<u64>)
    ensures
        total_order(recent_first(times)),
{
}

proof fn lemma_run(ids: Seq<Seq<char>>, cols: Seq<CollectionV>, times: Seq<u64>, k: int, taken: Seq<int>)
    requires
        0 <= k < cols.len(),
    ensures
        run_of(ids, cols, times, k, taken).no_duplicates(),
        forall|x: int| #[trigger]
            run_of(ids, cols, times, k, taken).contains(x) <==> (if cols[k].dynamic {
                0 <= x < ids.len() && !claimed(ids, cols, x) && !taken.contains(x)
            } else {
                claims(ids, cols[k].games).contains(x) && !taken.contains(x)
            }),
{
    if cols[k].dynamic {
        lemma_recent_first_order(times);
        lemma_unclaimed(ids, cols, taken, ids.len() as int);
        law_sort_by(unclaimed(ids, cols, taken, ids.len() as int), recent_first(times));
    } else {
        lemma_fresh(taken, claims(ids, cols[k].games));
    }
}

proof fn lemma_laid(ids: Seq<Seq<char>>, cols: Seq<CollectionV>, times: Seq<u64>, k: int)
    requires
        0 <= k <= cols.len(),
    ensures
        laid(ids, cols, times, k).no_duplicates(),
        forall|j: int|
            0 <= j < laid(ids, cols, times, k).len() ==> 0 <= #[trigger] laid(ids, cols, times, k)[j] < ids.len(),
    decreases k,
{
    if k > 0 {
        lemma_laid(ids, cols, times, k - 1);
        let before = laid(ids, cols, times, k - 1);
        let run = run_of(ids, cols, times, k - 1, before);
        lemma_run(ids, cols, times, k - 1, before);
        lemma_claims_range(ids, cols[k - 1].games);
        let l = laid(ids, cols, times, k);
        assert(l == before + run);
        assert forall|j: int| 0 <= j < l.len() implies 0 <= #[trigger] l[j] < ids.len() by {
            if j >= before.len() {
                assert(run.contains(run[j - before.len()]));
                assert(l[j] == run[j - before.len()]);
                if !cols[k - 1].dynamic {
                    let c = claims(ids, cols[k - 1].games);
                    let m = choose|m: int| 0 <= m < c.len() && c[m] == l[j];
                    assert(0 <= c[m] < ids.len());
                }
            }
        }
        assert forall|i: int, j: int| 0 <= i < l.len() && 0 <= j < l.len() && i != j implies l[i] != l[j] by {
            if i < before.len() && j >= before.len() {
                assert(run.contains(run[j - before.len()]));
                assert(before.contains(before[i]));
            } else if j < before.len() && i >= before.len() {
                assert(run.contains(run[i - before.len()]));
                assert(before.contains(before[j]));
            } else if i >= before.len() {
                assert(run[i - before.len()] != run[j - before.len()]);
            }
        }
    }
}

// ------------------------------------------------------------------------------ laws --

/// However the collections overlap, no game is placed twice, and only listed games are placed.
pub proof fn law_each_game_placed_once(ids: Seq<Seq<char>>, cols: Seq<CollectionV>, times: Seq<u64>)
    ensures
        laid(ids, cols, times, cols.len() as int).no_duplicates(),
        forall|j: int|
            0 <= j < laid(ids, cols, times, cols.len() as int).len() ==> 0 <= #[trigger] laid(
                ids,
                cols,
                times,
                cols.len() as int,
            )[j] < ids.len(),
{
    lemma_laid(ids, cols, times, cols.len() as int);
}

proof fn lemma_sections(ids: Seq<Seq<char>>, cols: Seq<CollectionV>, times: Seq<u64>, k: int)
    requires
        0 <= k <= cols.len(),
    ensures
        runs(sections(ids, cols, times, k), laid(ids, cols, times, k).len()),
        forall|i: int|
            0 <= i < sections(ids, cols, times, k).len() ==> (#[trigger] sections(ids, cols, times, k)[i]).len >= 1,
        sections(ids, cols, times, k).len() <= k,
    decreases k,
{
    if k > 0 {
        lemma_sections(ids, cols, times, k - 1);
        let r = sections(ids, cols, times, k - 1);
        let s = sections(ids, cols, times, k);
        let before = laid(ids, cols, times, k - 1);
        let run = run_of(ids, cols, times, k - 1, before);
        if run.len() > 0 {
            assert(s.len() == r.len() + 1);
            lemma_run_start_push(r, s.last(), r.len() as int);
            assert(s =~= r.push(s.last()));
            assert forall|i: int| 0 <= i < s.len() implies (#[trigger] s[i]).games_start == run_start(s, i) by {
                if i < r.len() {
                    lemma_run_start_push(r, s.last(), i);
                    assert(r[i].games_start == run_start(r, i));
                }
            }
            assert(run_start(s, s.len() as int) == run_start(s, r.len() as int) + s[r.len() as int].len);
        }
    } else {
        assert(sections(ids, cols, times, k) =~= Seq::empty());
    }
}

proof fn lemma_run_start_push(r: Seq<GroupV>, g: GroupV, i: int)
    requires
        0 <= i <= r.len(),
    ensures
        run_start(r.push(g), i) == run_start(r, i),
    decreases i,
{
    if i > 0 {
        lemma_run_start_push(r, g, i - 1);
        assert(r.push(g)[i - 1] == r[i - 1]);
    }
}

/// The sections are the placed games cut into consecutive runs, none of them empty.
pub proof fn law_sections_are_runs(ids: Seq<Seq<char>>, cols: Seq<CollectionV>, times: Seq<u64>)
    ensures
        runs(sections(ids, cols, times, cols.len() as int), laid(ids, cols, times, cols.len() as int).len()),
        forall|i: int|
            0 <= i < sections(ids, cols, times, cols.len() as int).len() ==> (#[trigger] sections(
                ids,
                cols,
                times,
                cols.len() as int,
            )[i]).len >= 1,
{
    lemma_sections(ids, cols, times, cols.len() as int);
}

/// There are no more sections than collections.
pub proof fn lemma_sections_count(ids: Seq<Seq<char>>, cols: Seq<CollectionV>, times: Seq<u64>)
    ensures
        sections(ids, cols, times, cols.len() as int).len() <= cols.len(),
{
    lemma_sections(ids, cols, times, cols.len() as int);
}

/// Distinct positions below `n` are at most `n`.
pub proof fn lemma_distinct_below(s: Seq<int>, n: int)
    requires
        s.no_duplicates(),
        0 <= n,
        forall|j: int| 0 <= j < s.len() ==> 0 <= #[trigger] s[j] < n,
    ensures
        s.len() <= n,
{
    s.unique_seq_to_set();
    let below = vstd::set_lib::set_int_range(0, n);
    vstd::set_lib::lemma_int_range(0, n);
    assert(s.to_set().subset_of(below));
    vstd::set_lib::lemma_len_subset(s.to_set(), below);
}

proof fn lemma_laid_prefix(ids: Seq<Seq<char>>, cols: Seq<CollectionV>, times: Seq<u64>, k: int, n: int, x: int)
    requires
        0 <= k <= n,
        laid(ids, cols, times, k).contains(x),
    ensures
        laid(ids, cols, times, n).contains(x),
    decreases n - k,
{
    if k < n {
        lemma_laid_prefix(ids, cols, times, k, n - 1, x);
        let before = laid(ids, cols, times, n - 1);
        let i = choose|i: int| 0 <= i < before.len() && before[i] == x;
        assert(laid(ids, cols, times, n)[i] == x);
    }
}

/// Where some collection is the Library, and the Library names no members of its own, every
/// listed game has a place.
pub proof fn law_every_game_placed(ids: Seq<Seq<char>>, cols: Seq<CollectionV>, times: Seq<u64>, lib: int, x: int)
    requires
        0 <= lib < cols.len(),
        cols[lib].dynamic,
        forall|k: int| 0 <= k < cols.len() && (#[trigger] cols[k]).dynamic ==> cols[k].games.len() == 0,
        0 <= x < ids.len(),
    ensures
        laid(ids, cols, times, cols.len() as int).contains(x),
{
    let n = cols.len() as int;
    let k = if claimed(ids, cols, x) {
        choose|k: int| 0 <= k < cols.len() && (#[trigger] claims(ids, cols[k].games)).contains(x)
    } else {
        lib
    };
    assert(!claimed(ids, cols, x) ==> cols[k].dynamic);
    if claimed(ids, cols, x) && cols[k].dynamic {
        assert(claims(ids, cols[k].games).len() == 0);
    }
    let before = laid(ids, cols, times, k);
    let run = run_of(ids, cols, times, k, before);
    lemma_run(ids, cols, times, k, before);
    if before.contains(x) {
        lemma_laid_prefix(ids, cols, times, k, n, x);
    } else {
        assert(run.contains(x));
        let i = choose|i: int| 0 <= i < run.len() && run[i] == x;
        let l = laid(ids, cols, times, k + 1);
        assert(l[before.len() + i] == x);
        lemma_laid_prefix(ids, cols, times, k + 1, n, x);
    }
}

/// A collection's section shows the games it lists, but for those that a section before it took: no other
/// game, and none of its own left out.
pub proof fn law_shelf_shows_its_games(
    ids: Seq<Seq<char>>,
    cols: Seq<CollectionV>,
    times: Seq<u64>,
    k: int,
    taken: Seq<int>,
    x: int,
)
    requires
        ids.no_duplicates(),
        0 <= k < cols.len(),
        !cols[k].dynamic,
        0 <= x < ids.len(),
    ensures
        run_of(ids, cols, times, k, taken).contains(x) <==> cols[k].games.contains(ids[x]) && !taken.contains(x),
{
    lemma_fresh(taken, claims(ids, cols[k].games));
    lemma_claims_contains(ids, cols[k].games, x);
}

/// Games are taken from a list of members in the members' order.
proof fn lemma_members_in_order(ids: Seq<Seq<char>>, members: Seq<Seq<char>>, taken: Seq<int>)
    ensures
        ({
            let run = fresh(taken, claims(ids, members));
            &&& forall|a: int|
                0 <= a < run.len() ==> 0 <= #[trigger] run[a] < ids.len() && members.contains(ids[run[a]])
            &&& forall|a: int, b: int|
                0 <= a < b < run.len() ==> exists|p: int, q: int|
                    0 <= p < q < members.len() && #[trigger] members[p] == ids[#[trigger] run[a]] && #[trigger] members[q]
                        == ids[#[trigger] run[b]]
        }),
    decreases members.len(),
{
    if members.len() > 0 {
        let d = members.drop_last();
        lemma_members_in_order(ids, d, taken);
        lemma_last_with_id(ids, members.last());
        let before = fresh(taken, claims(ids, d));
        let run = fresh(taken, claims(ids, members));
        match last_with_id(ids, members.last()) {
            Some(i) => {
                assert(claims(ids, members).drop_last() =~= claims(ids, d));
            },
            None => {},
        }
        let n = members.len() - 1;
        assert forall|a: int| 0 <= a < run.len() implies 0 <= #[trigger] run[a] < ids.len() && members.contains(
            ids[run[a]],
        ) by {
            if a < before.len() {
                assert(before[a] == run[a]);
                let p = choose|p: int| 0 <= p < d.len() && d[p] == ids[before[a]];
                assert(members[p] == ids[run[a]]);
            } else {
                assert(members[n] == ids[run[a]]);
            }
        }
        assert forall|a: int, b: int| 0 <= a < b < run.len() implies exists|p: int, q: int|
            0 <= p < q < members.len() && #[trigger] members[p] == ids[#[trigger] run[a]] && #[trigger] members[q]
                == ids[#[trigger] run[b]] by {
            assert(before[a] == run[a]);
            if b < before.len() {
                assert(before[b] == run[b]);
                let (p, q) = choose|p: int, q: int|
                    0 <= p < q < d.len() && #[trigger] d[p] == ids[before[a]] && #[trigger] d[q] == ids[before[b]];
                assert(members[p] == ids[run[a]] && members[q] == ids[run[b]]);
            } else {
                assert(d.contains(ids[before[a]]));
                let p = choose|p: int| 0 <= p < d.len() && d[p] == ids[before[a]];
                assert(members[p] == ids[run[a]] && members[n] == ids[run[b]]);
            }
        }
    }
}

/// A collection's section keeps the collection's own order.
pub proof fn law_shelf_keeps_its_order(
    ids: Seq<Seq<char>>,
    cols: Seq<CollectionV>,
    times: Seq<u64>,
    k: int,
    taken: Seq<int>,
    a: int,
    b: int,
)
    requires
        0 <= k < cols.len(),
        !cols[k].dynamic,
        0 <= a < b < run_of(ids, cols, times, k, taken).len(),
    ensures
        exists|p: int, q: int|
            0 <= p < q < cols[k].games.len() && #[trigger] cols[k].games[p] == ids[run_of(ids, cols, times, k, taken)[a]]
                && #[trigger] cols[k].games[q] == ids[run_of(ids, cols, times, k, taken)[b]],
{
    lemma_members_in_order(ids, cols[k].games, taken);
    let run = run_of(ids, cols, times, k, taken);
    let members = cols[k].games;
    assert(run == fresh(taken, claims(ids, members)));
    let (p, q) = choose|p: int, q: int|
        0 <= p < q < members.len() && #[trigger] members[p] == ids[run[a]] && #[trigger] members[q] == ids[run[b]];
    assert(cols[k].games[p] == ids[run[a]] && cols[k].games[q] == ids[run[b]]);
}

/// Every collection with something to show has a section under its own name, at its place.
pub proof fn law_section_bears_its_name(
    ids: Seq<Seq<char>>,
    cols: Seq<CollectionV>,
    times: Seq<u64>,
    k: int,
    n: int,
)
    requires
        0 <= k < n <= cols.len(),
        run_of(ids, cols, times, k, laid(ids, cols, times, k)).len() > 0,
    ensures
        exists|j: int|
            0 <= j < sections(ids, cols, times, n).len() && (#[trigger] sections(ids, cols, times, n)[j]).name
                == cols[k].name && sections(ids, cols, times, n)[j].games_start == laid(ids, cols, times, k).len()
                && sections(ids, cols, times, n)[j].len == run_of(
                ids,
                cols,
                times,
                k,
                laid(ids, cols, times, k),
            ).len(),
    decreases n,
{
    let now = sections(ids, cols, times, n);
    if k == n - 1 {
        assert(now[now.len() - 1].name == cols[k].name);
    } else {
        law_section_bears_its_name(ids, cols, times, k, n - 1);
        let rest = sections(ids, cols, times, n - 1);
        let j = choose|j: int|
            0 <= j < rest.len() && (#[trigger] rest[j]).name == cols[k].name && rest[j].games_start == laid(
                ids,
                cols,
                times,
                k,
            ).len() && rest[j].len == run_of(ids, cols, times, k, laid(ids, cols, times, k)).len();
        assert(now[j] == rest[j]);
    }
}

/// The Library never shows a game that a collection claims, even one ordered after it.
pub proof fn law_library_leaves_claimed(
    ids: Seq<Seq<char>>,
    cols: Seq<CollectionV>,
    times: Seq<u64>,
    k: int,
    taken: Seq<int>,
    x: int,
)
    requires
        0 <= k < cols.len(),
        cols[k].dynamic,
        claimed(ids, cols, x),
    ensures
        !run_of(ids, cols, times, k, taken).contains(x),
{
    lemma_run(ids, cols, times, k, taken);
}

/// The Library is ordered by play, most recent first; games that were never played come last,
/// in the order they were listed.
pub proof fn law_library_by_recency(
    ids: Seq<Seq<char>>,
    cols: Seq<CollectionV>,
    times: Seq<u64>,
    k: int,
    taken: Seq<int>,
    i: int,
    j: int,
)
    requires
        0 <= k < cols.len(),
        cols[k].dynamic,
        0 <= i < j < run_of(ids, cols, times, k, taken).len(),
    ensures
        ({
            let run = run_of(ids, cols, times, k, taken);
            &&& times[run[i]] >= times[run[j]]
            &&& times[run[i]] == times[run[j]] ==> run[i] < run[j]
        }),
{
    lemma_recent_first_order(times);
    lemma_unclaimed(ids, cols, taken, ids.len() as int);
    law_sort_by(unclaimed(ids, cols, taken, ids.len() as int), recent_first(times));
}

/// Consecutive positions from `a` to before `b`.
pub open spec fn stretch(a: int, b: int) -> Seq<int> {
    Seq::new(if a < b {
        (b - a) as nat
    } else {
        0
    }, |i: int| a + i)
}

proof fn lemma_claims_contains(ids: Seq<Seq<char>>, members: Seq<Seq<char>>, i: int)
    requires
        ids.no_duplicates(),
        0 <= i < ids.len(),
    ensures
        claims(ids, members).contains(i) <==> members.contains(ids[i]),
    decreases members.len(),
{
    if members.len() > 0 {
        let d = members.drop_last();
        lemma_claims_contains(ids, d, i);
        lemma_last_with_id(ids, members.last());
        let rest = claims(ids, d);
        let all = claims(ids, members);
        if all.contains(i) {
            let k = choose|k: int| 0 <= k < all.len() && all[k] == i;
            if k < rest.len() {
                assert(rest[k] == i);
                let m = choose|m: int| 0 <= m < d.len() && d[m] == ids[i];
                assert(members[m] == ids[i]);
            } else {
                assert(members[members.len() - 1] == ids[i]);
            }
        }
        if members.contains(ids[i]) {
            let m = choose|m: int| 0 <= m < members.len() && members[m] == ids[i];
            if m < d.len() {
                assert(d[m] == ids[i]);
                let k = choose|k: int| 0 <= k < rest.len() && rest[k] == i;
                assert(all[k] == i);
            } else {
                assert(last_with_id(ids, members.last()) == Some(i));
                assert(all[all.len() - 1] == i);
            }
        }
    }
}

/// What a collection claims of a rearranged listing is what it claimed of the listing, where all of
/// that was kept.
proof fn lemma_claims_rearranged(ids: Seq<Seq<char>>, order: Seq<int>, members: Seq<Seq<char>>)
    requires
        ids.no_duplicates(),
        order.no_duplicates(),
        forall|j: int| 0 <= j < order.len() ==> 0 <= #[trigger] order[j] < ids.len(),
        forall|x: int| claims(ids, members).contains(x) ==> #[trigger] order.contains(x),
    ensures
        arranged(order, claims(arranged(ids, order), members)) == claims(ids, members),
    decreases members.len(),
{
    let ids2 = arranged(ids, order);
    if members.len() > 0 {
        let d = members.drop_last();
        let id = members.last();
        let rest = claims(ids, d);
        let all = claims(ids, members);
        assert forall|x: int| rest.contains(x) implies #[trigger] order.contains(x) by {
            let k = choose|k: int| 0 <= k < rest.len() && rest[k] == x;
            assert(all[k] == x);
            assert(all.contains(x));
        }
        lemma_claims_rearranged(ids, order, d);
        lemma_last_with_id(ids, id);
        lemma_last_with_id(ids2, id);
        match last_with_id(ids, id) {
            Some(i) => {
                assert(all[all.len() - 1] == i);
                assert(all.contains(i));
                assert(order.contains(i));
                let j = choose|j: int| 0 <= j < order.len() && order[j] == i;
                assert(ids2[j] == id);
                assert(ids2.contains(id));
                let j2 = last_with_id(ids2, id)->0;
                assert(ids[order[j2]] == ids[i]);
                assert(order[j2] == i);
                assert(arranged(order, claims(ids2, members)) =~= arranged(order, claims(ids2, d)).push(i));
            },
            None => {
                if last_with_id(ids2, id) is Some {
                    let j2 = last_with_id(ids2, id)->0;
                    assert(ids[order[j2]] == id);
                    assert(ids.contains(id));
                }
            },
        }
    } else {
        assert(arranged(order, claims(ids2, members)) =~= claims(ids, members));
    }
}

proof fn lemma_rearranged_contains(order: Seq<int>, s: Seq<int>, x: int)
    requires
        order.no_duplicates(),
        forall|j: int| 0 <= j < s.len() ==> 0 <= #[trigger] s[j] < order.len(),
        0 <= x < order.len(),
    ensures
        arranged(order, s).contains(order[x]) <==> s.contains(x),
{
    let t = arranged(order, s);
    if s.contains(x) {
        let j = choose|j: int| 0 <= j < s.len() && s[j] == x;
        assert(t[j] == order[x]);
    }
    if t.contains(order[x]) {
        let j = choose|j: int| 0 <= j < t.len() && t[j] == order[x];
        assert(order[s[j]] == order[x]);
        assert(s[j] == x);
    }
}

proof fn lemma_fresh_rearranged(order: Seq<int>, taken: Seq<int>, wanted: Seq<int>)
    requires
        order.no_duplicates(),
        forall|j: int| 0 <= j < taken.len() ==> 0 <= #[trigger] taken[j] < order.len(),
        forall|j: int| 0 <= j < wanted.len() ==> 0 <= #[trigger] wanted[j] < order.len(),
    ensures
        arranged(order, fresh(taken, wanted)) == fresh(arranged(order, taken), arranged(order, wanted)),
        forall|j: int| 0 <= j < fresh(taken, wanted).len() ==> 0 <= #[trigger] fresh(taken, wanted)[j] < order.len(),
    decreases wanted.len(),
{
    if wanted.len() > 0 {
        let d = wanted.drop_last();
        let x = wanted.last();
        lemma_fresh_rearranged(order, taken, d);
        let rest = fresh(taken, d);
        assert(arranged(order, wanted).drop_last() =~= arranged(order, d));
        assert(arranged(order, wanted).last() == order[x]);
        lemma_rearranged_contains(order, taken, x);
        lemma_rearranged_contains(order, rest, x);
        assert(arranged(order, rest.push(x)) =~= arranged(order, rest).push(order[x]));
    } else {
        assert(arranged(order, fresh(taken, wanted)) =~= fresh(arranged(order, taken), arranged(order, wanted)));
    }
}

proof fn lemma_sorted_stays(s: Seq<int>, le: spec_fn(int, int) -> bool)
    requires
        forall|i: int, j: int| 0 <= i < j < s.len() ==> le(#[trigger] s[i], #[trigger] s[j]),
    ensures
        sort_by(s, le) == s,
    decreases s.len(),
{
    if s.len() > 0 {
        let d = s.drop_last();
        lemma_sorted_stays(d, le);
        assert(d.len() > 0 ==> le(d.last(), s.last())) by {
            if d.len() > 0 {
                assert(le(s[s.len() - 2], s[s.len() - 1]));
            }
        }
        assert(d.push(s.last()) =~= s);
    }
}

proof fn lemma_unclaimed_stretch(
    ids: Seq<Seq<char>>,
    cols: Seq<CollectionV>,
    taken: Seq<int>,
    a: int,
    b: int,
    n: int,
)
    requires
        0 <= n,
        0 <= a <= b,
        forall|j: int|
            0 <= j < n ==> ((a <= j && j < b) == (!(#[trigger] claimed(ids, cols, j)) && !taken.contains(j))),
    ensures
        unclaimed(ids, cols, taken, n) == stretch(a, if n < b {
            n
        } else {
            b
        }),
    decreases n,
{
    if n > 0 {
        lemma_unclaimed_stretch(ids, cols, taken, a, b, n - 1);
        let last = n - 1;
        assert((a <= last && last < b) == (!claimed(ids, cols, last) && !taken.contains(last)));
        assert(unclaimed(ids, cols, taken, n) =~= stretch(a, if n < b {
            n
        } else {
            b
        }));
    } else {
        assert(unclaimed(ids, cols, taken, n) =~= stretch(a, if n < b {
            n
        } else {
            b
        }));
    }
}

proof fn lemma_laid_begins(ids: Seq<Seq<char>>, cols: Seq<CollectionV>, times: Seq<u64>, k: int, n: int)
    requires
        0 <= k <= n,
    ensures
        laid(ids, cols, times, k).len() <= laid(ids, cols, times, n).len(),
        laid(ids, cols, times, n).take(laid(ids, cols, times, k).len() as int) == laid(ids, cols, times, k),
    decreases n - k,
{
    let first = laid(ids, cols, times, k);
    if k < n {
        lemma_laid_begins(ids, cols, times, k, n - 1);
        let before = laid(ids, cols, times, n - 1);
        assert(laid(ids, cols, times, n).take(first.len() as int) =~= before.take(first.len() as int));
    } else {
        assert(first.take(first.len() as int) =~= first);
    }
}

/// A run of the layout, laid out again over the layout itself, stands where it stood.
proof fn lemma_run_again(ids: Seq<Seq<char>>, cols: Seq<CollectionV>, times: Seq<u64>, k: int)
    requires
        ids.no_duplicates(),
        times.len() == ids.len(),
        0 <= k < cols.len(),
    ensures
        ({
            let order = laid(ids, cols, times, cols.len() as int);
            let a = laid(ids, cols, times, k).len() as int;
            let b = laid(ids, cols, times, k + 1).len() as int;
            a <= b && run_of(arranged(ids, order), cols, arranged(times, order), k, stretch(0, a)) == stretch(a, b)
        }),
{
    let n = cols.len() as int;
    let order = laid(ids, cols, times, n);
    let before = laid(ids, cols, times, k);
    let run = run_of(ids, cols, times, k, before);
    let here = laid(ids, cols, times, k + 1);
    let ids2 = arranged(ids, order);
    let times2 = arranged(times, order);
    let a = before.len() as int;
    let b = here.len() as int;
    assert(here == before + run);
    lemma_laid(ids, cols, times, n);
    lemma_laid_begins(ids, cols, times, k, n);
    lemma_laid_begins(ids, cols, times, k + 1, n);
    lemma_run(ids, cols, times, k, before);
    assert forall|j: int| 0 <= j < a implies #[trigger] order[j] == before[j] by {
        assert(order.take(a)[j] == before[j]);
    }
    assert forall|j: int| 0 <= j < b implies #[trigger] order[j] == here[j] by {
        assert(order.take(b)[j] == here[j]);
    }
    let taken = stretch(0, a);
    let run2 = run_of(ids2, cols, times2, k, taken);
    if cols[k].dynamic {
        assert forall|j: int| 0 <= j < ids2.len() implies ((a <= j && j < b) == (!(#[trigger] claimed(ids2, cols, j))
            && !taken.contains(j))) by {
            lemma_claimed_again(ids, order, cols, j);
            if j < a {
                assert(taken[j] == j);
            } else {
                if taken.contains(j) {
                    let i = choose|i: int| 0 <= i < taken.len() && taken[i] == j;
                }
                if before.contains(order[j]) {
                    let i = choose|i: int| 0 <= i < before.len() && before[i] == order[j];
                    assert(order[i] == order[j]);
                }
                if j < b {
                    assert(run[j - a] == order[j]);
                    assert(run.contains(order[j]));
                } else if run.contains(order[j]) {
                    let i = choose|i: int| 0 <= i < run.len() && run[i] == order[j];
                    assert(order[a + i] == order[j]);
                }
            }
        }
        lemma_unclaimed_stretch(ids2, cols, taken, a, b, ids2.len() as int);
        let le = recent_first(times2);
        let s = stretch(a, b);
        assert forall|i: int, j: int| 0 <= i < j < s.len() implies le(#[trigger] s[i], #[trigger] s[j]) by {
            law_library_by_recency(ids, cols, times, k, before, i, j);
            assert(order[a + i] == run[i]);
            assert(order[a + j] == run[j]);
        }
        lemma_sorted_stays(s, le);
    } else {
        let wanted = claims(ids, cols[k].games);
        let wanted2 = claims(ids2, cols[k].games);
        assert forall|x: int| wanted.contains(x) implies #[trigger] order.contains(x) by {
            if before.contains(x) {
                let i = choose|i: int| 0 <= i < before.len() && before[i] == x;
                assert(order[i] == x);
            } else {
                assert(run.contains(x));
                let i = choose|i: int| 0 <= i < run.len() && run[i] == x;
                assert(order[a + i] == x);
            }
        }
        lemma_claims_rearranged(ids, order, cols[k].games);
        lemma_claims_range(ids2, cols[k].games);
        lemma_fresh_rearranged(order, taken, wanted2);
        assert(arranged(order, taken) =~= before);
        assert(arranged(order, run2) == run);
        assert(run2.len() == run.len());
        assert forall|j: int| 0 <= j < run2.len() implies #[trigger] run2[j] == a + j by {
            assert(arranged(order, run2)[j] == order[run2[j]]);
            assert(order[a + j] == run[j]);
        }
        assert(run2 =~= stretch(a, b));
    }
}

proof fn lemma_claimed_again(ids: Seq<Seq<char>>, order: Seq<int>, cols: Seq<CollectionV>, j: int)
    requires
        ids.no_duplicates(),
        order.no_duplicates(),
        forall|i: int| 0 <= i < order.len() ==> 0 <= #[trigger] order[i] < ids.len(),
        0 <= j < order.len(),
    ensures
        claimed(arranged(ids, order), cols, j) <==> claimed(ids, cols, order[j]),
{
    let ids2 = arranged(ids, order);
    assert forall|x: int, y: int| 0 <= x < ids2.len() && 0 <= y < ids2.len() && x != y implies ids2[x] != ids2[y] by {
        assert(order[x] != order[y]);
    }
    assert(ids2[j] == ids[order[j]]);
    if claimed(ids2, cols, j) {
        let k = choose|k: int| 0 <= k < cols.len() && (#[trigger] claims(ids2, cols[k].games)).contains(j);
        lemma_claims_contains(ids2, cols[k].games, j);
        lemma_claims_contains(ids, cols[k].games, order[j]);
        assert(claims(ids, cols[k].games).contains(order[j]));
    }
    if claimed(ids, cols, order[j]) {
        let k = choose|k: int| 0 <= k < cols.len() && (#[trigger] claims(ids, cols[k].games)).contains(order[j]);
        lemma_claims_contains(ids2, cols[k].games, j);
        lemma_claims_contains(ids, cols[k].games, order[j]);
        assert(claims(ids2, cols[k].games).contains(j));
    }
}

proof fn lemma_laid_again(ids: Seq<Seq<char>>, cols: Seq<CollectionV>, times: Seq<u64>, k: int)
    requires
        ids.no_duplicates(),
        times.len() == ids.len(),
        0 <= k <= cols.len(),
    ensures
        ({
            let order = laid(ids, cols, times, cols.len() as int);
            let ids2 = arranged(ids, order);
            let times2 = arranged(times, order);
            &&& laid(ids2, cols, times2, k) == stretch(0, laid(ids, cols, times, k).len() as int)
            &&& sections(ids2, cols, times2, k) == sections(ids, cols, times, k)
        }),
    decreases k,
{
    let order = laid(ids, cols, times, cols.len() as int);
    let ids2 = arranged(ids, order);
    let times2 = arranged(times, order);
    if k > 0 {
        lemma_laid_again(ids, cols, times, k - 1);
        lemma_run_again(ids, cols, times, k - 1);
        let a = laid(ids, cols, times, k - 1).len() as int;
        let b = laid(ids, cols, times, k).len() as int;
        assert(stretch(0, a) + stretch(a, b) =~= stretch(0, b));
    } else {
        assert(laid(ids2, cols, times2, k) =~= stretch(0, laid(ids, cols, times, k).len() as int));
    }
}

/// Laying the library out a second time changes nothing: the games, their order and the sections
/// stay as they are.
pub proof fn law_regroup_settles(lib: LibraryV, host: HostV, recents: Seq<RecentV>)
    requires
        ids_of(lib.games).no_duplicates(),
    ensures
        lib.regroup(host, recents).regroup(host, recents) == lib.regroup(host, recents),
{
    let cols = host.collections;
    let n = cols.len() as int;
    let ids = ids_of(lib.games);
    let times = play_times(lib.games, host.addr, host.port, recents);
    let once = lib.regroup(host, recents);
    if n > 0 {
        let order = laid(ids, cols, times, n);
        lemma_laid(ids, cols, times, n);
        lemma_laid_again(ids, cols, times, n);
        assert(ids_of(once.games) =~= arranged(ids, order));
        assert(play_times(once.games, host.addr, host.port, recents) =~= arranged(times, order));
        assert(arranged(once.games, stretch(0, order.len() as int)) =~= once.games);
    }
}

/// Exchanging two cards twice puts both back, and no section moves.
pub proof fn law_swap_games_involution(lib: LibraryV, a: Seq<char>, b: Seq<char>)
    requires
        ids_of(lib.games).no_duplicates(),
    ensures
        lib.swap_games(a, b).swap_games(a, b) == lib,
        lib.swap_games(a, b).groups == lib.groups,
{
    let ids = ids_of(lib.games);
    ids.index_of_first_ensures(a);
    ids.index_of_first_ensures(b);
    match (ids.index_of_first(a), ids.index_of_first(b)) {
        (Some(i), Some(j)) => {
            let once = lib.swap_games(a, b);
            let ids2 = ids_of(once.games);
            ids2.index_of_first_ensures(a);
            ids2.index_of_first_ensures(b);
            assert(ids2 =~= ids.update(i, ids[j]).update(j, ids[i]));
            assert(ids2[j] == a);
            assert(ids2[i] == b);
            assert(ids2.contains(a));
            assert(ids2.contains(b));
            let i2 = ids2.index_of_first(a)->0;
            let j2 = ids2.index_of_first(b)->0;
            assert forall|p: int, q: int| 0 <= p < ids2.len() && 0 <= q < ids2.len() && p != q implies ids2[p]
                != ids2[q] by {
                let p0 = if p == i {
                    j
                } else if p == j {
                    i
                } else {
                    p
                };
                let q0 = if q == i {
                    j
                } else if q == j {
                    i
                } else {
                    q
                };
                assert(ids2[p] == ids[p0]);
                assert(ids2[q] == ids[q0]);
                assert(p0 != q0);
            }
            assert(i2 == j);
            assert(j2 == i);
            assert(once.swap_games(a, b).games =~= lib.games);
        },
        _ => {},
    }
}

/// The listing is alphabetical whatever order the host gave, without regard to case; games with
/// one title keep the host's order; and no game is lost or doubled.
pub proof fn law_listing_alphabetical(games: Seq<GameV>, i: int, j: int)
    requires
        0 <= i < j < games.len(),
    ensures
        alphabetical(games).len() == games.len(),
        lex_le(lowercase_of(alphabetical(games)[i].title), lowercase_of(alphabetical(games)[j].title)),
        lowercase_of(alphabetical(games)[i].title) == lowercase_of(alphabetical(games)[j].title) ==> key_order(
            title_keys(games),
        )[i] < key_order(title_keys(games))[j],
        alphabetical(games)[i] == games[key_order(title_keys(games))[i]],
        key_order(title_keys(games)).no_duplicates(),
        forall|k: int| 0 <= k < games.len() ==> #[trigger] key_order(title_keys(games)).contains(k),
{
    let keys = title_keys(games);
    law_key_order(keys);
    let o = key_order(keys);
    assert(o.contains(o[i]) && o.contains(o[j]));
    assert(keys[o[i]] == lowercase_of(games[o[i]].title));
    assert(keys[o[j]] == lowercase_of(games[o[j]].title));
}

// -------------------------------------------------------------------------- the code --

/// Inserts position `x` into a sorted list by `times`, most recent first, after its equals.
fn insert_recent(v: &mut Vec<usize>, x: usize, times: &Vec<u64>)
    requires
        x < times.len(),
        forall|j: int| 0 <= j < old(v).len() ==> (#[trigger] old(v)[j]) < times.len(),
    ensures
        ints(final(v)@) == insert_by(ints(old(v)@), x as int, recent_first(times@)),
        final(v).len() == old(v).len() + 1,
        forall|j: int| 0 <= j < final(v).len() ==> (#[trigger] final(v)[j]) < times.len(),
{
    let ghost s = ints(v@);
    let ghost le = recent_first(times@);
    let mut p: usize = v.len();
    while p > 0 && times[v[p - 1]] < times[x]
        invariant
            p <= v.len(),
            x < times.len(),
            s == ints(v@),
            le == recent_first(times@),
            forall|j: int| 0 <= j < v.len() ==> (#[trigger] v[j]) < times.len(),
            forall|k: int| p <= k < s.len() ==> !le(#[trigger] s[k], x as int),
        decreases p,
    {
        p = p - 1;
    }
    proof {
        lemma_insert_at(s, x as int, le, p as int);
    }
    let ghost before = v@;
    v.insert(p, x);
    assert(ints(v@) =~= s.insert(p as int, x as int));
    assert forall|j: int| 0 <= j < v.len() implies (#[trigger] v[j]) < times.len() by {
        if j < p {
            assert(v[j] == before[j]);
        } else if j > p {
            assert(v[j] == before[j - 1]);
        }
    }
}

/// The last position of a game with id `id`.
fn last_position(games: &Vec<GameEntry>, id: &String) -> (r: Option<usize>)
    ensures
        match (r, last_with_id(ids_of(game_views(games@)), id@)) {
            (Some(k), Some(p)) => k == p && k < games.len(),
            (None, None) => true,
            _ => false,
        },
{
    let ghost ids = ids_of(game_views(games@));
    let mut i: usize = games.len();
    assert(ids.take(ids.len() as int) =~= ids);
    while i > 0
        invariant
            ids == ids_of(game_views(games@)),
            i <= games.len(),
            last_with_id(ids, id@) == last_with_id(ids.take(i as int), id@),
        decreases i,
    {
        assert(ids.take(i as int).last() == games@[i - 1].id@);
        assert(ids.take(i as int).drop_last() =~= ids.take(i - 1));
        if games[i - 1].id == *id {
            return Some(i - 1);
        }
        i = i - 1;
    }
    None
}

/// The listed games that one collection names.
fn placement_of(games: &Vec<GameEntry>, members: &Vec<String>) -> (r: Vec<usize>)
    ensures
        ints(r@) == claims(ids_of(game_views(games@)), texts(members@)),
        forall|j: int| 0 <= j < r.len() ==> (#[trigger] r[j]) < games.len(),
{
    let ghost ids = ids_of(game_views(games@));
    let ghost m = texts(members@);
    let mut out: Vec<usize> = Vec::new();
    let mut i: usize = 0;
    assert(ints(out@) =~= claims(ids, m.take(0)));
    while i < members.len()
        invariant
            ids == ids_of(game_views(games@)),
            m == texts(members@),
            i <= members.len(),
            ints(out@) == claims(ids, m.take(i as int)),
            forall|j: int| 0 <= j < out.len() ==> (#[trigger] out[j]) < games.len(),
        decreases members.len() - i,
    {
        let ghost before = out@;
        proof {
            assert(m.take(i + 1).drop_last() =~= m.take(i as int));
            assert(m.take(i + 1).last() == members@[i as int]@);
        }
        match last_position(games, &members[i]) {
            Some(at) => {
                out.push(at);
                assert(ints(out@) =~= ints(before).push(at as int));
            },
            None => {},
        }
        i = i + 1;
    }
    assert(m.take(i as int) =~= m);
    out
}

/// Whether some collection claims each game.
fn claimed_flags(placement: &Vec<Vec<usize>>, games: &Vec<GameEntry>, Ghost(cols): Ghost<Seq<CollectionV>>) -> (r: Vec<
    bool,
>)
    requires
        placement.len() == cols.len(),
        forall|k: int|
            0 <= k < placement.len() ==> ints((#[trigger] placement[k])@) == claims(
                ids_of(game_views(games@)),
                cols[k].games,
            ),
    ensures
        r.len() == games.len(),
        forall|i: int|
            0 <= i < r.len() ==> (#[trigger] r[i] <==> claimed(ids_of(game_views(games@)), cols, i)),
{
    let ghost ids = ids_of(game_views(games@));
    let n: usize = games.len();
    let mut out: Vec<bool> = Vec::new();
    let mut i: usize = 0;
    while i < n
        invariant
            n == games.len(),
            i <= n,
            ids == ids_of(game_views(games@)),
            placement.len() == cols.len(),
            forall|k: int|
                0 <= k < placement.len() ==> ints((#[trigger] placement[k])@) == claims(ids, cols[k].games),
            out.len() == i,
            forall|j: int| 0 <= j < i ==> (#[trigger] out[j] <==> claimed(ids, cols, j)),
        decreases n - i,
    {
        let mut any: bool = false;
        let mut k: usize = 0;
        while k < placement.len()
            invariant
                ids == ids_of(game_views(games@)),
                placement.len() == cols.len(),
                k <= placement.len(),
                forall|c: int|
                    0 <= c < placement.len() ==> ints((#[trigger] placement[c])@) == claims(ids, cols[c].games),
                any <==> exists|c: int|
                    0 <= c < k && (#[trigger] claims(ids, cols[c].games)).contains(i as int),
            decreases placement.len() - k,
        {
            let here: bool = holds(&placement[k], i);
            assert(ints(placement[k as int]@) == claims(ids, cols[k as int].games));
            if here {
                any = true;
            }
            k = k + 1;
        }
        out.push(any);
        i = i + 1;
    }
    out
}

/// Whether a list of positions holds `x`.
fn holds(v: &Vec<usize>, x: usize) -> (r: bool)
    ensures
        r == ints(v@).contains(x as int),
{
    let mut i: usize = 0;
    while i < v.len()
        invariant
            i <= v.len(),
            forall|k: int| 0 <= k < i ==> (#[trigger] ints(v@)[k]) != x,
        decreases v.len() - i,
    {
        if v[i] == x {
            assert(ints(v@)[i as int] == x);
            return true;
        }
        i = i + 1;
    }
    false
}

/// Adds one collection's run to the order laid so far.
fn lay_run(
    dynamic: bool,
    wanted: &Vec<usize>,
    claimed_at: &Vec<bool>,
    times: &Vec<u64>,
    order: &Vec<usize>,
    Ghost(ids): Ghost<Seq<Seq<char>>>,
    Ghost(cols): Ghost<Seq<CollectionV>>,
    Ghost(k): Ghost<int>,
) -> (r: Vec<usize>)
    requires
        0 <= k < cols.len(),
        dynamic == cols[k].dynamic,
        ints(wanted@) == claims(ids, cols[k].games),
        claimed_at.len() == ids.len(),
        times.len() == ids.len(),
        forall|i: int| 0 <= i < claimed_at.len() ==> (#[trigger] claimed_at[i] <==> claimed(ids, cols, i)),
    ensures
        ints(r@) == run_of(ids, cols, times@, k, ints(order@)),
{
    let ghost taken = ints(order@);
    let mut run: Vec<usize> = Vec::new();
    if dynamic {
        let ghost le = recent_first(times@);
        let n: usize = claimed_at.len();
        let mut i: usize = 0;
        assert(ints(run@) =~= sort_by(unclaimed(ids, cols, taken, 0), le));
        while i < n
            invariant
                n == claimed_at.len(),
                n == ids.len(),
                n == times.len(),
                i <= n,
                taken == ints(order@),
                le == recent_first(times@),
                forall|j: int| 0 <= j < claimed_at.len() ==> (#[trigger] claimed_at[j] <==> claimed(ids, cols, j)),
                ints(run@) == sort_by(unclaimed(ids, cols, taken, i as int), le),
                forall|j: int| 0 <= j < run.len() ==> (#[trigger] run[j]) < times.len(),
            decreases n - i,
        {
            let ghost u = unclaimed(ids, cols, taken, i as int);
            let ghost u1 = unclaimed(ids, cols, taken, i + 1);
            if !claimed_at[i] && !holds(order, i) {
                assert(u1 == u.push(i as int));
                assert(u1.drop_last() =~= u);
                insert_recent(&mut run, i, times);
            } else {
                assert(u1 == u);
            }
            i = i + 1;
        }
    } else {
        let ghost w = ints(wanted@);
        let mut i: usize = 0;
        assert(ints(run@) =~= fresh(taken, w.take(0)));
        while i < wanted.len()
            invariant
                i <= wanted.len(),
                taken == ints(order@),
                w == ints(wanted@),
                ints(run@) == fresh(taken, w.take(i as int)),
            decreases wanted.len() - i,
        {
            let x: usize = wanted[i];
            let ghost before = run@;
            proof {
                assert(w.take(i + 1).drop_last() =~= w.take(i as int));
                assert(w.take(i + 1).last() == x);
            }
            if !holds(order, x) && !holds(&run, x) {
                run.push(x);
                assert(ints(run@) =~= ints(before).push(x as int));
            }
            i = i + 1;
        }
        assert(w.take(i as int) =~= w);
    }
    run
}

impl Library {
    pub fn new() -> (r: Self)
        ensures
            r@ == (LibraryV {
                selected_host: None,
                games: Seq::empty(),
                groups: Seq::empty(),
                art: Set::empty(),
                running: Set::empty(),
                running_last: None,
            }),
    {
        let r = Library {
            selected_host: None,
            games: Vec::new(),
            groups: Vec::new(),
            art: Vec::new(),
            running: Vec::new(),
            running_last: None,
        };
        assert(r@.games =~= Seq::empty());
        assert(r@.groups =~= Seq::empty());
        assert(r@.art =~= Set::empty());
        assert(r@.running =~= Set::empty());
        r
    }

    /// Takes the host's listing as this library's games, the desktop among them, alphabetically
    /// and without regard to case.
    pub fn load_games(&mut self, games: Vec<GameEntry>)
        requires
            games.len() < usize::MAX,
        ensures
            final(self)@ == old(self)@.load_games(game_views(games@)),
    {
        let ghost listed = game_views(games@).push(desktop_card());
        let mut games = games;
        games.push(desktop_entry());
        assert(game_views(games@) =~= listed);
        let mut keys: Vec<Vec<char>> = Vec::new();
        let mut i: usize = 0;
        while i < games.len()
            invariant
                i <= games.len(),
                keys.len() == i,
                forall|k: int| 0 <= k < i ==> (#[trigger] keys[k])@ == lowercase_of(games[k].title@),
            decreases games.len() - i,
        {
            let low = lowercase(games[i].title.as_str());
            keys.push(chars_of(low.as_str()));
            i = i + 1;
        }
        assert(keys_of(keys@) =~= title_keys(listed)) by {
            assert forall|k: int| 0 <= k < keys.len() implies keys_of(keys@)[k] == #[trigger] title_keys(listed)[k] by {
                assert(listed[k] == games[k]@);
                assert(keys[k]@ == lowercase_of(games[k].title@));
            }
        }
        self.load_sorted(games, &keys);
    }

    /// Takes games in the order of their keys, equal keys in the order they came.
    pub fn load_sorted(&mut self, games: Vec<GameEntry>, keys: &Vec<Vec<char>>)
        requires
            keys.len() == games.len(),
        ensures
            final(self)@ == (LibraryV {
                games: arranged(game_views(games@), key_order(keys_of(keys@))),
                ..old(self)@
            }),
    {
        let order = sorted_order(keys);
        self.games = arrange(games, &order);
    }

    /// Sets the desktop card's icon; every other card carries the host's.
    pub fn set_desktop_icon(&mut self, icon: Option<String>)
        ensures
            final(self)@ == old(self)@.set_desktop_icon(text_of(icon)),
    {
        let ghost before = self.games@;
        proof {
            assert(ids_of(game_views(before)) =~= game_ids(before));
        }
        match position_of(self.games.as_slice(), DESKTOP_PIN_ID) {
            Some(i) => {
                self.games[i].icon = icon;
                assert(game_views(self.games@) =~= old(self)@.set_desktop_icon(text_of(icon)).games);
            },
            None => {},
        }
    }

    /// The grid's shape at `columns` columns.
    pub fn layout<'a>(&'a self, columns: usize, metrics: SectionMetrics) -> (r: GridLayout<'a>)
        ensures
            r.groups@ == self.groups@,
            r.columns == column_count(columns),
            r.metrics == metrics,
    {
        GridLayout::new(self.groups.as_slice(), columns, metrics)
    }

    /// Whether the grid's arithmetic at `columns` columns stays inside the machine's integers.
    pub open spec fn fits(&self, columns: usize, metrics: SectionMetrics) -> bool {
        crate::grid::layout_fits(self@.groups, column_count(columns), metrics)
    }

    pub fn grid_len(&self, columns: usize, metrics: SectionMetrics) -> (r: usize)
        requires
            self.fits(columns, metrics),
        ensures
            r == slot_count(self@.groups, column_count(columns)),
    {
        self.layout(columns, metrics).len()
    }

    /// The slots of the group that holds slot `idx`.
    pub(crate) fn group_slots(&self, idx: usize, columns: usize, metrics: SectionMetrics) -> (r: Option<
        crate::homeview::Slots,
    >)
        requires
            self.fits(columns, metrics),
        ensures
            match (r, crate::grid::group_of_slot(self@.groups, column_count(columns), idx as nat)) {
                (Some(k), Some(i)) => k.from == first_idx(self@.groups, column_count(columns), i) && k.to == first_idx(
                    self@.groups,
                    column_count(columns),
                    i,
                ) + self@.groups[i].len,
                (None, None) => true,
                _ => false,
            },
    {
        let layout = self.layout(columns, metrics);
        match layout.at_idx(idx) {
            Some(p) => {
                let slots = p.slots();
                Some(crate::homeview::Slots { from: slots.start, to: slots.end })
            },
            None => None,
        }
    }

    pub fn card_at(&self, idx: usize, columns: usize, metrics: SectionMetrics) -> (r: Option<&GameEntry>)
        requires
            self.fits(columns, metrics),
        ensures
            match (r, card_of_slot(self@.groups, column_count(columns), self@.games.len(), idx as nat)) {
                (Some(g), Some(p)) => 0 <= p < self.games.len() && *g == self.games@[p],
                (None, None) => true,
                _ => false,
            },
            match (r, self@.card_at(column_count(columns), idx as nat)) {
                (Some(g), Some(v)) => g@ == v,
                (None, None) => true,
                _ => false,
            },
    {
        self.layout(columns, metrics).card_at(self.games.as_slice(), idx)
    }

    pub fn pin_id_at(&self, idx: usize, columns: usize, metrics: SectionMetrics) -> (r: Option<&str>)
        requires
            self.fits(columns, metrics),
        ensures
            match (r, self@.card_at(column_count(columns), idx as nat)) {
                (Some(s), Some(v)) => s@ == v.id,
                (None, None) => true,
                _ => false,
            },
    {
        match self.card_at(idx, columns, metrics) {
            Some(g) => Some(g.id.as_str()),
            None => None,
        }
    }

    pub fn idx_for_pin_id(&self, id: &str, columns: usize, metrics: SectionMetrics) -> (r: Option<usize>)
        requires
            self.fits(columns, metrics),
        ensures
            match (r, self@.idx_for_pin_id(column_count(columns), id@)) {
                (Some(k), Some(p)) => k == p,
                (None, None) => true,
                _ => false,
            },
    {
        assert(ids_of(self@.games) =~= game_ids(self.games@));
        self.layout(columns, metrics).idx_for_pin_id(self.games.as_slice(), id)
    }

    /// Lays the library out over `host`'s collections: each collection's members in its own
    /// order, the Library taking whatever is left, most recently played first, wherever in the
    /// order it sits. A member the host no longer lists has no place.
    pub fn regroup(&mut self, host: &KnownHost, recents: &Recents)
        ensures
            final(self)@ == old(self)@.regroup(host@, recents@),
    {
        let ghost gv = game_views(self.games@);
        let ghost ids = ids_of(gv);
        let ghost cols = host@.collections;
        if host.collections.len() == 0 {
            self.clear_groups();
            return;
        }
        let ghost spec_times = play_times(gv, host.addr@, host.port, recents@);
        let mut times: Vec<u64> = Vec::new();
        let mut t: usize = 0;
        while t < self.games.len()
            invariant
                t <= self.games.len(),
                gv == game_views(self.games@),
                spec_times == play_times(gv, host.addr@, host.port, recents@),
                times.len() == t,
                forall|k: int| 0 <= k < t ==> (#[trigger] times[k]) == spec_times[k],
            decreases self.games.len() - t,
        {
            assert(spec_times[t as int] == played(recents@, host.addr@, host.port, self.games@[t as int].id@));
            times.push(recents.when(host.addr.as_str(), host.port, self.games[t].id.as_str()));
            t = t + 1;
        }
        assert(times@ =~= spec_times);
        // Where each collection's games land, resolved before anything is moved: a collection
        // ordered after the Library is still a claim.
        let mut placement: Vec<Vec<usize>> = Vec::new();
        let mut c: usize = 0;
        while c < host.collections.len()
            invariant
                c <= host.collections.len(),
                gv == game_views(self.games@),
                ids == ids_of(gv),
                cols == host@.collections,
                placement.len() == c,
                forall|k: int| 0 <= k < c ==> ints((#[trigger] placement[k])@) == claims(ids, cols[k].games),
            decreases host.collections.len() - c,
        {
            assert(cols[c as int] == host.collections@[c as int]@);
            placement.push(placement_of(&self.games, &host.collections[c].games));
            c = c + 1;
        }
        let flags = claimed_flags(&placement, &self.games, Ghost(cols));
        let mut order: Vec<usize> = Vec::new();
        let mut groups: Vec<Group> = Vec::new();
        let mut i: usize = 0;
        assert(ints(order@) =~= laid(ids, cols, times@, 0));
        assert(group_views(groups@) =~= sections(ids, cols, times@, 0));
        while i < host.collections.len()
            invariant
                i <= host.collections.len(),
                gv == game_views(self.games@),
                ids == ids_of(gv),
                cols == host@.collections,
                flags.len() == ids.len(),
                times.len() == ids.len(),
                forall|k: int| 0 <= k < flags.len() ==> (#[trigger] flags[k] <==> claimed(ids, cols, k)),
                placement.len() == cols.len(),
                forall|k: int|
                    0 <= k < placement.len() ==> ints((#[trigger] placement[k])@) == claims(ids, cols[k].games),
                ints(order@) == laid(ids, cols, times@, i as int),
                group_views(groups@) == sections(ids, cols, times@, i as int),
            decreases host.collections.len() - i,
        {
            proof {
                assert(cols[i as int] == host.collections@[i as int]@);
                assert(ints(placement[i as int]@) == claims(ids, cols[i as int].games));
            }
            let mut run = lay_run(
                host.collections[i].dynamic,
                &placement[i],
                &flags,
                &times,
                &order,
                Ghost(ids),
                Ghost(cols),
                Ghost(i as int),
            );
            let len: usize = run.len();
            let games_start: usize = order.len();
            let ghost run_v = ints(run@);
            let ghost order_v = ints(order@);
            let ghost groups_v = group_views(groups@);
            order.append(&mut run);
            assert(ints(order@) =~= order_v + run_v);
            if len > 0 {
                groups.push(Group { name: host.collections[i].name.clone(), len, games_start });
                assert(group_views(groups@) =~= groups_v.push(
                    GroupV { name: cols[i as int].name, len: len as nat, games_start: games_start as nat },
                ));
            }
            i = i + 1;
        }
        proof {
            lemma_laid(ids, cols, times@, cols.len() as int);
            assert forall|j: int| 0 <= j < order.len() implies (#[trigger] order[j]) < self.games.len() by {
                assert(ints(order@)[j] == order[j]);
            }
        }
        let mut games: Vec<GameEntry> = Vec::new();
        core::mem::swap(&mut games, &mut self.games);
        self.games = arrange(games, &order);
        self.groups = groups;
    }

    /// Exchanges two games in place. Both are members of one collection, so they sit in one
    /// group's run and no group's bounds move.
    pub fn swap_games(&mut self, a: &str, b: &str)
        ensures
            final(self)@ == old(self)@.swap_games(a@, b@),
    {
        proof {
            assert(ids_of(game_views(self.games@)) =~= game_ids(self.games@));
        }
        let i: usize = match position_of(self.games.as_slice(), a) {
            Some(i) => i,
            None => {
                return;
            },
        };
        let j: usize = match position_of(self.games.as_slice(), b) {
            Some(j) => j,
            None => {
                return;
            },
        };
        swap_in(&mut self.games, i, j);
        assert(game_views(self.games@) =~= old(self)@.swap_games(a@, b@).games);
    }

    /// Forgets the grouping the grid is drawn from.
    pub fn clear_groups(&mut self)
        ensures
            final(self)@ == (LibraryV { groups: Seq::empty(), ..old(self)@ }),
    {
        self.groups = Vec::new();
        assert(group_views(self.groups@) =~= Seq::empty());
    }

    /// Drops everything drawn from the current host's library: games, grouping, art and what it
    /// runs together.
    pub fn clear(&mut self)
        ensures
            final(self)@ == old(self)@.clear(),
    {
        self.games = Vec::new();
        assert(game_views(self.games@) =~= Seq::empty());
        self.clear_groups();
        self.art = Vec::new();
        assert(texts(self.art@).to_set() =~= Set::empty());
        self.running = Vec::new();
        assert(texts(self.running@).to_set() =~= Set::empty());
        self.running_last = None;
    }
}

/// The desktop card, as an ordinary library entry. It is a card the client offers rather than
/// one the host lists; nothing else about it is special.
fn desktop_entry() -> (r: GameEntry)
    ensures
        r@ == desktop_card(),
{
    GameEntry {
        id: DESKTOP_PIN_ID.to_owned(),
        title: "Desktop".to_owned(),
        art: Artwork { portrait: None, header: None, hero: None },
        icon: None,
    }
}

/// Exchanges two elements of a list.
fn swap_in(v: &mut Vec<GameEntry>, i: usize, j: usize)
    requires
        i < old(v).len(),
        j < old(v).len(),
    ensures
        final(v)@ == old(v)@.update(i as int, old(v)@[j as int]).update(j as int, old(v)@[i as int]),
{
    if i == j {
        assert(v@ =~= v@.update(i as int, v@[j as int]).update(j as int, v@[i as int]));
        return;
    }
    let lo: usize = if i < j {
        i
    } else {
        j
    };
    let hi: usize = if i < j {
        j
    } else {
        i
    };
    let ghost all = v@;
    let high = v.remove(hi);
    let low = v.remove(lo);
    v.insert(lo, high);
    v.insert(hi, low);
    assert(v@ =~= all.update(i as int, all[j as int]).update(j as int, all[i as int]));
}

} // verus!
