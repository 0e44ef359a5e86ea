//! The game grid: its layout vocabulary, its tuning, and the state kept for it across frames.
//!
//! [`GridLayout`] is the shape a given column count gives the library's [`Group`]s: pure
//! arithmetic over a short run list, shared by the pointer path and the focus map.
use vstd::prelude::*;
use vstd::arithmetic::div_mod::{lemma_fundamental_div_mod, lemma_mod_multiples_basic};
use vstd::arithmetic::mul::{lemma_mul_inequality, lemma_mul_is_distributive_add_other_way};
use core::ops::Range;
use crate::model::GameEntry;
use crate::seqs::views;
use crate::text::same_text;

verus! {

/// Prefetch rows beyond the viewport.
pub const CARD_PREFETCH_ROWS: i32 = 2;

/// Rows beyond which covers are dropped.
pub const CARD_KEEP_ROWS: i32 = 5;

/// One grid section: a collection's cards, laid out as a run of whole rows. Column-independent,
/// so a width change needs no rebuild.
pub struct Group {
    /// The collection's name, as the section heading draws it.
    pub name: String,
    /// Cards in it.
    pub len: usize,
    /// Index into the library's games of this group's first game.
    pub games_start: usize,
}

/// A [`Group`] as a value.
pub struct GroupV {
    pub name: Seq<char>,
    pub len: nat,
    pub games_start: nat,
}

impl View for Group {
    type V = GroupV;

    open spec fn view(&self) -> GroupV {
        GroupV { name: self.name@, len: self.len as nat, games_start: self.games_start as nat }
    }
}

/// The groups of a list as values.
pub open spec fn group_views(groups: Seq<Group>) -> Seq<GroupV> {
    views(groups)
}

/// Heading and gap heights between the grid's sections, in pixels.
#[derive(Clone, Copy)]
pub struct SectionMetrics {
    pub heading_h: i32,
    pub gap: i32,
}

/// How many columns a layout has: one where none are asked for.
pub open spec fn column_count(columns: usize) -> nat {
    if columns == 0 {
        1
    } else {
        columns as nat
    }
}

/// Whole rows that `len` cards take at `columns` columns.
pub open spec fn rows_for(len: nat, columns: nat) -> nat {
    ((len + columns - 1) / columns as int) as nat
}

/// Grid rows above group `i`: whole rows, since a partial last row is padded.
pub open spec fn first_row(groups: Seq<GroupV>, columns: nat, i: int) -> nat
    decreases i,
{
    if i <= 0 {
        0
    } else {
        first_row(groups, columns, i - 1) + rows_for(groups[i - 1].len, columns)
    }
}

/// The first grid slot of group `i`.
pub open spec fn first_idx(groups: Seq<GroupV>, columns: nat, i: int) -> nat {
    first_row(groups, columns, i) * columns
}

/// Whether grid slot `idx` holds one of group `i`'s cards.
pub open spec fn in_slots(groups: Seq<GroupV>, columns: nat, i: int, idx: nat) -> bool {
    &&& 0 <= i < groups.len()
    &&& first_idx(groups, columns, i) <= idx < first_idx(groups, columns, i) + groups[i].len
}

/// The first group at or after `i` holding slot `idx`.
pub open spec fn group_of_slot_from(groups: Seq<GroupV>, columns: nat, idx: nat, i: int) -> Option<int>
    decreases groups.len() - i,
{
    if i < 0 || i >= groups.len() {
        None
    } else if in_slots(groups, columns, i, idx) {
        Some(i)
    } else {
        group_of_slot_from(groups, columns, idx, i + 1)
    }
}

/// The group holding slot `idx`, `None` for padding and past the end.
pub open spec fn group_of_slot(groups: Seq<GroupV>, columns: nat, idx: nat) -> Option<int> {
    group_of_slot_from(groups, columns, idx, 0)
}

/// The index into the games of the card in slot `idx`, whatever the number of games.
pub open spec fn game_of_slot(groups: Seq<GroupV>, columns: nat, idx: nat) -> Option<int> {
    match group_of_slot(groups, columns, idx) {
        Some(i) => Some(groups[i].games_start + (idx - first_idx(groups, columns, i))),
        None => None,
    }
}

/// The index into `count` games of the card in slot `idx`.
pub open spec fn card_of_slot(groups: Seq<GroupV>, columns: nat, count: nat, idx: nat) -> Option<int> {
    match game_of_slot(groups, columns, idx) {
        Some(p) => if p < count {
            Some(p)
        } else {
            None
        },
        None => None,
    }
}

/// The first group at or after `i` whose run of games holds game `pos`.
pub open spec fn group_of_game_from(groups: Seq<GroupV>, pos: nat, i: int) -> Option<int>
    decreases groups.len() - i,
{
    if i < 0 || i >= groups.len() {
        None
    } else if groups[i].games_start <= pos < groups[i].games_start + groups[i].len {
        Some(i)
    } else {
        group_of_game_from(groups, pos, i + 1)
    }
}

/// The slot of game `pos`.
pub open spec fn slot_of_game(groups: Seq<GroupV>, columns: nat, pos: nat) -> Option<int> {
    match group_of_game_from(groups, pos, 0) {
        Some(i) => Some(first_idx(groups, columns, i) + (pos - groups[i].games_start)),
        None => None,
    }
}

/// Slots in total: padding between groups counts, none after the last.
pub open spec fn slot_count(groups: Seq<GroupV>, columns: nat) -> nat {
    if groups.len() == 0 {
        0
    } else {
        first_idx(groups, columns, groups.len() - 1) + groups.last().len
    }
}

/// Heading and gap pixels stacked above group `i`'s first row.
pub open spec fn y_offset(m: SectionMetrics, i: int) -> int {
    m.heading_h * (i + 1) + m.gap * i
}

/// The end of the run of groups, from `i` on, that start at or above `row`.
pub open spec fn groups_through_row(groups: Seq<GroupV>, columns: nat, row: nat, i: int) -> int
    decreases groups.len() - i,
{
    if i < 0 || i >= groups.len() || first_row(groups, columns, i) > row {
        i
    } else {
        groups_through_row(groups, columns, row, i + 1)
    }
}

/// Extra vertical offset carried by grid row `row`.
pub open spec fn row_offset_px(groups: Seq<GroupV>, columns: nat, m: SectionMetrics, row: nat) -> int {
    let k = groups_through_row(groups, columns, row, 0);
    if k == 0 {
        0
    } else {
        y_offset(m, k - 1)
    }
}

/// Whether the groups are the games cut into consecutive runs, with nothing left over.
pub open spec fn runs(groups: Seq<GroupV>, count: nat) -> bool {
    &&& forall|i: int| 0 <= i < groups.len() ==> (#[trigger] groups[i]).games_start == run_start(groups, i)
    &&& run_start(groups, groups.len() as int) == count
}

/// Games in the groups before `i`.
pub open spec fn run_start(groups: Seq<GroupV>, i: int) -> nat
    decreases i,
{
    if i <= 0 {
        0
    } else {
        run_start(groups, i - 1) + groups[i - 1].len
    }
}

/// The first position holding the id `id`.
pub open spec fn first_with_id(ids: Seq<Seq<char>>, id: Seq<char>) -> Option<int> {
    ids.index_of_first(id)
}

/// Whether the arithmetic on a layout stays inside the machine's integers.
pub open spec fn layout_fits(groups: Seq<GroupV>, columns: nat, m: SectionMetrics) -> bool {
    &&& columns >= 1
    &&& first_idx(groups, columns, groups.len() as int) <= usize::MAX
    &&& m.heading_h >= 0
    &&& m.gap >= 0
    &&& m.heading_h * (groups.len() + 1) + m.gap * groups.len() <= i32::MAX
    &&& forall|i: int|
        0 <= i < groups.len() ==> (#[trigger] groups[i]).games_start + groups[i].len <= usize::MAX
}

pub proof fn lemma_rows_for(len: nat, columns: nat)
    requires
        columns >= 1,
    ensures
        rows_for(len, columns) * columns >= len,
        len > 0 ==> (rows_for(len, columns) - 1) * columns < len,
        len == 0 ==> rows_for(len, columns) == 0,
        len > 0 ==> rows_for(len, columns) >= 1,
{
    let c = columns as int;
    let n = len + c - 1;
    lemma_fundamental_div_mod(n, c);
    let q = n / c;
    assert(q >= 0) by (nonlinear_arith)
        requires
            q == n / c,
            n >= 0,
            c >= 1,
    ;
    assert(c * q == q * c) by (nonlinear_arith);
    assert((q - 1) * c == q * c - c) by (nonlinear_arith);
    if len == 0 {
        assert(q == 0) by (nonlinear_arith)
            requires
                q == n / c,
                n == c - 1,
                c >= 1,
        ;
    } else {
        assert(q >= 1) by (nonlinear_arith)
            requires
                q == n / c,
                n >= c,
                c >= 1,
        ;
    }
}

/// Groups are stacked downward: a later group never starts above an earlier one's last row.
pub proof fn lemma_first_row_monotone(groups: Seq<GroupV>, columns: nat, i: int, j: int)
    requires
        0 <= i <= j,
        columns >= 1,
    ensures
        first_row(groups, columns, i) <= first_row(groups, columns, j),
        i < j ==> first_row(groups, columns, i) + rows_for(groups[i].len, columns) <= first_row(groups, columns, j),
    decreases j - i,
{
    if i < j {
        lemma_first_row_monotone(groups, columns, i, j - 1);
        if i == j - 1 {
        } else {
            lemma_first_row_monotone(groups, columns, i, j - 1);
        }
    }
}

proof fn lemma_first_idx_monotone(groups: Seq<GroupV>, columns: nat, i: int, j: int)
    requires
        0 <= i <= j,
        columns >= 1,
    ensures
        first_idx(groups, columns, i) <= first_idx(groups, columns, j),
        i < j ==> first_idx(groups, columns, i) + groups[i].len <= first_idx(groups, columns, j),
{
    lemma_first_row_monotone(groups, columns, i, j);
    let a = first_row(groups, columns, i) as int;
    let b = first_row(groups, columns, j) as int;
    lemma_mul_inequality(a, b, columns as int);
    if i < j {
        let r = rows_for(groups[i].len, columns) as int;
        lemma_rows_for(groups[i].len, columns);
        lemma_mul_inequality(a + r, b, columns as int);
        lemma_mul_is_distributive_add_other_way(columns as int, a, r);
    }
}

/// A section starts on a row of its own: its first slot is a whole number of rows down.
pub proof fn law_sections_start_whole_rows(groups: Seq<GroupV>, columns: nat, i: int)
    requires
        columns >= 1,
        0 <= i <= groups.len(),
    ensures
        first_idx(groups, columns, i) % columns == 0,
{
    lemma_mod_multiples_basic(first_row(groups, columns, i) as int, columns as int);
}

/// No slot belongs to two sections.
pub proof fn law_slots_disjoint(groups: Seq<GroupV>, columns: nat, i: int, j: int, idx: nat)
    requires
        columns >= 1,
        in_slots(groups, columns, i, idx),
        in_slots(groups, columns, j, idx),
    ensures
        i == j,
{
    if i < j {
        lemma_first_idx_monotone(groups, columns, i, j);
    } else if j < i {
        lemma_first_idx_monotone(groups, columns, j, i);
    }
}

proof fn lemma_group_of_slot_from(groups: Seq<GroupV>, columns: nat, idx: nat, i: int)
    requires
        0 <= i,
    ensures
        match group_of_slot_from(groups, columns, idx, i) {
            Some(k) => i <= k && in_slots(groups, columns, k, idx),
            None => forall|k: int| i <= k ==> !in_slots(groups, columns, k, idx),
        },
    decreases groups.len() - i,
{
    if i < groups.len() && !in_slots(groups, columns, i, idx) {
        lemma_group_of_slot_from(groups, columns, idx, i + 1);
        assert forall|k: int| group_of_slot_from(groups, columns, idx, i) is None && i <= k implies !in_slots(
            groups,
            columns,
            k,
            idx,
        ) by {
            if k > i {
            }
        }
    }
}

/// The section lookup is exact: it answers `i` if and only if the slot is one of `i`'s cards.
pub proof fn law_group_of_slot(groups: Seq<GroupV>, columns: nat, idx: nat, i: int)
    requires
        columns >= 1,
    ensures
        group_of_slot(groups, columns, idx) == Some(i) <==> in_slots(groups, columns, i, idx),
{
    lemma_group_of_slot_from(groups, columns, idx, 0);
    if in_slots(groups, columns, i, idx) {
        match group_of_slot(groups, columns, idx) {
            Some(k) => {
                law_slots_disjoint(groups, columns, i, k, idx);
            },
            None => {},
        }
    }
}

/// The padding after a section's partial last row holds no card.
pub proof fn law_padding_holds_no_card(groups: Seq<GroupV>, columns: nat, i: int, idx: nat)
    requires
        columns >= 1,
        0 <= i < groups.len(),
        first_idx(groups, columns, i) + groups[i].len <= idx < first_idx(groups, columns, i + 1),
    ensures
        game_of_slot(groups, columns, idx) is None,
{
    lemma_group_of_slot_from(groups, columns, idx, 0);
    match group_of_slot(groups, columns, idx) {
        Some(k) => {
            if k < i {
                lemma_first_idx_monotone(groups, columns, k, i);
            } else if k > i {
                lemma_first_idx_monotone(groups, columns, i + 1, k);
            }
        },
        None => {},
    }
}

proof fn lemma_groups_through_row(groups: Seq<GroupV>, columns: nat, row: nat, i: int)
    requires
        0 <= i <= groups.len(),
    ensures
        i <= groups_through_row(groups, columns, row, i) <= groups.len(),
        forall|k: int|
            i <= k < groups_through_row(groups, columns, row, i) ==> first_row(groups, columns, k) <= row,
        groups_through_row(groups, columns, row, i) < groups.len() ==> first_row(
            groups,
            columns,
            groups_through_row(groups, columns, row, i),
        ) > row,
    decreases groups.len() - i,
{
    if i < groups.len() && first_row(groups, columns, i) <= row {
        lemma_groups_through_row(groups, columns, row, i + 1);
    }
}

/// A row further down never carries a smaller offset, so a card's y is monotone in its index.
pub proof fn law_row_offset_monotone(groups: Seq<GroupV>, columns: nat, m: SectionMetrics, a: nat, b: nat)
    requires
        columns >= 1,
        m.heading_h >= 0,
        m.gap >= 0,
        a <= b,
    ensures
        row_offset_px(groups, columns, m, a) <= row_offset_px(groups, columns, m, b),
{
    lemma_groups_through_row(groups, columns, a, 0);
    lemma_groups_through_row(groups, columns, b, 0);
    let ka = groups_through_row(groups, columns, a, 0);
    let kb = groups_through_row(groups, columns, b, 0);
    if ka > kb {
        assert(first_row(groups, columns, kb) <= a);
        assert(false);
    }
    if ka > 0 {
        lemma_mul_inequality(ka, kb, m.heading_h as int);
        lemma_mul_inequality(ka - 1, kb - 1, m.gap as int);
        assert(m.heading_h * ka == ka * m.heading_h) by (nonlinear_arith);
        assert(m.heading_h * kb == kb * m.heading_h) by (nonlinear_arith);
        assert(m.gap * (ka - 1) == (ka - 1) * m.gap) by (nonlinear_arith);
        assert(m.gap * (kb - 1) == (kb - 1) * m.gap) by (nonlinear_arith);
    } else if kb > 0 {
        assert(y_offset(m, kb - 1) >= 0) by (nonlinear_arith)
            requires
                kb > 0,
                m.heading_h >= 0,
                m.gap >= 0,
                y_offset(m, kb - 1) == m.heading_h * (kb - 1 + 1) + m.gap * (kb - 1),
        ;
    }
}

proof fn lemma_run_start_monotone(groups: Seq<GroupV>, i: int, j: int)
    requires
        0 <= i <= j,
    ensures
        run_start(groups, i) <= run_start(groups, j),
        i < j ==> run_start(groups, i) + groups[i].len <= run_start(groups, j),
    decreases j - i,
{
    if i < j {
        lemma_run_start_monotone(groups, i, j - 1);
    }
}

proof fn lemma_group_of_game_from(groups: Seq<GroupV>, pos: nat, i: int)
    requires
        0 <= i,
    ensures
        match group_of_game_from(groups, pos, i) {
            Some(k) => i <= k < groups.len() && groups[k].games_start <= pos < groups[k].games_start + groups[k].len,
            None => forall|k: int|
                i <= k < groups.len() ==> !(groups[k].games_start <= pos < #[trigger] groups[k].games_start
                    + groups[k].len),
        },
    decreases groups.len() - i,
{
    if i < groups.len() && !(groups[i].games_start <= pos < groups[i].games_start + groups[i].len) {
        lemma_group_of_game_from(groups, pos, i + 1);
    }
}

proof fn lemma_some_run_holds(groups: Seq<GroupV>, count: nat, pos: nat, n: int) -> (k: int)
    requires
        0 <= n <= groups.len(),
        pos < run_start(groups, n),
        forall|i: int| 0 <= i < groups.len() ==> (#[trigger] groups[i]).games_start == run_start(groups, i),
    ensures
        0 <= k < n,
        groups[k].games_start <= pos < groups[k].games_start + groups[k].len,
    decreases n,
{
    if pos < run_start(groups, n - 1) {
        lemma_some_run_holds(groups, count, pos, n - 1)
    } else {
        assert(groups[n - 1].games_start == run_start(groups, n - 1));
        n - 1
    }
}

/// Slot and game are inverse lookups: where the groups are the games cut into runs, every game
/// has a slot, and that slot's card is that game.
pub proof fn law_slot_of_game_inverts(groups: Seq<GroupV>, columns: nat, count: nat, pos: nat)
    requires
        columns >= 1,
        runs(groups, count),
        pos < count,
    ensures
        slot_of_game(groups, columns, pos) is Some,
        card_of_slot(groups, columns, count, slot_of_game(groups, columns, pos)->0 as nat) == Some(pos as int),
{
    let k = lemma_some_run_holds(groups, count, pos, groups.len() as int);
    lemma_group_of_game_from(groups, pos, 0);
    let g = group_of_game_from(groups, pos, 0)->0;
    let idx = slot_of_game(groups, columns, pos)->0 as nat;
    assert(in_slots(groups, columns, g, idx));
    law_group_of_slot(groups, columns, idx, g);
}

/// The other direction: the game a card slot shows is found again in that slot.
pub proof fn law_card_of_slot_inverts(groups: Seq<GroupV>, columns: nat, count: nat, idx: nat)
    requires
        columns >= 1,
        runs(groups, count),
        card_of_slot(groups, columns, count, idx) is Some,
    ensures
        slot_of_game(groups, columns, card_of_slot(groups, columns, count, idx)->0 as nat) == Some(idx as int),
{
    lemma_group_of_slot_from(groups, columns, idx, 0);
    let i = group_of_slot(groups, columns, idx)->0;
    let pos = card_of_slot(groups, columns, count, idx)->0 as nat;
    lemma_group_of_game_from(groups, pos, 0);
    let k = group_of_game_from(groups, pos, 0)->0;
    assert(groups[i].games_start == run_start(groups, i));
    if group_of_game_from(groups, pos, 0) is Some {
        assert(groups[k].games_start == run_start(groups, k));
        if k < i {
            lemma_run_start_monotone(groups, k, i);
        } else if k > i {
            lemma_run_start_monotone(groups, i, k);
        }
    }
}

/// A [`Group`] with the geometry a column count gives it.
#[derive(Clone, Copy)]
pub struct Placed<'a> {
    pub group: &'a Group,
    /// First grid slot. Whole rows: a partial last row pads rather than letting the next
    /// group's first card share it.
    pub first_idx: usize,
    pub first_row: usize,
    pub rows: usize,
    /// Heading and gap pixels stacked above this group's first row.
    pub y_offset: i32,
}

impl<'a> Placed<'a> {
    /// Whether this is group `i` of `groups` with the geometry `columns` and `m` give it.
    pub open spec fn places(&self, groups: Seq<Group>, columns: nat, m: SectionMetrics, i: int) -> bool {
        let v = group_views(groups);
        &&& 0 <= i < groups.len()
        &&& *self.group == groups[i]
        &&& self.first_idx == first_idx(v, columns, i)
        &&& self.first_row == first_row(v, columns, i)
        &&& self.rows == rows_for(v[i].len, columns)
        &&& self.y_offset == y_offset(m, i)
    }

    /// The slots this group actually fills: its first slot plus its cards, so the padding at
    /// the end of a partial last row is outside it.
    pub fn slots(&self) -> (r: Range<usize>)
        requires
            self.first_idx + self.group.len <= usize::MAX,
        ensures
            r.start == self.first_idx,
            r.end == self.first_idx + self.group.len,
    {
        self.first_idx..self.first_idx + self.group.len
    }

    pub fn rows_range(&self) -> (r: Range<usize>)
        requires
            self.first_row + self.rows <= usize::MAX,
        ensures
            r.start == self.first_row,
            r.end == self.first_row + self.rows,
    {
        self.first_row..self.first_row + self.rows
    }
}

/// The grid's shape at one column count: the library's groups plus the arithmetic that turns
/// them into slots, rows and vertical offsets.
#[derive(Clone, Copy)]
pub struct GridLayout<'a> {
    pub groups: &'a [Group],
    pub columns: usize,
    pub metrics: SectionMetrics,
}

/// Rows that `len` cards take at `columns` columns.
pub fn div_ceil(len: usize, columns: usize) -> (r: usize)
    requires
        columns >= 1,
    ensures
        r == rows_for(len as nat, columns as nat),
{
    let q: usize = len / columns;
    let rem: usize = len % columns;
    proof {
        let c = columns as int;
        let l = len as int;
        lemma_fundamental_div_mod(l, c);
        assert(c * (l / c) == (l / c) * c) by (nonlinear_arith);
        if rem == 0 {
            assert((l + c - 1) / c == l / c) by (nonlinear_arith)
                requires
                    c >= 1,
                    l == (l / c) * c,
            ;
        } else {
            assert((l + c - 1) / c == l / c + 1) by (nonlinear_arith)
                requires
                    c >= 1,
                    l == (l / c) * c + l % c,
                    1 <= l % c < c,
            ;
            assert(l / c + 1 <= l) by (nonlinear_arith)
                requires
                    c >= 2,
                    l == (l / c) * c + l % c,
                    1 <= l % c < c,
                    l / c >= 0,
            ;
        }
    }
    if rem == 0 {
        q
    } else {
        q + 1
    }
}

impl<'a> GridLayout<'a> {
    /// The groups as values.
    pub open spec fn views(&self) -> Seq<GroupV> {
        group_views(self.groups@)
    }

    /// Whether the layout's arithmetic stays inside the machine's integers.
    pub open spec fn fits(&self) -> bool {
        layout_fits(self.views(), self.columns as nat, self.metrics)
    }

    /// A layout has at least one column, whatever it is asked for.
    pub fn new(groups: &'a [Group], columns: usize, metrics: SectionMetrics) -> (r: Self)
        ensures
            r.groups@ == groups@,
            r.columns == column_count(columns),
            r.metrics == metrics,
    {
        GridLayout {
            groups,
            columns: if columns == 0 {
                1
            } else {
                columns
            },
            metrics,
        }
    }

    pub fn columns(&self) -> (r: usize)
        ensures
            r == self.columns,
    {
        self.columns
    }

    /// Every group with its geometry, in grid order.
    pub fn placed(&self) -> (r: Vec<Placed<'a>>)
        requires
            self.fits(),
        ensures
            r.len() == self.groups.len(),
            forall|i: int|
                0 <= i < r.len() ==> (#[trigger] r[i]).places(
                    self.groups@,
                    self.columns as nat,
                    self.metrics,
                    i,
                ),
            forall|i: int|
                0 <= i < r.len() ==> (#[trigger] r[i]).first_idx + self.views()[i].len <= usize::MAX
                    && r[i].first_row + r[i].rows <= usize::MAX,
    {
        let ghost v = self.views();
        let ghost c = self.columns as nat;
        let ghost n = self.groups@.len() as int;
        let mut out: Vec<Placed<'a>> = Vec::new();
        let mut row: usize = 0;
        let mut y: i32 = 0;
        let mut i: usize = 0;
        while i < self.groups.len()
            invariant
                self.fits(),
                v == self.views(),
                c == self.columns as nat,
                n == self.groups@.len(),
                i <= n,
                out.len() == i,
                row == first_row(v, c, i as int),
                y == (if i == 0 {
                    0
                } else {
                    y_offset(self.metrics, i - 1)
                }),
                forall|k: int|
                    0 <= k < out.len() ==> (#[trigger] out[k]).places(self.groups@, c, self.metrics, k),
                forall|k: int|
                    0 <= k < out.len() ==> (#[trigger] out[k]).first_idx + v[k].len <= usize::MAX && out[k].first_row
                        + out[k].rows <= usize::MAX,
            decreases n - i,
        {
            let group: &'a Group = &self.groups[i];
            let rows: usize = div_ceil(group.len, self.columns);
            proof {
                assert(v[i as int] == group@);
                lemma_first_idx_monotone(v, c, i as int, i + 1);
                lemma_first_idx_monotone(v, c, i + 1, n);
                lemma_first_row_monotone(v, c, i as int, i + 1);
                let next = first_row(v, c, i + 1) as int;
                assert(next <= next * c) by (nonlinear_arith)
                    requires
                        c >= 1,
                        next >= 0,
                ;
                let a = self.metrics.heading_h as int;
                let b = self.metrics.gap as int;
                assert(a * (i + 1) + b * i <= a * (n + 1) + b * n) by (nonlinear_arith)
                    requires
                        a >= 0,
                        b >= 0,
                        0 <= i < n,
                ;
                assert(a * (i + 1) == a * i + a) by (nonlinear_arith);
                assert(b * i == b * (i - 1) + b) by (nonlinear_arith);
                assert(a * i >= 0) by (nonlinear_arith)
                    requires
                        a >= 0,
                        i >= 0,
                ;
                assert(b * i >= 0) by (nonlinear_arith)
                    requires
                        b >= 0,
                        i >= 0,
                ;
                assert(i > 0 ==> b * (i - 1) >= 0) by (nonlinear_arith)
                    requires
                        b >= 0,
                ;
                let fr = first_row(v, c, i as int) as int;
                let fe = first_row(v, c, i + 1) as int;
                assert(fr * c <= fe * c) by (nonlinear_arith)
                    requires
                        fr <= fe,
                        c >= 0,
                ;
            }
            // Each heading takes one line; all but the first add the gap between sections.
            if i > 0 {
                y = y + self.metrics.gap;
            }
            y = y + self.metrics.heading_h;
            out.push(
                Placed { group, first_idx: row * self.columns, first_row: row, rows, y_offset: y },
            );
            row = row + rows;
            i = i + 1;
        }
        out
    }

    /// The group holding grid slot `idx`, skipping the padding after a partial last row.
    pub(crate) fn at_idx(&self, idx: usize) -> (r: Option<Placed<'a>>)
        requires
            self.fits(),
        ensures
            match (r, group_of_slot(self.views(), self.columns as nat, idx as nat)) {
                (Some(p), Some(i)) => p.places(self.groups@, self.columns as nat, self.metrics, i)
                    && p.first_idx + p.group.len <= usize::MAX,
                (None, None) => true,
                _ => false,
            },
    {
        let placed = self.placed();
        let ghost v = self.views();
        let ghost c = self.columns as nat;
        let mut i: usize = 0;
        while i < placed.len()
            invariant
                self.fits(),
                v == self.views(),
                c == self.columns as nat,
                placed.len() == self.groups@.len(),
                i <= placed.len(),
                forall|k: int|
                    0 <= k < placed.len() ==> (#[trigger] placed[k]).places(self.groups@, c, self.metrics, k),
                forall|k: int|
                    0 <= k < placed.len() ==> (#[trigger] placed[k]).first_idx + v[k].len <= usize::MAX,
                group_of_slot(v, c, idx as nat) == group_of_slot_from(v, c, idx as nat, i as int),
            decreases placed.len() - i,
        {
            let p: Placed<'a> = placed[i];
            assert(v[i as int] == self.groups@[i as int]@);
            let s = p.slots();
            if s.start <= idx && idx < s.end {
                return Some(p);
            }
            i = i + 1;
        }
        None
    }

    /// Grid slots in total, padding between groups counted but none after the last.
    pub fn len(&self) -> (r: usize)
        requires
            self.fits(),
        ensures
            r == slot_count(self.views(), self.columns as nat),
    {
        let placed = self.placed();
        if placed.len() == 0 {
            0
        } else {
            let p: Placed<'a> = placed[placed.len() - 1];
            assert(self.views().last() == self.groups@[self.groups@.len() - 1]@);
            p.slots().end
        }
    }

    pub fn rows(&self) -> (r: usize)
        requires
            self.fits(),
        ensures
            r == rows_for(slot_count(self.views(), self.columns as nat), self.columns as nat),
    {
        div_ceil(self.len(), self.columns)
    }

    /// Section headings to draw: each group and the slot it sits above.
    pub fn headings(&self) -> (r: Vec<(usize, &'a Group)>)
        requires
            self.fits(),
        ensures
            r.len() == self.groups.len(),
            forall|i: int|
                0 <= i < r.len() ==> (#[trigger] r[i]).0 == first_idx(self.views(), self.columns as nat, i)
                    && *r[i].1 == self.groups@[i],
    {
        let placed = self.placed();
        let mut out: Vec<(usize, &'a Group)> = Vec::new();
        let mut i: usize = 0;
        while i < placed.len()
            invariant
                placed.len() == self.groups@.len(),
                i <= placed.len(),
                out.len() == i,
                forall|k: int|
                    0 <= k < placed.len() ==> (#[trigger] placed[k]).places(
                        self.groups@,
                        self.columns as nat,
                        self.metrics,
                        k,
                    ),
                forall|k: int|
                    0 <= k < out.len() ==> (#[trigger] out[k]).0 == first_idx(self.views(), self.columns as nat, k)
                        && *out[k].1 == self.groups@[k],
            decreases placed.len() - i,
        {
            let p: Placed<'a> = placed[i];
            assert(placed[i as int].places(self.groups@, self.columns as nat, self.metrics, i as int));
            out.push((p.first_idx, p.group));
            i = i + 1;
        }
        out
    }

    /// The card at grid index `idx`: `None` for the padding after a group's partial last row.
    pub fn card_at<'b>(&self, games: &'b [GameEntry], idx: usize) -> (r: Option<&'b GameEntry>)
        requires
            self.fits(),
        ensures
            match (r, card_of_slot(self.views(), self.columns as nat, games@.len(), idx as nat)) {
                (Some(g), Some(p)) => 0 <= p < games@.len() && *g == games@[p],
                (None, None) => true,
                _ => false,
            },
    {
        proof {
            lemma_group_of_slot_from(self.views(), self.columns as nat, idx as nat, 0);
        }
        match self.at_idx(idx) {
            Some(p) => {
                let ghost i = group_of_slot(self.views(), self.columns as nat, idx as nat)->0;
                assert(self.views()[i] == self.groups@[i]@);
                assert(self.views()[i].games_start + self.views()[i].len <= usize::MAX);
                let at: usize = p.group.games_start + (idx - p.first_idx);
                if at < games.len() {
                    Some(&games[at])
                } else {
                    None
                }
            },
            None => None,
        }
    }

    /// The pin id of whatever is at grid index `idx`, `None` for padding.
    pub fn pin_id_at<'b>(&self, games: &'b [GameEntry], idx: usize) -> (r: Option<&'b str>)
        requires
            self.fits(),
        ensures
            match (r, card_of_slot(self.views(), self.columns as nat, games@.len(), idx as nat)) {
                (Some(s), Some(p)) => s@ == games@[p].id@,
                (None, None) => true,
                _ => false,
            },
    {
        match self.card_at(games, idx) {
            Some(g) => Some(g.id.as_str()),
            None => None,
        }
    }

    /// The grid index of the card with pin id `id`.
    pub fn idx_for_pin_id(&self, games: &[GameEntry], id: &str) -> (r: Option<usize>)
        requires
            self.fits(),
        ensures
            match (r, slot_for_id(self.views(), self.columns as nat, game_ids(games@), id@)) {
                (Some(k), Some(p)) => k == p,
                (None, None) => true,
                _ => false,
            },
    {
        let ghost v = self.views();
        let ghost c = self.columns as nat;
        let ghost ids = game_ids(games@);
        let pos: usize = match position_of(games, id) {
            Some(p) => p,
            None => {
                return None;
            },
        };
        let placed = self.placed();
        let mut i: usize = 0;
        while i < placed.len()
            invariant
                self.fits(),
                v == self.views(),
                c == self.columns as nat,
                ids == game_ids(games@),
                first_with_id(ids, id@) == Some(pos as int),
                placed.len() == self.groups@.len(),
                i <= placed.len(),
                forall|k: int|
                    0 <= k < placed.len() ==> (#[trigger] placed[k]).places(self.groups@, c, self.metrics, k),
                forall|k: int|
                    0 <= k < placed.len() ==> (#[trigger] placed[k]).first_idx + v[k].len <= usize::MAX,
                group_of_game_from(v, pos as nat, 0) == group_of_game_from(v, pos as nat, i as int),
            decreases placed.len() - i,
        {
            let p: Placed<'a> = placed[i];
            assert(v[i as int] == self.groups@[i as int]@);
            assert(v[i as int].games_start + v[i as int].len <= usize::MAX);
            if p.group.games_start <= pos && pos < p.group.games_start + p.group.len {
                return Some(p.first_idx + (pos - p.group.games_start));
            }
            i = i + 1;
        }
        None
    }

    /// The grid's rows split into the bands that share a vertical offset, one per group.
    pub fn row_bands(&self) -> (r: Vec<(Range<usize>, i32)>)
        requires
            self.fits(),
        ensures
            r.len() == self.groups.len(),
            forall|i: int|
                0 <= i < r.len() ==> {
                    &&& (#[trigger] r[i]).0.start == first_row(self.views(), self.columns as nat, i)
                    &&& r[i].0.end == first_row(self.views(), self.columns as nat, i + 1)
                    &&& r[i].1 == y_offset(self.metrics, i)
                },
    {
        let placed = self.placed();
        let mut out: Vec<(Range<usize>, i32)> = Vec::new();
        let mut i: usize = 0;
        while i < placed.len()
            invariant
                self.fits(),
                placed.len() == self.groups@.len(),
                i <= placed.len(),
                out.len() == i,
                forall|k: int|
                    0 <= k < placed.len() ==> (#[trigger] placed[k]).places(
                        self.groups@,
                        self.columns as nat,
                        self.metrics,
                        k,
                    ),
                forall|k: int|
                    0 <= k < placed.len() ==> (#[trigger] placed[k]).first_row + placed[k].rows <= usize::MAX,
                forall|k: int|
                    0 <= k < out.len() ==> {
                        &&& (#[trigger] out[k]).0.start == first_row(self.views(), self.columns as nat, k)
                        &&& out[k].0.end == first_row(self.views(), self.columns as nat, k + 1)
                        &&& out[k].1 == y_offset(self.metrics, k)
                    },
            decreases placed.len() - i,
        {
            let p: Placed<'a> = placed[i];
            assert(placed[i as int].places(self.groups@, self.columns as nat, self.metrics, i as int));
            out.push((p.rows_range(), p.y_offset));
            i = i + 1;
        }
        out
    }

    /// Extra vertical offset carried by grid row `row`: whatever headings and gaps stack above it.
    pub fn row_offset_at(&self, row: usize) -> (r: i32)
        requires
            self.fits(),
        ensures
            r == row_offset_px(self.views(), self.columns as nat, self.metrics, row as nat),
    {
        let placed = self.placed();
        let ghost v = self.views();
        let ghost c = self.columns as nat;
        let mut px: i32 = 0;
        let mut i: usize = 0;
        while i < placed.len()
            invariant
                v == self.views(),
                c == self.columns as nat,
                placed.len() == self.groups@.len(),
                i <= placed.len(),
                forall|k: int|
                    0 <= k < placed.len() ==> (#[trigger] placed[k]).places(self.groups@, c, self.metrics, k),
                groups_through_row(v, c, row as nat, 0) == groups_through_row(v, c, row as nat, i as int),
                px == (if i == 0 {
                    0
                } else {
                    y_offset(self.metrics, i - 1)
                }),
            decreases placed.len() - i,
        {
            let p: Placed<'a> = placed[i];
            assert(placed[i as int].places(self.groups@, c, self.metrics, i as int));
            if p.first_row > row {
                return px;
            }
            px = p.y_offset;
            i = i + 1;
        }
        px
    }

    /// [`Self::row_offset_at`] for the row grid index `idx` sits in.
    pub fn row_offset(&self, idx: usize) -> (r: i32)
        requires
            self.fits(),
        ensures
            r == row_offset_px(
                self.views(),
                self.columns as nat,
                self.metrics,
                (idx / self.columns) as nat,
            ),
    {
        self.row_offset_at(idx / self.columns)
    }

    /// What the sections add to the grid's total height: the offset its last row carries.
    pub fn total_extra(&self) -> (r: i32)
        requires
            self.fits(),
        ensures
            r == (if self.groups@.len() == 0 {
                0
            } else {
                y_offset(self.metrics, self.groups@.len() - 1)
            }),
    {
        let placed = self.placed();
        if placed.len() == 0 {
            0
        } else {
            let p: Placed<'a> = placed[placed.len() - 1];
            p.y_offset
        }
    }
}

/// The ids of a list of games.
pub open spec fn game_ids(games: Seq<GameEntry>) -> Seq<Seq<char>> {
    games.map_values(|g: GameEntry| g.id@)
}

/// The slot of the first game with id `id`.
pub open spec fn slot_for_id(
    groups: Seq<GroupV>,
    columns: nat,
    ids: Seq<Seq<char>>,
    id: Seq<char>,
) -> Option<int> {
    match first_with_id(ids, id) {
        Some(p) => slot_of_game(groups, columns, p as nat),
        None => None,
    }
}

/// The position of the first game with id `id`.
pub fn position_of(games: &[GameEntry], id: &str) -> (r: Option<usize>)
    ensures
        match (r, first_with_id(game_ids(games@), id@)) {
            (Some(k), Some(p)) => k == p && 0 <= p < games@.len() && games@[p].id@ == id@,
            (None, None) => true,
            _ => false,
        },
{
    let ghost ids = game_ids(games@);
    let mut i: usize = 0;
    while i < games.len()
        invariant
            ids == game_ids(games@),
            i <= games@.len(),
            forall|k: int| 0 <= k < i ==> ids[k] != id@,
        decreases games@.len() - i,
    {
        if same_text(games[i].id.as_str(), id) {
            proof {
                assert(ids[i as int] == id@);
                ids.index_of_first_ensures(id@);
            }
            return Some(i);
        }
        i = i + 1;
    }
    proof {
        ids.index_of_first_ensures(id@);
    }
    None
}

/// How long a card's arrival takes, in milliseconds.
pub const CARD_POP: u64 = 300;

/// A card's arrival: it scales up on the grid from this moment.
#[derive(Clone, Copy, PartialEq, Eq, Structural, Debug)]
pub struct Entrance {
    pub start: u64,
}

impl Entrance {
    pub fn pop(start: u64) -> (r: Self)
        ensures
            r == (Entrance { start }),
    {
        Entrance { start }
    }

    /// When the arrival finishes.
    pub fn end(self) -> (r: u64)
        requires
            self.start + CARD_POP <= u64::MAX,
        ensures
            r == self.start + CARD_POP,
    {
        self.start + CARD_POP
    }
}

/// One resident card.
pub struct Arrival {
    pub id: String,
    pub entrance: Option<Entrance>,
}

/// The resident ids, in the order they were noted.
pub open spec fn arrival_ids(seen: Seq<Arrival>) -> Seq<Seq<char>> {
    seen.map_values(|a: Arrival| a.id@)
}

/// The resident cards by id.
pub open spec fn arrival_map(seen: Seq<Arrival>) -> Map<Seq<char>, Option<Entrance>> {
    Map::new(
        |k: Seq<char>| arrival_ids(seen).contains(k),
        |k: Seq<char>| seen[arrival_ids(seen).index_of_first(k)->0].entrance,
    )
}

/// The cards resident in the build window and when each arrived. A card is noted the first
/// time it enters the window; on a settled grid that first sighting is what pops.
pub struct Arrivals {
    seen: Vec<Arrival>,
}

impl View for Arrivals {
    type V = Map<Seq<char>, Option<Entrance>>;

    closed spec fn view(&self) -> Map<Seq<char>, Option<Entrance>> {
        arrival_map(self.seen@)
    }
}

proof fn lemma_arrival_at(seen: Seq<Arrival>, i: int)
    requires
        arrival_ids(seen).no_duplicates(),
        0 <= i < seen.len(),
    ensures
        arrival_map(seen).dom().contains(seen[i].id@),
        arrival_map(seen)[seen[i].id@] == seen[i].entrance,
        arrival_ids(seen).index_of_first(seen[i].id@) == Some(i),
{
    let ids = arrival_ids(seen);
    assert(ids[i] == seen[i].id@);
    assert(ids.contains(seen[i].id@));
    ids.index_of_first_ensures(seen[i].id@);
}

proof fn lemma_arrival_absent(seen: Seq<Arrival>, id: Seq<char>)
    requires
        forall|i: int| 0 <= i < seen.len() ==> (#[trigger] seen[i]).id@ != id,
    ensures
        !arrival_ids(seen).contains(id),
        !arrival_map(seen).dom().contains(id),
{
}

impl Arrivals {
    /// No id is resident twice.
    pub closed spec fn wf(&self) -> bool {
        arrival_ids(self.seen@).no_duplicates()
    }

    pub fn new() -> (r: Self)
        ensures
            r.wf(),
            r@ == Map::<Seq<char>, Option<Entrance>>::empty(),
    {
        let r = Arrivals { seen: Vec::new() };
        assert(r@ =~= Map::<Seq<char>, Option<Entrance>>::empty());
        r
    }

    fn find(&self, id: &str) -> (r: Option<usize>)
        requires
            self.wf(),
        ensures
            match r {
                Some(i) => i < self.seen.len() && self.seen[i as int].id@ == id@ && self@.dom().contains(id@)
                    && self@[id@] == self.seen[i as int].entrance,
                None => !self@.dom().contains(id@) && !arrival_ids(self.seen@).contains(id@),
            },
    {
        let mut i: usize = 0;
        while i < self.seen.len()
            invariant
                self.wf(),
                i <= self.seen.len(),
                forall|k: int| 0 <= k < i ==> (#[trigger] self.seen[k]).id@ != id@,
            decreases self.seen.len() - i,
        {
            if same_text(self.seen[i].id.as_str(), id) {
                proof {
                    lemma_arrival_at(self.seen@, i as int);
                }
                return Some(i);
            }
            i = i + 1;
        }
        proof {
            lemma_arrival_absent(self.seen@, id@);
        }
        None
    }

    /// Notes `id` as resident; true the first time.
    pub fn note(&mut self, id: &str) -> (r: bool)
        requires
            old(self).wf(),
        ensures
            final(self).wf(),
            r == !old(self)@.dom().contains(id@),
            r ==> final(self)@ == old(self)@.insert(id@, None),
            !r ==> final(self)@ == old(self)@,
    {
        if self.find(id).is_some() {
            return false;
        }
        let ghost before = self.seen@;
        let ghost was = self@;
        self.seen.push(Arrival { id: id.to_owned(), entrance: None });
        proof {
            let ids = arrival_ids(self.seen@);
            assert(ids =~= arrival_ids(before).push(id@));
            assert(ids.no_duplicates());
            assert forall|k: Seq<char>| #[trigger] arrival_map(self.seen@).dom().contains(k) implies was.insert(
                id@,
                None,
            ).dom().contains(k) && arrival_map(self.seen@)[k] == was.insert(id@, None)[k] by {
                let i = choose|i: int| 0 <= i < ids.len() && ids[i] == k;
                lemma_arrival_at(self.seen@, i);
                if i < before.len() {
                    lemma_arrival_at(before, i);
                }
            }
            assert forall|k: Seq<char>| #[trigger] was.insert(id@, None).dom().contains(k) implies arrival_map(
                self.seen@,
            ).dom().contains(k) by {
                if k == id@ {
                    assert(ids[before.len() as int] == k);
                } else {
                    let i = choose|i: int| 0 <= i < arrival_ids(before).len() && arrival_ids(before)[i] == k;
                    assert(ids[i] == k);
                }
            }
            assert(self@ =~= was.insert(id@, None));
        }
        true
    }

    /// The arrival in progress of `id`, `None` when it is not resident or not arriving.
    pub fn pop(&self, id: &str) -> (r: Option<Entrance>)
        requires
            self.wf(),
        ensures
            r == (if self@.dom().contains(id@) {
                self@[id@]
            } else {
                None
            }),
    {
        match self.find(id) {
            Some(i) => self.seen[i].entrance,
            None => None,
        }
    }

    /// Starts `id`'s arrival; false when it is not resident.
    pub fn arm(&mut self, id: &str, entrance: Entrance) -> (r: bool)
        requires
            old(self).wf(),
        ensures
            final(self).wf(),
            r == old(self)@.dom().contains(id@),
            r ==> final(self)@ == old(self)@.insert(id@, Some(entrance)),
            !r ==> final(self)@ == old(self)@,
    {
        match self.find(id) {
            Some(at) => {
                let ghost before = self.seen@;
                let ghost was = self@;
                let id_kept = self.seen[at].id.clone();
                self.seen.set(at, Arrival { id: id_kept, entrance: Some(entrance) });
                proof {
                    assert(arrival_ids(self.seen@) =~= arrival_ids(before));
                    assert forall|k: Seq<char>| #[trigger] was.dom().contains(k) implies arrival_map(self.seen@)[k]
                        == was.insert(id@, Some(entrance))[k] by {
                        let i = choose|i: int| 0 <= i < before.len() && arrival_ids(before)[i] == k;
                        lemma_arrival_at(before, i);
                        lemma_arrival_at(self.seen@, i);
                        assert(arrival_ids(before)[at as int] == id@);
                    }
                    assert(self@ =~= was.insert(id@, Some(entrance)));
                }
                true
            },
            None => false,
        }
    }

    pub fn release(&mut self, id: &str)
        requires
            old(self).wf(),
        ensures
            final(self).wf(),
            final(self)@ == old(self)@.remove(id@),
    {
        match self.find(id) {
            Some(at) => {
                let ghost before = self.seen@;
                let ghost was = self@;
                self.seen.remove(at);
                proof {
                    let ids = arrival_ids(self.seen@);
                    assert(ids =~= arrival_ids(before).remove(at as int));
                    assert(ids.no_duplicates());
                    assert forall|k: Seq<char>| #[trigger] arrival_map(self.seen@).dom().contains(k) implies was.remove(
                        id@,
                    ).dom().contains(k) && arrival_map(self.seen@)[k] == was[k] by {
                        let i = choose|i: int| 0 <= i < ids.len() && ids[i] == k;
                        lemma_arrival_at(self.seen@, i);
                        let j = if i < at {
                            i
                        } else {
                            i + 1
                        };
                        lemma_arrival_at(before, j);
                        assert(arrival_ids(before)[at as int] == id@);
                        assert(arrival_ids(before)[j] == k);
                    }
                    assert forall|k: Seq<char>| #[trigger] was.remove(id@).dom().contains(k) implies arrival_map(
                        self.seen@,
                    ).dom().contains(k) by {
                        let j = choose|j: int| 0 <= j < before.len() && arrival_ids(before)[j] == k;
                        let i = if j < at {
                            j
                        } else {
                            j - 1
                        };
                        assert(ids[i] == k);
                    }
                    assert(self@ =~= was.remove(id@));
                }
            },
            None => {
                assert(self@ =~= self@.remove(id@));
            },
        }
    }

    pub fn clear(&mut self)
        ensures
            final(self).wf(),
            final(self)@ == Map::<Seq<char>, Option<Entrance>>::empty(),
    {
        self.seen.clear();
        assert(self@ =~= Map::<Seq<char>, Option<Entrance>>::empty());
    }

    /// Every resident id, each once.
    pub fn ids(&self) -> (r: Vec<String>)
        requires
            self.wf(),
        ensures
            crate::text::texts(r@).no_duplicates(),
            forall|k: Seq<char>| crate::text::texts(r@).contains(k) <==> self@.dom().contains(k),
    {
        let mut out: Vec<String> = Vec::new();
        let mut i: usize = 0;
        while i < self.seen.len()
            invariant
                i <= self.seen.len(),
                out.len() == i,
                forall|k: int| 0 <= k < i ==> (#[trigger] out[k])@ == self.seen[k].id@,
            decreases self.seen.len() - i,
        {
            out.push(self.seen[i].id.clone());
            i = i + 1;
        }
        proof {
            assert(crate::text::texts(out@) =~= arrival_ids(self.seen@));
        }
        out
    }
}

/// What is kept for the grid between frames. The dirty flags are set by the event side when it
/// changes something the render side cannot see, and cleared as the render side acts.
pub struct GridState {
    /// Every resident card by id, with its arrival clock.
    pub arrivals: Arrivals,
    /// The keep window the last eviction pass ran for.
    pub kept: Range<usize>,
    /// When the last-armed card arrival finishes.
    pub card_pop_until: Option<u64>,
    pub card_size: (u32, u32),
    /// All cards stale: the games or the host changed.
    pub dirty: bool,
    /// Cards stale by id: their art changed.
    pub cards_dirty: Vec<String>,
    /// Scroll offset rendered this frame; eases toward `scroll_target`.
    pub scroll: i32,
    pub scroll_target: i32,
    /// Where the grid is re-entered from the sidebar.
    pub focus_last: usize,
    /// Whether the grid shows, rather than the spinner that stands in for its first build.
    pub revealed: bool,
}

/// A [`GridState`] as a value.
pub struct GridV {
    pub arrivals: Map<Seq<char>, Option<Entrance>>,
    pub kept: (usize, usize),
    pub card_pop_until: Option<u64>,
    pub card_size: (u32, u32),
    pub dirty: bool,
    pub cards_dirty: Seq<Seq<char>>,
    pub scroll: i32,
    pub scroll_target: i32,
    pub focus_last: usize,
    pub revealed: bool,
}

impl View for GridState {
    type V = GridV;

    open spec fn view(&self) -> GridV {
        GridV {
            arrivals: self.arrivals@,
            kept: (self.kept.start, self.kept.end),
            card_pop_until: self.card_pop_until,
            card_size: self.card_size,
            dirty: self.dirty,
            cards_dirty: crate::text::texts(self.cards_dirty@),
            scroll: self.scroll,
            scroll_target: self.scroll_target,
            focus_last: self.focus_last,
            revealed: self.revealed,
        }
    }
}

/// The later of a standing deadline and a new one.
pub open spec fn later(until: Option<u64>, end: u64) -> Option<u64> {
    match until {
        Some(u) => if u < end {
            Some(end)
        } else {
            Some(u)
        },
        None => Some(end),
    }
}

impl GridV {
    /// The card `id` starts arriving at `at`, if it is resident; the deadline is never lowered.
    pub open spec fn arm_card_pop(self, id: Seq<char>, at: u64) -> GridV {
        if self.arrivals.dom().contains(id) {
            GridV {
                arrivals: self.arrivals.insert(id, Some(Entrance { start: at })),
                card_pop_until: later(self.card_pop_until, (at + CARD_POP) as u64),
                ..self
            }
        } else {
            self
        }
    }
}

impl GridState {
    pub open spec fn wf(&self) -> bool {
        self.arrivals.wf()
    }

    /// Starts or restarts a card's arrival. A card that is not resident gets its clock when it
    /// is built.
    pub fn arm_card_pop(&mut self, pin_id: &str, at: u64)
        requires
            old(self).wf(),
            at + CARD_POP <= u64::MAX,
        ensures
            final(self).wf(),
            final(self)@ == old(self)@.arm_card_pop(pin_id@, at),
    {
        let entrance = Entrance::pop(at);
        if self.arrivals.arm(pin_id, entrance) {
            self.extend_pop_deadline(entrance.end());
        }
    }

    /// Raises the redraw deadline to `end`. Never lowered: a late deadline costs one frame,
    /// where an early one would freeze an arrival midway.
    fn extend_pop_deadline(&mut self, end: u64)
        ensures
            *final(self) == (GridState { card_pop_until: later(old(self).card_pop_until, end), ..*old(self) }),
    {
        let raise: bool = match self.card_pop_until {
            Some(until) => until < end,
            None => true,
        };
        if raise {
            self.card_pop_until = Some(end);
        }
    }

    /// Whether any card is still arriving at `now`.
    pub fn card_pops_running(&self, now: u64) -> (r: bool)
        ensures
            r == self@.pops_running(now),
    {
        match self.card_pop_until {
            Some(until) => now < until,
            None => false,
        }
    }
}

/// Arming any card, at any time, leaves the redraw deadline where it was or later.
pub proof fn law_pop_deadline_never_lowered(g: GridV, id: Seq<char>, at: u64)
    requires
        at + CARD_POP <= u64::MAX,
    ensures
        g.card_pop_until matches Some(u) ==> (g.arm_card_pop(id, at).card_pop_until matches Some(v) && u <= v),
        g.arrivals.dom().contains(id) ==> (g.arm_card_pop(id, at).card_pop_until matches Some(v) && at + CARD_POP
            <= v),
{
}

impl GridV {
    /// Whether any card is still arriving at `now`.
    pub open spec fn pops_running(self, now: u64) -> bool {
        self.card_pop_until matches Some(until) && now < until
    }

    /// The grid with cards armed one after the other, each at its own time.
    pub open spec fn arm_all(self, armings: Seq<(Seq<char>, u64)>) -> GridV
        decreases armings.len(),
    {
        if armings.len() == 0 {
            self
        } else {
            self.arm_all(armings.drop_last()).arm_card_pop(armings.last().0, armings.last().1)
        }
    }

    /// Whether one of these armings is of a card that is there and still runs at `now`.
    pub open spec fn some_runs(self, armings: Seq<(Seq<char>, u64)>, now: u64) -> bool {
        exists|k: int|
            0 <= k < armings.len() && self.arrivals.dom().contains(#[trigger] armings[k].0) && now < armings[k].1
                + CARD_POP
    }
}

/// However cards are armed, and in whatever order, the grid is redrawn exactly as long as one of
/// those that are there still arrives: until the latest of their ends, and not beyond.
pub proof fn law_pops_run_until_the_latest_end(g: GridV, armings: Seq<(Seq<char>, u64)>, now: u64)
    requires
        forall|k: int| 0 <= k < armings.len() ==> (#[trigger] armings[k]).1 + CARD_POP <= u64::MAX,
    ensures
        g.arm_all(armings).arrivals.dom() == g.arrivals.dom(),
        g.arm_all(armings).pops_running(now) <==> g.pops_running(now) || g.some_runs(armings, now),
    decreases armings.len(),
{
    if armings.len() > 0 {
        let before = armings.drop_last();
        let last = armings.last();
        law_pops_run_until_the_latest_end(g, before, now);
        assert(g.arm_all(armings).arrivals.dom() =~= g.arrivals.dom());
        if g.some_runs(before, now) {
            let k = choose|k: int|
                0 <= k < before.len() && g.arrivals.dom().contains(#[trigger] before[k].0) && now < before[k].1
                    + CARD_POP;
            assert(armings[k] == before[k]);
        }
        if g.some_runs(armings, now) && !g.some_runs(before, now) {
            let k = choose|k: int|
                0 <= k < armings.len() && g.arrivals.dom().contains(#[trigger] armings[k].0) && now < armings[k].1
                    + CARD_POP;
            if k < before.len() {
                assert(before[k] == armings[k]);
            }
        }
        if g.arrivals.dom().contains(last.0) && now < last.1 + CARD_POP {
            assert(armings[armings.len() - 1] == last);
        }
    }
}

impl Default for GridState {
    /// Stale from the start, since the first library load is what fills the grid; and shown,
    /// since nothing is waited for until a host is picked.
    fn default() -> (r: Self)
        ensures
            r.wf(),
            r@ == (GridV {
                arrivals: Map::empty(),
                kept: (0, 0),
                card_pop_until: None,
                card_size: (0, 0),
                dirty: true,
                cards_dirty: Seq::empty(),
                scroll: 0,
                scroll_target: 0,
                focus_last: 0,
                revealed: true,
            }),
    {
        let r = GridState {
            arrivals: Arrivals::new(),
            kept: 0..0,
            card_pop_until: None,
            card_size: (0, 0),
            dirty: true,
            cards_dirty: Vec::new(),
            scroll: 0,
            scroll_target: 0,
            focus_last: 0,
            revealed: true,
        };
        assert(crate::text::texts(r.cards_dirty@) =~= Seq::empty());
        r
    }
}

} // verus!
