//! Where the grid is scrolled to: just far enough to show the focused card, and never past the
//! grid's own extent.
use vstd::prelude::*;
use crate::grid::{
    first_idx, first_row, layout_fits, lemma_rows_for, row_offset_px, rows_for, run_start, runs, y_offset,
    GridLayout, GroupV, SectionMetrics,
};

verus! {

/// The ring around a focused card and a little breathing room, in pixels.
pub const FOCUS_MARGIN: i32 = 16;

/// The grid's measures on the current screen.
#[derive(Clone, Copy)]
pub struct GridShape {
    pub columns: usize,
    pub metrics: SectionMetrics,
    /// From one row's top to the next one's.
    pub pitch: i32,
    pub card_h: i32,
    /// Where the viewport, and in it the unscrolled first row, starts.
    pub top: i32,
    /// Where the viewport ends.
    pub bottom: i32,
}

/// The top of the card in slot `idx`, before scrolling.
pub open spec fn card_top(groups: Seq<GroupV>, s: GridShape, idx: nat) -> int {
    let row = idx / s.columns as nat;
    s.top + row * s.pitch + row_offset_px(groups, s.columns as nat, s.metrics, row)
}

/// The scroll nearest to `scroll` that shows `top..bottom` with a margin inside the viewport.
pub open spec fn revealed(top: int, bottom: int, view: (int, int), scroll: int, margin: int) -> int {
    if top - margin - scroll < view.0 {
        top - margin - view.0
    } else if bottom + margin - scroll > view.1 {
        bottom + margin - view.1
    } else {
        scroll
    }
}

pub open spec fn clamped(x: int, hi: int) -> int {
    if x < 0 {
        0
    } else if x > hi {
        hi
    } else {
        x
    }
}

/// The height of `slots` grid slots, with what the sections add.
pub open spec fn content_height(groups: Seq<GroupV>, s: GridShape, slots: nat) -> int {
    let rows = rows_for(slots, s.columns as nat);
    let extra = if groups.len() == 0 {
        0
    } else {
        y_offset(s.metrics, groups.len() - 1)
    };
    if rows == 0 {
        extra
    } else {
        rows * s.pitch - (s.pitch - s.card_h) + extra
    }
}

/// The furthest the grid can scroll, none where everything fits on screen.
pub open spec fn max_scroll(groups: Seq<GroupV>, s: GridShape, slots: nat) -> int {
    clamped(content_height(groups, s, slots) - (s.bottom - s.top), i32::MAX as int)
}

/// What is shown with a margin that fits the viewport is wholly inside it.
pub proof fn law_reveal_shows(top: int, bottom: int, view: (int, int), scroll: int, margin: int)
    requires
        top <= bottom,
        bottom - top + 2 * margin <= view.1 - view.0,
    ensures
        ({
            let r = revealed(top, bottom, view, scroll, margin);
            &&& view.0 <= top - margin - r
            &&& bottom + margin - r <= view.1
        }),
{
}

/// What is on screen already moves nothing.
pub proof fn law_reveal_keeps(top: int, bottom: int, view: (int, int), scroll: int, margin: int)
    requires
        view.0 <= top - margin - scroll,
        bottom + margin - scroll <= view.1,
    ensures
        revealed(top, bottom, view, scroll, margin) == scroll,
{
}

/// The most that shelves over a number of games can take: whether the arithmetic on any layout of
/// them stays inside the machine's integers.
pub open spec fn shelves_fit(games: nat, shelves: nat, s: GridShape) -> bool {
    &&& s.columns >= 1
    &&& s.metrics.heading_h >= 0
    &&& s.metrics.gap >= 0
    &&& games + shelves * s.columns <= usize::MAX
    &&& s.metrics.heading_h * (shelves + 1) + s.metrics.gap * shelves <= i32::MAX
}

proof fn lemma_first_idx_bound(groups: Seq<GroupV>, columns: nat, i: int)
    requires
        columns >= 1,
        0 <= i <= groups.len(),
    ensures
        first_idx(groups, columns, i) <= run_start(groups, i) + i * columns,
        first_row(groups, columns, i) <= run_start(groups, i) + i,
    decreases i,
{
    if i > 0 {
        lemma_first_idx_bound(groups, columns, i - 1);
        let len = groups[i - 1].len;
        let r = rows_for(len, columns);
        lemma_rows_for(len, columns);
        assert(r * columns <= len + columns) by (nonlinear_arith)
            requires
                len > 0 ==> (r - 1) * columns < len,
                len == 0 ==> r == 0,
                columns >= 1,
        ;
        assert(r <= len + 1) by (nonlinear_arith)
            requires
                r * columns <= len + columns,
                columns >= 1,
                r >= 0,
                len >= 0,
        ;
        let f = first_row(groups, columns, i - 1);
        assert((f + r) * columns == f * columns + r * columns) by (nonlinear_arith);
        assert((i - 1) * columns + columns == i * columns) by (nonlinear_arith);
    }
}

proof fn lemma_run_start_monotone(groups: Seq<GroupV>, i: int, j: int)
    requires
        i <= j,
    ensures
        run_start(groups, i) <= run_start(groups, j),
    decreases j - i,
{
    if i < j {
        lemma_run_start_monotone(groups, i, j - 1);
    }
}

/// Sections that are runs of the games, no more of them than shelves, make a layout that fits
/// wherever the shelves do.
pub proof fn lemma_runs_fit(groups: Seq<GroupV>, count: nat, games: nat, shelves: nat, s: GridShape)
    requires
        shelves_fit(games, shelves, s),
        runs(groups, count),
        count <= games,
        groups.len() <= shelves,
    ensures
        layout_fits(groups, s.columns as nat, s.metrics),
{
    let c = s.columns as nat;
    let n = groups.len() as int;
    lemma_first_idx_bound(groups, c, n);
    assert(n * c <= shelves * c) by (nonlinear_arith)
        requires
            n <= shelves,
            c >= 1,
    ;
    let h = s.metrics.heading_h as int;
    let g = s.metrics.gap as int;
    assert(h * (n + 1) + g * n <= h * (shelves + 1) + g * shelves) by (nonlinear_arith)
        requires
            n <= shelves,
            h >= 0,
            g >= 0,
    ;
    assert forall|i: int| 0 <= i < groups.len() implies (#[trigger] groups[i]).games_start + groups[i].len
        <= usize::MAX by {
        assert(groups[i].games_start + groups[i].len == run_start(groups, i + 1));
        lemma_run_start_monotone(groups, i + 1, n);
        assert(shelves * c >= 0) by (nonlinear_arith)
            requires
                shelves >= 0,
                c >= 1,
        ;
    }
}

fn clamp(x: i128, hi: i128) -> (r: i128)
    requires
        0 <= hi,
    ensures
        r == clamped(x as int, hi as int),
{
    if x < 0 {
        0
    } else if x > hi {
        hi
    } else {
        x
    }
}

fn scroll_to_reveal(top: i128, bottom: i128, view: (i32, i32), scroll: i32, margin: i32) -> (r: i128)
    requires
        -0x8000_0000_0000_0000_0000_0000_0000 <= top <= 0x8000_0000_0000_0000_0000_0000_0000,
        -0x8000_0000_0000_0000_0000_0000_0000 <= bottom <= 0x8000_0000_0000_0000_0000_0000_0000,
    ensures
        r == revealed(top as int, bottom as int, (view.0 as int, view.1 as int), scroll as int, margin as int),
{
    let (v0, v1, sc, m): (i128, i128, i128, i128) = (view.0 as i128, view.1 as i128, scroll as i128, margin as i128);
    if top - m - sc < v0 {
        top - m - v0
    } else if bottom + m - sc > v1 {
        bottom + m - v1
    } else {
        sc
    }
}

fn times(n: usize, px: i32) -> (r: i128)
    ensures
        r == n * px,
        -0x1_0000_0000_0000_0000_0000_0000 <= r <= 0x1_0000_0000_0000_0000_0000_0000,
{
    let (a, b): (i128, i128) = (n as i128, px as i128);
    proof {
        assert(-0x1_0000_0000_0000_0000_0000_0000 <= a * b <= 0x1_0000_0000_0000_0000_0000_0000) by (nonlinear_arith)
            requires
                0 <= a <= 0xffff_ffff_ffff_ffff,
                -0x8000_0000 <= b <= 0x7fff_ffff,
        ;
    }
    a * b
}

/// The furthest `slots` slots can scroll.
pub fn furthest(layout: &GridLayout<'_>, s: GridShape, slots: usize) -> (r: i32)
    requires
        layout.fits(),
        layout.columns == s.columns,
        layout.metrics == s.metrics,
    ensures
        r == max_scroll(layout.views(), s, slots as nat),
        0 <= r,
{
    let rows: usize = crate::grid::div_ceil(slots, s.columns);
    let extra: i128 = layout.total_extra() as i128;
    let height: i128 = if rows == 0 {
        extra
    } else {
        times(rows, s.pitch) - (s.pitch as i128 - s.card_h as i128) + extra
    };
    clamp(height - (s.bottom as i128 - s.top as i128), i32::MAX as i128) as i32
}

/// The scroll that shows the card in slot `idx`, within the extent of `slots` slots.
pub fn bring_in(layout: &GridLayout<'_>, s: GridShape, idx: usize, slots: usize, scroll: i32) -> (r: i32)
    requires
        layout.fits(),
        layout.columns == s.columns,
        layout.metrics == s.metrics,
    ensures
        r == clamped(
            revealed(
                card_top(layout.views(), s, idx as nat),
                card_top(layout.views(), s, idx as nat) + s.card_h,
                (s.top as int, s.bottom as int),
                scroll as int,
                FOCUS_MARGIN as int,
            ),
            max_scroll(layout.views(), s, slots as nat),
        ),
{
    let row: usize = idx / s.columns;
    let top: i128 = s.top as i128 + times(row, s.pitch) + layout.row_offset_at(row) as i128;
    let target: i128 = scroll_to_reveal(top, top + s.card_h as i128, (s.top, s.bottom), scroll, FOCUS_MARGIN);
    clamp(target, furthest(layout, s, slots) as i128) as i32
}

/// The scroll `dy` further on, within `max`.
pub fn scrolled(scroll: i32, dy: i32, max: i32) -> (r: i32)
    requires
        0 <= max,
    ensures
        r == clamped(scroll + dy, max as int),
{
    clamp(scroll as i128 + dy as i128, max as i128) as i32
}

} // verus!
