//! Spiral grid placement: every slide is assigned a unique grid cell by
//! walking the grid in a single inward spiral — right along the top row,
//! down the right column, left along the bottom row, up the left column,
//! shrinking the open rectangle after each completed side.

use vstd::prelude::*;
use crate::config::{Config, MAX_DIMENSION};
use crate::engine::MAX_SLIDES;
use crate::random::random_in_range;
use crate::slide::Slide;
use crate::transform::Transform;

verus! {

/// One cell of the placement grid.
#[derive(Clone, Copy, Debug, PartialEq, Eq, Structural)]
pub struct Cell {
    /// Row, counted from the top.
    pub row: usize,
    /// Column, counted from the left.
    pub col: usize,
}

/// Whether a cell lies on a grid of the given size.
pub open spec fn in_grid(c: Cell, rows: int, cols: int) -> bool {
    c.row < rows && c.col < cols
}

/// Whether a cell lies in the open window still to be walked.
pub open spec fn in_window(c: Cell, top: int, bottom: int, left: int, right: int) -> bool {
    top <= c.row < bottom && left <= c.col < right
}

/// Two cells share a side.
pub open spec fn adjacent(a: Cell, b: Cell) -> bool {
    ||| (a.row == b.row && (a.col + 1 == b.col || b.col + 1 == a.col))
    ||| (a.col == b.col && (a.row + 1 == b.row || b.row + 1 == a.row))
}

/// No cell appears twice.
pub open spec fn cells_distinct(cells: Seq<Cell>) -> bool {
    forall|p: int, q: int| 0 <= p < q < cells.len() ==> cells[p] != cells[q]
}

/// Consecutive cells share a side: the walk is one contiguous path.
pub open spec fn cells_chained(cells: Seq<Cell>) -> bool {
    forall|p: int| 0 <= p < cells.len() - 1 ==> adjacent(#[trigger] cells[p], cells[p + 1])
}

/// Every cell of the sequence lies on the grid.
pub open spec fn cells_on_grid(cells: Seq<Cell>, rows: int, cols: int) -> bool {
    forall|p: int| 0 <= p < cells.len() ==> in_grid(#[trigger] cells[p], rows, cols)
}

/// Every grid cell outside the window occurs in the sequence.
pub open spec fn covers_outside_window(
    cells: Seq<Cell>,
    rows: int,
    cols: int,
    top: int,
    bottom: int,
    left: int,
    right: int,
) -> bool {
    forall|c: Cell|
        in_grid(c, rows, cols) && !in_window(c, top, bottom, left, right)
            ==> #[trigger] cells.contains(c)
}

/// Every cell of the sequence lies outside the window.
pub open spec fn avoids_window(
    cells: Seq<Cell>,
    top: int,
    bottom: int,
    left: int,
    right: int,
) -> bool {
    forall|p: int|
        0 <= p < cells.len() ==> !in_window(#[trigger] cells[p], top, bottom, left, right)
}

/// The cells of one row from column `from` up to (excluding) `to`, left to
/// right.
pub open spec fn row_right(row: int, from: int, to: int) -> Seq<Cell> {
    Seq::new((to - from) as nat, |k: int| Cell { row: row as usize, col: (from + k) as usize })
}

/// The cells of one row from column `to - 1` down to `from`, right to left.
pub open spec fn row_left(row: int, from: int, to: int) -> Seq<Cell> {
    Seq::new((to - from) as nat, |k: int| Cell { row: row as usize, col: (to - 1 - k) as usize })
}

/// The cells of one column from row `from` down to (excluding) `to`, top to
/// bottom.
pub open spec fn col_down(col: int, from: int, to: int) -> Seq<Cell> {
    Seq::new((to - from) as nat, |k: int| Cell { row: (from + k) as usize, col: col as usize })
}

/// The cells of one column from row `to - 1` up to `from`, bottom to top.
pub open spec fn col_up(col: int, from: int, to: int) -> Seq<Cell> {
    Seq::new((to - from) as nat, |k: int| Cell { row: (to - 1 - k) as usize, col: col as usize })
}

/// The inward spiral walk of the open window `[top, bottom) x [left,
/// right)`: right along its top row, down its right column, left along its
/// bottom row, up its left column, then the walk of the window shrunk by
/// the sides just covered.
#[verifier::opaque]
pub open spec fn spiral_window(top: int, bottom: int, left: int, right: int) -> Seq<Cell>
    decreases (bottom - top) + (right - left),
{
    if top < bottom && left < right {
        let shrunk_bottom = if top + 1 < bottom {
            bottom - 1
        } else {
            bottom
        };
        let shrunk_left = if left < right - 1 {
            left + 1
        } else {
            left
        };
        row_right(top, left, right) + col_down(right - 1, top + 1, bottom) + (if top + 1
            < bottom {
            row_left(bottom - 1, left, right - 1)
        } else {
            Seq::empty()
        }) + (if left < right - 1 {
            col_up(left, top + 1, shrunk_bottom)
        } else {
            Seq::empty()
        }) + spiral_window(top + 1, shrunk_bottom, shrunk_left, right - 1)
    } else {
        Seq::empty()
    }
}

/// The full inward spiral of a `rows` by `cols` grid, in visit order.
pub open spec fn spiral_seq(rows: int, cols: int) -> Seq<Cell> {
    spiral_window(0, rows, 0, cols)
}

/// A sequence that extends `base` by elements equal, position by position,
/// to `seg` is `base + seg`.
proof fn lemma_segment_eq(cells: Seq<Cell>, base: Seq<Cell>, seg: Seq<Cell>)
    requires
        cells.len() == base.len() + seg.len(),
        forall|j: int| 0 <= j < base.len() ==> #[trigger] cells[j] == base[j],
        forall|k: int| 0 <= k < seg.len() ==> #[trigger] cells[base.len() + k] == seg[k],
    ensures
        cells == base + seg,
{
    assert forall|i: int| 0 <= i < cells.len() implies cells[i] == (base + seg)[i] by {
        if i >= base.len() {
            let k = i - base.len();
            assert(cells[base.len() + k] == seg[k]);
        }
    }
    assert(cells =~= base + seg);
}

/// Appending nothing changes nothing.
proof fn lemma_append_empty(s: Seq<Cell>)
    ensures
        s + Seq::<Cell>::empty() == s,
{
    assert(s + Seq::<Cell>::empty() =~= s);
}

/// Concatenation associates.
proof fn lemma_add_assoc(x: Seq<Cell>, y: Seq<Cell>, z: Seq<Cell>)
    ensures
        x + (y + z) == (x + y) + z,
{
    assert(x + (y + z) =~= (x + y) + z);
}

/// A closed window has nothing left to walk.
proof fn lemma_spiral_window_done(top: int, bottom: int, left: int, right: int)
    requires
        top >= bottom || left >= right,
    ensures
        spiral_window(top, bottom, left, right) == Seq::<Cell>::empty(),
{
    reveal_with_fuel(spiral_window, 1);
}

/// One layer of the walk, assembled: after the four sides of the open
/// window have been appended, what remains to walk is the shrunk window.
proof fn lemma_layer_assembly(
    total: Seq<Cell>,
    layer_start: Seq<Cell>,
    after_a: Seq<Cell>,
    after_b: Seq<Cell>,
    mark_c: Seq<Cell>,
    cells_end: Seq<Cell>,
    t0: int,
    b0: int,
    l0: int,
    r0: int,
    top: int,
    bottom: int,
    left: int,
    right: int,
)
    requires
        t0 < b0,
        l0 < r0,
        top == t0 + 1,
        right == r0 - 1,
        bottom == if t0 + 1 < b0 {
            b0 - 1
        } else {
            b0
        },
        left == if l0 < r0 - 1 {
            l0 + 1
        } else {
            l0
        },
        after_a == layer_start + row_right(t0, l0, r0),
        after_b == after_a + col_down(r0 - 1, t0 + 1, b0),
        mark_c == if t0 + 1 < b0 {
            after_b + row_left(b0 - 1, l0, r0 - 1)
        } else {
            after_b
        },
        cells_end == if l0 < r0 - 1 {
            mark_c + col_up(l0, t0 + 1, bottom)
        } else {
            mark_c
        },
        layer_start + spiral_window(t0, b0, l0, r0) == total,
    ensures
        cells_end + spiral_window(top, bottom, left, right) == total,
{
    let wa = row_right(t0, l0, r0);
    let wb = col_down(r0 - 1, t0 + 1, b0);
    let wc: Seq<Cell> = if t0 + 1 < b0 {
        row_left(b0 - 1, l0, r0 - 1)
    } else {
        Seq::empty()
    };
    let wd: Seq<Cell> = if l0 < r0 - 1 {
        col_up(l0, t0 + 1, bottom)
    } else {
        Seq::empty()
    };
    if t0 + 1 < b0 {
        assert(mark_c == (layer_start + wa + wb) + wc);
    } else {
        lemma_append_empty(layer_start + wa + wb);
        assert(mark_c == (layer_start + wa + wb) + wc);
    }
    if l0 < r0 - 1 {
        assert(cells_end == ((layer_start + wa + wb) + wc) + wd);
    } else {
        lemma_append_empty((layer_start + wa + wb) + wc);
        assert(cells_end == ((layer_start + wa + wb) + wc) + wd);
    }
    lemma_add_assoc(layer_start, wa + wb + wc, wd);
    lemma_add_assoc(layer_start, wa + wb, wc);
    lemma_add_assoc(layer_start, wa, wb);
    assert(cells_end == layer_start + (wa + wb + wc + wd));
    reveal_with_fuel(spiral_window, 1);
    assert(spiral_window(t0, b0, l0, r0) == wa + wb + wc + wd + spiral_window(
        top,
        bottom,
        left,
        right,
    ));
    lemma_add_assoc(layer_start, wa + wb + wc + wd, spiral_window(top, bottom, left, right));
}

/// Smallest `g` with `g * g >= q`.
pub fn ceil_sqrt(q: u64) -> (g: u64)
    requires
        q <= 40_000_000_000,
    ensures
        g * g >= q,
        g > 0 ==> (g - 1) * (g - 1) < q,
        g <= 200_000,
{
    let mut lo: u64 = 0;
    let mut hi: u64 = 200_000;
    assert(200_000u64 * 200_000 >= q) by (nonlinear_arith)
        requires
            q <= 40_000_000_000,
    ;
    while lo < hi
        invariant
            lo <= hi <= 200_000,
            hi * hi >= q,
            lo > 0 ==> (lo - 1) * (lo - 1) < q,
        decreases hi - lo,
    {
        let mid: u64 = lo + (hi - lo) / 2;
        assert(mid * mid < 40_000_000_001) by (nonlinear_arith)
            requires
                mid <= 200_000,
        ;
        if mid * mid >= q {
            hi = mid;
        } else {
            lo = mid + 1;
        }
    }
    lo
}

/// The count divided by the frame's aspect ratio, rounded up: the number
/// the grid height is the ceiled square root of.
pub open spec fn grid_row_target(count: int, cfg: Config) -> int {
    (count * cfg.render_height + cfg.render_width - 1) / (cfg.render_width as int)
}

/// The grid dimensions for `count` slides on a frame of the configured
/// aspect ratio: the height is the square root of the count divided by the
/// aspect ratio, rounded up; the width is the count divided by that height,
/// rounded up. The grid always offers at least `count` cells.
pub fn grid_dims(count: usize, cfg: &Config) -> (dims: (usize, usize))
    requires
        cfg.well_formed(),
        1 <= count <= MAX_SLIDES,
    ensures
        1 <= dims.0,
        1 <= dims.1,
        dims.0 <= count,
        dims.1 <= 200_000,
        dims.0 * dims.1 >= count,
        dims.0 * dims.1 <= count + dims.1,
        dims.1 * dims.1 >= grid_row_target(count as int, *cfg),
        (dims.1 - 1) * (dims.1 - 1) < grid_row_target(count as int, *cfg),
        dims.0 == (count + dims.1 - 1) / (dims.1 as int),
{
    let w64: u64 = cfg.render_width as u64;
    let h64: u64 = cfg.render_height as u64;
    let c64: u64 = count as u64;
    assert(c64 * h64 <= 16_384_000_000) by (nonlinear_arith)
        requires
            c64 <= 1_000_000,
            h64 <= 16_384,
    ;
    let q: u64 = (c64 * h64 + w64 - 1) / w64;
    proof {
        vstd::arithmetic::div_mod::lemma_div_pos_is_pos((c64 * h64 + w64 - 1) as int, w64 as int);
        vstd::arithmetic::div_mod::lemma_div_is_ordered(
            (c64 * h64 + w64 - 1) as int,
            (16_384_000_000 + 16_384 - 1) as int,
            w64 as int,
        );
        vstd::arithmetic::div_mod::lemma_div_is_ordered(
            (16_384_000_000 + 16_384 - 1) as int,
            (16_384_000_000 + 16_384 - 1) as int,
            1,
        );
    }
    assert(q <= 16_384_016_383) by {
        assert((16_384_000_000 + 16_384 - 1) / (w64 as int) <= 16_384_016_383) by (nonlinear_arith)
            requires
                w64 >= 1,
        ;
    }
    proof {
        // At least one slide wants at least one row.
        assert(c64 * h64 >= 1) by (nonlinear_arith)
            requires
                c64 >= 1,
                h64 >= 1,
        ;
        vstd::arithmetic::div_mod::lemma_div_is_ordered(
            w64 as int,
            (c64 * h64 + w64 - 1) as int,
            w64 as int,
        );
        vstd::arithmetic::div_mod::lemma_div_by_self(w64 as int);
    }
    let gh: u64 = ceil_sqrt(q);
    assert(gh >= 1) by (nonlinear_arith)
        requires
            gh * gh >= q,
            q >= 1,
    ;
    let gw: u64 = (c64 + gh - 1) / gh;
    proof {
        lemma_ceil_div(c64 as int, gh as int);
        lemma_ceil_div_le(c64 as int, gh as int);
        vstd::arithmetic::div_mod::lemma_div_is_ordered(
            gh as int,
            (c64 + gh - 1) as int,
            gh as int,
        );
        vstd::arithmetic::div_mod::lemma_div_multiples_vanish(1, gh as int);
        assert(gh as int * 1 == gh as int) by (nonlinear_arith);
        assert(gw >= 1);
        assert(gw as int * gh as int == ((c64 as int + gh as int - 1) / (gh as int)) * (
        gh as int));
    }
    (gw as usize, gh as usize)
}

/// Rounding `n` up by blocks of `g` yields at least `n` and overshoots by
/// less than one block.
proof fn lemma_ceil_div(n: int, g: int)
    requires
        n >= 1,
        g >= 1,
    ensures
        ((n + g - 1) / g) * g >= n,
        ((n + g - 1) / g) * g < n + g,
{
    let q = (n + g - 1) / g;
    let r = (n + g - 1) % g;
    vstd::arithmetic::div_mod::lemma_fundamental_div_mod(n + g - 1, g);
    vstd::arithmetic::div_mod::lemma_mod_bound(n + g - 1, g);
    assert(g * q == n + g - 1 - r);
    assert(q * g == g * q) by (nonlinear_arith);
}

/// The block count for `n` by blocks of `g` is at most `n`.
proof fn lemma_ceil_div_le(n: int, g: int)
    requires
        n >= 1,
        g >= 1,
    ensures
        (n + g - 1) / g <= n,
{
    assert(n + g - 1 <= g * n + (g - 1)) by (nonlinear_arith)
        requires
            n >= 1,
            g >= 1,
    ;
    vstd::arithmetic::div_mod::lemma_div_is_ordered(n + g - 1, g * n + (g - 1), g);
    vstd::arithmetic::div_mod::lemma_div_multiples_vanish_fancy(n, g - 1, g);
    assert((g * n + (g - 1)) / g == n);
}

/// Walk a `rows` by `cols` grid in one inward spiral and return the cells
/// in visit order: every cell exactly once, consecutive cells sharing a
/// side, and the whole sequence exactly the spiral order `spiral_seq`.
#[verifier::rlimit(100)]
pub fn spiral_cells(rows: usize, cols: usize) -> (cells: Vec<Cell>)
    requires
        1 <= rows,
        1 <= cols,
        rows * cols <= 4_000_000,
    ensures
        cells.len() == rows * cols,
        cells_on_grid(cells@, rows as int, cols as int),
        cells_distinct(cells@),
        cells_chained(cells@),
        forall|c: Cell| in_grid(c, rows as int, cols as int) ==> #[trigger] cells@.contains(c),
        cells@ == spiral_seq(rows as int, cols as int),
{
    let mut cells: Vec<Cell> = Vec::new();
    let mut top: usize = 0;
    let mut bottom: usize = rows;
    let mut left: usize = 0;
    let mut right: usize = cols;
    proof {
        assert(cells@ + spiral_window(0, rows as int, 0, cols as int) =~= spiral_window(
            0,
            rows as int,
            0,
            cols as int,
        ));
    }
    while top < bottom && left < right
        invariant
            top <= bottom <= rows,
            left <= right <= cols,
            1 <= rows,
            1 <= cols,
            rows * cols <= 4_000_000,
            (bottom - top) * (right - left) <= rows * cols,
            cells.len() == rows * cols - (bottom - top) * (right - left),
            cells_on_grid(cells@, rows as int, cols as int),
            cells_distinct(cells@),
            cells_chained(cells@),
            avoids_window(cells@, top as int, bottom as int, left as int, right as int),
            covers_outside_window(cells@, rows as int, cols as int, top as int, bottom as int,
                left as int, right as int),
            (top < bottom && left < right && cells.len() > 0) ==> (left >= 1 && cells@.last()
                == (Cell { row: top, col: (left - 1) as usize })),
            cells@ + spiral_window(top as int, bottom as int, left as int, right as int)
                == spiral_seq(rows as int, cols as int),
        decreases (bottom - top) + (right - left),
    {
        let ghost t0 = top as int;
        let ghost b0 = bottom as int;
        let ghost l0 = left as int;
        let ghost r0 = right as int;
        let ghost layer_start = cells@;
        proof {
            assert((bottom - top) * (right - left) >= 1 * 1) by (nonlinear_arith)
                requires
                    bottom - top >= 1,
                    right - left >= 1,
            ;
            assert((bottom - top) * (right - left) <= rows * cols) by (nonlinear_arith)
                requires
                    0 <= bottom - top <= rows,
                    0 <= right - left <= cols,
                    rows >= 1,
                    cols >= 1,
            ;
        }
        // Top row, left to right.
        let mut c: usize = left;
        while c < right
            invariant
                left <= c <= right,
                top < bottom <= rows,
                left < right <= cols,
                rows * cols <= 4_000_000,
                (bottom - top) * (right - left) <= rows * cols,
                cells.len() == rows * cols - (bottom - top) * (right - left) + (c - left),
                cells_on_grid(cells@, rows as int, cols as int),
                cells_distinct(cells@),
                cells_chained(cells@),
                covers_outside_window(cells@, rows as int, cols as int, top as int, bottom as int,
                    left as int, right as int),
                forall|p: int|
                    0 <= p < cells.len() ==> (!in_window(#[trigger] cells@[p], top as int,
                        bottom as int, left as int, right as int) || (cells@[p].row == top && left
                        <= cells@[p].col < c)),
                forall|k: int|
                    0 <= k < c - left ==> #[trigger] cells@[cells@.len() - (c - left) + k]
                        == (Cell { row: top, col: (left + k) as usize }),
                c > left ==> cells@.last() == (Cell { row: top, col: (c - 1) as usize }),
                (c == left && cells.len() > 0) ==> (left >= 1 && cells@.last() == (Cell {
                    row: top,
                    col: (left - 1) as usize,
                })),
                cells@.len() == layer_start.len() + (c - left),
                forall|j: int| 0 <= j < layer_start.len() ==> #[trigger] cells@[j]
                    == layer_start[j],
            decreases right - c,
        {
            let ghost prev = cells@;
            let cell = Cell { row: top, col: c };
            cells.push(cell);
            proof {
                assert(in_window(cell, top as int, bottom as int, left as int, right as int));
                assert forall|j: int| 0 <= j < prev.len() implies #[trigger] cells@[j] == prev[j]
                    by {}
                assert forall|p: int| 0 <= p < prev.len() implies prev[p] != cell by {}
                assert(cells_distinct(cells@));
                assert(cells@.last() == cell);
                if prev.len() > 0 {
                    assert(adjacent(prev.last(), cell));
                }
                assert(cells_chained(cells@)) by {
                    assert forall|p: int| 0 <= p < cells@.len() - 1 implies adjacent(
                        #[trigger] cells@[p],
                        cells@[p + 1],
                    ) by {
                        if p < prev.len() - 1 {
                            assert(cells@[p] == prev[p] && cells@[p + 1] == prev[p + 1]);
                        } else {
                            assert(cells@[p] == prev.last() && cells@[p + 1] == cell);
                        }
                    }
                }
                assert forall|x: Cell|
                    in_grid(x, rows as int, cols as int) && !in_window(x, top as int,
                        bottom as int, left as int, right as int) implies #[trigger] cells@
                    .contains(x) by {
                    assert(prev.contains(x));
                    let j = choose|j: int| 0 <= j < prev.len() && prev[j] == x;
                    assert(cells@[j] == x);
                }
                assert forall|k: int| 0 <= k < (c + 1) - left implies #[trigger] cells@[cells@.len()
                    - ((c + 1) - left) + k] == (Cell { row: top, col: (left + k) as usize }) by {
                    if k < c - left {
                        assert(cells@[cells@.len() - ((c + 1) - left) + k] == prev[prev.len() - (c
                            - left) + k]);
                    } else {
                        assert(cells@[cells@.len() - 1] == cell);
                    }
                }
            }
            c = c + 1;
        }
        let ghost after_a = cells@;
        proof {
            assert forall|k: int| 0 <= k < right - left implies #[trigger] after_a[
                layer_start.len() + k
            ] == row_right(top as int, left as int, right as int)[k] by {
                assert(after_a[after_a.len() - (right - left) + k] == (Cell {
                    row: top,
                    col: (left + k) as usize,
                }));
            }
            lemma_segment_eq(after_a, layer_start, row_right(top as int, left as int,
                right as int));
        }
        top = top + 1;
        proof {
            assert((bottom - top) * (right - left) <= rows * cols) by (nonlinear_arith)
                requires
                    0 <= bottom - top <= rows,
                    0 <= right - left <= cols,
            ;
            assert((bottom - top) * (right - left) == (bottom - (top - 1)) * (right - left) - (
            right - left)) by (nonlinear_arith);
            assert forall|x: Cell|
                in_grid(x, rows as int, cols as int) && !in_window(x, top as int, bottom as int,
                    left as int, right as int) implies #[trigger] cells@.contains(x) by {
                if in_window(x, top as int - 1, bottom as int, left as int, right as int) {
                    // x is on the top row just walked
                    let j = (cells@.len() - (right - left)) + (x.col - left);
                    assert(cells@[j] == x);
                } else {
                    assert(cells@.contains(x));
                }
            }
        }
        // Right column, downward.
        let ghost base_b = cells@;
        let mut r: usize = top;
        while r < bottom
            invariant
                top <= r <= bottom,
                1 <= top,
                bottom <= rows,
                left < right <= cols,
                rows * cols <= 4_000_000,
                (bottom - top) * (right - left) <= rows * cols,
                cells.len() == rows * cols - (bottom - top) * (right - left) + (r - top),
                cells_on_grid(cells@, rows as int, cols as int),
                cells_distinct(cells@),
                cells_chained(cells@),
                covers_outside_window(cells@, rows as int, cols as int, top as int, bottom as int,
                    left as int, right as int),
                forall|p: int|
                    0 <= p < cells.len() ==> (!in_window(#[trigger] cells@[p], top as int,
                        bottom as int, left as int, right as int) || (cells@[p].col == right - 1
                        && top <= cells@[p].row < r)),
                forall|k: int|
                    0 <= k < r - top ==> #[trigger] cells@[cells@.len() - (r - top) + k] == (Cell {
                        row: (top + k) as usize,
                        col: (right - 1) as usize,
                    }),
                r > top ==> cells@.last() == (Cell { row: (r - 1) as usize, col: (right
                    - 1) as usize }),
                r == top ==> cells@.last() == (Cell { row: (top - 1) as usize, col: (right
                    - 1) as usize }),
                cells.len() > 0,
                cells@.len() == base_b.len() + (r - top),
                forall|j: int| 0 <= j < base_b.len() ==> #[trigger] cells@[j] == base_b[j],
            decreases bottom - r,
        {
            let ghost prev = cells@;
            let cell = Cell { row: r, col: right - 1 };
            cells.push(cell);
            proof {
                assert(in_window(cell, top as int, bottom as int, left as int, right as int));
                assert forall|j: int| 0 <= j < prev.len() implies #[trigger] cells@[j] == prev[j]
                    by {}
                assert forall|p: int| 0 <= p < prev.len() implies prev[p] != cell by {}
                assert(cells_distinct(cells@));
                assert(adjacent(prev.last(), cell));
                assert(cells_chained(cells@)) by {
                    assert forall|p: int| 0 <= p < cells@.len() - 1 implies adjacent(
                        #[trigger] cells@[p],
                        cells@[p + 1],
                    ) by {
                        if p < prev.len() - 1 {
                            assert(cells@[p] == prev[p] && cells@[p + 1] == prev[p + 1]);
                        } else {
                            assert(cells@[p] == prev.last() && cells@[p + 1] == cell);
                        }
                    }
                }
                assert forall|x: Cell|
                    in_grid(x, rows as int, cols as int) && !in_window(x, top as int,
                        bottom as int, left as int, right as int) implies #[trigger] cells@
                    .contains(x) by {
                    assert(prev.contains(x));
                    let j = choose|j: int| 0 <= j < prev.len() && prev[j] == x;
                    assert(cells@[j] == x);
                }
                assert forall|k: int| 0 <= k < (r + 1) - top implies #[trigger] cells@[cells@.len()
                    - ((r + 1) - top) + k] == (Cell {
                    row: (top + k) as usize,
                    col: (right - 1) as usize,
                }) by {
                    if k < r - top {
                        assert(cells@[cells@.len() - ((r + 1) - top) + k] == prev[prev.len() - (r
                            - top) + k]);
                    } else {
                        assert(cells@[cells@.len() - 1] == cell);
                    }
                }
            }
            r = r + 1;
        }
        let ghost after_b = cells@;
        proof {
            assert forall|k: int| 0 <= k < bottom - top implies #[trigger] after_b[base_b.len()
                + k] == col_down(right as int - 1, top as int, bottom as int)[k] by {
                assert(after_b[after_b.len() - (bottom - top) + k] == (Cell {
                    row: (top + k) as usize,
                    col: (right - 1) as usize,
                }));
            }
            lemma_segment_eq(after_b, base_b, col_down(right as int - 1, top as int,
                bottom as int));
        }
        right = right - 1;
        proof {
            assert((bottom - top) * (right - left) <= rows * cols) by (nonlinear_arith)
                requires
                    0 <= bottom - top <= rows,
                    0 <= right - left <= cols,
            ;
            assert((bottom - top) * (right - left) == (bottom - top) * ((right + 1) - left) - (
            bottom - top)) by (nonlinear_arith);
            assert forall|x: Cell|
                in_grid(x, rows as int, cols as int) && !in_window(x, top as int, bottom as int,
                    left as int, right as int) implies #[trigger] cells@.contains(x) by {
                if in_window(x, top as int, bottom as int, left as int, right as int + 1) {
                    // x is on the right column just walked
                    let j = (cells@.len() - (bottom - top)) + (x.row - top);
                    assert(cells@[j] == x);
                } else {
                    assert(cells@.contains(x));
                }
            }
        }
        // Bottom row, right to left, if rows remain.
        let ghost mut mark_c = cells@;
        if top < bottom {
            let ghost base_c = cells@;
            let mut c2: usize = right;
            while c2 > left
                invariant
                    left <= c2 <= right,
                    top < bottom <= rows,
                    left <= right < cols,
                    rows * cols <= 4_000_000,
                    (bottom - top) * (right - left) <= rows * cols,
                    cells.len() == rows * cols - (bottom - top) * (right - left) + (right - c2),
                    cells_on_grid(cells@, rows as int, cols as int),
                    cells_distinct(cells@),
                    cells_chained(cells@),
                    covers_outside_window(cells@, rows as int, cols as int, top as int,
                        bottom as int, left as int, right as int),
                    forall|p: int|
                        0 <= p < cells.len() ==> (!in_window(#[trigger] cells@[p], top as int,
                            bottom as int, left as int, right as int) || (cells@[p].row == bottom
                            - 1 && c2 <= cells@[p].col < right)),
                    forall|k: int|
                        0 <= k < right - c2 ==> #[trigger] cells@[cells@.len() - (right - c2) + k]
                            == (Cell { row: (bottom - 1) as usize, col: (right - 1 - k) as usize }),
                    c2 < right ==> cells@.last() == (Cell { row: (bottom - 1) as usize,
                        col: c2 }),
                    c2 == right ==> cells@.last() == (Cell { row: (bottom - 1) as usize,
                        col: right }),
                    cells.len() > 0,
                    cells@.len() == base_c.len() + (right - c2),
                    forall|j: int| 0 <= j < base_c.len() ==> #[trigger] cells@[j] == base_c[j],
                decreases c2,
            {
                let ghost prev = cells@;
                c2 = c2 - 1;
                let cell = Cell { row: bottom - 1, col: c2 };
                cells.push(cell);
                proof {
                    assert(in_window(cell, top as int, bottom as int, left as int, right as int));
                    assert forall|j: int| 0 <= j < prev.len() implies #[trigger] cells@[j]
                        == prev[j] by {}
                    assert forall|p: int| 0 <= p < prev.len() implies prev[p] != cell by {}
                    assert(cells_distinct(cells@));
                    assert(adjacent(prev.last(), cell));
                    assert(cells_chained(cells@)) by {
                        assert forall|p: int| 0 <= p < cells@.len() - 1 implies adjacent(
                            #[trigger] cells@[p],
                            cells@[p + 1],
                        ) by {
                            if p < prev.len() - 1 {
                                assert(cells@[p] == prev[p] && cells@[p + 1] == prev[p + 1]);
                            } else {
                                assert(cells@[p] == prev.last() && cells@[p + 1] == cell);
                            }
                        }
                    }
                    assert forall|x: Cell|
                        in_grid(x, rows as int, cols as int) && !in_window(x, top as int,
                            bottom as int, left as int, right as int) implies #[trigger] cells@
                        .contains(x) by {
                        assert(prev.contains(x));
                        let j = choose|j: int| 0 <= j < prev.len() && prev[j] == x;
                        assert(cells@[j] == x);
                    }
                    assert forall|k: int| 0 <= k < right - c2 implies #[trigger] cells@[cells@.len()
                        - (right - c2) + k] == (Cell {
                        row: (bottom - 1) as usize,
                        col: (right - 1 - k) as usize,
                    }) by {
                        if k < right - c2 - 1 {
                            assert(cells@[cells@.len() - (right - c2) + k] == prev[prev.len() - (
                            right - (c2 + 1)) + k]);
                        } else {
                            assert(cells@[cells@.len() - 1] == cell);
                        }
                    }
                }
            }
            let ghost after_c = cells@;
            proof {
                assert forall|k: int| 0 <= k < right - left implies #[trigger] after_c[
                    base_c.len() + k
                ] == row_left(bottom as int - 1, left as int, right as int)[k] by {
                    assert(after_c[after_c.len() - (right - left) + k] == (Cell {
                        row: (bottom - 1) as usize,
                        col: (right - 1 - k) as usize,
                    }));
                }
                lemma_segment_eq(after_c, base_c, row_left(bottom as int - 1, left as int,
                    right as int));
                mark_c = cells@;
            }
            bottom = bottom - 1;
            proof {
            assert((bottom - top) * (right - left) <= rows * cols) by (nonlinear_arith)
                requires
                    0 <= bottom - top <= rows,
                    0 <= right - left <= cols,
            ;
                assert((bottom - top) * (right - left) == ((bottom + 1) - top) * (right - left) - (
                right - left)) by (nonlinear_arith);
                assert forall|x: Cell|
                    in_grid(x, rows as int, cols as int) && !in_window(x, top as int,
                        bottom as int, left as int, right as int) implies #[trigger] cells@
                    .contains(x) by {
                    if in_window(x, top as int, bottom as int + 1, left as int, right as int) {
                        // x is on the bottom row just walked
                        let j = (cells@.len() - (right - left)) + ((right - 1) - x.col);
                        assert(cells@[j] == x);
                    } else {
                        assert(cells@.contains(x));
                    }
                }
            }
        }
        // Left column, upward, if columns remain.
        if left < right {
            let ghost base_d = cells@;
            let mut r2: usize = bottom;
            while r2 > top
                invariant
                    top <= r2 <= bottom,
                    bottom <= rows,
                    left < right <= cols,
                    rows * cols <= 4_000_000,
                    (bottom - top) * (right - left) <= rows * cols,
                    cells.len() == rows * cols - (bottom - top) * (right - left) + (bottom - r2),
                    cells_on_grid(cells@, rows as int, cols as int),
                    cells_distinct(cells@),
                    cells_chained(cells@),
                    covers_outside_window(cells@, rows as int, cols as int, top as int,
                        bottom as int, left as int, right as int),
                    forall|p: int|
                        0 <= p < cells.len() ==> (!in_window(#[trigger] cells@[p], top as int,
                            bottom as int, left as int, right as int) || (cells@[p].col == left
                            && r2 <= cells@[p].row < bottom)),
                    forall|k: int|
                        0 <= k < bottom - r2 ==> #[trigger] cells@[cells@.len() - (bottom - r2)
                            + k] == (Cell { row: (bottom - 1 - k) as usize, col: left }),
                    r2 < bottom ==> cells@.last() == (Cell { row: r2, col: left }),
                    (r2 == bottom && top < bottom) ==> cells@.last() == (Cell {
                        row: bottom,
                        col: left,
                    }),
                    cells.len() > 0,
                    cells@.len() == base_d.len() + (bottom - r2),
                    forall|j: int| 0 <= j < base_d.len() ==> #[trigger] cells@[j] == base_d[j],
                decreases r2,
            {
                let ghost prev = cells@;
                r2 = r2 - 1;
                let cell = Cell { row: r2, col: left };
                cells.push(cell);
                proof {
                    assert(in_window(cell, top as int, bottom as int, left as int, right as int));
                    assert forall|j: int| 0 <= j < prev.len() implies #[trigger] cells@[j]
                        == prev[j] by {}
                    assert forall|p: int| 0 <= p < prev.len() implies prev[p] != cell by {}
                    assert(cells_distinct(cells@));
                    assert(adjacent(prev.last(), cell));
                    assert(cells_chained(cells@)) by {
                        assert forall|p: int| 0 <= p < cells@.len() - 1 implies adjacent(
                            #[trigger] cells@[p],
                            cells@[p + 1],
                        ) by {
                            if p < prev.len() - 1 {
                                assert(cells@[p] == prev[p] && cells@[p + 1] == prev[p + 1]);
                            } else {
                                assert(cells@[p] == prev.last() && cells@[p + 1] == cell);
                            }
                        }
                    }
                    assert forall|x: Cell|
                        in_grid(x, rows as int, cols as int) && !in_window(x, top as int,
                            bottom as int, left as int, right as int) implies #[trigger] cells@
                        .contains(x) by {
                        assert(prev.contains(x));
                        let j = choose|j: int| 0 <= j < prev.len() && prev[j] == x;
                        assert(cells@[j] == x);
                    }
                    assert forall|k: int| 0 <= k < bottom - r2 implies #[trigger] cells@[cells@.len()
                        - (bottom - r2) + k] == (Cell {
                        row: (bottom - 1 - k) as usize,
                        col: left,
                    }) by {
                        if k < bottom - r2 - 1 {
                            assert(cells@[cells@.len() - (bottom - r2) + k] == prev[prev.len() - (
                            bottom - (r2 + 1)) + k]);
                        } else {
                            assert(cells@[cells@.len() - 1] == cell);
                        }
                    }
                }
            }
            let ghost after_d = cells@;
            proof {
                assert forall|k: int| 0 <= k < bottom - top implies #[trigger] after_d[
                    base_d.len() + k
                ] == col_up(left as int, top as int, bottom as int)[k] by {
                    assert(after_d[after_d.len() - (bottom - top) + k] == (Cell {
                        row: (bottom - 1 - k) as usize,
                        col: left,
                    }));
                }
                lemma_segment_eq(after_d, base_d, col_up(left as int, top as int, bottom as int));
            }
            left = left + 1;
            proof {
            assert((bottom - top) * (right - left) <= rows * cols) by (nonlinear_arith)
                requires
                    0 <= bottom - top <= rows,
                    0 <= right - left <= cols,
            ;
                assert((bottom - top) * (right - left) == (bottom - top) * (right - (left - 1)) - (
                bottom - top)) by (nonlinear_arith);
                assert forall|x: Cell|
                    in_grid(x, rows as int, cols as int) && !in_window(x, top as int,
                        bottom as int, left as int, right as int) implies #[trigger] cells@
                    .contains(x) by {
                    if in_window(x, top as int, bottom as int, left as int - 1, right as int) {
                        // x is on the left column just walked
                        let j = (cells@.len() - (bottom - top)) + ((bottom - 1) - x.row);
                        assert(cells@[j] == x);
                    } else {
                        assert(cells@.contains(x));
                    }
                }
            }
        }
        proof {
            if t0 + 1 < b0 {
                assert(mark_c == after_b + row_left(b0 - 1, l0, r0 - 1));
            } else {
                assert(mark_c == after_b);
            }
            if l0 < r0 - 1 {
                assert(cells@ == mark_c + col_up(l0, t0 + 1, bottom as int));
            } else {
                assert(cells@ == mark_c);
            }
            lemma_layer_assembly(
                spiral_seq(rows as int, cols as int),
                layer_start,
                after_a,
                after_b,
                mark_c,
                cells@,
                t0,
                b0,
                l0,
                r0,
                top as int,
                bottom as int,
                left as int,
                right as int,
            );
        }
    }
    proof {
        assert((bottom - top) * (right - left) == 0) by (nonlinear_arith)
            requires
                bottom - top == 0 || right - left == 0,
        ;
        lemma_spiral_window_done(top as int, bottom as int, left as int, right as int);
        lemma_append_empty(cells@);
    }
    cells
}

/// One slide's computed placement: its grid cell and the transform derived
/// from it.
#[derive(Clone, Copy, Debug, PartialEq, Eq, Structural)]
pub struct GridAssignment {
    /// The cell the slide was assigned by the spiral walk.
    pub cell: Cell,
    /// The background transform derived from the cell.
    pub target: Transform,
}

/// Normalized horizontal center of a column on a grid `gw` columns wide,
/// in milli-units; the vertical center of a row is the same formula over
/// the grid height.
pub open spec fn cell_center(extent: int, index: int) -> int {
    (2 * index + 1) * 500 / extent
}

/// Per-mille scale of a slide placed on the grid: the scale at which the
/// image's longer pixel extent approximates one and a half cell widths,
/// times a jitter factor `f` on the per-mille grid.
pub open spec fn cell_scale(cfg: Config, gw: int, longer: int, f: int) -> int {
    (1500 * cfg.render_width / (gw * longer)) * f / 1000
}

/// The scale law of a placement: the target scale is the cell scale of the
/// slide's longer pixel extent, between the jitter extremes of five percent
/// under and over one.
pub open spec fn cell_scale_law(a: GridAssignment, s: Slide, cfg: Config, gw: int) -> bool {
    let longer = if s.width > s.height {
        s.width as int
    } else {
        s.height as int
    };
    cell_scale(cfg, gw, longer, 950) <= a.target.scale <= cell_scale(cfg, gw, longer, 1050)
}

/// The spiral mosaic: the slides in reveal order and, once computed, their
/// grid placements.
pub struct Layout {
    /// The slides, in the order images were added.
    pub slides: Vec<Slide>,
    /// The run's configuration.
    pub cfg: Config,
    /// The placements computed for the slides; filled by `compute_layout`.
    pub assignments: Vec<GridAssignment>,
    /// Columns of the computed grid; zero until computed.
    pub grid_width: usize,
    /// Rows of the computed grid; zero until computed.
    pub grid_height: usize,
}

impl Layout {
    /// Slides ready for a show: well formed, still, visible, on the run's
    /// shared animation duration.
    pub open spec fn slides_ready(self) -> bool {
        &&& self.cfg.well_formed()
        &&& self.slides.len() <= MAX_SLIDES
        &&& forall|i: int|
            0 <= i < self.slides.len() ==> (#[trigger] self.slides[i]).well_formed()
        &&& forall|i: int|
            0 <= i < self.slides.len() ==> !(#[trigger] self.slides[i]).is_animating
        &&& forall|i: int|
            0 <= i < self.slides.len() ==> (#[trigger] self.slides[i]).visible
        &&& forall|i: int|
            0 <= i < self.slides.len() ==> (#[trigger] self.slides[i]).animation_ticks
                == self.cfg.animation_ticks
    }

    /// An empty layout.
    pub fn new(cfg: Config) -> (l: Layout)
        requires
            cfg.well_formed(),
        ensures
            l.slides_ready(),
            l.cfg == cfg,
            l.slides.len() == 0,
            l.assignments.len() == 0,
    {
        Layout {
            slides: Vec::new(),
            cfg,
            assignments: Vec::new(),
            grid_width: 0,
            grid_height: 0,
        }
    }

    /// Add one image as a slide in its prominent pose.
    pub fn add_image(&mut self, texture: usize, width: u32, height: u32)
        requires
            old(self).slides_ready(),
            old(self).slides.len() < MAX_SLIDES,
            1 <= width <= MAX_DIMENSION,
            1 <= height <= MAX_DIMENSION,
        ensures
            final(self).slides_ready(),
            final(self).cfg == old(self).cfg,
            final(self).assignments == old(self).assignments,
            final(self).slides.len() == old(self).slides.len() + 1,
            forall|i: int|
                0 <= i < old(self).slides.len() ==> final(self).slides[i] == old(self).slides[i],
            ({
                let s = final(self).slides[old(self).slides.len() as int];
                &&& s.texture == texture
                &&& s.width == width
                &&& s.height == height
                &&& s.transform == crate::transform::prominent_transform_spec(
                    width as int,
                    height as int,
                    old(self).cfg,
                )
            }),
    {
        let cfg = self.cfg;
        let s = Slide::new(texture, width, height, &cfg);
        self.slides.push(s);
    }

    /// Compute the spiral placement and arm every slide toward its cell.
    ///
    /// The grid is sized from the slide count and the frame's aspect
    /// ratio; slide `p` receives exactly the `p`-th cell of the inward
    /// spiral walk, so the cells are distinct and consecutive assignments
    /// sit on adjacent cells. Each target sits at its cell's center up to
    /// a one-percent jitter, scaled so the image's longer extent
    /// approximates the cell width up to a five-percent jitter, with a
    /// rotation within fifteen degrees either way.
    #[verifier::rlimit(50)]
    pub fn compute_layout(&mut self)
        requires
            old(self).slides_ready(),
            1 <= old(self).slides.len(),
        ensures
            final(self).slides_ready(),
            final(self).cfg == old(self).cfg,
            final(self).slides.len() == old(self).slides.len(),
            final(self).assignments.len() == old(self).slides.len(),
            1 <= final(self).grid_width,
            1 <= final(self).grid_height,
            final(self).grid_width * final(self).grid_height >= old(self).slides.len(),
            final(self).grid_height * final(self).grid_height >= grid_row_target(
                old(self).slides.len() as int,
                old(self).cfg,
            ),
            (final(self).grid_height - 1) * (final(self).grid_height - 1) < grid_row_target(
                old(self).slides.len() as int,
                old(self).cfg,
            ),
            final(self).grid_width == (old(self).slides.len() + final(self).grid_height - 1) / (
            final(self).grid_height as int),
            forall|p: int|
                0 <= p < final(self).assignments.len() ==> (#[trigger] final(self).assignments[p]).cell == spiral_seq(
                    final(self).grid_height as int,
                    final(self).grid_width as int,
                )[p],
            forall|p: int, q: int|
                0 <= p < q < final(self).assignments.len() ==> (#[trigger] final(self).assignments[p]).cell != (#[trigger] final(self).assignments[q]).cell,
            forall|p: int|
                0 <= p < final(self).assignments.len() - 1 ==> adjacent(
                    (#[trigger] final(self).assignments[p]).cell,
                    final(self).assignments[p + 1].cell,
                ),
            forall|p: int|
                0 <= p < final(self).assignments.len() ==> in_grid(
                    (#[trigger] final(self).assignments[p]).cell,
                    final(self).grid_height as int,
                    final(self).grid_width as int,
                ),
            forall|i: int|
                0 <= i < final(self).slides.len() ==> (#[trigger] final(self).slides[i]).end
                    == final(self).assignments[i].target,
            forall|i: int|
                0 <= i < final(self).slides.len() ==> {
                    let s = #[trigger] final(self).slides[i];
                    let o = old(self).slides[i];
                    &&& s.texture == o.texture
                    &&& s.width == o.width
                    &&& s.height == o.height
                    &&& s.visible == o.visible
                    &&& s.is_animating == o.is_animating
                    &&& s.transform == o.transform
                },
            forall|p: int|
                0 <= p < final(self).assignments.len() ==> {
                    let a = #[trigger] final(self).assignments[p];
                    let gw = final(self).grid_width as int;
                    let gh = final(self).grid_height as int;
                    &&& a.target.well_formed()
                    &&& cell_center(gw, a.cell.col as int) - 10 <= a.target.x <= cell_center(
                        gw,
                        a.cell.col as int,
                    ) + 10
                    &&& cell_center(gh, a.cell.row as int) - 10 <= a.target.y <= cell_center(
                        gh,
                        a.cell.row as int,
                    ) + 10
                    &&& -15000 <= a.target.rotation < 15000
                    &&& 0 <= a.target.scale <= 30_000_000
                },
            forall|p: int|
                0 <= p < final(self).assignments.len() ==> cell_scale_law(
                    #[trigger] final(self).assignments[p],
                    old(self).slides[p],
                    old(self).cfg,
                    final(self).grid_width as int,
                ),
    {
        let count = self.slides.len();
        let cfg = self.cfg;
        let (gw, gh) = grid_dims(count, &cfg);
        self.grid_width = gw;
        self.grid_height = gh;
        proof {
            assert(gw * gh <= count + gh);
            assert(count + gh <= 4_000_000);
        }
        let cells = spiral_cells(gh, gw);
        self.assignments = Vec::new();
        let ghost orig_slides = self.slides@;
        let mut i: usize = 0;
        while i < count
            invariant
                self.cfg == cfg,
                cfg.well_formed(),
                1 <= count <= MAX_SLIDES,
                self.slides.len() == count,
                orig_slides.len() == count,
                self.grid_width == gw,
                self.grid_height == gh,
                1 <= gw <= count,
                1 <= gh <= 200_000,
                gw * gh >= count,
                cells.len() == gh * gw,
                cells_on_grid(cells@, gh as int, gw as int),
                cells_distinct(cells@),
                cells_chained(cells@),
                cells@ == spiral_seq(gh as int, gw as int),
                i <= count,
                self.assignments.len() == i,
                forall|p: int|
                    0 <= p < i ==> (#[trigger] self.assignments[p]).cell == cells@[p],
                forall|p: int|
                    0 <= p < i ==> {
                        let a = #[trigger] self.assignments[p];
                        &&& a.target.well_formed()
                        &&& cell_center(gw as int, a.cell.col as int) - 10 <= a.target.x
                            <= cell_center(gw as int, a.cell.col as int) + 10
                        &&& cell_center(gh as int, a.cell.row as int) - 10 <= a.target.y
                            <= cell_center(gh as int, a.cell.row as int) + 10
                        &&& -15000 <= a.target.rotation < 15000
                        &&& 0 <= a.target.scale <= 30_000_000
                    },
                forall|p: int|
                    0 <= p < i ==> cell_scale_law(#[trigger] self.assignments[p],
                        orig_slides[p], cfg, gw as int),
                forall|j: int| i <= j < count ==> #[trigger] self.slides[j] == orig_slides[j],
                forall|j: int|
                    0 <= j < i ==> (#[trigger] self.slides[j]).end
                        == self.assignments[j].target,
                forall|j: int|
                    0 <= j < i ==> {
                        let s = #[trigger] self.slides[j];
                        let o = orig_slides[j];
                        &&& s.texture == o.texture
                        &&& s.width == o.width
                        &&& s.height == o.height
                        &&& s.visible == o.visible
                        &&& s.is_animating == o.is_animating
                        &&& s.transform == o.transform
                    },
                forall|j: int|
                    0 <= j < count ==> (#[trigger] self.slides[j]).well_formed() && !self.slides[
                        j
                    ].is_animating && self.slides[j].visible && self.slides[j].animation_ticks
                        == cfg.animation_ticks,
            decreases count - i,
        {
            let cell = cells[i];
            let jx = random_in_range(-10, 11);
            let jy = random_in_range(-10, 11);
            let rotation = random_in_range(-15000, 15000);
            let f = random_in_range(950, 1051);
            let cx = column_center(gw, cell.col);
            let cy = column_center(gh, cell.row);
            let x = cx + jx;
            let y = cy + jy;
            let s0 = self.slides[i];
            let maxdim: i64 = if s0.width > s0.height {
                s0.width as i64
            } else {
                s0.height as i64
            };
            assert(1 <= (gw as i64) * maxdim <= 16_384_000_000) by (nonlinear_arith)
                requires
                    1 <= gw <= 1_000_000,
                    1 <= maxdim <= 16_384,
            ;
            let base: i64 = (1500 * (cfg.render_width as i64)) / ((gw as i64) * maxdim);
            proof {
                vstd::arithmetic::div_mod::lemma_div_pos_is_pos(
                    1500 * cfg.render_width as int,
                    gw as int * maxdim as int,
                );
                vstd::arithmetic::div_mod::lemma_div_nonincreasing(
                    1500 * cfg.render_width as int,
                    gw as int * maxdim as int,
                );
            }
            assert(0 <= base * f <= 25_804_800_000) by (nonlinear_arith)
                requires
                    0 <= base <= 24_576_000,
                    950 <= f <= 1050,
            ;
            let scale: i64 = base * f / 1000;
            proof {
                vstd::arithmetic::div_mod::lemma_div_pos_is_pos((base * f) as int, 1000);
                vstd::arithmetic::div_mod::lemma_div_is_ordered(
                    (base * f) as int,
                    25_804_800_000,
                    1000,
                );
                assert(scale == cell_scale(cfg, gw as int, maxdim as int, f as int));
            }
            let target = Transform { x, y, scale, rotation };
            let mut s = s0;
            s.set_final_position(target);
            self.slides.set(i, s);
            self.assignments.push(GridAssignment { cell, target });
            proof {
                assert(cell_scale_law(self.assignments[i as int], orig_slides[i as int], cfg,
                    gw as int)) by {
                    let o = orig_slides[i as int];
                    let longer: int = if o.width > o.height {
                        o.width as int
                    } else {
                        o.height as int
                    };
                    assert(s0 == o);
                    assert(maxdim as int == longer);
                    assert(base * 950 <= base * f <= base * 1050) by (nonlinear_arith)
                        requires
                            0 <= base,
                            950 <= f <= 1050,
                    ;
                    vstd::arithmetic::div_mod::lemma_div_is_ordered((base * 950) as int,
                        (base * f) as int, 1000);
                    vstd::arithmetic::div_mod::lemma_div_is_ordered((base * f) as int,
                        (base * 1050) as int, 1000);
                }
            }
            i = i + 1;
        }
        proof {
            assert(cells.len() >= count);
        }
    }
}

/// Normalized center of one column (or row) of the grid, in milli-units.
fn column_center(extent: usize, index: usize) -> (c: i64)
    requires
        1 <= extent <= 1_000_000,
        index < extent,
    ensures
        c == cell_center(extent as int, index as int),
        0 <= c <= 1000,
{
    let numerator: i64 = (2 * (index as i64) + 1) * 500;
    proof {
        assert(0 <= (2 * index as int + 1) * 500 <= 1000 * extent as int - 500)
            by (nonlinear_arith)
            requires
                0 <= index as int <= extent as int - 1,
                extent as int >= 1,
        ;
        vstd::arithmetic::div_mod::lemma_div_pos_is_pos(
            (2 * index as int + 1) * 500,
            extent as int,
        );
        vstd::arithmetic::div_mod::lemma_div_is_ordered(
            (2 * index as int + 1) * 500,
            1000 * extent as int,
            extent as int,
        );
        vstd::arithmetic::div_mod::lemma_div_multiples_vanish(1000, extent as int);
    }
    numerator / (extent as i64)
}

} // verus!
