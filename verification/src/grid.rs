//! Grids of cells stored row after row, and rectangles of them.

use vstd::prelude::*;
use vstd::arithmetic::div_mod::{lemma_fundamental_div_mod, lemma_fundamental_div_mod_converse};

verus! {

/// Whether cell `i` of a grid of `width` columns lies in the columns from `x0` up to
/// `x1` and in the rows from `y0` up to `y1`.
pub open spec fn in_rect(i: int, width: int, x0: int, x1: int, y0: int, y1: int) -> bool {
    &&& x0 <= i % width < x1
    &&& y0 <= i / width < y1
}

/// The grid `grid` with `value` in every cell of the rectangle, and its own cells elsewhere.
pub open spec fn seeded<T>(
    grid: Seq<T>,
    width: int,
    x0: int,
    x1: int,
    y0: int,
    y1: int,
    value: T,
) -> Seq<T> {
    Seq::new(
        grid.len(),
        |i: int|
            if in_rect(i, width, x0, x1, y0, y1) {
                value
            } else {
                grid[i]
            },
    )
}

/// Cell `x` of row `y` is cell `y * width + x` of the grid.
proof fn lemma_cell(width: int, x: int, y: int)
    requires
        0 <= x < width,
        0 <= y,
    ensures
        (y * width + x) / width == y,
        (y * width + x) % width == x,
{
    assert(y * width == width * y) by (nonlinear_arith);
    lemma_fundamental_div_mod_converse(y * width + x, width, y, x);
}

/// Whether the rectangle lies within a grid of `len` cells in rows of `width`.
pub open spec fn rect_fits(len: int, width: int, x0: int, x1: int, y0: int, y1: int) -> bool {
    &&& 0 < width
    &&& 0 <= x0 <= x1 <= width
    &&& 0 <= y0 <= y1
    &&& y1 * width <= len
}

/// Whether the rectangle lies within a grid of `len` cells in rows of `width`.
pub fn rect_in_grid(len: usize, width: usize, x0: usize, x1: usize, y0: usize, y1: usize) -> (ok:
    bool)
    ensures
        ok == rect_fits(len as int, width as int, x0 as int, x1 as int, y0 as int, y1 as int),
{
    if width == 0 || x0 > x1 || x1 > width || y0 > y1 {
        return false;
    }
    let rows: usize = len / width;
    assert(y1 * width <= len <==> y1 <= rows) by (nonlinear_arith)
        requires
            width > 0,
            rows == len / width,
            0 <= y1,
            0 <= len,
    ;
    y1 <= rows
}

/// Puts `value` into every cell of the rectangle of columns `x0` up to `x1` and rows
/// `y0` up to `y1` of the grid, and leaves the other cells as they are.
pub fn seed_rect<T: Copy>(
    grid: &mut Vec<T>,
    width: usize,
    x0: usize,
    x1: usize,
    y0: usize,
    y1: usize,
    value: T,
)
    requires
        rect_fits(old(grid)@.len() as int, width as int, x0 as int, x1 as int, y0 as int, y1 as int),
    ensures
        final(grid)@ == seeded(
            old(grid)@,
            width as int,
            x0 as int,
            x1 as int,
            y0 as int,
            y1 as int,
            value,
        ),
{
    let ghost before = grid@;
    let ghost w = width as int;
    let cells: usize = grid.len();
    let mut y: usize = y0;
    while y < y1
        invariant
            y0 <= y <= y1,
            0 < width,
            x0 <= x1 <= width,
            y1 * width <= before.len(),
            w == width,
            grid@.len() == before.len(),
            cells == before.len(),
            forall|i: int|
                0 <= i < before.len() ==> #[trigger] grid@[i] == if in_rect(
                    i,
                    w,
                    x0 as int,
                    x1 as int,
                    y0 as int,
                    y as int,
                ) {
                    value
                } else {
                    before[i]
                },
        decreases y1 - y,
    {
        assert((y + 1) * width <= y1 * width) by (nonlinear_arith)
            requires
                y + 1 <= y1,
                0 < width,
        ;
        assert(y * width + width == (y + 1) * width) by (nonlinear_arith);
        assert(0 <= y * width) by (nonlinear_arith)
            requires
                0 <= y,
                0 < width,
        ;
        let row: usize = y * width;
        let mut x: usize = x0;
        while x < x1
            invariant
                x0 <= x <= x1 <= width,
                y0 <= y < y1,
                0 < width,
                w == width,
                row == y * width,
                row + width <= before.len(),
                grid@.len() == before.len(),
                cells == before.len(),
                forall|i: int|
                    0 <= i < before.len() ==> #[trigger] grid@[i] == if in_rect(
                        i,
                        w,
                        x0 as int,
                        x1 as int,
                        y0 as int,
                        y as int,
                    ) || (i / w == y && x0 <= i % w < x) {
                        value
                    } else {
                        before[i]
                    },
            decreases x1 - x,
        {
            let ghost held = grid@;
            grid.set(row + x, value);
            proof {
                lemma_cell(w, x as int, y as int);
                assert forall|i: int| 0 <= i < before.len() implies #[trigger] grid@[i] == if in_rect(
                    i,
                    w,
                    x0 as int,
                    x1 as int,
                    y0 as int,
                    y as int,
                ) || (i / w == y && x0 <= i % w < x + 1) {
                    value
                } else {
                    before[i]
                } by {
                    lemma_fundamental_div_mod(i, w);
                    if i != row + x {
                        assert(grid@[i] == held[i]);
                        assert(w * (i / w) == (i / w) * w) by (nonlinear_arith);
                    }
                }
            }
            x += 1;
        }
        y += 1;
    }
    assert(grid@ =~= seeded(
        before,
        width as int,
        x0 as int,
        x1 as int,
        y0 as int,
        y1 as int,
        value,
    ));
}

} // verus!
