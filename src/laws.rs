//! Properties of the model that hold for every grid.
use vstd::prelude::*;

use crate::grid::{
    glider_cell, index_of, lemma_index_in_grid, neighbor_count, with_glider, wrap,
};

verus! {

/// The cells around the origin of an `n`-by-`n` torus: rows `n - 1`, 0 and 1
/// crossed with columns `n - 1`, 0 and 1, the origin itself left out.
pub open spec fn around_origin(n: int, row: int, col: int) -> bool {
    &&& (row == n - 1 || row == 0 || row == 1)
    &&& (col == n - 1 || col == 0 || col == 1)
    &&& !(row == 0 && col == 0)
}

proof fn lemma_wrap_small(x: int, delta: int, n: int)
    requires
        0 <= x < n,
        0 <= delta < n,
    ensures
        wrap(x, delta, n) == if x + delta < n {
            x + delta
        } else {
            x + delta - n
        },
{
    if x + delta < n {
        vstd::arithmetic::div_mod::lemma_fundamental_div_mod_converse(x + delta, n, 0, x + delta);
    } else {
        vstd::arithmetic::div_mod::lemma_fundamental_div_mod_converse(x + delta, n, 1, x + delta - n);
    }
}

proof fn lemma_index_is_origin(n: int, row: int, col: int)
    requires
        0 <= row,
        0 <= col < n,
    ensures
        (index_of(n, row, col) == 0) == (row == 0 && col == 0),
{
    assert(row >= 1 ==> row * n >= n) by (nonlinear_arith)
        requires
            0 <= row,
            0 <= n,
    ;
    assert(row == 0 ==> row * n == 0);
}

/// Toroidal wraparound: on an `n`-by-`n` grid with `n >= 3`, a live cell at
/// `(0, 0)` adds exactly one to the live-neighbour count of each of the eight
/// cells at rows `n - 1`, 0, 1 and columns `n - 1`, 0, 1 other than the origin,
/// and nothing to that of any other cell.
pub proof fn lemma_origin_neighbors(cells: Seq<bool>, n: int, row: int, col: int)
    requires
        n >= 3,
        cells.len() == n * n,
        0 <= row < n,
        0 <= col < n,
    ensures
        neighbor_count(cells.update(0, true), n, n, row, col) == neighbor_count(
            cells.update(0, false),
            n,
            n,
            row,
            col,
        ) + if around_origin(n, row, col) {
            1int
        } else {
            0int
        },
{
    let up = wrap(row, n - 1, n);
    let down = wrap(row, 1, n);
    let left = wrap(col, n - 1, n);
    let right = wrap(col, 1, n);
    lemma_wrap_small(row, n - 1, n);
    lemma_wrap_small(row, 1, n);
    lemma_wrap_small(col, n - 1, n);
    lemma_wrap_small(col, 1, n);
    let rows = seq![up, row, down];
    let cols = seq![left, col, right];
    assert forall|i: int, j: int| 0 <= i < 3 && 0 <= j < 3 implies {
        let k = #[trigger] index_of(n, rows[i], cols[j]);
        &&& 0 <= k < cells.len()
        &&& (k == 0) == (rows[i] == 0 && cols[j] == 0)
    } by {
        lemma_index_in_grid(n, n, rows[i], cols[j]);
        lemma_index_is_origin(n, rows[i], cols[j]);
    }
    assert(index_of(n, up, left) == index_of(n, rows[0], cols[0]));
    assert(index_of(n, up, col) == index_of(n, rows[0], cols[1]));
    assert(index_of(n, up, right) == index_of(n, rows[0], cols[2]));
    assert(index_of(n, row, left) == index_of(n, rows[1], cols[0]));
    assert(index_of(n, row, right) == index_of(n, rows[1], cols[2]));
    assert(index_of(n, down, left) == index_of(n, rows[2], cols[0]));
    assert(index_of(n, down, col) == index_of(n, rows[2], cols[1]));
    assert(index_of(n, down, right) == index_of(n, rows[2], cols[2]));
}

/// Glider injection: on a grid at least three cells wide and three high,
/// writing the glider leaves rows 0..3, columns 0..3 holding exactly the
/// glider pattern, and every other cell as it was.
pub proof fn lemma_glider_written(cells: Seq<bool>, width: int, height: int)
    requires
        width >= 3,
        height >= 3,
        cells.len() == width * height,
    ensures
        with_glider(cells, width).len() == cells.len(),
        forall|row: int, col: int|
            0 <= row < 3 && 0 <= col < 3 ==> #[trigger] with_glider(cells, width)[index_of(
                width,
                row,
                col,
            )] == glider_cell(row, col),
        forall|row: int, col: int|
            0 <= row < height && 0 <= col < width && !(row < 3 && col < 3)
                ==> #[trigger] with_glider(cells, width)[index_of(width, row, col)]
                == cells[index_of(width, row, col)],
{
    assert(2 * width + 2 < width * height) by (nonlinear_arith)
        requires
            width >= 3,
            height >= 3,
    ;
    assert forall|row: int, col: int|
        0 <= row < height && 0 <= col < width && !(row < 3 && col < 3) implies #[trigger] with_glider(
        cells,
        width,
    )[index_of(width, row, col)] == cells[index_of(width, row, col)] by {
        lemma_index_in_grid(width, height, row, col);
        if row >= 3 {
            assert(row * width >= 3 * width) by (nonlinear_arith)
                requires
                    row >= 3,
                    width >= 0,
            ;
        } else {
            assert(row == 0 || row == 1 || row == 2);
        }
    }
}

} // verus!
