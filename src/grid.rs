//! The mathematical model of the grid: cells as a row-major `Seq<bool>`,
//! toroidal neighbourhoods, the rule table, one generation, the glider, and
//! the text rendering.
use vstd::prelude::*;

verus! {

/// Linear position of `(row, col)` in a grid `width` columns wide.
pub open spec fn index_of(width: int, row: int, col: int) -> int {
    row * width + col
}

/// 1 if the cell at `(row, col)` is alive, else 0.
pub open spec fn alive_value(cells: Seq<bool>, width: int, row: int, col: int) -> int {
    if cells[index_of(width, row, col)] {
        1
    } else {
        0
    }
}

/// `x + delta` reduced onto a ring of `n` positions; a `delta` of `n - 1` is
/// one step back.
pub open spec fn wrap(x: int, delta: int, n: int) -> int {
    (x + delta) % n
}

/// Live cells among the eight Moore neighbours of `(row, col)` on the torus.
/// On a ring of one or two positions a neighbour may be the same cell more
/// than once, and is then counted each time.
pub open spec fn neighbor_count(cells: Seq<bool>, width: int, height: int, row: int, col: int) -> int {
    let up = wrap(row, height - 1, height);
    let down = wrap(row, 1, height);
    let left = wrap(col, width - 1, width);
    let right = wrap(col, 1, width);
    alive_value(cells, width, up, left) + alive_value(cells, width, up, col) + alive_value(
        cells,
        width,
        up,
        right,
    ) + alive_value(cells, width, row, left) + alive_value(cells, width, row, right)
        + alive_value(cells, width, down, left) + alive_value(cells, width, down, col)
        + alive_value(cells, width, down, right)
}

/// The rule table: a live cell survives with two or three live neighbours,
/// a dead cell is born with exactly three; every other cell is dead next.
pub open spec fn next_state(alive: bool, live_neighbors: int) -> bool {
    if alive {
        live_neighbors == 2 || live_neighbors == 3
    } else {
        live_neighbors == 3
    }
}

/// The grid one generation later.
pub open spec fn next_generation(cells: Seq<bool>, width: int, height: int) -> Seq<bool> {
    Seq::new(
        cells.len(),
        |i: int| next_state(cells[i], neighbor_count(cells, width, height, i / width, i % width)),
    )
}

/// Whether the glider's 3x3 pattern has a live cell at `(row, col)`:
/// ```text
/// . # .
/// . . #
/// # # #
/// ```
pub open spec fn glider_cell(row: int, col: int) -> bool {
    (row == 0 && col == 1) || (row == 1 && col == 2) || row == 2
}

/// `cells` with the glider written over rows 0..3 and columns 0..3, one cell
/// at a time in row-major order (on a grid narrower than three columns the
/// positions overlap, and the later write stands).
pub open spec fn with_glider(cells: Seq<bool>, width: int) -> Seq<bool> {
    cells.update(index_of(width, 0, 0), glider_cell(0, 0)).update(
        index_of(width, 0, 1),
        glider_cell(0, 1),
    ).update(index_of(width, 0, 2), glider_cell(0, 2)).update(
        index_of(width, 1, 0),
        glider_cell(1, 0),
    ).update(index_of(width, 1, 1), glider_cell(1, 1)).update(
        index_of(width, 1, 2),
        glider_cell(1, 2),
    ).update(index_of(width, 2, 0), glider_cell(2, 0)).update(
        index_of(width, 2, 1),
        glider_cell(2, 1),
    ).update(index_of(width, 2, 2), glider_cell(2, 2))
}

/// Whether the glider fits: its last position, `(2, 2)`, lies inside the grid.
pub open spec fn glider_fits(width: int, height: int) -> bool {
    index_of(width, 2, 2) < width * height
}

/// The glyph of a dead cell.
pub open spec fn dead_glyph() -> char {
    '◻'
}

/// The glyph of a live cell.
pub open spec fn alive_glyph() -> char {
    '◼'
}

/// The glyph that shows a cell.
pub open spec fn glyph(alive: bool) -> char {
    if alive {
        alive_glyph()
    } else {
        dead_glyph()
    }
}

/// Row `row` as text: `width` glyphs and a line break.
pub open spec fn row_text(cells: Seq<bool>, width: int, row: int) -> Seq<char> {
    Seq::new(width as nat, |col: int| glyph(cells[index_of(width, row, col)])).push('\n')
}

/// The first `rows` rows as text, one line each.
pub open spec fn render_rows(cells: Seq<bool>, width: int, rows: nat) -> Seq<char>
    decreases rows,
{
    if rows == 0 {
        Seq::empty()
    } else {
        render_rows(cells, width, (rows - 1) as nat) + row_text(cells, width, rows - 1)
    }
}

/// `row * width + col` stays inside a grid of `height` rows, and reads back
/// as `row` and `col` by division and remainder.
pub proof fn lemma_index_in_grid(width: int, height: int, row: int, col: int)
    requires
        0 <= row < height,
        0 <= col < width,
    ensures
        0 <= index_of(width, row, col) < width * height,
        index_of(width, row, 0) + width <= width * height,
        index_of(width, row, col) / width == row,
        index_of(width, row, col) % width == col,
{
    assert(0 <= row * width) by (nonlinear_arith)
        requires
            0 <= row,
            0 <= width,
    ;
    assert(row * width + width <= width * height) by (nonlinear_arith)
        requires
            0 <= row < height,
            0 <= width,
    ;
    vstd::arithmetic::div_mod::lemma_fundamental_div_mod_converse(
        index_of(width, row, col),
        width,
        row,
        col,
    );
}

} // verus!
