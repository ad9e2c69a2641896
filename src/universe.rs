//! The `Universe`: dimensions and a packed grid, advanced one generation at
//! a time.
use fixedbitset::FixedBitSet;
use vstd::prelude::*;

use crate::bitset::{bit_at, bits_of, bits_with_len, blocks_of, copy_bits, packs, set_bit};
use crate::grid::{
    glider_fits, glyph, index_of, lemma_index_in_grid, neighbor_count, next_generation,
    render_rows, with_glider,
};

verus! {

/// A toroidal grid of `width` columns and `height` rows, stored row-major.
pub struct Universe {
    width: u32,
    height: u32,
    cells: FixedBitSet,
}

impl Universe {
    /// Number of columns.
    pub closed spec fn width_spec(&self) -> int {
        self.width as int
    }

    /// Number of rows.
    pub closed spec fn height_spec(&self) -> int {
        self.height as int
    }

    /// The cells, row-major: `(row, col)` at `row * width + col`.
    pub closed spec fn cells_spec(&self) -> Seq<bool> {
        bits_of(self.cells)
    }

    /// One cell per position, and every position addressable in 32 bits.
    pub open spec fn wf(&self) -> bool {
        &&& self.cells_spec().len() == self.width_spec() * self.height_spec()
        &&& self.width_spec() * self.height_spec() <= u32::MAX
    }

    /// A universe of the given size holding `cells`, row-major.
    pub fn from_cells(width: u32, height: u32, cells: &Vec<bool>) -> (r: Universe)
        requires
            width * height <= u32::MAX,
            cells@.len() == width * height,
        ensures
            r.wf(),
            r.width_spec() == width,
            r.height_spec() == height,
            r.cells_spec() == cells@,
    {
        let len = cells.len();
        let mut bits = bits_with_len(len);
        let mut i: usize = 0;
        while i < len
            invariant
                len == cells@.len(),
                i <= len,
                bits_of(bits).len() == len,
                forall|j: int| 0 <= j < i ==> bits_of(bits)[j] == cells@[j],
            decreases len - i,
        {
            set_bit(&mut bits, i, cells[i]);
            i = i + 1;
        }
        assert(bits_of(bits) =~= cells@);
        Universe { width, height, cells: bits }
    }

    /// Linear position of `(row, column)`.
    pub fn get_index(&self, row: u32, column: u32) -> (r: usize)
        requires
            self.wf(),
            row < self.height_spec(),
            column < self.width_spec(),
        ensures
            r == index_of(self.width_spec(), row as int, column as int),
            r < self.cells_spec().len(),
    {
        proof {
            lemma_index_in_grid(self.width as int, self.height as int, row as int, column as int);
        }
        (row * self.width + column) as usize
    }

    /// Whether the cell at linear `position` is alive.
    pub fn get(&self, position: usize) -> (r: bool)
        requires
            position < self.cells_spec().len(),
        ensures
            r == self.cells_spec()[position as int],
    {
        bit_at(&self.cells, position)
    }

    /// 1 if the cell at `(row, column)` is alive, else 0.
    fn alive_value(&self, row: u32, column: u32) -> (r: u8)
        requires
            self.wf(),
            row < self.height_spec(),
            column < self.width_spec(),
        ensures
            r == crate::grid::alive_value(self.cells_spec(), self.width_spec(), row as int, column as int),
    {
        let idx = self.get_index(row, column);
        if self.get(idx) {
            1
        } else {
            0
        }
    }

    /// Live cells among the eight neighbours of `(row, column)`, rows and
    /// columns wrapping around.
    pub fn live_neighbor_count(&self, row: u32, column: u32) -> (r: u8)
        requires
            self.wf(),
            row < self.height_spec(),
            column < self.width_spec(),
        ensures
            r == neighbor_count(
                self.cells_spec(),
                self.width_spec(),
                self.height_spec(),
                row as int,
                column as int,
            ),
    {
        let height = self.height as u64;
        let width = self.width as u64;
        let up = ((row as u64 + (height - 1)) % height) as u32;
        let down = ((row as u64 + 1) % height) as u32;
        let left = ((column as u64 + (width - 1)) % width) as u32;
        let right = ((column as u64 + 1) % width) as u32;
        let mut count: u8 = 0;
        count = count + self.alive_value(up, left);
        count = count + self.alive_value(up, column);
        count = count + self.alive_value(up, right);
        count = count + self.alive_value(row, left);
        count = count + self.alive_value(row, right);
        count = count + self.alive_value(down, left);
        count = count + self.alive_value(down, column);
        count = count + self.alive_value(down, right);
        count
    }

    /// Overwrites rows 0..3, columns 0..3 with the glider, writing a copy of
    /// the grid and then replacing the grid with it.
    pub fn create_spaceship(&mut self)
        requires
            old(self).wf(),
            glider_fits(old(self).width_spec(), old(self).height_spec()),
        ensures
            final(self).wf(),
            final(self).width_spec() == old(self).width_spec(),
            final(self).height_spec() == old(self).height_spec(),
            final(self).cells_spec() == with_glider(old(self).cells_spec(), old(self).width_spec()),
    {
        let w = self.width as usize;
        let mut next = copy_bits(&self.cells);
        set_bit(&mut next, 0, false);
        set_bit(&mut next, 1, true);
        set_bit(&mut next, 2, false);
        set_bit(&mut next, w, false);
        set_bit(&mut next, w + 1, false);
        set_bit(&mut next, w + 2, true);
        set_bit(&mut next, 2 * w, true);
        set_bit(&mut next, 2 * w + 1, true);
        set_bit(&mut next, 2 * w + 2, true);
        self.cells = next;
    }

    /// A new universe: `seed` (row-major, one value per cell) with the glider
    /// written over its top-left corner.
    pub fn new(width: u32, height: u32, seed: &Vec<bool>) -> (r: Universe)
        requires
            width * height <= u32::MAX,
            seed@.len() == width * height,
            glider_fits(width as int, height as int),
        ensures
            r.wf(),
            r.width_spec() == width,
            r.height_spec() == height,
            r.cells_spec() == with_glider(seed@, width as int),
    {
        let mut universe = Universe::from_cells(width, height, seed);
        universe.create_spaceship();
        universe
    }

    /// Advances one generation. When `inject` holds, the glider is first
    /// written over the current grid, and the generation is computed from that.
    pub fn tick(&mut self, inject: bool)
        requires
            old(self).wf(),
            inject ==> glider_fits(old(self).width_spec(), old(self).height_spec()),
        ensures
            final(self).wf(),
            final(self).width_spec() == old(self).width_spec(),
            final(self).height_spec() == old(self).height_spec(),
            final(self).cells_spec() == next_generation(
                if inject {
                    with_glider(old(self).cells_spec(), old(self).width_spec())
                } else {
                    old(self).cells_spec()
                },
                old(self).width_spec(),
                old(self).height_spec(),
            ),
    {
        if inject {
            self.create_spaceship();
        }
        let ghost cur = self.cells_spec();
        let ghost gen = next_generation(cur, self.width_spec(), self.height_spec());
        let mut next = copy_bits(&self.cells);
        let mut row: u32 = 0;
        while row < self.height
            invariant
                self.wf(),
                cur == self.cells_spec(),
                gen == next_generation(cur, self.width_spec(), self.height_spec()),
                row <= self.height,
                bits_of(next).len() == cur.len(),
                forall|j: int| 0 <= j < row * self.width_spec() ==> #[trigger] bits_of(next)[j] == gen[j],
            decreases self.height - row,
        {
            let mut col: u32 = 0;
            while col < self.width
                invariant
                    self.wf(),
                    cur == self.cells_spec(),
                    gen == next_generation(cur, self.width_spec(), self.height_spec()),
                    row < self.height,
                    col <= self.width,
                    bits_of(next).len() == cur.len(),
                    forall|j: int| 0 <= j < row * self.width_spec() + col ==> #[trigger] bits_of(next)[j] == gen[j],
                decreases self.width - col,
            {
                let idx = self.get_index(row, col);
                let cell = self.get(idx);
                let live_neighbors = self.live_neighbor_count(row, col);
                let value = match (cell, live_neighbors) {
                    (true, x) if x < 2 => false,
                    (true, 2) | (true, 3) => true,
                    (true, x) if x > 3 => false,
                    (false, 3) => true,
                    (otherwise, _) => otherwise,
                };
                proof {
                    lemma_index_in_grid(self.width as int, self.height as int, row as int, col as int);
                    assert(value == gen[idx as int]);
                }
                set_bit(&mut next, idx, value);
                col = col + 1;
            }
            proof {
                assert(row * self.width_spec() + self.width_spec() <= self.width_spec() * self.height_spec()) by (nonlinear_arith)
                    requires
                        row < self.height_spec(),
                        0 <= self.width_spec(),
                ;
                assert((row + 1) * self.width_spec() == row * self.width_spec() + self.width_spec()) by (nonlinear_arith);
            }
            row = row + 1;
        }
        proof {
            assert(self.height_spec() * self.width_spec() == self.width_spec() * self.height_spec()) by (nonlinear_arith);
            assert(bits_of(next) =~= gen);
        }
        self.cells = next;
    }

    /// Number of columns.
    pub fn width(&self) -> (r: u32)
        ensures
            r == self.width_spec(),
    {
        self.width
    }

    /// Number of rows.
    pub fn height(&self) -> (r: u32)
        ensures
            r == self.height_spec(),
    {
        self.height
    }

    /// The packed storage, for a renderer that reads it in place: `u32`
    /// words in increasing order, cell `i` at bit `i % 32` (least significant
    /// first) of word `i / 32`.
    pub fn cells(&self) -> (r: &[u32])
        ensures
            packs(r@, self.cells_spec()),
    {
        blocks_of(&self.cells)
    }

    /// The grid as text: one line per row, `◼` for a live cell and `◻` for a
    /// dead one, each line ended by a line break.
    pub fn render(&self) -> (r: String)
        requires
            self.wf(),
        ensures
            r@ == render_rows(self.cells_spec(), self.width_spec(), self.height_spec() as nat),
    {
        let mut text = String::new();
        let mut row: u32 = 0;
        while row < self.height
            invariant
                self.wf(),
                row <= self.height,
                text@ == render_rows(self.cells_spec(), self.width_spec(), row as nat),
            decreases self.height - row,
        {
            let ghost start = text@;
            let mut col: u32 = 0;
            while col < self.width
                invariant
                    self.wf(),
                    row < self.height,
                    col <= self.width,
                    text@ == start + Seq::new(
                        col as nat,
                        |c: int| glyph(self.cells_spec()[index_of(self.width_spec(), row as int, c)]),
                    ),
                decreases self.width - col,
            {
                let idx = self.get_index(row, col);
                let ghost before = text@;
                if self.get(idx) {
                    text.append("◼");
                    proof {
                        reveal_strlit("◼");
                    }
                } else {
                    text.append("◻");
                    proof {
                        reveal_strlit("◻");
                    }
                }
                proof {
                    assert(text@ =~= start + Seq::new(
                        (col + 1) as nat,
                        |c: int| glyph(self.cells_spec()[index_of(self.width_spec(), row as int, c)]),
                    ));
                }
                col = col + 1;
            }
            text.append("\n");
            proof {
                reveal_strlit("\n");
                assert(text@ =~= render_rows(self.cells_spec(), self.width_spec(), (row + 1) as nat));
            }
            row = row + 1;
        }
        text
    }
}


} // verus!
