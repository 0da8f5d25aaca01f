//! The shell's off-screen mirror of the character grid: one byte per cell,
//! row after row. Zero marks an empty cell.
use vstd::prelude::*;

verus! {

pub const ROWS: usize = 25;
pub const COLS: usize = 80;
pub const CELLS: usize = 2000;

/// Position of a cell in the row-major sequence of cells.
pub open spec fn cell_index(row: int, col: int) -> int {
    row * COLS + col
}

/// The cells of one row.
pub open spec fn row_of(cells: Seq<u8>, row: int) -> Seq<u8> {
    cells.subrange(cell_index(row, 0), cell_index(row, 0) + COLS)
}

/// `cells` with `text` written over it from position `start` on.
pub open spec fn overwrite(cells: Seq<u8>, start: int, text: Seq<u8>) -> Seq<u8> {
    Seq::new(
        cells.len(),
        |i: int|
            if start <= i < start + text.len() {
                text[i - start]
            } else {
                cells[i]
            },
    )
}

/// Every cell empty.
pub open spec fn blank_cells() -> Seq<u8> {
    Seq::new(CELLS as nat, |i: int| 0u8)
}

pub struct LineBuffer {
    cells: [u8; CELLS],
}

impl View for LineBuffer {
    type V = Seq<u8>;

    closed spec fn view(&self) -> Seq<u8> {
        self.cells@
    }
}

impl LineBuffer {
    /// A grid with every cell empty.
    pub fn new() -> (r: LineBuffer)
        ensures
            r@ == blank_cells(),
    {
        let cells: [u8; CELLS] = [0u8; CELLS];
        assert(cells@ =~= blank_cells());
        LineBuffer { cells }
    }

    pub fn get(&self, row: usize, col: usize) -> (b: u8)
        requires
            row < ROWS,
            col < COLS,
        ensures
            b == self@[cell_index(row as int, col as int)],
            self@.len() == CELLS,
    {
        self.cells[row * COLS + col]
    }

    pub fn set(&mut self, row: usize, col: usize, b: u8)
        requires
            row < ROWS,
            col < COLS,
        ensures
            final(self)@ == old(self)@.update(cell_index(row as int, col as int), b),
            old(self)@.len() == CELLS,
    {
        self.cells[row * COLS + col] = b;
    }

    /// Writes `text` into row `row` from column `col` on.
    pub fn write_text(&mut self, row: usize, col: usize, text: &[u8])
        requires
            row < ROWS,
            col + text@.len() <= COLS,
        ensures
            final(self)@ == overwrite(old(self)@, cell_index(row as int, col as int), text@),
            old(self)@.len() == CELLS,
    {
        let start = row * COLS + col;
        let mut i: usize = 0;
        while i < text.len()
            invariant
                start == cell_index(row as int, col as int),
                start + text@.len() <= CELLS,
                i <= text@.len(),
                self.cells@.len() == CELLS,
                forall|k: int|
                    0 <= k < CELLS ==> #[trigger] self.cells@[k] == (if start <= k < start + i {
                        text@[k - start]
                    } else {
                        old(self).cells@[k]
                    }),
            decreases text@.len() - i,
        {
            self.cells[start + i] = text[i];
            i = i + 1;
        }
        proof {
            assert(self.cells@ =~= overwrite(old(self)@, start as int, text@));
        }
    }

    /// Copy of row `row`.
    pub fn row_bytes(&self, row: usize) -> (r: Vec<u8>)
        requires
            row < ROWS,
        ensures
            r@ == row_of(self@, row as int),
            self@.len() == CELLS,
    {
        let start = row * COLS;
        let mut r: Vec<u8> = Vec::new();
        let mut i: usize = 0;
        while i < COLS
            invariant
                start == cell_index(row as int, 0),
                start + COLS <= CELLS,
                self.cells@.len() == CELLS,
                i <= COLS,
                r@ == self.cells@.subrange(start as int, start + i),
            decreases COLS - i,
        {
            r.push(self.cells[start + i]);
            i = i + 1;
        }
        r
    }

    /// Empties every cell.
    pub fn clear(&mut self)
        ensures
            final(self)@ == blank_cells(),
    {
        let mut i: usize = 0;
        while i < CELLS
            invariant
                i <= CELLS,
                self.cells@.len() == CELLS,
                forall|k: int| 0 <= k < i ==> #[trigger] self.cells@[k] == 0u8,
            decreases CELLS - i,
        {
            self.cells[i] = 0;
            i = i + 1;
        }
        proof {
            assert(self.cells@ =~= blank_cells());
        }
    }
}

} // verus!
