use vstd::prelude::*;

use crate::character::Character;

verus! {

/// Number of text rows on the screen.
pub const ROWS: usize = 25;

/// Number of text columns on the screen.
pub const COLS: usize = 80;

/// The character grid, held row-major: the cell at `(row, col)` is
/// `chars[row * COLS + col]`.
pub struct Buffer {
    pub chars: Vec<Character>,
}

/// Hardware byte image of a row-major run of cells: for each cell its glyph
/// byte, then its attribute byte.
pub open spec fn is_layout_of(bytes: Seq<u8>, cells: Seq<Character>) -> bool {
    &&& bytes.len() == 2 * cells.len()
    &&& forall|i: int|
        0 <= i < cells.len() ==> #[trigger] bytes[2 * i] == cells[i].char && bytes[2 * i + 1]
            == cells[i].color.0
}

impl Buffer {
    /// A well-formed grid holds exactly `ROWS * COLS` cells.
    pub open spec fn wf(&self) -> bool {
        self.chars@.len() == ROWS * COLS
    }

    /// The cell at `(row, col)`.
    pub open spec fn cell(&self, row: int, col: int) -> Character {
        self.chars@[row * COLS + col]
    }

    /// A grid whose every cell is `fill`.
    pub fn new(fill: Character) -> (r: Buffer)
        ensures
            r.wf(),
            forall|i: int| 0 <= i < ROWS * COLS ==> #[trigger] r.chars@[i] == fill,
    {
        let mut chars: Vec<Character> = Vec::new();
        let total: usize = ROWS * COLS;
        let mut i: usize = 0;
        while i < total
            invariant
                total == ROWS * COLS,
                i <= total,
                chars@.len() == i,
                forall|j: int| 0 <= j < i ==> #[trigger] chars@[j] == fill,
            decreases total - i,
        {
            chars.push(fill);
            i = i + 1;
        }
        Buffer { chars }
    }

    pub fn rows(&self) -> (r: usize)
        ensures
            r == ROWS,
    {
        ROWS
    }

    pub fn cols(&self) -> (r: usize)
        ensures
            r == COLS,
    {
        COLS
    }

    /// The cell at `(row, col)`.
    pub fn get(&self, row: usize, col: usize) -> (r: Character)
        requires
            self.wf(),
            row < ROWS,
            col < COLS,
        ensures
            r == self.cell(row as int, col as int),
    {
        self.chars[row * COLS + col]
    }

    /// The grid as the display hardware reads it: row-major, two bytes per
    /// cell, glyph first.
    pub fn to_bytes(&self) -> (r: Vec<u8>)
        requires
            self.wf(),
        ensures
            is_layout_of(r@, self.chars@),
            r@.len() == 2 * ROWS * COLS,
    {
        let mut out: Vec<u8> = Vec::new();
        let n: usize = self.chars.len();
        let mut i: usize = 0;
        while i < n
            invariant
                n == self.chars@.len(),
                n == ROWS * COLS,
                i <= n,
                out@.len() == 2 * i,
                forall|j: int|
                    0 <= j < i ==> #[trigger] out@[2 * j] == self.chars@[j].char && out@[2 * j
                        + 1] == self.chars@[j].color.0,
            decreases n - i,
        {
            let c = self.chars[i];
            out.push(c.char);
            out.push(c.color.0);
            i = i + 1;
        }
        out
    }
}

} // verus!
