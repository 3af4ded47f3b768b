use vstd::prelude::*;

use crate::buffer::{Buffer, COLS, ROWS};
use crate::character::{Character, ColorCode};
use vstd::string::StringSliceAdditionalSpecFns;

verus! {

/// The byte that ends a line.
pub const LINE_BREAK: u8 = 0x0a;

/// The glyph that fills cleared cells.
pub const BLANK_GLYPH: u8 = 0x20;

/// The glyph shown in place of a byte outside the printable range.
pub const FALLBACK_GLYPH: u8 = 0xfe;

/// What a writer shows: the grid's cells in row-major order, the cursor and
/// the current attribute.
pub struct Screen {
    pub cells: Seq<Character>,
    pub row: int,
    pub col: int,
    pub color: ColorCode,
}

/// The cursor stays on the grid; `col == COLS` marks a full line that has
/// not wrapped yet.
pub open spec fn screen_wf(s: Screen) -> bool {
    &&& s.cells.len() == ROWS * COLS
    &&& 0 <= s.row < ROWS
    &&& 0 <= s.col <= COLS
}

pub open spec fn blank_cell(color: ColorCode) -> Character {
    Character { char: BLANK_GLYPH, color }
}

/// `cells` with every cell of `row` blanked under `color`.
pub open spec fn cleared_row(cells: Seq<Character>, row: int, color: ColorCode) -> Seq<
    Character,
> {
    Seq::new(
        cells.len(),
        |i: int|
            if row * COLS <= i < row * COLS + COLS {
                blank_cell(color)
            } else {
                cells[i]
            },
    )
}

/// `cells` moved up one row, with a blank last row.
pub open spec fn scrolled(cells: Seq<Character>, color: ColorCode) -> Seq<Character> {
    cleared_row(
        Seq::new(
            cells.len(),
            |i: int|
                if i < (ROWS - 1) * COLS {
                    cells[i + COLS]
                } else {
                    cells[i]
                },
        ),
        ROWS - 1,
        color,
    )
}

/// A line break: the next row, or a scroll on the last one.
pub open spec fn line_break(s: Screen) -> Screen {
    if s.row < ROWS - 1 {
        Screen { cells: s.cells, row: s.row + 1, col: 0, color: s.color }
    } else {
        Screen { cells: scrolled(s.cells, s.color), row: s.row, col: 0, color: s.color }
    }
}

/// Where the cursor stands once a pending wrap has been taken.
pub open spec fn wrapped(s: Screen) -> Screen {
    if s.col >= COLS {
        line_break(s)
    } else {
        s
    }
}

/// Writing glyph `g`: wrap if the line is full, store the cell, advance.
pub open spec fn put_glyph(s: Screen, g: u8) -> Screen {
    let t = wrapped(s);
    Screen {
        cells: t.cells.update(t.row * COLS + t.col, Character { char: g, color: t.color }),
        row: t.row,
        col: t.col + 1,
        color: t.color,
    }
}

pub open spec fn is_printable(b: u8) -> bool {
    0x20 <= b <= 0x7e
}

/// The glyph shown for byte `b`.
pub open spec fn glyph_for(b: u8) -> u8 {
    if is_printable(b) {
        b
    } else {
        FALLBACK_GLYPH
    }
}

/// Writing byte `b`.
pub open spec fn put_byte(s: Screen, b: u8) -> Screen {
    if b == LINE_BREAK {
        line_break(s)
    } else {
        put_glyph(s, glyph_for(b))
    }
}

/// Writing the bytes of `bs` in order.
pub open spec fn put_bytes(s: Screen, bs: Seq<u8>) -> Screen
    decreases bs.len(),
{
    if bs.len() == 0 {
        s
    } else {
        put_byte(put_bytes(s, bs.drop_last()), bs.last())
    }
}

struct Cursor {
    col: usize,
    row: usize,
}

/// Renders a byte stream onto a grid it owns, with a cursor, automatic line
/// wrapping and scrolling.
pub struct Writer {
    cursor: Cursor,
    color: ColorCode,
    buffer: Buffer,
}

impl View for Writer {
    type V = Screen;

    closed spec fn view(&self) -> Screen {
        Screen {
            cells: self.buffer.chars@,
            row: self.cursor.row as int,
            col: self.cursor.col as int,
            color: self.color,
        }
    }
}

impl Writer {
    pub open spec fn inv(&self) -> bool {
        screen_wf(self@)
    }

    /// A writer at the origin over a blank grid.
    pub fn new(color: ColorCode) -> (w: Writer)
        ensures
            w.inv(),
            w@.row == 0,
            w@.col == 0,
            w@.color == color,
            forall|i: int| 0 <= i < ROWS * COLS ==> #[trigger] w@.cells[i] == blank_cell(color),
    {
        let buffer = Buffer::new(Character { char: BLANK_GLYPH, color });
        Writer { cursor: Cursor { col: 0, row: 0 }, color, buffer }
    }

    /// A writer at the origin over an existing grid.
    pub fn with_buffer(buffer: Buffer, color: ColorCode) -> (w: Writer)
        requires
            buffer.wf(),
        ensures
            w.inv(),
            w@ == (Screen { cells: buffer.chars@, row: 0, col: 0, color }),
    {
        Writer { cursor: Cursor { col: 0, row: 0 }, color, buffer }
    }

    /// Writes one byte: a line break, a printable glyph, or the fallback
    /// glyph for anything else.
    pub fn write_ascii_char(&mut self, ascii_byte: u8)
        requires
            old(self).inv(),
        ensures
            final(self).inv(),
            final(self)@ == put_byte(old(self)@, ascii_byte),
    {
        if ascii_byte == LINE_BREAK {
            self.new_line();
        } else if 0x20 <= ascii_byte && ascii_byte <= 0x7e {
            self.write_cp437_char(ascii_byte);
        } else {
            self.write_cp437_char(FALLBACK_GLYPH);
        }
    }

    /// Writes one glyph of the hardware character set, wrapping first if
    /// the line is full.
    pub fn write_cp437_char(&mut self, cp437_char: u8)
        requires
            old(self).inv(),
        ensures
            final(self).inv(),
            final(self)@ == put_glyph(old(self)@, cp437_char),
    {
        if self.cursor.col >= self.buffer.cols() {
            self.new_line();
        }
        let ghost t = self@;
        let idx = self.cursor.row * COLS + self.cursor.col;
        self.buffer.chars.set(idx, Character { char: cp437_char, color: self.color });
        self.cursor.col = self.cursor.col + 1;
        assert(self@.cells =~= t.cells.update(t.row * COLS + t.col, Character { char: cp437_char, color: t.color }));
    }

    /// Moves to the start of the next row, scrolling on the last one.
    fn new_line(&mut self)
        requires
            old(self).inv(),
        ensures
            final(self).inv(),
            final(self)@ == line_break(old(self)@),
    {
        if self.cursor.row < self.buffer.rows() - 1 {
            self.cursor.row = self.cursor.row + 1;
            self.cursor.col = 0;
        } else {
            let ghost start = self.buffer.chars@;
            let n: usize = (ROWS - 1) * COLS;
            let mut i: usize = 0;
            while i < n
                invariant
                    n == (ROWS - 1) * COLS,
                    i <= n,
                    self.buffer.chars@.len() == ROWS * COLS,
                    self.cursor == old(self).cursor,
                    self.color == old(self).color,
                    start == old(self).buffer.chars@,
                    forall|j: int| 0 <= j < i ==> #[trigger] self.buffer.chars@[j] == start[j + COLS],
                    forall|j: int| i <= j < ROWS * COLS ==> #[trigger] self.buffer.chars@[j] == start[j],
                decreases n - i,
            {
                let c = self.buffer.chars[i + COLS];
                self.buffer.chars.set(i, c);
                i = i + 1;
            }
            let ghost moved = self.buffer.chars@;
            assert(moved =~= Seq::new(
                start.len(),
                |k: int|
                    if k < (ROWS - 1) * COLS {
                        start[k + COLS]
                    } else {
                        start[k]
                    },
            ));
            self.clear_row(self.cursor.row);
            self.cursor.col = 0;
        }
    }

    /// Blanks every cell of `row` under the current attribute.
    fn clear_row(&mut self, row: usize)
        requires
            old(self).inv(),
            row < ROWS,
        ensures
            final(self).inv(),
            final(self)@ == (Screen {
                cells: cleared_row(old(self)@.cells, row as int, old(self)@.color),
                ..old(self)@
            }),
    {
        let ghost start = self.buffer.chars@;
        let mut col: usize = 0;
        while col < self.buffer.cols()
            invariant
                row < ROWS,
                col <= COLS,
                self.buffer.chars@.len() == ROWS * COLS,
                self.cursor == old(self).cursor,
                self.color == old(self).color,
                start == old(self).buffer.chars@,
                forall|j: int|
                    0 <= j < ROWS * COLS ==> #[trigger] self.buffer.chars@[j] == if row * COLS <= j
                        < row * COLS + col {
                        blank_cell(self.color)
                    } else {
                        start[j]
                    },
            decreases COLS - col,
        {
            self.buffer.chars.set(row * COLS + col, Character { char: BLANK_GLYPH, color: self.color });
            col = col + 1;
        }
        assert(self.buffer.chars@ =~= cleared_row(start, row as int, self.color));
    }

    /// Writes every byte of `s` in order.
    pub fn write_str(&mut self, s: &str)
        requires
            old(self).inv(),
        ensures
            final(self).inv(),
            final(self)@ == put_bytes(old(self)@, s.spec_bytes()),
    {
        let bytes = s.as_bytes();
        let mut i: usize = 0;
        while i < bytes.len()
            invariant
                i <= bytes@.len(),
                bytes@ == s.spec_bytes(),
                self.inv(),
                self@ == put_bytes(old(self)@, bytes@.subrange(0, i as int)),
            decreases bytes@.len() - i,
        {
            let ghost prev = bytes@.subrange(0, i as int);
            self.write_ascii_char(bytes[i]);
            assert(bytes@.subrange(0, i + 1).drop_last() =~= prev);
            i = i + 1;
        }
        assert(bytes@.subrange(0, i as int) =~= bytes@);
    }

    pub fn cursor_row(&self) -> (r: usize)
        ensures
            r == self@.row,
    {
        self.cursor.row
    }

    pub fn cursor_col(&self) -> (r: usize)
        ensures
            r == self@.col,
    {
        self.cursor.col
    }

    pub fn color(&self) -> (r: ColorCode)
        ensures
            r == self@.color,
    {
        self.color
    }

    /// The cell at `(row, col)`.
    pub fn cell(&self, row: usize, col: usize) -> (r: Character)
        requires
            self.inv(),
            row < ROWS,
            col < COLS,
        ensures
            r == self@.cells[row * COLS + col],
    {
        self.buffer.get(row, col)
    }

    /// The grid as the display hardware reads it.
    pub fn to_bytes(&self) -> (r: Vec<u8>)
        requires
            self.inv(),
        ensures
            crate::buffer::is_layout_of(r@, self@.cells),
    {
        self.buffer.to_bytes()
    }
}

} // verus!
