use vstd::prelude::*;

use crate::buffer::{COLS, ROWS};
use crate::character::Character;
use crate::writer::{
    blank_cell, cleared_row, glyph_for, is_printable, line_break, put_byte, put_bytes, put_glyph,
    screen_wf, wrapped, Screen, FALLBACK_GLYPH, LINE_BREAK,
};

verus! {

/// A printable byte written before the end of a line lands, with the current
/// attribute, at the cursor; the cursor moves one column right and no other
/// cell changes.
pub proof fn lemma_printable_byte(s: Screen, b: u8)
    requires
        screen_wf(s),
        is_printable(b),
        s.col < COLS,
    ensures
        ({
            let t = put_byte(s, b);
            &&& screen_wf(t)
            &&& t.cells[s.row * COLS + s.col] == Character { char: b, color: s.color }
            &&& t.row == s.row
            &&& t.col == s.col + 1
            &&& t.color == s.color
            &&& forall|i: int|
                0 <= i < ROWS * COLS && i != s.row * COLS + s.col ==> #[trigger] t.cells[i]
                    == s.cells[i]
        }),
{
}

/// Any byte that is neither printable nor a line break shows the fallback
/// glyph where it lands, never the byte itself (unless it is that glyph).
pub proof fn lemma_unprintable_byte(s: Screen, b: u8)
    requires
        screen_wf(s),
        !is_printable(b),
        b != LINE_BREAK,
    ensures
        put_byte(s, b) == put_glyph(s, FALLBACK_GLYPH),
        put_byte(s, b).cells[wrapped(s).row * COLS + wrapped(s).col] == (Character {
            char: FALLBACK_GLYPH,
            color: s.color,
        }),
        b != FALLBACK_GLYPH ==> glyph_for(b) != b,
{
}

/// Printable bytes written from the start of a row, at most a row's worth,
/// fill that row from column 0 and leave every other cell as it was.
pub proof fn lemma_fill_row(s: Screen, bs: Seq<u8>)
    requires
        screen_wf(s),
        s.col == 0,
        bs.len() <= COLS,
        forall|k: int| 0 <= k < bs.len() ==> is_printable(#[trigger] bs[k]),
    ensures
        ({
            let t = put_bytes(s, bs);
            &&& screen_wf(t)
            &&& t.row == s.row
            &&& t.col == bs.len()
            &&& t.color == s.color
            &&& forall|k: int|
                0 <= k < bs.len() ==> #[trigger] t.cells[s.row * COLS + k] == (Character {
                    char: bs[k],
                    color: s.color,
                })
            &&& forall|i: int|
                0 <= i < ROWS * COLS && !(s.row * COLS <= i < s.row * COLS + bs.len())
                    ==> #[trigger] t.cells[i] == s.cells[i]
        }),
    decreases bs.len(),
{
    if bs.len() > 0 {
        let init = bs.drop_last();
        assert forall|k: int| 0 <= k < init.len() implies is_printable(#[trigger] init[k]) by {
            assert(init[k] == bs[k]);
        }
        lemma_fill_row(s, init);
        let p = put_bytes(s, init);
        assert(is_printable(bs[bs.len() - 1]));
        lemma_printable_byte(p, bs.last());
    }
}

/// A full row of printable bytes written from the origin fills row 0, and the
/// next printable byte lands at row 1, column 0.
pub proof fn lemma_full_row_wraps(s: Screen, bs: Seq<u8>, b: u8)
    requires
        screen_wf(s),
        s.row == 0,
        s.col == 0,
        bs.len() == COLS,
        forall|k: int| 0 <= k < bs.len() ==> is_printable(#[trigger] bs[k]),
        is_printable(b),
    ensures
        ({
            let t = put_bytes(s, bs);
            let u = put_byte(t, b);
            &&& t.row == 0
            &&& t.col == COLS
            &&& forall|c: int|
                0 <= c < COLS ==> #[trigger] t.cells[c] == (Character {
                    char: bs[c],
                    color: s.color,
                })
            &&& u.cells[COLS as int] == (Character { char: b, color: s.color })
            &&& u.row == 1
            &&& u.col == 1
        }),
{
    lemma_fill_row(s, bs);
    let t = put_bytes(s, bs);
    assert forall|c: int| 0 <= c < COLS implies #[trigger] t.cells[c] == (Character {
        char: bs[c],
        color: s.color,
    }) by {
        assert(t.cells[s.row * COLS + c] == t.cells[c]);
    }
    let w = wrapped(t);
    assert(w.row == 1 && w.col == 0 && w.cells == t.cells && w.color == s.color);
}

/// A line break on the last row moves every row up by one, blanks the last
/// row under the current attribute and puts the cursor at its start.
pub proof fn lemma_scroll(s: Screen)
    requires
        screen_wf(s),
        s.row == ROWS - 1,
    ensures
        ({
            let t = line_break(s);
            &&& screen_wf(t)
            &&& forall|r: int, c: int|
                0 <= r < ROWS - 1 && 0 <= c < COLS ==> #[trigger] t.cells[r * COLS + c]
                    == s.cells[(r + 1) * COLS + c]
            &&& forall|c: int|
                0 <= c < COLS ==> #[trigger] t.cells[(ROWS - 1) * COLS + c] == blank_cell(s.color)
            &&& t.row == ROWS - 1
            &&& t.col == 0
            &&& t.color == s.color
        }),
{
    let t = line_break(s);
    assert forall|r: int, c: int| 0 <= r < ROWS - 1 && 0 <= c < COLS implies #[trigger] t.cells[r
        * COLS + c] == s.cells[(r + 1) * COLS + c] by {
        assert(r * COLS + c < (ROWS - 1) * COLS);
        assert((r + 1) * COLS + c == r * COLS + c + COLS);
    }
}

/// Clearing a row a second time changes nothing.
pub proof fn lemma_clear_row_idempotent(cells: Seq<Character>, row: int, color: crate::character::ColorCode)
    ensures
        cleared_row(cleared_row(cells, row, color), row, color) == cleared_row(cells, row, color),
{
    assert(cleared_row(cleared_row(cells, row, color), row, color) =~= cleared_row(
        cells,
        row,
        color,
    ));
}

} // verus!
