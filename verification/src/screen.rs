//! The text cursor and framebuffer writer.
//!
//! A [`Screen`] tracks a cursor in glyph-cell units.  Printing a character
//! scans every byte of the framebuffer, rewrites the bytes that belong to the
//! cursor's cell with the rasterized glyph, and advances the cursor one cell
//! to the right.  A cursor past the last cell of a row matches no bytes, so
//! overflowing output is silently dropped rather than wrapped.

use vstd::prelude::*;
use crate::glyph::{glyph_intensity, ScreenCharacter};
use vstd::string::StrSliceExecFns;

verus! {

/// Bytes per pixel of the framebuffer.
pub const PIXEL_SIZE: usize = 4;

/// Width and height of a glyph cell, in pixels.
pub const CHARACTER_SIZE: usize = 10;

/// Largest framebuffer row stride, in bytes, that the writer accepts; keeps
/// the address arithmetic within `usize` on any machine.
pub const MAX_COLUMN_SIZE: usize = 0x1000_0000;

/// The glyph-cell column that buffer index `i` falls in, for row stride `cs`:
/// the byte's offset within its framebuffer row, divided by the width of a
/// cell in bytes.
pub open spec fn spec_cell_x(cs: int, i: int) -> int {
    (i % cs) / (CHARACTER_SIZE * PIXEL_SIZE) as int
}

/// The glyph-cell row that buffer index `i` falls in, for row stride `cs`:
/// each cell row spans `CHARACTER_SIZE` framebuffer rows.
pub open spec fn spec_cell_y(cs: int, i: int) -> int {
    i / (CHARACTER_SIZE as int * cs)
}

/// The pixel column of buffer index `i` within its glyph cell.
pub open spec fn spec_local_x(i: int) -> int {
    (i % (PIXEL_SIZE * CHARACTER_SIZE) as int) / PIXEL_SIZE as int
}

/// The pixel row of buffer index `i` within its glyph cell, for row stride
/// `cs`.
pub open spec fn spec_local_y(cs: int, i: int) -> int {
    (i / cs) % CHARACTER_SIZE as int
}

/// Whether buffer index `i` belongs to the cell at column `col`, row `row`.
pub open spec fn targets(cs: int, col: int, row: int, i: int) -> bool {
    spec_cell_x(cs, i) == col && spec_cell_y(cs, i) == row
}

/// The framebuffer contents after one character `c` is printed at cell
/// `(col, row)`: every byte of that cell holds the rasterized glyph pixel,
/// every other byte keeps its value.
pub open spec fn after_char(cs: int, col: int, row: int, c: char, fb: Seq<u8>) -> Seq<u8> {
    Seq::new(
        fb.len(),
        |i: int|
            if targets(cs, col, row, i) {
                glyph_intensity(c, spec_local_x(i), spec_local_y(cs, i))
            } else {
                fb[i]
            },
    )
}

/// The framebuffer contents after `text` is printed character by character,
/// starting at cell `(col, row)` and advancing one cell column per character.
pub open spec fn after_text(cs: int, col: int, row: int, text: Seq<char>, fb: Seq<u8>) -> Seq<u8>
    decreases text.len(),
{
    if text.len() == 0 {
        fb
    } else {
        after_text(cs, col + 1, row, text.drop_first(), after_char(cs, col, row, text[0], fb))
    }
}

/// Printing an empty text leaves every framebuffer byte unchanged.
pub proof fn lemma_print_empty_text_unchanged(cs: int, col: int, row: int, fb: Seq<u8>)
    ensures
        after_text(cs, col, row, Seq::<char>::empty(), fb) == fb,
{
}

/// A byte in any cell other than the cursor's keeps its value when one
/// character is printed.
pub proof fn lemma_other_cell_byte_unchanged(cs: int, col: int, row: int, c: char, fb: Seq<u8>, i: int)
    requires
        0 <= i < fb.len(),
        !targets(cs, col, row, i),
    ensures
        after_char(cs, col, row, c, fb)[i] == fb[i],
{
}

/// Appending one character to a text prints it at the column just past the
/// text, after the text itself has been printed.
proof fn lemma_after_text_push(cs: int, col: int, row: int, text: Seq<char>, fb: Seq<u8>, c: char)
    ensures
        after_text(cs, col, row, text.push(c), fb) == after_char(
            cs,
            col + text.len(),
            row,
            c,
            after_text(cs, col, row, text, fb),
        ),
    decreases text.len(),
{
    let s = text.push(c);
    if text.len() == 0 {
        assert(s.drop_first() =~= Seq::<char>::empty());
        assert(after_text(cs, col + 1, row, s.drop_first(), after_char(cs, col, row, c, fb))
            == after_char(cs, col, row, c, fb));
    } else {
        assert(s.drop_first() =~= text.drop_first().push(c));
        assert(s[0] == text[0]);
        lemma_after_text_push(
            cs,
            col + 1,
            row,
            text.drop_first(),
            after_char(cs, col, row, text[0], fb),
            c,
        );
        assert(after_text(cs, col, row, s, fb) == after_text(
            cs,
            col + 1,
            row,
            s.drop_first(),
            after_char(cs, col, row, text[0], fb),
        ));
    }
}

/// A byte in a cell that no character of the text lands in — a different
/// cell row, or a cell column before the cursor or past the text's end —
/// keeps its value.
pub proof fn lemma_outside_text_byte_unchanged(
    cs: int,
    col: int,
    row: int,
    text: Seq<char>,
    fb: Seq<u8>,
    i: int,
)
    requires
        0 <= i < fb.len(),
        spec_cell_y(cs, i) != row || spec_cell_x(cs, i) < col || spec_cell_x(cs, i) >= col
            + text.len(),
    ensures
        after_text(cs, col, row, text, fb)[i] == fb[i],
    decreases text.len(),
{
    if text.len() > 0 {
        lemma_outside_text_byte_unchanged(
            cs,
            col + 1,
            row,
            text.drop_first(),
            after_char(cs, col, row, text[0], fb),
            i,
        );
    }
}

/// A byte in a cell that one character of the text lands in — the cursor's
/// cell row, cell column `col + k` for the `k`-th character — holds that
/// character's glyph pixel for the byte's local coordinates.
pub proof fn lemma_text_byte_written(
    cs: int,
    col: int,
    row: int,
    text: Seq<char>,
    fb: Seq<u8>,
    i: int,
)
    requires
        0 <= i < fb.len(),
        spec_cell_y(cs, i) == row,
        col <= spec_cell_x(cs, i) < col + text.len(),
    ensures
        after_text(cs, col, row, text, fb)[i] == glyph_intensity(
            text[spec_cell_x(cs, i) - col],
            spec_local_x(i),
            spec_local_y(cs, i),
        ),
    decreases text.len(),
{
    let written = after_char(cs, col, row, text[0], fb);
    if spec_cell_x(cs, i) == col {
        assert(written[i] == glyph_intensity(text[0], spec_local_x(i), spec_local_y(cs, i)));
        lemma_outside_text_byte_unchanged(cs, col + 1, row, text.drop_first(), written, i);
    } else {
        lemma_text_byte_written(cs, col + 1, row, text.drop_first(), written, i);
    }
}

/// A cursor column at or past the end of a framebuffer row matches no byte:
/// printing one character there changes nothing.
pub proof fn lemma_char_past_last_column_unchanged(cs: int, col: int, row: int, c: char, fb: Seq<u8>)
    requires
        1 <= cs,
        col * (CHARACTER_SIZE * PIXEL_SIZE) as int >= cs,
    ensures
        after_char(cs, col, row, c, fb) == fb,
{
    assert forall|i: int| 0 <= i < fb.len() implies !targets(cs, col, row, i) by {
        let r: int = i % cs;
        let w: int = (CHARACTER_SIZE * PIXEL_SIZE) as int;
        let q: int = r / w;
        vstd::arithmetic::div_mod::lemma_mod_bound(i, cs);
        vstd::arithmetic::div_mod::lemma_fundamental_div_mod(r, w);
        vstd::arithmetic::div_mod::lemma_mod_bound(r, w);
        if q >= col {
            assert(w * q >= col * w) by (nonlinear_arith)
                requires
                    q >= col,
                    w > 0,
            ;
            assert(false);
        }
        assert(spec_cell_x(cs, i) < col);
    }
    assert(after_char(cs, col, row, c, fb) =~= fb);
}

/// Every character of a text printed from a cursor column at or past the end
/// of a framebuffer row is dropped: the framebuffer keeps all its bytes.
pub proof fn lemma_text_past_last_column_unchanged(
    cs: int,
    col: int,
    row: int,
    text: Seq<char>,
    fb: Seq<u8>,
)
    requires
        1 <= cs,
        col * (CHARACTER_SIZE * PIXEL_SIZE) as int >= cs,
    ensures
        after_text(cs, col, row, text, fb) == fb,
    decreases text.len(),
{
    if text.len() > 0 {
        lemma_char_past_last_column_unchanged(cs, col, row, text[0], fb);
        assert((col + 1) * (CHARACTER_SIZE * PIXEL_SIZE) as int >= cs) by (nonlinear_arith)
            requires
                col * (CHARACTER_SIZE * PIXEL_SIZE) as int >= cs,
        ;
        lemma_text_past_last_column_unchanged(cs, col + 1, row, text.drop_first(), fb);
    }
}

/// The text writer: a cursor in glyph-cell units over a framebuffer of a
/// fixed row stride.
pub struct Screen {
    x_cursor_position: usize,
    y_cursor_position: usize,
    column_size: usize,
    row_size: usize,
    character_size: usize,
    pixel_size: usize,
}

impl Screen {
    /// The cursor's cell column.
    pub closed spec fn cursor_col(&self) -> int {
        self.x_cursor_position as int
    }

    /// The cursor's cell row.
    pub closed spec fn cursor_row(&self) -> int {
        self.y_cursor_position as int
    }

    /// The framebuffer row stride, in bytes.
    pub closed spec fn stride(&self) -> int {
        self.column_size as int
    }

    /// Well-formedness: the cell geometry is the fixed one and the stride is
    /// positive and small enough for the address arithmetic.
    pub closed spec fn wf(&self) -> bool {
        &&& self.character_size == CHARACTER_SIZE
        &&& self.pixel_size == PIXEL_SIZE
        &&& 1 <= self.column_size <= MAX_COLUMN_SIZE
    }

    /// A screen for the default display mode: 640 pixels per row, 4 bytes per
    /// pixel, cursor at the origin.
    pub fn new() -> (r: Screen)
        ensures
            r.wf(),
            r.cursor_col() == 0,
            r.cursor_row() == 0,
            r.stride() == 640 * PIXEL_SIZE,
    {
        Screen {
            x_cursor_position: 0,
            y_cursor_position: 0,
            character_size: CHARACTER_SIZE,
            pixel_size: PIXEL_SIZE,
            row_size: 340 * PIXEL_SIZE,
            column_size: 640 * PIXEL_SIZE,
        }
    }

    /// A screen over a framebuffer of the given row stride (bytes per
    /// framebuffer row), cursor at the origin.
    pub fn new_with_column_size(column_size: usize) -> (r: Screen)
        requires
            1 <= column_size <= MAX_COLUMN_SIZE,
        ensures
            r.wf(),
            r.cursor_col() == 0,
            r.cursor_row() == 0,
            r.stride() == column_size,
    {
        Screen {
            x_cursor_position: 0,
            y_cursor_position: 0,
            character_size: CHARACTER_SIZE,
            pixel_size: PIXEL_SIZE,
            row_size: 340 * PIXEL_SIZE,
            column_size,
        }
    }

    pub fn get_x(&self) -> (r: usize)
        ensures
            r == self.cursor_col(),
    {
        self.x_cursor_position
    }

    pub fn get_y(&self) -> (r: usize)
        ensures
            r == self.cursor_row(),
    {
        self.y_cursor_position
    }

    /// Advance the cursor one cell column to the right.
    pub fn inc_cursor(&mut self)
        requires
            old(self).cursor_col() < usize::MAX,
        ensures
            final(self).cursor_col() == old(self).cursor_col() + 1,
            final(self).cursor_row() == old(self).cursor_row(),
            final(self).stride() == old(self).stride(),
            final(self).wf() == old(self).wf(),
    {
        self.x_cursor_position += 1;
    }

    pub fn get_column_size(&self) -> (r: usize)
        ensures
            r == self.stride(),
    {
        self.column_size
    }

    /// The cell column and cell row that the framebuffer byte at `index`
    /// belongs to.
    pub fn get_xy_from_buffer_index(&self, index: usize) -> (r: (usize, usize))
        requires
            self.wf(),
        ensures
            r.0 == spec_cell_x(self.stride(), index as int),
            r.1 == spec_cell_y(self.stride(), index as int),
    {
        let column_size: usize = self.get_column_size();
        let character_bytes: usize = CHARACTER_SIZE * PIXEL_SIZE;
        let column_index: usize = index % column_size;
        let x: usize = column_index / character_bytes;
        let y: usize = index / (CHARACTER_SIZE * column_size);
        (x, y)
    }

    /// The intensity byte that the glyph for `character` puts at framebuffer
    /// byte `index`, from the byte's pixel coordinates within its cell.
    pub fn get_pixel_color(&self, index: usize, character: char) -> (r: u8)
        requires
            self.wf(),
        ensures
            r == glyph_intensity(
                character,
                spec_local_x(index as int),
                spec_local_y(self.stride(), index as int),
            ),
    {
        let column_size: usize = self.get_column_size();
        // first get the position x,y relative to the glyph cell
        let x: usize = index % (PIXEL_SIZE * CHARACTER_SIZE);
        let y: usize = (index / column_size) % CHARACTER_SIZE;
        let screen_character: ScreenCharacter = ScreenCharacter::new(character);
        screen_character.draw_char(x / PIXEL_SIZE, y, character)
    }

    /// Print one character at the cursor's cell and advance the cursor one
    /// column: every byte of that cell is rewritten with the rasterized
    /// glyph, every other byte keeps its value.
    pub fn print_char(&mut self, character: char, framebuffer: &mut Vec<u8>)
        requires
            old(self).wf(),
            old(self).cursor_col() < usize::MAX,
        ensures
            final(self).wf(),
            final(self).cursor_col() == old(self).cursor_col() + 1,
            final(self).cursor_row() == old(self).cursor_row(),
            final(self).stride() == old(self).stride(),
            final(framebuffer)@ == after_char(
                old(self).stride(),
                old(self).cursor_col(),
                old(self).cursor_row(),
                character,
                old(framebuffer)@,
            ),
    {
        let ghost fb0 = framebuffer@;
        let ghost cs: int = self.stride();
        let ghost col: int = self.cursor_col();
        let ghost row: int = self.cursor_row();
        let n: usize = framebuffer.len();
        for index in 0..n
            invariant
                *self == *old(self),
                self.wf(),
                cs == old(self).stride(),
                col == old(self).cursor_col(),
                row == old(self).cursor_row(),
                fb0 == old(framebuffer)@,
                n == fb0.len(),
                framebuffer@.len() == fb0.len(),
                forall|j: int|
                    0 <= j < index ==> framebuffer@[j] == after_char(cs, col, row, character, fb0)[j],
                forall|j: int| index <= j < fb0.len() ==> framebuffer@[j] == fb0[j],
        {
            // pick column and row
            let framebuffer_xy: (usize, usize) = self.get_xy_from_buffer_index(index);
            let framebuffer_x: usize = framebuffer_xy.0;
            let framebuffer_y: usize = framebuffer_xy.1;
            if framebuffer_x == self.get_x() && framebuffer_y == self.get_y() {
                let color: u8 = self.get_pixel_color(index, character);
                framebuffer[index] = color;
                proof {
                    assert(targets(cs, col, row, index as int));
                }
            } else {
                proof {
                    assert(!targets(cs, col, row, index as int));
                }
            }
        }
        assert(framebuffer@ =~= after_char(cs, col, row, character, fb0));
        self.inc_cursor();
    }

    /// Print a text character by character from the cursor on, advancing the
    /// cursor one cell column per character and never changing its row.
    pub fn print_text(&mut self, text: &str, framebuffer: &mut Vec<u8>)
        requires
            old(self).wf(),
            old(self).cursor_col() + text@.len() <= usize::MAX,
        ensures
            final(self).wf(),
            final(self).cursor_col() == old(self).cursor_col() + text@.len(),
            final(self).cursor_row() == old(self).cursor_row(),
            final(self).stride() == old(self).stride(),
            final(framebuffer)@ == after_text(
                old(self).stride(),
                old(self).cursor_col(),
                old(self).cursor_row(),
                text@,
                old(framebuffer)@,
            ),
    {
        let ghost fb0 = framebuffer@;
        let ghost cs: int = self.stride();
        let ghost col0: int = self.cursor_col();
        let ghost row: int = self.cursor_row();
        let n: usize = text.unicode_len();
        for i in 0..n
            invariant
                self.wf(),
                cs == old(self).stride(),
                col0 == old(self).cursor_col(),
                row == old(self).cursor_row(),
                fb0 == old(framebuffer)@,
                self.stride() == cs,
                self.cursor_row() == row,
                self.cursor_col() == col0 + i,
                n == text@.len(),
                col0 + n <= usize::MAX,
                framebuffer@ == after_text(cs, col0, row, text@.take(i as int), fb0),
        {
            let character: char = text.get_char(i);
            proof {
                lemma_after_text_push(cs, col0, row, text@.take(i as int), fb0, character);
                assert(text@.take(i as int).push(character) =~= text@.take(i + 1));
            }
            self.print_char(character, framebuffer);
        }
        proof {
            assert(text@.take(n as int) =~= text@);
        }
    }
}

} // verus!
