//! The glyph rasterizer: a pure map from a character and a local pixel
//! coordinate inside a fixed glyph cell to an intensity byte.
//!
//! A cell is 10x10 pixels.  A one-pixel inset border around the cell is always
//! background, so only local coordinates 1..=8 may light up.  Each supported
//! character is an explicit geometric predicate over that interior; any other
//! character renders as a solid block.

use vstd::prelude::*;

verus! {

/// Intensity written for a lit (foreground) pixel byte.
pub const ON: u8 = 0xff;

/// Intensity written for a background pixel byte.
pub const OFF: u8 = 0x00;

/// The interior of a glyph cell: everything but the one-pixel inset border.
pub open spec fn interior(x: int, y: int) -> bool {
    1 <= x <= 8 && 1 <= y <= 8
}

/// The characters that have a glyph of their own; every other character
/// falls back to a solid block.
pub open spec fn supported(c: char) -> bool {
    c == 'H' || c == 'E' || c == 'L' || c == 'O' || c == 'W' || c == 'R' || c == 'D' || c == ' '
        || c == '!'
}

/// `H`: two side strokes joined by a horizontal bar.
pub open spec fn h_on(x: int, y: int) -> bool {
    x < 3 || x > 6 || (3 < y && y < 6)
}

/// `E`: top and bottom bands, a middle bar, and a left stroke.
pub open spec fn e_on(x: int, y: int) -> bool {
    y < 3 || y > 6 || y == 4 || y == 5 || x < 3
}

/// `L`: a left stroke and a bottom stroke.
pub open spec fn l_on(x: int, y: int) -> bool {
    x < 3 || y > 6
}

/// `O` (and `D`): a rectangular ring; only the strict interior stays dark.
pub open spec fn o_on(x: int, y: int) -> bool {
    x < 3 || x > 6 || y < 3 || y > 6
}

/// `W`: two side strokes and a bottom band; the central gap stays dark.
pub open spec fn w_on(x: int, y: int) -> bool {
    y > 6 || x < 3 || x > 6
}

/// `R`: left stroke, top band, upper-right corner, middle bar, and a
/// diagonal leg.
pub open spec fn r_on(x: int, y: int) -> bool {
    x < 3 || y < 3 || (x > 6 && y < 5) || (3 < y && y < 6) || (x > 4 && (x == y || x == y + 1))
}

/// `!`: a central column with a gap below the middle.
pub open spec fn bang_on(x: int, y: int) -> bool {
    (3 < x && x < 6) && (y > 6 || y < 5)
}

/// Whether the interior pixel `(x, y)` of the glyph for `c` is lit.
/// Unsupported characters are fully lit (solid block).
pub open spec fn glyph_on(c: char, x: int, y: int) -> bool {
    if c == 'H' {
        h_on(x, y)
    } else if c == 'E' {
        e_on(x, y)
    } else if c == 'L' {
        l_on(x, y)
    } else if c == 'O' || c == 'D' {
        o_on(x, y)
    } else if c == 'W' {
        w_on(x, y)
    } else if c == 'R' {
        r_on(x, y)
    } else if c == ' ' {
        false
    } else if c == '!' {
        bang_on(x, y)
    } else {
        true
    }
}

/// The intensity byte of pixel `(x, y)` of the glyph cell for `c`: the border
/// is always background, the interior follows the character's predicate.
pub open spec fn glyph_intensity(c: char, x: int, y: int) -> u8 {
    if !interior(x, y) {
        OFF
    } else if glyph_on(c, x, y) {
        ON
    } else {
        OFF
    }
}

/// Every pixel on the one-pixel inset border of a cell is background,
/// whatever the character.
pub proof fn lemma_border_always_off(c: char, x: int, y: int)
    requires
        !interior(x, y),
    ensures
        glyph_intensity(c, x, y) == OFF,
{
}

/// Every interior pixel of an unsupported character is lit: the fallback
/// glyph is a solid block.
pub proof fn lemma_unknown_char_solid(c: char, x: int, y: int)
    requires
        !supported(c),
        interior(x, y),
    ensures
        glyph_intensity(c, x, y) == ON,
{
}

/// A character held for rasterizing.
pub struct ScreenCharacter {
    character: char,
}

impl ScreenCharacter {
    /// The character this rasterizer was built for.
    pub closed spec fn spec_character(&self) -> char {
        self.character
    }

    pub fn new(character: char) -> (r: ScreenCharacter)
        ensures
            r.spec_character() == character,
    {
        ScreenCharacter { character }
    }

    pub fn get_character(&self) -> (r: char)
        ensures
            r == self.spec_character(),
    {
        self.character
    }

    /// Rasterize one pixel: background on the cell border, else the
    /// character's own predicate.
    pub fn draw_char(&self, x: usize, y: usize, character: char) -> (r: u8)
        ensures
            r == glyph_intensity(character, x as int, y as int),
    {
        // have a dark frame around the character
        if x < 1 || x > 8 {
            return OFF;
        }
        if y < 1 || y > 8 {
            return OFF;
        }
        match character {
            'H' => self.draw_h(x, y),
            'E' => self.draw_e(x, y),
            'L' => self.draw_l(x, y),
            'O' => self.draw_o(x, y),
            'W' => self.draw_w(x, y),
            'R' => self.draw_r(x, y),
            'D' => self.draw_d(x, y),
            ' ' => self.draw_space(x, y),
            '!' => self.draw_bang(x, y),
            _ => ON,
        }
    }

    pub fn draw_h(&self, x: usize, y: usize) -> (r: u8)
        ensures
            r == (if h_on(x as int, y as int) {
                ON
            } else {
                OFF
            }),
    {
        // side strokes
        if x < 3 || x > 6 {
            return ON;
        }
        // horizontal bar
        if y < 6 && y > 3 {
            return ON;
        }
        OFF
    }

    pub fn draw_e(&self, x: usize, y: usize) -> (r: u8)
        ensures
            r == (if e_on(x as int, y as int) {
                ON
            } else {
                OFF
            }),
    {
        if y < 3 || y > 6 {
            return ON;
        }
        if y == 4 || y == 5 {
            return ON;
        }
        if x < 3 {
            return ON;
        }
        OFF
    }

    pub fn draw_l(&self, x: usize, y: usize) -> (r: u8)
        ensures
            r == (if l_on(x as int, y as int) {
                ON
            } else {
                OFF
            }),
    {
        if x < 3 {
            return ON;
        }
        if y > 6 {
            return ON;
        }
        OFF
    }

    pub fn draw_o(&self, x: usize, y: usize) -> (r: u8)
        ensures
            r == (if o_on(x as int, y as int) {
                ON
            } else {
                OFF
            }),
    {
        if x < 3 || x > 6 {
            return ON;
        }
        if y < 3 || y > 6 {
            return ON;
        }
        OFF
    }

    pub fn draw_w(&self, x: usize, y: usize) -> (r: u8)
        ensures
            r == (if w_on(x as int, y as int) {
                ON
            } else {
                OFF
            }),
    {
        if y > 6 {
            return ON;
        }
        if x < 3 || x > 6 {
            return ON;
        }
        OFF
    }

    pub fn draw_r(&self, x: usize, y: usize) -> (r: u8)
        ensures
            r == (if r_on(x as int, y as int) {
                ON
            } else {
                OFF
            }),
    {
        if x < 3 {
            return ON;
        }
        if y < 3 {
            return ON;
        }
        if (x > 6) && (y < 5) {
            return ON;
        }
        if y > 3 && y < 6 {
            return ON;
        }
        if x > 4 && (x == y || x - 1 == y) {
            return ON;
        }
        OFF
    }

    pub fn draw_d(&self, x: usize, y: usize) -> (r: u8)
        ensures
            r == (if o_on(x as int, y as int) {
                ON
            } else {
                OFF
            }),
    {
        self.draw_o(x, y)
    }

    pub fn draw_bang(&self, x: usize, y: usize) -> (r: u8)
        ensures
            r == (if bang_on(x as int, y as int) {
                ON
            } else {
                OFF
            }),
    {
        if (x < 6 && x > 3) && (y > 6 || y < 5) {
            return ON;
        }
        OFF
    }

    pub fn draw_space(&self, x: usize, y: usize) -> (r: u8)
        ensures
            r == OFF,
    {
        OFF
    }
}

} // verus!
