//! Rendering of one display frame as a single string of ANSI escape
//! sequences: a screen clear, then five rows of glyph cells, each cell
//! wrapped in a 24-bit truecolor escape and followed by a separating space.
//! The caller prints the returned string; nothing here touches the terminal.

use vstd::prelude::*;
use crate::glyphs::GlyphTable;
use crate::glyphs::glyph_spec;
use crate::glyphs::lemma_glyph_shape;
use crate::numfmt::dec_str;
use crate::numfmt::u64_to_string;

verus! {

/// The escape sequence that clears the screen and homes the cursor.
pub open spec fn clear_seq() -> Seq<char> {
    "\x1b[2J\x1b[1;1H"@
}

/// The truecolor escape prefix that selects the given foreground color.
pub open spec fn color_prefix(rgb: (u8, u8, u8)) -> Seq<char> {
    "\x1b[38;2;"@ + dec_str(rgb.0 as int) + ";"@ + dec_str(rgb.1 as int) + ";"@ + dec_str(
        rgb.2 as int,
    ) + "m"@
}

/// One rendered cell: a glyph row wrapped in the color escape and the
/// reset escape, followed by a separating space.
pub open spec fn cell_str(c: char, row: int, rgb: (u8, u8, u8)) -> Seq<char> {
    color_prefix(rgb) + glyph_spec(c)[row] + "\x1b[0m "@
}

/// The first `k` cells of one output row.
pub open spec fn row_prefix_str(text: Seq<char>, row: int, rgb: (u8, u8, u8), k: int) -> Seq<char>
    decreases k,
{
    if k <= 0 {
        Seq::empty()
    } else {
        row_prefix_str(text, row, rgb, k - 1) + cell_str(text[k - 1], row, rgb)
    }
}

/// One full output row: a cell per character of the text, then a newline.
pub open spec fn row_str(text: Seq<char>, row: int, rgb: (u8, u8, u8)) -> Seq<char> {
    row_prefix_str(text, row, rgb, text.len() as int) + "\n"@
}

/// The first `k` output rows.
pub open spec fn rows_prefix_str(text: Seq<char>, rgb: (u8, u8, u8), k: int) -> Seq<char>
    decreases k,
{
    if k <= 0 {
        Seq::empty()
    } else {
        rows_prefix_str(text, rgb, k - 1) + row_str(text, k - 1, rgb)
    }
}

/// A whole frame: clear the screen, then the five glyph rows of the text.
pub open spec fn frame_str(text: Seq<char>, rgb: (u8, u8, u8)) -> Seq<char> {
    clear_seq() + rows_prefix_str(text, rgb, 5)
}

/// The colored closing message of the countdown timer.
pub open spec fn finished_str(rgb: (u8, u8, u8)) -> Seq<char> {
    color_prefix(rgb) + "Timer finished!"@ + "\x1b[0m"@
}

/// Appends the truecolor escape prefix for the given color.
fn append_color_prefix(out: &mut String, rgb: (u8, u8, u8))
    ensures
        final(out)@ == old(out)@ + color_prefix(rgb),
{
    out.append("\x1b[38;2;");
    let rs = u64_to_string(rgb.0 as u64);
    out.append(rs.as_str());
    out.append(";");
    let gs = u64_to_string(rgb.1 as u64);
    out.append(gs.as_str());
    out.append(";");
    let bs = u64_to_string(rgb.2 as u64);
    out.append(bs.as_str());
    out.append("m");
    proof {
        assert(out@ =~= old(out)@ + color_prefix(rgb));
    }
}

/// Appends one rendered cell: the colored glyph row of one character.
fn append_cell(out: &mut String, c: char, row: usize, rgb: (u8, u8, u8), table: &GlyphTable)
    requires
        table.wf(),
        row < 5,
    ensures
        final(out)@ == old(out)@ + cell_str(c, row as int, rgb),
{
    append_color_prefix(out, rgb);
    let rows = table.lookup(c);
    proof {
        lemma_glyph_shape(c);
        assert(rows@.len() == 5);
        assert(rows@[row as int]@ == glyph_spec(c)[row as int]);
    }
    out.append(rows[row].as_str());
    out.append("\x1b[0m ");
    proof {
        assert(out@ =~= old(out)@ + cell_str(c, row as int, rgb));
    }
}

/// Renders one frame of text: the screen-clearing escape, then the five
/// glyph rows of the text in the given color, each row ending in a newline.
pub fn render_frame(text: &str, rgb: (u8, u8, u8), table: &GlyphTable) -> (r: String)
    requires
        table.wf(),
    ensures
        r@ == frame_str(text@, rgb),
{
    let n: usize = text.unicode_len();
    let mut out = String::from_str("\x1b[2J\x1b[1;1H");
    proof {
        assert(out@ =~= clear_seq() + rows_prefix_str(text@, rgb, 0));
    }
    let mut row: usize = 0;
    while row < 5
        invariant
            table.wf(),
            n == text@.len(),
            row <= 5,
            out@ == clear_seq() + rows_prefix_str(text@, rgb, row as int),
        decreases 5 - row,
    {
        let mut j: usize = 0;
        proof {
            assert(out@ =~= clear_seq() + rows_prefix_str(text@, rgb, row as int)
                + row_prefix_str(text@, row as int, rgb, 0));
        }
        while j < n
            invariant
                table.wf(),
                n == text@.len(),
                row < 5,
                j <= n,
                out@ == clear_seq() + rows_prefix_str(text@, rgb, row as int) + row_prefix_str(
                    text@,
                    row as int,
                    rgb,
                    j as int,
                ),
            decreases n - j,
        {
            let c = text.get_char(j);
            append_cell(&mut out, c, row, rgb, table);
            j += 1;
            proof {
                assert(out@ =~= clear_seq() + rows_prefix_str(text@, rgb, row as int)
                    + row_prefix_str(text@, row as int, rgb, j as int));
            }
        }
        out.append("\n");
        row += 1;
        proof {
            assert(out@ =~= clear_seq() + rows_prefix_str(text@, rgb, row as int));
        }
    }
    out
}

/// Builds the colored "Timer finished!" message the timer ends with.
pub fn finished_message(rgb: (u8, u8, u8)) -> (r: String)
    ensures
        r@ == finished_str(rgb),
{
    let mut out = String::new();
    append_color_prefix(&mut out, rgb);
    out.append("Timer finished!");
    out.append("\x1b[0m");
    proof {
        assert(out@ =~= finished_str(rgb));
    }
    out
}

} // verus!
