//! The glyph table: a fixed mapping from each supported character to its
//! five-row, seven-column ASCII-art rendering. Characters outside the
//! supported set degrade to a blank glyph of the same shape, so arbitrary
//! text renders as blank columns instead of failing.

use vstd::prelude::*;

verus! {

/// The characters the table renders: digits, the colon, the space, and the
/// letters of the AM/PM markers.
pub open spec fn supported_char(c: char) -> bool {
    c == '0' || c == '1' || c == '2' || c == '3' || c == '4' || c == '5' || c == '6' || c == '7'
        || c == '8' || c == '9' || c == ':' || c == ' ' || c == 'A' || c == 'M' || c == 'P'
}

/// The supported characters in the order the table stores them.
pub open spec fn supported_chars() -> Seq<char> {
    seq!['0', '1', '2', '3', '4', '5', '6', '7', '8', '9', ':', ' ', 'A', 'M', 'P']
}

/// The five blank rows that stand in for an unsupported character.
pub open spec fn blank_glyph() -> Seq<Seq<char>> {
    seq!["       "@, "       "@, "       "@, "       "@, "       "@]
}

/// The five ASCII-art rows of one character; unsupported characters map to
/// the blank glyph.
pub open spec fn glyph_spec(c: char) -> Seq<Seq<char>> {
    if c == '0' {
        seq!["  000  "@, " 0   0 "@, " 0   0 "@, " 0   0 "@, "  000  "@]
    } else if c == '1' {
        seq!["   1   "@, "  11   "@, "   1   "@, "   1   "@, "  111  "@]
    } else if c == '2' {
        seq!["  222  "@, " 2   2 "@, "   2   "@, "  2    "@, " 22222 "@]
    } else if c == '3' {
        seq!["  333  "@, " 3   3 "@, "   33  "@, " 3   3 "@, "  333  "@]
    } else if c == '4' {
        seq![" 4   4 "@, " 4   4 "@, " 44444 "@, "     4 "@, "     4 "@]
    } else if c == '5' {
        seq![" 55555 "@, " 5     "@, " 55555 "@, "     5 "@, " 55555 "@]
    } else if c == '6' {
        seq!["  666  "@, " 6     "@, " 66666 "@, " 6   6 "@, "  666  "@]
    } else if c == '7' {
        seq![" 77777 "@, "    7  "@, "   7   "@, "  7    "@, " 7     "@]
    } else if c == '8' {
        seq!["  888  "@, " 8   8 "@, "  888  "@, " 8   8 "@, "  888  "@]
    } else if c == '9' {
        seq!["  999  "@, " 9   9 "@, "  9999 "@, "     9 "@, "  999  "@]
    } else if c == ':' {
        seq!["       "@, "   7   "@, "       "@, "   7   "@, "       "@]
    } else if c == ' ' {
        seq!["       "@, "       "@, "       "@, "       "@, "       "@]
    } else if c == 'A' {
        seq!["   A   "@, "  A A  "@, " AAAAA "@, " A   A "@, " A   A "@]
    } else if c == 'M' {
        seq![" M   M "@, " MM MM "@, " M M M "@, " M   M "@, " M   M "@]
    } else if c == 'P' {
        seq!["  PPP  "@, " P   P "@, " PPPP  "@, " P     "@, " P     "@]
    } else {
        blank_glyph()
    }
}

/// Law: every glyph — of a supported character or not — has exactly five
/// rows, and every row of every glyph has the same fixed width of seven
/// characters.
pub proof fn lemma_glyph_shape(c: char)
    ensures
        glyph_spec(c).len() == 5,
        forall|i: int| 0 <= i < 5 ==> (#[trigger] glyph_spec(c)[i]).len() == 7,
{
    reveal_strlit("  000  ");
    reveal_strlit(" 0   0 ");
    reveal_strlit("   1   ");
    reveal_strlit("  11   ");
    reveal_strlit("  111  ");
    reveal_strlit("  222  ");
    reveal_strlit(" 2   2 ");
    reveal_strlit("   2   ");
    reveal_strlit("  2    ");
    reveal_strlit(" 22222 ");
    reveal_strlit("  333  ");
    reveal_strlit(" 3   3 ");
    reveal_strlit("   33  ");
    reveal_strlit(" 4   4 ");
    reveal_strlit(" 44444 ");
    reveal_strlit("     4 ");
    reveal_strlit(" 55555 ");
    reveal_strlit(" 5     ");
    reveal_strlit("     5 ");
    reveal_strlit("  666  ");
    reveal_strlit(" 6     ");
    reveal_strlit(" 66666 ");
    reveal_strlit(" 6   6 ");
    reveal_strlit(" 77777 ");
    reveal_strlit("    7  ");
    reveal_strlit("   7   ");
    reveal_strlit("  7    ");
    reveal_strlit(" 7     ");
    reveal_strlit("  888  ");
    reveal_strlit(" 8   8 ");
    reveal_strlit("  999  ");
    reveal_strlit(" 9   9 ");
    reveal_strlit("  9999 ");
    reveal_strlit("     9 ");
    reveal_strlit("       ");
    reveal_strlit("   A   ");
    reveal_strlit("  A A  ");
    reveal_strlit(" AAAAA ");
    reveal_strlit(" A   A ");
    reveal_strlit(" M   M ");
    reveal_strlit(" MM MM ");
    reveal_strlit(" M M M ");
    reveal_strlit("  PPP  ");
    reveal_strlit(" P   P ");
    reveal_strlit(" PPPP  ");
    reveal_strlit(" P     ");
    assert forall|i: int| 0 <= i < 5 implies (#[trigger] glyph_spec(c)[i]).len() == 7 by {
        if i == 0 {
            assert(glyph_spec(c)[0].len() == 7);
        } else if i == 1 {
            assert(glyph_spec(c)[1].len() == 7);
        } else if i == 2 {
            assert(glyph_spec(c)[2].len() == 7);
        } else if i == 3 {
            assert(glyph_spec(c)[3].len() == 7);
        } else {
            assert(glyph_spec(c)[4].len() == 7);
        }
    }
}

/// Law: an unsupported character maps to five blank rows of the same fixed
/// seven-character width as every other glyph.
pub proof fn lemma_unsupported_blank(c: char)
    requires
        !supported_char(c),
    ensures
        glyph_spec(c) == blank_glyph(),
        blank_glyph().len() == 5,
        forall|i: int, j: int|
            0 <= i < 5 && 0 <= j < 7 ==> #[trigger] blank_glyph()[i][j] == ' ',
{
    reveal_strlit("       ");
}

/// The lookup table itself: one entry per supported character, in the order
/// of `supported_chars`, plus the blank glyph handed out for everything else.
pub struct GlyphTable {
    entries: Vec<(char, Vec<String>)>,
    blank: Vec<String>,
}

impl GlyphTable {
    /// The table holds exactly the supported characters, each with its
    /// glyph's rows, and a blank glyph of the same shape.
    pub closed spec fn wf(self) -> bool {
        &&& self.entries@.map_values(|e: (char, Vec<String>)| e.0) == supported_chars()
        &&& forall|k: int|
            0 <= k < self.entries@.len() ==> (#[trigger] self.entries@[k]).1.deep_view()
                == glyph_spec(self.entries@[k].0)
        &&& self.blank.deep_view() == blank_glyph()
    }

    /// Returns the five rows for a character: its own glyph when supported,
    /// the blank glyph otherwise.
    pub fn lookup<'a>(&'a self, c: char) -> (rows: &'a Vec<String>)
        requires
            self.wf(),
        ensures
            rows.deep_view() == glyph_spec(c),
    {
        let n: usize = self.entries.len();
        let mut k: usize = 0;
        while k < n
            invariant
                self.wf(),
                n == self.entries@.len(),
                k <= n,
                forall|j: int| 0 <= j < k ==> (#[trigger] self.entries@[j]).0 != c,
            decreases n - k,
        {
            let entry = &self.entries[k];
            if entry.0 == c {
                return &entry.1;
            }
            k += 1;
        }
        proof {
            assert forall|j: int| 0 <= j < supported_chars().len() implies #[trigger] supported_chars()[j]
                != c by {
                assert(self.entries@.map_values(|e: (char, Vec<String>)| e.0)[j]
                    == self.entries@[j].0);
            }
            assert(supported_chars()[0] != c);
            assert(supported_chars()[1] != c);
            assert(supported_chars()[2] != c);
            assert(supported_chars()[3] != c);
            assert(supported_chars()[4] != c);
            assert(supported_chars()[5] != c);
            assert(supported_chars()[6] != c);
            assert(supported_chars()[7] != c);
            assert(supported_chars()[8] != c);
            assert(supported_chars()[9] != c);
            assert(supported_chars()[10] != c);
            assert(supported_chars()[11] != c);
            assert(supported_chars()[12] != c);
            assert(supported_chars()[13] != c);
            assert(supported_chars()[14] != c);
            assert(!supported_char(c));
        }
        &self.blank
    }
}

/// Builds one glyph's five rows from its row strings.
fn rows5(r0: &str, r1: &str, r2: &str, r3: &str, r4: &str) -> (v: Vec<String>)
    ensures
        v.deep_view() == seq![r0@, r1@, r2@, r3@, r4@],
{
    let mut v: Vec<String> = Vec::new();
    v.push(String::from_str(r0));
    v.push(String::from_str(r1));
    v.push(String::from_str(r2));
    v.push(String::from_str(r3));
    v.push(String::from_str(r4));
    proof {
        assert(v.deep_view() =~= seq![r0@, r1@, r2@, r3@, r4@]);
    }
    v
}

/// Builds the glyph table, one entry per supported character.
pub fn get_ascii_digits() -> (t: GlyphTable)
    ensures
        t.wf(),
{
    let mut entries: Vec<(char, Vec<String>)> = Vec::new();
    entries.push(('0', rows5("  000  ", " 0   0 ", " 0   0 ", " 0   0 ", "  000  ")));
    entries.push(('1', rows5("   1   ", "  11   ", "   1   ", "   1   ", "  111  ")));
    entries.push(('2', rows5("  222  ", " 2   2 ", "   2   ", "  2    ", " 22222 ")));
    entries.push(('3', rows5("  333  ", " 3   3 ", "   33  ", " 3   3 ", "  333  ")));
    entries.push(('4', rows5(" 4   4 ", " 4   4 ", " 44444 ", "     4 ", "     4 ")));
    entries.push(('5', rows5(" 55555 ", " 5     ", " 55555 ", "     5 ", " 55555 ")));
    entries.push(('6', rows5("  666  ", " 6     ", " 66666 ", " 6   6 ", "  666  ")));
    entries.push(('7', rows5(" 77777 ", "    7  ", "   7   ", "  7    ", " 7     ")));
    entries.push(('8', rows5("  888  ", " 8   8 ", "  888  ", " 8   8 ", "  888  ")));
    entries.push(('9', rows5("  999  ", " 9   9 ", "  9999 ", "     9 ", "  999  ")));
    entries.push((':', rows5("       ", "   7   ", "       ", "   7   ", "       ")));
    entries.push((' ', rows5("       ", "       ", "       ", "       ", "       ")));
    entries.push(('A', rows5("   A   ", "  A A  ", " AAAAA ", " A   A ", " A   A ")));
    entries.push(('M', rows5(" M   M ", " MM MM ", " M M M ", " M   M ", " M   M ")));
    entries.push(('P', rows5("  PPP  ", " P   P ", " PPPP  ", " P     ", " P     ")));
    let blank = rows5("       ", "       ", "       ", "       ", "       ");
    let t = GlyphTable { entries, blank };
    proof {
        assert(t.entries@.map_values(|e: (char, Vec<String>)| e.0) =~= supported_chars());
    }
    t
}

} // verus!
