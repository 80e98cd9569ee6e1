//! Parsing of the two small pieces of user input the sources need: the
//! timer duration and the mode selector. A duration that is not a plain
//! decimal number the timer can count is coerced to 0, so bad input makes
//! the timer finish immediately instead of failing.

use vstd::prelude::*;

verus! {

/// A decimal digit character `0-9`.
pub open spec fn is_dec_digit(c: char) -> bool {
    48 <= c as int <= 57
}

/// A non-empty string of decimal digits.
pub open spec fn all_dec_digits(s: Seq<char>) -> bool {
    s.len() > 0 && forall|j: int| 0 <= j < s.len() ==> is_dec_digit(#[trigger] s[j])
}

/// The number a string of decimal digits denotes.
pub open spec fn dec_val(s: Seq<char>) -> int
    decreases s.len(),
{
    if s.len() == 0 {
        0
    } else {
        dec_val(s.drop_last()) * 10 + (s.last() as int - 48)
    }
}

/// The duration a duration string denotes: its decimal value when it is a
/// non-empty string of digits whose value the counter can hold, and 0 for
/// anything else.
pub open spec fn seconds_val(s: Seq<char>) -> int {
    if all_dec_digits(s) && dec_val(s) <= u64::MAX {
        dec_val(s)
    } else {
        0
    }
}

/// A digit string's value is never negative.
proof fn lemma_dec_val_nonneg(s: Seq<char>)
    requires
        forall|j: int| 0 <= j < s.len() ==> is_dec_digit(#[trigger] s[j]),
    ensures
        dec_val(s) >= 0,
    decreases s.len(),
{
    if s.len() > 0 {
        lemma_dec_val_nonneg(s.drop_last());
    }
}

/// Extending a digit string to the right never shrinks its value.
proof fn lemma_dec_val_prefix_le(s: Seq<char>, i: int, j: int)
    requires
        forall|k: int| 0 <= k < s.len() ==> is_dec_digit(#[trigger] s[k]),
        0 <= i <= j <= s.len(),
    ensures
        dec_val(s.subrange(0, i)) <= dec_val(s.subrange(0, j)),
    decreases j - i,
{
    if i < j {
        lemma_dec_val_prefix_le(s, i, j - 1);
        let p = s.subrange(0, j - 1);
        assert(s.subrange(0, j).drop_last() =~= p);
        lemma_dec_val_nonneg(p);
    }
}

/// Reads a timer duration: the value of a plain decimal string, and 0 for
/// anything the counter cannot hold — an empty string, a non-digit
/// character, or a value past `u64::MAX`.
pub fn parse_seconds(s: &str) -> (r: u64)
    ensures
        r as int == seconds_val(s@),
{
    let n: usize = s.unicode_len();
    if n == 0 {
        return 0;
    }
    let mut acc: u64 = 0;
    let mut i: usize = 0;
    while i < n
        invariant
            n == s@.len(),
            0 < n,
            i <= n,
            forall|j: int| 0 <= j < i ==> is_dec_digit(#[trigger] s@[j]),
            acc as int == dec_val(s@.subrange(0, i as int)),
        decreases n - i,
    {
        let c = s.get_char(i);
        let x: u32 = c as u32;
        if x < 48 || x > 57 {
            proof {
                assert(!is_dec_digit(s@[i as int]));
            }
            return 0;
        }
        let d: u64 = (x - 48) as u64;
        proof {
            assert(s@.subrange(0, i as int + 1).drop_last() =~= s@.subrange(0, i as int));
            assert(s@.subrange(0, i as int + 1).last() == s@[i as int]);
        }
        if acc > (u64::MAX - d) / 10 {
            proof {
                let over = s@.subrange(0, i as int + 1);
                assert(dec_val(over) == acc as int * 10 + d);
                assert(dec_val(over) > u64::MAX);
                if all_dec_digits(s@) {
                    lemma_dec_val_prefix_le(s@, i as int + 1, n as int);
                    assert(s@.subrange(0, n as int) =~= s@);
                    assert(dec_val(s@) > u64::MAX);
                }
            }
            return 0;
        }
        acc = acc * 10 + d;
        i += 1;
    }
    proof {
        assert(s@.subrange(0, n as int) =~= s@);
    }
    acc
}

/// The three run modes the program offers.
#[derive(Debug, PartialEq, Eq, Structural)]
pub enum Mode {
    Clock,
    Timer,
    Stopwatch,
}

/// The mode a selector string picks, if any: `"1"`, `"2"` and `"3"` pick
/// the clock, the timer and the stopwatch; everything else picks nothing.
pub open spec fn mode_of(s: Seq<char>) -> Option<Mode> {
    if s == seq!['1'] {
        Some(Mode::Clock)
    } else if s == seq!['2'] {
        Some(Mode::Timer)
    } else if s == seq!['3'] {
        Some(Mode::Stopwatch)
    } else {
        None
    }
}

/// Reads the mode selector.
pub fn parse_mode(s: &str) -> (r: Option<Mode>)
    ensures
        r == mode_of(s@),
{
    if s.unicode_len() != 1 {
        proof {
            assert(s@ != seq!['1'] && s@ != seq!['2'] && s@ != seq!['3']);
        }
        return None;
    }
    let c = s.get_char(0);
    if c == '1' {
        proof {
            assert(s@ =~= seq!['1']);
        }
        Some(Mode::Clock)
    } else if c == '2' {
        proof {
            assert(s@ =~= seq!['2']);
        }
        Some(Mode::Timer)
    } else if c == '3' {
        proof {
            assert(s@ =~= seq!['3']);
        }
        Some(Mode::Stopwatch)
    } else {
        proof {
            assert(s@ != seq!['1'] && s@ != seq!['2'] && s@ != seq!['3']);
        }
        None
    }
}

} // verus!
