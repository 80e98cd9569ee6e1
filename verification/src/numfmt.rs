//! Decimal formatting of times: plain decimal numbers, two-digit
//! zero-padded fields, the `HH:MM:SS` form used by the timer and the
//! stopwatch, and the `hh:mm AM/PM` form used by the clock.

use vstd::prelude::*;
use vstd::arithmetic::div_mod::lemma_fundamental_div_mod;
use vstd::arithmetic::div_mod::lemma_fundamental_div_mod_converse;

verus! {

/// The character for one decimal digit value in 0..10.
pub open spec fn dec_digit_char(d: int) -> char {
    if d == 0 {
        '0'
    } else if d == 1 {
        '1'
    } else if d == 2 {
        '2'
    } else if d == 3 {
        '3'
    } else if d == 4 {
        '4'
    } else if d == 5 {
        '5'
    } else if d == 6 {
        '6'
    } else if d == 7 {
        '7'
    } else if d == 8 {
        '8'
    } else {
        '9'
    }
}

/// The decimal rendering of a non-negative number, without padding:
/// most significant digit first, a single `'0'` for zero.
pub open spec fn dec_str(n: int) -> Seq<char>
    decreases n,
{
    if n < 10 {
        seq![dec_digit_char(n)]
    } else {
        dec_str(n / 10).push(dec_digit_char(n % 10))
    }
}

/// The decimal rendering padded with `'0'` to at least two characters,
/// as the `{:02}` format writes it: wider numbers keep their full width.
pub open spec fn pad2_str(n: int) -> Seq<char> {
    if n < 10 {
        seq!['0'] + dec_str(n)
    } else {
        dec_str(n)
    }
}

/// A whole number of seconds in the `HH:MM:SS` form: hours, minutes and
/// seconds each zero-padded to two digits, hours growing wider as needed.
pub open spec fn hms_str(total: int) -> Seq<char> {
    pad2_str(total / 3600) + seq![':'] + pad2_str((total % 3600) / 60) + seq![':'] + pad2_str(
        total % 60,
    )
}

/// The hour of a 12-hour dial for an hour of the day in 0..24: midnight
/// and noon both read 12.
pub open spec fn hour12(h: int) -> int {
    if h % 12 == 0 {
        12
    } else {
        h % 12
    }
}

/// A wall-clock reading in the `hh:mm AM/PM` form: two-digit 12-hour hour,
/// two-digit minute, and the AM marker for hours before noon.
pub open spec fn clock_str(h: int, m: int) -> Seq<char> {
    pad2_str(hour12(h)) + seq![':'] + pad2_str(m) + seq![' '] + (if h < 12 {
        seq!['A', 'M']
    } else {
        seq!['P', 'M']
    })
}

/// A decimal rendering has at least one digit, and at least two from ten up.
proof fn lemma_dec_str_len(n: int)
    ensures
        dec_str(n).len() >= 1,
        n >= 10 ==> dec_str(n).len() >= 2,
    decreases n,
{
    if n >= 10 {
        lemma_dec_str_len(n / 10);
    }
}

/// Different digit values render as different characters.
proof fn lemma_digit_char_injective(a: int, b: int)
    requires
        0 <= a < 10,
        0 <= b < 10,
        a != b,
    ensures
        dec_digit_char(a) != dec_digit_char(b),
{
}

/// A positive number's decimal rendering never starts with a zero.
proof fn lemma_dec_str_leading(n: int)
    requires
        n >= 1,
    ensures
        dec_str(n)[0] != '0',
    decreases n,
{
    if n >= 10 {
        lemma_dec_str_len(n / 10);
        lemma_dec_str_leading(n / 10);
        assert(dec_str(n)[0] == dec_str(n / 10)[0]);
    }
}

/// Different numbers have different decimal renderings.
proof fn lemma_dec_str_injective(x: int, y: int)
    requires
        0 <= x,
        0 <= y,
        x != y,
    ensures
        dec_str(x) != dec_str(y),
    decreases x + y,
{
    if x < 10 && y < 10 {
        lemma_digit_char_injective(x, y);
        assert(dec_str(x)[0] != dec_str(y)[0]);
    } else if x < 10 && y >= 10 {
        lemma_dec_str_len(y);
    } else if x >= 10 && y < 10 {
        lemma_dec_str_len(x);
    } else {
        if dec_str(x) == dec_str(y) {
            lemma_dec_str_len(x / 10);
            lemma_dec_str_len(y / 10);
            assert(dec_str(x).last() == dec_digit_char(x % 10));
            assert(dec_str(y).last() == dec_digit_char(y % 10));
            if x % 10 != y % 10 {
                lemma_digit_char_injective(x % 10, y % 10);
                assert(false);
            } else {
                lemma_fundamental_div_mod(x, 10);
                lemma_fundamental_div_mod(y, 10);
                assert(x / 10 != y / 10);
                lemma_dec_str_injective(x / 10, y / 10);
                assert(dec_str(x).drop_last() =~= dec_str(x / 10));
                assert(dec_str(y).drop_last() =~= dec_str(y / 10));
                assert(false);
            }
        }
    }
}

/// A value under one hundred pads to exactly two characters.
proof fn lemma_pad2_len(n: int)
    requires
        0 <= n < 100,
    ensures
        pad2_str(n).len() == 2,
{
    if n >= 10 {
        assert(dec_str(n).len() == dec_str(n / 10).len() + 1);
    }
}

/// Different numbers have different padded renderings.
proof fn lemma_pad2_injective(x: int, y: int)
    requires
        0 <= x,
        0 <= y,
        x != y,
    ensures
        pad2_str(x) != pad2_str(y),
{
    if x < 10 && y < 10 {
        lemma_digit_char_injective(x, y);
        assert(pad2_str(x)[1] == dec_digit_char(x));
        assert(pad2_str(y)[1] == dec_digit_char(y));
    } else if x >= 10 && y >= 10 {
        lemma_dec_str_injective(x, y);
    } else {
        let lo = if x < 10 {
            x
        } else {
            y
        };
        let hi = if x < 10 {
            y
        } else {
            x
        };
        if pad2_str(lo) == pad2_str(hi) {
            assert(pad2_str(lo)[0] == '0');
            lemma_dec_str_leading(hi);
            assert(pad2_str(hi)[0] == dec_str(hi)[0]);
            assert(false);
        }
    }
}

/// Law: `HH:MM:SS` frames are distinct for distinct second counts — no two
/// different times ever render as the same frame.
pub proof fn lemma_hms_injective(a: int, b: int)
    requires
        0 <= a,
        0 <= b,
        a != b,
    ensures
        hms_str(a) != hms_str(b),
{
    let ha = a / 3600;
    let ra = a % 3600;
    let ma = ra / 60;
    let sa = a % 60;
    let hb = b / 3600;
    let rb = b % 3600;
    let mb = rb / 60;
    let sb = b % 60;
    lemma_fundamental_div_mod(a, 3600);
    lemma_fundamental_div_mod(ra, 60);
    lemma_fundamental_div_mod_converse(a, 60, 60 * ha + ma, ra % 60);
    lemma_fundamental_div_mod(b, 3600);
    lemma_fundamental_div_mod(rb, 60);
    lemma_fundamental_div_mod_converse(b, 60, 60 * hb + mb, rb % 60);
    assert(a == 3600 * ha + 60 * ma + sa);
    assert(b == 3600 * hb + 60 * mb + sb);
    if hms_str(a) == hms_str(b) {
        lemma_pad2_len(ma);
        lemma_pad2_len(sa);
        lemma_pad2_len(mb);
        lemma_pad2_len(sb);
        let la = hms_str(a).len() as int;
        assert(la == pad2_str(ha).len() + 6);
        assert(la == pad2_str(hb).len() + 6);
        assert(pad2_str(ha) =~= hms_str(a).subrange(0, la - 6));
        assert(pad2_str(hb) =~= hms_str(b).subrange(0, la - 6));
        assert(pad2_str(ma) =~= hms_str(a).subrange(la - 5, la - 3));
        assert(pad2_str(mb) =~= hms_str(b).subrange(la - 5, la - 3));
        assert(pad2_str(sa) =~= hms_str(a).subrange(la - 2, la));
        assert(pad2_str(sb) =~= hms_str(b).subrange(la - 2, la));
        if ha != hb {
            lemma_pad2_injective(ha, hb);
        } else if ma != mb {
            lemma_pad2_injective(ma, mb);
        } else {
            assert(sa != sb);
            lemma_pad2_injective(sa, sb);
        }
        assert(false);
    }
}

/// The one-character string for a decimal digit value.
fn digit_str(d: u64) -> (s: &'static str)
    requires
        d < 10,
    ensures
        s@ =~= seq![dec_digit_char(d as int)],
{
    proof {
        reveal_strlit("0");
        reveal_strlit("1");
        reveal_strlit("2");
        reveal_strlit("3");
        reveal_strlit("4");
        reveal_strlit("5");
        reveal_strlit("6");
        reveal_strlit("7");
        reveal_strlit("8");
        reveal_strlit("9");
    }
    if d == 0 {
        "0"
    } else if d == 1 {
        "1"
    } else if d == 2 {
        "2"
    } else if d == 3 {
        "3"
    } else if d == 4 {
        "4"
    } else if d == 5 {
        "5"
    } else if d == 6 {
        "6"
    } else if d == 7 {
        "7"
    } else if d == 8 {
        "8"
    } else {
        "9"
    }
}

/// Writes a number in plain decimal, most significant digit first.
pub fn u64_to_string(n: u64) -> (r: String)
    ensures
        r@ == dec_str(n as int),
    decreases n,
{
    if n < 10 {
        let r = String::from_str(digit_str(n));
        proof {
            assert(r@ =~= dec_str(n as int));
        }
        r
    } else {
        let mut r = u64_to_string(n / 10);
        r.append(digit_str(n % 10));
        proof {
            assert(r@ =~= dec_str(n as int));
        }
        r
    }
}

/// Writes a number zero-padded to at least two digits, as `{:02}` does.
pub fn pad2_string(n: u64) -> (r: String)
    ensures
        r@ == pad2_str(n as int),
{
    if n < 10 {
        let mut r = String::from_str("0");
        r.append(digit_str(n));
        proof {
            reveal_strlit("0");
            assert(r@ =~= pad2_str(n as int));
        }
        r
    } else {
        u64_to_string(n)
    }
}

/// Formats a whole number of seconds as `HH:MM:SS`.
pub fn fmt_hms(total: u64) -> (r: String)
    ensures
        r@ == hms_str(total as int),
{
    let h: u64 = total / 3600;
    let m: u64 = (total % 3600) / 60;
    let s: u64 = total % 60;
    let mut r = pad2_string(h);
    r.append(":");
    let mstr = pad2_string(m);
    r.append(mstr.as_str());
    r.append(":");
    let sstr = pad2_string(s);
    r.append(sstr.as_str());
    proof {
        reveal_strlit(":");
        assert(r@ =~= hms_str(total as int));
    }
    r
}

/// Formats an hour of the day and a minute as a 12-hour `hh:mm AM/PM`
/// reading.
pub fn fmt_clock(hour: u8, minute: u8) -> (r: String)
    requires
        hour < 24,
        minute < 60,
    ensures
        r@ == clock_str(hour as int, minute as int),
{
    let h12: u64 = if hour % 12 == 0 {
        12
    } else {
        (hour % 12) as u64
    };
    let mut r = pad2_string(h12);
    r.append(":");
    let mstr = pad2_string(minute as u64);
    r.append(mstr.as_str());
    r.append(" ");
    if hour < 12 {
        r.append("AM");
    } else {
        r.append("PM");
    }
    proof {
        reveal_strlit(":");
        reveal_strlit(" ");
        reveal_strlit("AM");
        reveal_strlit("PM");
        assert(r@ =~= clock_str(hour as int, minute as int));
    }
    r
}

} // verus!
