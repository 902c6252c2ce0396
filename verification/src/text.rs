//! Small verified text builders: decimal rendering of integers, the
//! two-digit zero-padded form, millimetre amounts with their native
//! precision, and joining words with single spaces.

use vstd::prelude::*;

verus! {

/// The character of one decimal digit.
pub open spec fn digit_char(d: int) -> char {
    if d == 0 {
        '0'
    } else if d == 1 {
        '1'
    } else if d == 2 {
        '2'
    } else if d == 3 {
        '3'
    } else if d == 4 {
        '4'
    } else if d == 5 {
        '5'
    } else if d == 6 {
        '6'
    } else if d == 7 {
        '7'
    } else if d == 8 {
        '8'
    } else {
        '9'
    }
}

/// The decimal rendering of a non-negative integer, most significant digit
/// first, with no leading zeros (and `0` itself rendered as one digit).
pub open spec fn spec_dec(n: int) -> Seq<char>
    decreases n,
{
    if n < 10 {
        seq![digit_char(n)]
    } else {
        spec_dec(n / 10).push(digit_char(n % 10))
    }
}

/// A value below one hundred rendered as exactly two digits, zero-padded.
pub open spec fn spec_two_dec(n: int) -> Seq<char> {
    seq![digit_char(n / 10), digit_char(n % 10)]
}

/// One decimal digit as a one-character string.
fn digit_str(d: u64) -> (r: &'static str)
    requires
        d < 10,
    ensures
        r@ =~= seq![digit_char(d as int)],
{
    if d == 0 {
        proof { reveal_strlit("0"); }
        "0"
    } else if d == 1 {
        proof { reveal_strlit("1"); }
        "1"
    } else if d == 2 {
        proof { reveal_strlit("2"); }
        "2"
    } else if d == 3 {
        proof { reveal_strlit("3"); }
        "3"
    } else if d == 4 {
        proof { reveal_strlit("4"); }
        "4"
    } else if d == 5 {
        proof { reveal_strlit("5"); }
        "5"
    } else if d == 6 {
        proof { reveal_strlit("6"); }
        "6"
    } else if d == 7 {
        proof { reveal_strlit("7"); }
        "7"
    } else if d == 8 {
        proof { reveal_strlit("8"); }
        "8"
    } else {
        proof { reveal_strlit("9"); }
        "9"
    }
}

/// Render a non-negative integer in decimal.
pub fn fmt_u64(n: u64) -> (r: String)
    ensures
        r@ == spec_dec(n as int),
    decreases n,
{
    if n < 10 {
        let r = String::from_str(digit_str(n));
        proof {
            assert(r@ =~= spec_dec(n as int));
        }
        r
    } else {
        let mut r = fmt_u64(n / 10);
        r.append(digit_str(n % 10));
        proof {
            assert(r@ =~= spec_dec(n as int));
        }
        r
    }
}

/// Render a value below one hundred as two digits, zero-padded.
pub fn fmt_two_dec(n: u64) -> (r: String)
    requires
        n < 100,
    ensures
        r@ == spec_two_dec(n as int),
{
    let mut r = String::from_str(digit_str(n / 10));
    r.append(digit_str(n % 10));
    proof {
        assert(r@ =~= spec_two_dec(n as int));
    }
    r
}

/// A millimetre amount held in hundredths, rendered with its native
/// precision: trailing zero fraction digits are dropped, so two and a half
/// millimetres reads `2.5` and a quarter reads `0.25`.
pub open spec fn spec_mm(cmm: int) -> Seq<char> {
    let whole = cmm / 100;
    let frac = cmm % 100;
    if frac == 0 {
        spec_dec(whole)
    } else if frac % 10 == 0 {
        spec_dec(whole) + seq!['.', digit_char(frac / 10)]
    } else {
        spec_dec(whole) + seq!['.', digit_char(frac / 10), digit_char(frac % 10)]
    }
}

/// Render a millimetre amount held in hundredths.
pub fn fmt_mm(cmm: u32) -> (r: String)
    ensures
        r@ == spec_mm(cmm as int),
{
    let whole: u32 = cmm / 100;
    let frac: u32 = cmm % 100;
    let mut r = fmt_u64(whole as u64);
    if frac == 0 {
        proof {
            assert(r@ =~= spec_mm(cmm as int));
        }
        r
    } else if frac % 10 == 0 {
        proof { reveal_strlit("."); }
        r.append(".");
        r.append(digit_str((frac / 10) as u64));
        proof {
            assert(r@ =~= spec_mm(cmm as int));
        }
        r
    } else {
        proof { reveal_strlit("."); }
        r.append(".");
        r.append(digit_str((frac / 10) as u64));
        r.append(digit_str((frac % 10) as u64));
        proof {
            assert(r@ =~= spec_mm(cmm as int));
        }
        r
    }
}

/// Words joined by single spaces, in order, with no leading or trailing
/// space.
pub open spec fn join_words(ws: Seq<Seq<char>>) -> Seq<char>
    decreases ws.len(),
{
    if ws.len() == 0 {
        Seq::empty()
    } else if ws.len() == 1 {
        ws[0]
    } else {
        join_words(ws.drop_last()) + seq![' '] + ws.last()
    }
}

/// Join the given parts with single spaces.
pub fn join_spaces(parts: &Vec<String>) -> (r: String)
    ensures
        r@ == join_words(parts@.map_values(|s: String| s@)),
{
    let ghost all = parts@.map_values(|s: String| s@);
    let mut r = String::new();
    let mut i: usize = 0;
    while i < parts.len()
        invariant
            i <= parts.len(),
            all == parts@.map_values(|s: String| s@),
            r@ == join_words(all.take(i as int)),
        decreases parts.len() - i,
    {
        if i > 0 {
            proof { reveal_strlit(" "); }
            r.append(" ");
        }
        r.append(parts[i].as_str());
        proof {
            let prefix = all.take(i + 1 as int);
            assert(prefix.drop_last() =~= all.take(i as int));
            assert(prefix.last() == all[i as int]);
            assert(r@ =~= join_words(prefix));
        }
        i = i + 1;
    }
    proof {
        assert(all.take(parts.len() as int) =~= all);
    }
    r
}

} // verus!
