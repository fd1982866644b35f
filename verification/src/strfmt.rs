//! Decimal rendering of scaled integers and padding of text to exact
//! character counts.
//!
//! Quantities elsewhere in the crate are fixed-point integers (a value in
//! hundredths is "centi"). The functions here turn them into the strings the
//! tiles show, and pad rows to their fixed widths.

use vstd::prelude::*;
use vstd::string::StringExecFns;
use vstd::string::StrSliceExecFns;
use vstd::arithmetic::div_mod::lemma_multiply_divide_lt;

verus! {

/// Ten to the power `p`.
pub open spec fn pow10(p: nat) -> nat
    decreases p,
{
    if p == 0 {
        1
    } else {
        10 * pow10((p - 1) as nat)
    }
}

/// The powers of ten the length bounds in this crate need.
pub proof fn lemma_pow10_vals()
    ensures
        pow10(3) == 1000,
        pow10(14) == 100000000000000,
{
    reveal_with_fuel(pow10, 15);
}

/// A value below ten to the `p` renders as at most `p` digits.
pub proof fn lemma_dec_digits_len(n: nat, p: nat)
    requires
        1 <= p,
        n < pow10(p),
    ensures
        1 <= dec_digits(n).len() <= p,
    decreases p,
{
    if n >= 10 {
        lemma_multiply_divide_lt(n as int, 10, pow10((p - 1) as nat) as int);
        lemma_dec_digits_len(n / 10, (p - 1) as nat);
    }
}

/// The character for a single decimal digit.
pub open spec fn digit_char(d: int) -> char {
    if d == 0 {
        '0'
    } else if d == 1 {
        '1'
    } else if d == 2 {
        '2'
    } else if d == 3 {
        '3'
    } else if d == 4 {
        '4'
    } else if d == 5 {
        '5'
    } else if d == 6 {
        '6'
    } else if d == 7 {
        '7'
    } else if d == 8 {
        '8'
    } else {
        '9'
    }
}

/// Decimal digits of `n`, most significant first, no sign and no padding.
pub open spec fn dec_digits(n: nat) -> Seq<char>
    decreases n,
{
    if n < 10 {
        seq![digit_char(n as int)]
    } else {
        dec_digits(n / 10).push(digit_char((n % 10) as int))
    }
}

/// Absolute value.
pub open spec fn iabs(v: int) -> int {
    if v < 0 {
        -v
    } else {
        v
    }
}

fn digit_str(d: u64) -> (r: &'static str)
    requires
        d < 10,
    ensures
        r@ == seq![digit_char(d as int)],
{
    proof {
        reveal_strlit("0");
        reveal_strlit("1");
        reveal_strlit("2");
        reveal_strlit("3");
        reveal_strlit("4");
        reveal_strlit("5");
        reveal_strlit("6");
        reveal_strlit("7");
        reveal_strlit("8");
        reveal_strlit("9");
    }
    let r: &'static str = if d == 0 {
        "0"
    } else if d == 1 {
        "1"
    } else if d == 2 {
        "2"
    } else if d == 3 {
        "3"
    } else if d == 4 {
        "4"
    } else if d == 5 {
        "5"
    } else if d == 6 {
        "6"
    } else if d == 7 {
        "7"
    } else if d == 8 {
        "8"
    } else {
        "9"
    };
    proof {
        assert(r@ =~= seq![digit_char(d as int)]);
    }
    r
}

/// The decimal digits of `n`.
pub fn u64_to_string(n: u64) -> (r: String)
    ensures
        r@ == dec_digits(n as nat),
    decreases n,
{
    if n < 10 {
        String::from_str(digit_str(n))
    } else {
        let mut s = u64_to_string(n / 10);
        s.append(digit_str(n % 10));
        proof {
            assert(s@ =~= dec_digits(n as nat));
        }
        s
    }
}

/// A value in hundredths rendered with exactly two decimal places,
/// e.g. -1260 is "-12.60".
pub open spec fn centi_digits(v: int) -> Seq<char> {
    let a = iabs(v);
    (if v < 0 {
        seq!['-']
    } else {
        Seq::<char>::empty()
    }) + dec_digits((a / 100) as nat) + seq!['.', digit_char(a % 100 / 10), digit_char(a % 10)]
}

/// A value in hundredths rendered with trailing zero decimals dropped,
/// as a floating display would show it: -1260 is "-12.6", 300 is "3".
pub open spec fn centi_trim_digits(v: int) -> Seq<char> {
    let a = iabs(v);
    let sign = if v < 0 {
        seq!['-']
    } else {
        Seq::<char>::empty()
    };
    if a % 100 == 0 {
        sign + dec_digits((a / 100) as nat)
    } else if a % 10 == 0 {
        sign + dec_digits((a / 100) as nat) + seq!['.', digit_char(a % 100 / 10)]
    } else {
        sign + dec_digits((a / 100) as nat) + seq!['.', digit_char(a % 100 / 10), digit_char(a % 10)]
    }
}

/// Renders a value in hundredths with exactly two decimal places.
pub fn centi_to_string(v: i64) -> (r: String)
    requires
        v > i64::MIN,
    ensures
        r@ == centi_digits(v as int),
{
    let a: u64 = if v < 0 {
        (-v) as u64
    } else {
        v as u64
    };
    let mut s = if v < 0 {
        let t = String::from_str("-");
        proof {
            reveal_strlit("-");
            assert(t@ =~= seq!['-']);
        }
        t
    } else {
        String::new()
    };
    s.append(u64_to_string(a / 100).as_str());
    s.append(".");
    s.append(digit_str(a % 100 / 10));
    s.append(digit_str(a % 10));
    proof {
        reveal_strlit(".");
        assert(s@ =~= centi_digits(v as int));
    }
    s
}

/// Renders a value in hundredths, dropping trailing zero decimals.
pub fn centi_to_string_trim(v: i64) -> (r: String)
    requires
        v > i64::MIN,
    ensures
        r@ == centi_trim_digits(v as int),
{
    let a: u64 = if v < 0 {
        (-v) as u64
    } else {
        v as u64
    };
    let mut s = if v < 0 {
        let t = String::from_str("-");
        proof {
            reveal_strlit("-");
            assert(t@ =~= seq!['-']);
        }
        t
    } else {
        String::new()
    };
    s.append(u64_to_string(a / 100).as_str());
    if a % 100 != 0 {
        s.append(".");
        s.append(digit_str(a % 100 / 10));
        if a % 10 != 0 {
            s.append(digit_str(a % 10));
        }
    }
    proof {
        reveal_strlit(".");
        assert(s@ =~= centi_trim_digits(v as int));
    }
    s
}

/// A small value in hundredths renders, trimmed, as at most seven
/// characters.
pub proof fn lemma_centi_trim_len_small(v: int)
    requires
        -100000 < v < 100000,
    ensures
        1 <= centi_trim_digits(v).len() <= 7,
{
    lemma_pow10_vals();
    lemma_dec_digits_len((iabs(v) / 100) as nat, 3);
}

/// `n` copies of the character `c`.
pub open spec fn char_rep(c: char, n: nat) -> Seq<char> {
    Seq::new(n, |i| c)
}

/// `s` centered in a field of `w` fill characters; the extra fill character
/// of an odd gap goes to the right.
pub open spec fn pad_center(s: Seq<char>, w: nat, f: char) -> Seq<char> {
    if s.len() >= w {
        s
    } else {
        let l = ((w - s.len()) / 2) as nat;
        char_rep(f, l) + s + char_rep(f, (w - s.len() - l) as nat)
    }
}

/// `s` left-aligned in a field of `w` fill characters.
pub open spec fn pad_right(s: Seq<char>, w: nat, f: char) -> Seq<char> {
    if s.len() >= w {
        s
    } else {
        s + char_rep(f, (w - s.len()) as nat)
    }
}

/// `s` right-aligned in a field of `w` fill characters.
pub open spec fn pad_left(s: Seq<char>, w: nat, f: char) -> Seq<char> {
    if s.len() >= w {
        s
    } else {
        char_rep(f, (w - s.len()) as nat) + s
    }
}

/// A string of `n` copies of the one character of `fill`.
pub fn repeat_str(fill: &str, n: usize) -> (r: String)
    requires
        fill@.len() == 1,
    ensures
        r@ == char_rep(fill@[0], n as nat),
{
    let mut s = String::new();
    let mut i: usize = 0;
    while i < n
        invariant
            i <= n,
            fill@.len() == 1,
            s@ == char_rep(fill@[0], i as nat),
        decreases n - i,
    {
        s.append(fill);
        i = i + 1;
        proof {
            assert(s@ =~= char_rep(fill@[0], i as nat));
        }
    }
    s
}

/// Centers `s` in a field of width `w`, filled with the one character of
/// `fill`; the extra fill character of an odd gap goes to the right.
pub fn center_str(s: &str, w: usize, fill: &str) -> (r: String)
    requires
        fill@.len() == 1,
        s@.len() <= w,
    ensures
        r@ == pad_center(s@, w as nat, fill@[0]),
        r@.len() == w,
{
    let n = s.unicode_len();
    let l = (w - n) / 2;
    let mut out = repeat_str(fill, l);
    out.append(s);
    let rp = repeat_str(fill, w - n - l);
    out.append(rp.as_str());
    proof {
        assert(out@ =~= pad_center(s@, w as nat, fill@[0]));
    }
    out
}

/// Left-aligns `s` in a field of width `w` filled with the one character of
/// `fill`.
pub fn pad_right_str(s: &str, w: usize, fill: &str) -> (r: String)
    requires
        fill@.len() == 1,
        s@.len() <= w,
    ensures
        r@ == pad_right(s@, w as nat, fill@[0]),
        r@.len() == w,
{
    let n = s.unicode_len();
    let mut out = String::from_str(s);
    let rp = repeat_str(fill, w - n);
    out.append(rp.as_str());
    proof {
        assert(out@ =~= pad_right(s@, w as nat, fill@[0]));
    }
    out
}

/// Right-aligns `s` in a field of width `w` filled with the one character of
/// `fill`.
pub fn pad_left_str(s: &str, w: usize, fill: &str) -> (r: String)
    requires
        fill@.len() == 1,
        s@.len() <= w,
    ensures
        r@ == pad_left(s@, w as nat, fill@[0]),
        r@.len() == w,
{
    let n = s.unicode_len();
    let mut out = repeat_str(fill, w - n);
    out.append(s);
    proof {
        assert(out@ =~= pad_left(s@, w as nat, fill@[0]));
    }
    out
}

/// `n` below one hundred rendered as exactly two digits, zero padded.
pub open spec fn two_digits(n: int) -> Seq<char> {
    seq![digit_char(n / 10), digit_char(n % 10)]
}

/// Renders `n` as exactly two digits, zero padded.
pub fn two_digit_string(n: u64) -> (r: String)
    requires
        n < 100,
    ensures
        r@ == two_digits(n as int),
{
    let mut s = String::from_str(digit_str(n / 10));
    s.append(digit_str(n % 10));
    proof {
        assert(s@ =~= two_digits(n as int));
    }
    s
}

} // verus!
