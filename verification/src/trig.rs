//! Fixed-point circle arithmetic: an integer square root, a cosine in
//! thousandths over whole degrees, and the division by one thousand that
//! rounds toward zero as a float-to-integer cast would.

use vstd::prelude::*;
use vstd::arithmetic::div_mod::lemma_div_is_ordered;
use vstd::arithmetic::div_mod::lemma_div_pos_is_pos;
use vstd::arithmetic::div_mod::lemma_div_is_ordered_by_denominator;

verus! {

/// Division of a value in thousandths by its scale, rounding toward zero.
pub open spec fn tdiv1000(v: int) -> int {
    if v >= 0 {
        v / 1000
    } else {
        -((-v) / 1000)
    }
}

/// Divides a value in thousandths by its scale, rounding toward zero.
pub fn tdiv1000_i64(v: i64) -> (r: i64)
    requires
        v > i64::MIN,
    ensures
        r == tdiv1000(v as int),
{
    if v >= 0 {
        v / 1000
    } else {
        -((-v) / 1000)
    }
}

/// Rounding toward zero keeps order.
pub proof fn lemma_tdiv1000_mono(a: int, b: int)
    requires
        a <= b,
    ensures
        tdiv1000(a) <= tdiv1000(b),
{
    if 0 <= a {
        lemma_div_is_ordered(a, b, 1000);
    } else if b < 0 {
        lemma_div_is_ordered(-b, -a, 1000);
    } else {
        lemma_div_pos_is_pos(-a, 1000);
        lemma_div_pos_is_pos(b, 1000);
    }
}

/// Rounding toward zero never grows the magnitude beyond the scaled value.
pub proof fn lemma_tdiv1000_bound(v: int, b: int)
    requires
        -b * 1000 <= v <= b * 1000,
        0 <= b,
    ensures
        -b <= tdiv1000(v) <= b,
{
    if v >= 0 {
        lemma_div_is_ordered(v, b * 1000, 1000);
        lemma_div_pos_is_pos(v, 1000);
        assert(b * 1000 / 1000 == b) by (nonlinear_arith);
    } else {
        lemma_div_is_ordered(-v, b * 1000, 1000);
        lemma_div_pos_is_pos(-v, 1000);
        assert(b * 1000 / 1000 == b) by (nonlinear_arith);
    }
}

/// `r` is the integer square root of `n`.
pub open spec fn is_isqrt(n: int, r: int) -> bool {
    0 <= r && r * r <= n && n < (r + 1) * (r + 1)
}

/// The integer square root as a value: the witness the search below finds.
pub open spec fn sqrt_floor(n: int) -> int {
    choose|r: int| is_isqrt(n, r)
}

/// Integer square roots are unique.
pub proof fn lemma_isqrt_unique(n: int, r1: int, r2: int)
    requires
        is_isqrt(n, r1),
        is_isqrt(n, r2),
    ensures
        r1 == r2,
{
    assert(r1 == r2) by (nonlinear_arith)
        requires
            0 <= r1 && r1 * r1 <= n && n < (r1 + 1) * (r1 + 1),
            0 <= r2 && r2 * r2 <= n && n < (r2 + 1) * (r2 + 1),
    ;
}

/// Any witness of the square-root property is the square root.
pub proof fn lemma_sqrt_floor(n: int, r: int)
    requires
        is_isqrt(n, r),
    ensures
        sqrt_floor(n) == r,
{
    assert(is_isqrt(n, sqrt_floor(n))) by {
        assert(exists|x: int| is_isqrt(n, x));
    }
    lemma_isqrt_unique(n, sqrt_floor(n), r);
}

/// The integer square root, by binary search.
pub fn isqrt64(n: u64) -> (r: u64)
    requires
        n < 0x4000000000000000,
    ensures
        is_isqrt(n as int, r as int),
        r as int == sqrt_floor(n as int),
        r <= 0x80000000,
{
    let mut lo: u64 = 0;
    let mut hi: u64 = 0x80000000;
    proof {
        assert((0x80000000int) * 0x80000000 == 0x4000000000000000) by (nonlinear_arith);
    }
    while lo + 1 < hi
        invariant
            lo < hi <= 0x80000000,
            (lo as int) * (lo as int) <= n as int,
            (n as int) < (hi as int) * (hi as int),
        decreases hi - lo,
    {
        let mid = lo + (hi - lo) / 2;
        proof {
            assert((mid as int) * (mid as int) < 0x4000000000000001) by (nonlinear_arith)
                requires
                    mid <= 0x80000000u64,
            ;
        }
        if mid * mid <= n {
            lo = mid;
        } else {
            hi = mid;
        }
    }
    proof {
        lemma_sqrt_floor(n as int, lo as int);
    }
    lo
}

/// Bhaskara's sine approximation in thousandths, exact at 0, 90 and 180,
/// for a whole number of degrees in [0, 180].
pub open spec fn sin_milli_spec(x: int) -> int {
    4000 * (x * (180 - x)) / (40500 - x * (180 - x))
}

/// Cosine in thousandths for a whole number of degrees in [0, 360], folded
/// onto [0, 90] by the usual symmetries.
pub open spec fn cos_milli_spec(d: int) -> int {
    let a = if d <= 180 {
        d
    } else {
        360 - d
    };
    if a <= 90 {
        sin_milli_spec(90 - a)
    } else {
        -sin_milli_spec(a - 90)
    }
}

/// The sine approximation stays within [0, 1000] on [0, 180].
pub proof fn lemma_sin_milli_range(x: int)
    requires
        0 <= x <= 180,
    ensures
        0 <= sin_milli_spec(x) <= 1000,
{
    assert(0 <= x * (180 - x) && x * (180 - x) <= 8100) by (nonlinear_arith)
        requires
            0 <= x <= 180,
    ;
    let p = x * (180 - x);
    lemma_div_pos_is_pos(4000 * p, 40500 - p);
    assert(4000 * p <= 1000 * (40500 - p)) by (nonlinear_arith)
        requires
            0 <= p <= 8100,
    ;
    lemma_div_is_ordered(4000 * p, 1000 * (40500 - p), 40500 - p);
    assert(1000 * (40500 - p) / (40500 - p) == 1000) by (nonlinear_arith)
        requires
            0 <= p <= 8100,
    ;
}

/// The cosine approximation stays within [-1000, 1000] on [0, 360].
pub proof fn lemma_cos_milli_range(d: int)
    requires
        0 <= d <= 360,
    ensures
        -1000 <= cos_milli_spec(d) <= 1000,
{
    let a = if d <= 180 {
        d
    } else {
        360 - d
    };
    if a <= 90 {
        lemma_sin_milli_range(90 - a);
    } else {
        lemma_sin_milli_range(a - 90);
    }
}

/// The sine approximation never decreases on the rising quarter.
proof fn lemma_sin_milli_mono(x1: int, x2: int)
    requires
        0 <= x1 <= x2 <= 90,
    ensures
        sin_milli_spec(x1) <= sin_milli_spec(x2),
{
    assert(0 <= x1 * (180 - x1) <= x2 * (180 - x2) && x2 * (180 - x2) <= 8100)
        by (nonlinear_arith)
        requires
            0 <= x1 <= x2 <= 90,
    ;
    let p1 = x1 * (180 - x1);
    let p2 = x2 * (180 - x2);
    lemma_div_is_ordered(4000 * p1, 4000 * p2, 40500 - p1);
    lemma_div_is_ordered_by_denominator(4000 * p2, 40500 - p2, 40500 - p1);
}

/// The cosine approximation never increases from zero to half a turn.
pub proof fn lemma_cos_milli_mono(d1: int, d2: int)
    requires
        0 <= d1 <= d2 <= 180,
    ensures
        cos_milli_spec(d1) >= cos_milli_spec(d2),
{
    if d2 <= 90 {
        lemma_sin_milli_mono(90 - d2, 90 - d1);
    } else if d1 <= 90 {
        lemma_sin_milli_range(90 - d1);
        lemma_sin_milli_range(d2 - 90);
    } else {
        lemma_sin_milli_mono(d1 - 90, d2 - 90);
    }
}

/// The cosine of zero degrees is exactly one.
pub proof fn lemma_cos_milli_zero()
    ensures
        cos_milli_spec(0) == 1000,
{
    assert(90 * (180 - 90) == 8100) by (nonlinear_arith);
    assert(4000 * 8100int == 32400000) by (nonlinear_arith);
    assert(32400000int / 32400 == 1000) by (nonlinear_arith);
}

/// The cosine of half a turn is exactly minus one.
pub proof fn lemma_cos_milli_half_turn()
    ensures
        cos_milli_spec(180) == -1000,
{
    assert(90 * (180 - 90) == 8100) by (nonlinear_arith);
    assert(4000 * 8100int == 32400000) by (nonlinear_arith);
    assert(32400000int / 32400 == 1000) by (nonlinear_arith);
    assert(sin_milli_spec(90) == 1000);
}

fn sin_milli(x: u64) -> (r: i64)
    requires
        x <= 180,
    ensures
        r == sin_milli_spec(x as int),
        0 <= r <= 1000,
{
    proof {
        assert(0 <= (x as int) * (180 - x as int) <= 8100) by (nonlinear_arith)
            requires
                x <= 180u64,
        ;
    }
    let p = x * (180 - x);
    let r = (4000 * p) / (40500 - p);
    proof {
        lemma_sin_milli_range(x as int);
    }
    r as i64
}

/// The cosine in thousandths of a whole number of degrees in [0, 360].
pub fn cos_milli(d: u64) -> (r: i64)
    requires
        d <= 360,
    ensures
        r == cos_milli_spec(d as int),
        -1000 <= r <= 1000,
{
    let a = if d <= 180 {
        d
    } else {
        360 - d
    };
    if a <= 90 {
        sin_milli(90 - a)
    } else {
        -sin_milli(a - 90)
    }
}

} // verus!
