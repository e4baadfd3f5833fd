use vstd::prelude::*;
use vstd::arithmetic::div_mod::{lemma_fundamental_div_mod, lemma_mod_bound};

verus! {

/// The input interval of a range mapping is empty (`in_lo == in_hi`).
#[derive(Clone, Copy, Debug, PartialEq, Eq, Structural)]
pub struct DomainError;

/// `a / b` rounded toward negative infinity, for `b != 0`.
pub open spec fn floor_div(a: int, b: int) -> int {
    if b > 0 {
        a / b
    } else {
        (-a) / (-b)
    }
}

/// Linear remapping of `n` from `[in_lo, in_hi]` onto `[out_lo, out_hi]`,
/// rounded down: `out_lo + (out_hi - out_lo) * (n - in_lo) / (in_hi - in_lo)`.
pub open spec fn map_value(n: int, in_lo: int, in_hi: int, out_lo: int, out_hi: int) -> int {
    out_lo + floor_div((out_hi - out_lo) * (n - in_lo), in_hi - in_lo)
}

/// Machine limits of `map_range`: the intermediate product fits in `i128`
/// and the result fits in `i64`.
pub open spec fn map_fits(n: int, in_lo: int, in_hi: int, out_lo: int, out_hi: int) -> bool {
    &&& i128::MIN < (out_hi - out_lo) * (n - in_lo) <= i128::MAX
    &&& in_lo != in_hi ==> i64::MIN <= map_value(n, in_lo, in_hi, out_lo, out_hi) <= i64::MAX
}

/// `b * q <= a < b * q + b` for `q = floor_div(a, b)` and `b > 0`, and the
/// mirrored bounds for `b < 0`.
pub proof fn lemma_floor_div_bounds(a: int, b: int)
    requires
        b != 0,
    ensures
        b > 0 ==> b * floor_div(a, b) <= a < b * floor_div(a, b) + b,
        b < 0 ==> b * floor_div(a, b) >= a > b * floor_div(a, b) + b,
{
    if b > 0 {
        lemma_fundamental_div_mod(a, b);
        lemma_mod_bound(a, b);
    } else {
        lemma_fundamental_div_mod(-a, -b);
        lemma_mod_bound(-a, -b);
        let q = (-a) / (-b);
        assert(b * q == -((-b) * q)) by (nonlinear_arith);
    }
}

/// Maps `n` linearly from `[in_lo, in_hi]` onto `[out_lo, out_hi]`, rounding
/// down to a whole micro-unit. An empty input interval is a `DomainError`.
pub fn map_range(n: i64, in_lo: i64, in_hi: i64, out_lo: i64, out_hi: i64) -> (r: Result<i64, DomainError>)
    requires
        map_fits(n as int, in_lo as int, in_hi as int, out_lo as int, out_hi as int),
    ensures
        in_lo == in_hi <==> r is Err,
        r is Ok ==> r->Ok_0 == map_value(n as int, in_lo as int, in_hi as int, out_lo as int, out_hi as int),
{
    if in_lo == in_hi {
        return Err(DomainError);
    }
    let num = ((out_hi as i128) - (out_lo as i128)) * ((n as i128) - (in_lo as i128));
    let den = (in_hi as i128) - (in_lo as i128);
    let q = if den > 0 {
        num.checked_div_euclid(den).unwrap()
    } else {
        (-num).checked_div_euclid(-den).unwrap()
    };
    Ok((out_lo as i128 + q) as i64)
}

/// A value of the input interval lands in the output interval.
pub proof fn lemma_map_within(n: int, in_lo: int, in_hi: int, out_lo: int, out_hi: int)
    requires
        in_lo < in_hi,
        in_lo <= n <= in_hi,
        out_lo <= out_hi,
    ensures
        out_lo <= map_value(n, in_lo, in_hi, out_lo, out_hi) <= out_hi,
{
    let d = out_hi - out_lo;
    let b = in_hi - in_lo;
    let num = d * (n - in_lo);
    lemma_floor_div_bounds(num, b);
    let q = floor_div(num, b);
    assert(0 <= num <= d * b) by (nonlinear_arith)
        requires num == d * (n - in_lo), 0 <= d, 0 <= n - in_lo <= b;
    assert(0 <= q <= d) by (nonlinear_arith)
        requires b * q <= num < b * q + b, 0 <= num <= d * b, b > 0;
}

/// Mapping a value of the input interval onto the output interval and back
/// returns it up to rounding: the round trip moves `n` by less than
/// `(in_hi - in_lo) / |out_hi - out_lo| + 1`.
pub proof fn lemma_map_round_trip(n: int, in_lo: int, in_hi: int, out_lo: int, out_hi: int)
    requires
        in_lo < in_hi,
        in_lo <= n <= in_hi,
        out_lo != out_hi,
    ensures
        ({
            let back = map_value(map_value(n, in_lo, in_hi, out_lo, out_hi), out_lo, out_hi, in_lo, in_hi);
            let e = if out_hi > out_lo { out_hi - out_lo } else { out_lo - out_hi };
            let dist = if back >= n { back - n } else { n - back };
            dist * e < (in_hi - in_lo) + e
        }),
{
    let b = in_hi - in_lo;
    let d = out_hi - out_lo;
    let k = n - in_lo;
    let q1 = floor_div(d * k, b);
    lemma_floor_div_bounds(d * k, b);
    let m = out_lo + q1;
    assert(m - out_lo == q1);
    let q2 = floor_div(b * q1, d);
    lemma_floor_div_bounds(b * q1, d);
    let back = in_lo + q2;
    assert(back == map_value(m, out_lo, out_hi, in_lo, in_hi));
    if d > 0 {
        assert(q2 <= k) by (nonlinear_arith)
            requires d * q2 <= b * q1, b * q1 <= d * k, d > 0;
        assert((k - q2) * d < b + d) by (nonlinear_arith)
            requires b * q1 < d * q2 + d, d * k < b * q1 + b;
    } else {
        assert(q2 >= k) by (nonlinear_arith)
            requires b * q1 > d * q2 + d, b * q1 <= d * k, d < 0;
        assert((q2 - k) * (-d) < b + (-d)) by (nonlinear_arith)
            requires d * q2 >= b * q1, d * k < b * q1 + b, d < 0;
    }
}

} // verus!
