use vstd::prelude::*;

verus! {

/// Number of micro-units in one world unit.
pub const UNIT: i64 = 1_000_000;

/// A 2D vector whose components are counts of micro-units.
#[derive(Clone, Copy, Debug, PartialEq, Eq, Structural)]
pub struct Vector2 {
    pub x: i64,
    pub y: i64,
}

/// `r` is the integer square root of `n`: the largest `r` with `r * r <= n`.
pub open spec fn is_floor_sqrt(r: int, n: int) -> bool {
    0 <= r && r * r <= n && n < (r + 1) * (r + 1)
}

/// Squared Euclidean norm of the vector `(x, y)`.
pub open spec fn norm_sq(x: int, y: int) -> int {
    x * x + y * y
}

impl Vector2 {
    pub fn new(x: i64, y: i64) -> (r: Vector2)
        ensures
            r.x == x,
            r.y == y,
    {
        Vector2 { x, y }
    }

    pub open spec fn zero_spec() -> Vector2 {
        Vector2 { x: 0, y: 0 }
    }

    /// The zero vector.
    pub fn zero() -> (r: Vector2)
        ensures
            r == Vector2::zero_spec(),
    {
        Vector2 { x: 0, y: 0 }
    }

    /// Componentwise sum.
    pub fn add(self, o: Vector2) -> (r: Vector2)
        requires
            i64::MIN <= self.x + o.x <= i64::MAX,
            i64::MIN <= self.y + o.y <= i64::MAX,
        ensures
            r.x == self.x + o.x,
            r.y == self.y + o.y,
    {
        Vector2 { x: self.x + o.x, y: self.y + o.y }
    }

    /// Componentwise difference `self - o`.
    pub fn sub(self, o: Vector2) -> (r: Vector2)
        requires
            i64::MIN <= self.x - o.x <= i64::MAX,
            i64::MIN <= self.y - o.y <= i64::MAX,
        ensures
            r.x == self.x - o.x,
            r.y == self.y - o.y,
    {
        Vector2 { x: self.x - o.x, y: self.y - o.y }
    }

    /// Scales by the fixed-point factor `k` (in micro-units, so `UNIT` is the
    /// identity); each component is rounded down to a whole micro-unit.
    pub fn scale(self, k: i64) -> (r: Vector2)
        requires
            i64::MIN <= (self.x * k) / (UNIT as int) <= i64::MAX,
            i64::MIN <= (self.y * k) / (UNIT as int) <= i64::MAX,
        ensures
            r.x == (self.x * k) / (UNIT as int),
            r.y == (self.y * k) / (UNIT as int),
    {
        proof {
            assert(i64::MIN * i64::MAX <= self.x * k <= i64::MIN * i64::MIN) by (nonlinear_arith);
            assert(i64::MIN * i64::MAX <= self.y * k <= i64::MIN * i64::MIN) by (nonlinear_arith);
        }
        let px = (self.x as i128) * (k as i128);
        let py = (self.y as i128) * (k as i128);
        let qx = px.checked_div_euclid(UNIT as i128).unwrap();
        let qy = py.checked_div_euclid(UNIT as i128).unwrap();
        Vector2 { x: qx as i64, y: qy as i64 }
    }

    /// Euclidean length, rounded down to a whole micro-unit.
    pub fn length(self) -> (r: u64)
        ensures
            is_floor_sqrt(r as int, norm_sq(self.x as int, self.y as int)),
    {
        floor_sqrt(square_sum(self.x, self.y))
    }
}

/// `x * x + y * y`, exactly.
pub fn square_sum(x: i64, y: i64) -> (r: u128)
    ensures
        r == norm_sq(x as int, y as int),
        r <= 0x8000_0000_0000_0000_0000_0000_0000_0000u128,
{
    proof {
        assert(0 <= x * x <= i64::MIN * i64::MIN) by (nonlinear_arith);
        assert(0 <= y * y <= i64::MIN * i64::MIN) by (nonlinear_arith);
    }
    let x2 = (x as i128) * (x as i128);
    let y2 = (y as i128) * (y as i128);
    (x2 as u128) + (y2 as u128)
}

/// Integer square root by bisection.
pub fn floor_sqrt(n: u128) -> (r: u64)
    requires
        n < 0x8000_0000_0000_0000_0000_0000_0000_0001u128,
    ensures
        is_floor_sqrt(r as int, n as int),
{
    let mut lo: u128 = 0;
    let mut hi: u128 = 0x1_0000_0000_0000_0000u128;
    proof {
        assert(0x8000_0000_0000_0000_0000_0000_0000_0001int <= hi * hi) by (nonlinear_arith)
            requires hi == 0x1_0000_0000_0000_0000int;
    }
    while hi - lo > 1
        invariant
            lo < hi <= 0x1_0000_0000_0000_0000u128,
            lo * lo <= n,
            n < hi * hi,
        decreases hi - lo,
    {
        let mid = lo + (hi - lo) / 2;
        assert(mid * mid < 0x1_0000_0000_0000_0000_0000_0000_0000_0000int) by (nonlinear_arith)
            requires mid < 0x1_0000_0000_0000_0000int, 0 <= mid;
        if mid * mid <= n {
            lo = mid;
        } else {
            hi = mid;
        }
    }
    assert(hi == lo + 1);
    lo as u64
}

} // verus!
