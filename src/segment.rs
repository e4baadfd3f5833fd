use vstd::prelude::*;
use crate::vector::{Vector2, floor_sqrt, square_sum, is_floor_sqrt, norm_sq};

verus! {

/// Direction of a segment as the single-quadrant arctangent sees it: the
/// rotation is `atan(rise / run)`, with `run > 0`, or a quarter turn for a
/// vertical segment. A segment pointing left gets the rotation of the
/// opposite direction, which draws the same rectangle.
#[derive(Clone, Copy, Debug, PartialEq, Eq, Structural)]
pub enum Slope {
    Vertical,
    Ratio { rise: i64, run: i64 },
}

/// A stroked segment ready to be placed: a rectangle of size
/// `length x stroke_width` centred on `center` and turned by `slope`.
#[derive(Clone, Copy, Debug, PartialEq, Eq, Structural)]
pub struct Segment {
    pub center: Vector2,
    pub length: u64,
    pub stroke_width: i64,
    pub slope: Slope,
}

/// The slope of the offset `(dx, dy)`, with a vertical offset (including the
/// empty one) taken as a quarter turn.
pub open spec fn slope_of(dx: int, dy: int) -> Slope {
    if dx == 0 {
        Slope::Vertical
    } else if dx > 0 {
        Slope::Ratio { rise: dy as i64, run: dx as i64 }
    } else {
        Slope::Ratio { rise: (-dy) as i64, run: (-dx) as i64 }
    }
}

/// `r` is the segment from `start` to `end` of the given stroke width: its
/// length is the distance rounded down, its center the midpoint
/// `start + (end - start) / 2` rounded down, and its slope that of `end - start`.
pub open spec fn builds(r: Segment, start: Vector2, end: Vector2, stroke_width: i64) -> bool {
    &&& is_floor_sqrt(r.length as int, norm_sq(end.x - start.x, end.y - start.y))
    &&& r.center.x == start.x + (end.x - start.x) / 2
    &&& r.center.y == start.y + (end.y - start.y) / 2
    &&& r.stroke_width == stroke_width
    &&& r.slope == slope_of(end.x - start.x, end.y - start.y)
}

/// `start + floor(d / 2)` lies between `start` and `start + d`.
proof fn lemma_half_between(start: int, d: int)
    ensures
        d >= 0 ==> start <= start + d / 2 <= start + d,
        d < 0 ==> start + d <= start + d / 2 <= start,
{
}

impl Segment {
    /// Builds the segment from `start` to `end`: its length (rounded down),
    /// its midpoint `start + (end - start) / 2` (rounded down), and its slope.
    pub fn from_pts(start: Vector2, end: Vector2, stroke_width: i64) -> (r: Segment)
        requires
            i64::MIN < end.x - start.x <= i64::MAX,
            i64::MIN < end.y - start.y <= i64::MAX,
        ensures
            builds(r, start, end, stroke_width),
    {
        let dx = end.x - start.x;
        let dy = end.y - start.y;
        let length = floor_sqrt(square_sum(dx, dy));
        proof {
            lemma_half_between(start.x as int, dx as int);
            lemma_half_between(start.y as int, dy as int);
        }
        let cx = start.x + dx.checked_div_euclid(2).unwrap();
        let cy = start.y + dy.checked_div_euclid(2).unwrap();
        let slope = if dx == 0 {
            Slope::Vertical
        } else if dx > 0 {
            Slope::Ratio { rise: dy, run: dx }
        } else {
            Slope::Ratio { rise: -dy, run: -dx }
        };
        Segment { center: Vector2 { x: cx, y: cy }, length, stroke_width, slope }
    }
}

} // verus!
