use vstd::prelude::*;
use crate::vector::Vector2;

verus! {

/// Symmetric rectangular world bounds `[-half_width, half_width] x
/// [-half_height, half_height]`, in micro-units.
#[derive(Clone, Copy, Debug, PartialEq, Eq, Structural)]
pub struct Bounds {
    pub half_width: i64,
    pub half_height: i64,
}

impl Bounds {
    /// Half-extents are not negative.
    pub open spec fn wf(self) -> bool {
        0 <= self.half_width && 0 <= self.half_height
    }

    pub fn new(half_width: i64, half_height: i64) -> (r: Bounds)
        ensures
            r.half_width == half_width,
            r.half_height == half_height,
    {
        Bounds { half_width, half_height }
    }
}

/// A particle that moves at constant velocity and bounces off the bounds.
#[derive(Clone, Copy, Debug, PartialEq, Eq, Structural)]
pub struct ReflectingParticle {
    pub position: Vector2,
    pub velocity: Vector2,
}

/// The coordinate `c` lies strictly outside `[-half, half]`.
pub open spec fn beyond(c: int, half: int) -> bool {
    c > half || c < -half
}

/// The velocity component for the next frame, after the coordinate moved to `c`.
pub open spec fn reflected(c: int, v: int, half: int) -> int {
    if beyond(c, half) {
        -v
    } else {
        v
    }
}

/// Position and velocity on one axis after `n` frames.
pub open spec fn axis_state(p: int, v: int, half: int, n: nat) -> (int, int)
    decreases n,
{
    if n == 0 {
        (p, v)
    } else {
        let (q, w) = axis_state(p, v, half, (n - 1) as nat);
        (q + w, reflected(q + w, w, half))
    }
}

/// Number of the first `n` frames after whose move the coordinate was out of bounds.
pub open spec fn crossings(p: int, v: int, half: int, n: nat) -> nat
    decreases n,
{
    if n == 0 {
        0
    } else {
        let (q, w) = axis_state(p, v, half, (n - 1) as nat);
        crossings(p, v, half, (n - 1) as nat) + if beyond(q + w, half) { 1nat } else { 0nat }
    }
}

/// Number of the first `n` frames that changed the velocity component.
pub open spec fn sign_flips(p: int, v: int, half: int, n: nat) -> nat
    decreases n,
{
    if n == 0 {
        0
    } else {
        let before = axis_state(p, v, half, (n - 1) as nat).1;
        let after = axis_state(p, v, half, n).1;
        sign_flips(p, v, half, (n - 1) as nat) + if before != after { 1nat } else { 0nat }
    }
}

pub open spec fn abs(a: int) -> int {
    if a < 0 {
        -a
    } else {
        a
    }
}

/// The coordinate is at most one move past the bounds, and if it is past
/// them the velocity already points back inside.
pub open spec fn near_bounds(c: int, v: int, half: int) -> bool {
    &&& -half - abs(v) <= c <= half + abs(v)
    &&& c > half ==> v < 0
    &&& c < -half ==> v > 0
}

/// `q` is `p` one frame later: translated by the velocity, with each velocity
/// component negated whose new coordinate is outside `b`.
pub open spec fn stepped(p: ReflectingParticle, q: ReflectingParticle, b: Bounds) -> bool {
    &&& q.position.x == p.position.x + p.velocity.x
    &&& q.position.y == p.position.y + p.velocity.y
    &&& q.velocity.x == reflected(q.position.x as int, p.velocity.x as int, b.half_width as int)
    &&& q.velocity.y == reflected(q.position.y as int, p.velocity.y as int, b.half_height as int)
}

impl ReflectingParticle {
    pub fn new(position: Vector2, velocity: Vector2) -> (r: ReflectingParticle)
        ensures
            r.position == position,
            r.velocity == velocity,
    {
        ReflectingParticle { position, velocity }
    }

    /// One frame: translate by the velocity, then negate each velocity
    /// component whose coordinate ended up outside the bounds. The position
    /// itself is not clamped.
    pub fn step(&mut self, bounds: Bounds)
        requires
            bounds.wf(),
            i64::MIN <= old(self).position.x + old(self).velocity.x <= i64::MAX,
            i64::MIN <= old(self).position.y + old(self).velocity.y <= i64::MAX,
            old(self).velocity.x != i64::MIN,
            old(self).velocity.y != i64::MIN,
        ensures
            stepped(*old(self), *final(self), bounds),
    {
        self.position.x = self.position.x + self.velocity.x;
        self.position.y = self.position.y + self.velocity.y;
        if self.position.x > bounds.half_width || self.position.x < -bounds.half_width {
            self.velocity.x = -self.velocity.x;
        }
        if self.position.y > bounds.half_height || self.position.y < -bounds.half_height {
            self.velocity.y = -self.velocity.y;
        }
    }
}

/// Over any number of frames the velocity component keeps its magnitude,
/// changes sign exactly on the frames whose move left the coordinate out of
/// bounds, and so has been negated once per such frame.
pub proof fn lemma_flips_match_crossings(p: int, v: int, half: int, n: nat)
    requires
        v != 0,
    ensures
        sign_flips(p, v, half, n) == crossings(p, v, half, n),
        axis_state(p, v, half, n).1 == if crossings(p, v, half, n) % 2 == 0 { v } else { -v },
    decreases n,
{
    if n > 0 {
        lemma_flips_match_crossings(p, v, half, (n - 1) as nat);
    }
}

/// A frame of `ReflectingParticle::step` is one frame of `axis_state` on each axis,
/// so the laws stated over `axis_state` hold of repeated calls of `step`.
pub proof fn lemma_step_is_axis_frame(p: ReflectingParticle, q: ReflectingParticle, b: Bounds)
    requires
        stepped(p, q, b),
    ensures
        (q.position.x as int, q.velocity.x as int) == axis_state(
            p.position.x as int,
            p.velocity.x as int,
            b.half_width as int,
            1,
        ),
        (q.position.y as int, q.velocity.y as int) == axis_state(
            p.position.y as int,
            p.velocity.y as int,
            b.half_height as int,
            1,
        ),
{
    assert(axis_state(p.position.x as int, p.velocity.x as int, b.half_width as int, 0) == (
    p.position.x as int, p.velocity.x as int));
    assert(axis_state(p.position.y as int, p.velocity.y as int, b.half_height as int, 0) == (
    p.position.y as int, p.velocity.y as int));
}

/// One frame keeps a coordinate near the bounds.
pub proof fn lemma_step_near_bounds(c: int, v: int, half: int)
    requires
        0 <= half,
        near_bounds(c, v, half),
    ensures
        near_bounds(c + v, reflected(c + v, v, half), half),
        abs(reflected(c + v, v, half)) == abs(v),
{
}

/// A particle that starts inside the bounds is never more than one move
/// outside them, on every frame.
pub proof fn lemma_stays_near_bounds(p: int, v: int, half: int, n: nat)
    requires
        0 <= half,
        -half <= p <= half,
    ensures
        near_bounds(axis_state(p, v, half, n).0, axis_state(p, v, half, n).1, half),
        abs(axis_state(p, v, half, n).1) == abs(v),
    decreases n,
{
    if n > 0 {
        lemma_stays_near_bounds(p, v, half, (n - 1) as nat);
        let (q, w) = axis_state(p, v, half, (n - 1) as nat);
        lemma_step_near_bounds(q, w, half);
    }
}

} // verus!
