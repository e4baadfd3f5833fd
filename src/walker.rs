use vstd::prelude::*;
use crate::particle::Bounds;
use crate::range_map::{map_range, map_value, lemma_map_within};
use crate::vector::{Vector2, UNIT};

verus! {

/// Phase of the horizontal noise signal when a walker is created; the
/// vertical one starts at zero, so the two axes sample different stretches.
pub const START_PHASE_X: i64 = 100 * UNIT;

/// A point whose position is read off two noise signals, one per axis,
/// sampled at phases that advance every frame.
#[derive(Clone, Copy, Debug, PartialEq, Eq, Structural)]
pub struct NoiseWalker {
    pub position: Vector2,
    pub phase: Vector2,
}

/// Where a noise sample `s` in `[-UNIT, UNIT]` lands on an axis of half-extent `half`.
pub open spec fn noise_to_axis(s: int, half: int) -> int {
    map_value(s, -(UNIT as int), UNIT as int, -half, half)
}

impl NoiseWalker {
    /// A walker at the origin with phases `(START_PHASE_X, 0)`.
    pub fn new() -> (r: NoiseWalker)
        ensures
            r.position == Vector2::zero_spec(),
            r.phase.x == START_PHASE_X,
            r.phase.y == 0,
    {
        NoiseWalker { position: Vector2::zero(), phase: Vector2 { x: START_PHASE_X, y: 0 } }
    }

    /// Moves both phases forward by `step`; the position is left as it is.
    pub fn advance(&mut self, step: i64)
        requires
            0 <= step,
            old(self).phase.x + step <= i64::MAX,
            old(self).phase.y + step <= i64::MAX,
        ensures
            final(self).phase.x == old(self).phase.x + step,
            final(self).phase.y == old(self).phase.y + step,
            final(self).position == old(self).position,
    {
        self.phase.x = self.phase.x + step;
        self.phase.y = self.phase.y + step;
    }

    /// Sets the position from the noise samples taken at the current phases,
    /// mapping `[-UNIT, UNIT]` linearly onto each axis of the bounds.
    pub fn place(&mut self, sample_x: i64, sample_y: i64, bounds: Bounds)
        requires
            bounds.wf(),
            -UNIT <= sample_x <= UNIT,
            -UNIT <= sample_y <= UNIT,
        ensures
            final(self).position.x == noise_to_axis(sample_x as int, bounds.half_width as int),
            final(self).position.y == noise_to_axis(sample_y as int, bounds.half_height as int),
            -bounds.half_width <= final(self).position.x <= bounds.half_width,
            -bounds.half_height <= final(self).position.y <= bounds.half_height,
            final(self).phase == old(self).phase,
    {
        let hw = bounds.half_width;
        let hh = bounds.half_height;
        proof {
            lemma_map_within(sample_x as int, -(UNIT as int), UNIT as int, -hw, hw as int);
            lemma_map_within(sample_y as int, -(UNIT as int), UNIT as int, -hh, hh as int);
            assert(0 <= (2 * hw) * (sample_x + UNIT) <= (2 * i64::MAX) * (2 * UNIT)) by (nonlinear_arith)
                requires 0 <= hw <= i64::MAX, 0 <= sample_x + UNIT <= 2 * UNIT;
            assert(0 <= (2 * hh) * (sample_y + UNIT) <= (2 * i64::MAX) * (2 * UNIT)) by (nonlinear_arith)
                requires 0 <= hh <= i64::MAX, 0 <= sample_y + UNIT <= 2 * UNIT;
        }
        let x = map_range(sample_x, -UNIT, UNIT, -hw, hw).unwrap();
        let y = map_range(sample_y, -UNIT, UNIT, -hh, hh).unwrap();
        self.position = Vector2 { x, y };
    }
}

} // verus!
