use vstd::prelude::*;
use crate::particle::{Bounds, ReflectingParticle, abs, near_bounds, stepped, lemma_step_near_bounds};
use crate::segment::{Segment, builds};
use crate::vector::{Vector2, UNIT};
use crate::walker::{NoiseWalker, noise_to_axis};

verus! {

/// Largest half-extent, velocity component, phase step and cursor coordinate
/// that a world accepts, in micro-units.
pub const MAX_EXTENT: i64 = 1_000_000_000_000_000_000;

/// Stroke width of the segments drawn each frame.
pub const STROKE_WIDTH: i64 = 5 * UNIT;

/// Why a world configuration was refused.
#[derive(Clone, Copy, Debug, PartialEq, Eq, Structural)]
pub enum ConfigError {
    /// A half-extent is not in `1..=MAX_EXTENT`.
    Extent,
    /// A velocity component is not in `-MAX_EXTENT..=MAX_EXTENT`.
    Velocity,
    /// The phase step is not in `0..=MAX_EXTENT`.
    PhaseStep,
}

/// The three segments rebuilt every frame.
#[derive(Clone, Copy, Debug, PartialEq, Eq, Structural)]
pub struct FrameSegments {
    /// From the top-left corner to the origin.
    pub to_center: Segment,
    /// From the top-left corner to the cursor.
    pub to_cursor: Segment,
    /// From the origin to the cursor.
    pub difference: Segment,
}

/// All simulation state between frames: one bouncing particle, one noise
/// walker, and the last known cursor position.
#[derive(Clone, Copy, Debug, PartialEq, Eq, Structural)]
pub struct World {
    pub bounds: Bounds,
    pub particle: ReflectingParticle,
    pub walker: NoiseWalker,
    pub phase_step: i64,
    pub cursor: Vector2,
}

pub open spec fn within_extent(v: Vector2) -> bool {
    abs(v.x as int) <= MAX_EXTENT && abs(v.y as int) <= MAX_EXTENT
}

pub open spec fn valid_config(bounds: Bounds, velocity: Vector2, phase_step: i64) -> bool {
    &&& 0 < bounds.half_width <= MAX_EXTENT
    &&& 0 < bounds.half_height <= MAX_EXTENT
    &&& within_extent(velocity)
    &&& 0 <= phase_step <= MAX_EXTENT
}

/// The top-left corner of the bounds.
pub open spec fn anchor(b: Bounds) -> Vector2 {
    Vector2 { x: -b.half_width as i64, y: b.half_height }
}

impl World {
    pub open spec fn wf(self) -> bool {
        &&& valid_config(self.bounds, self.particle.velocity, self.phase_step)
        &&& near_bounds(self.particle.position.x as int, self.particle.velocity.x as int, self.bounds.half_width as int)
        &&& near_bounds(self.particle.position.y as int, self.particle.velocity.y as int, self.bounds.half_height as int)
        &&& within_extent(self.cursor)
    }

    /// A world with the particle at the origin moving at `velocity`, a fresh
    /// walker, and the cursor at the origin.
    pub fn new(bounds: Bounds, velocity: Vector2, phase_step: i64) -> (r: Result<World, ConfigError>)
        ensures
            r is Ok <==> valid_config(bounds, velocity, phase_step),
            r matches Err(e) ==> (e == ConfigError::Extent <==> !(0 < bounds.half_width <= MAX_EXTENT
                && 0 < bounds.half_height <= MAX_EXTENT)),
            r matches Err(e) ==> (e == ConfigError::Velocity <==> (0 < bounds.half_width <= MAX_EXTENT
                && 0 < bounds.half_height <= MAX_EXTENT && !within_extent(velocity))),
            r matches Ok(w) ==> {
                &&& w.wf()
                &&& w.bounds == bounds
                &&& w.particle.position == Vector2::zero_spec()
                &&& w.particle.velocity == velocity
                &&& w.walker.position == Vector2::zero_spec()
                &&& w.walker.phase.x == crate::walker::START_PHASE_X
                &&& w.walker.phase.y == 0
                &&& w.phase_step == phase_step
                &&& w.cursor == Vector2::zero_spec()
            },
    {
        if !(0 < bounds.half_width && bounds.half_width <= MAX_EXTENT && 0 < bounds.half_height
            && bounds.half_height <= MAX_EXTENT) {
            return Err(ConfigError::Extent);
        }
        if !(-MAX_EXTENT <= velocity.x && velocity.x <= MAX_EXTENT && -MAX_EXTENT <= velocity.y
            && velocity.y <= MAX_EXTENT) {
            return Err(ConfigError::Velocity);
        }
        if !(0 <= phase_step && phase_step <= MAX_EXTENT) {
            return Err(ConfigError::PhaseStep);
        }
        Ok(World {
            bounds,
            particle: ReflectingParticle::new(Vector2::zero(), velocity),
            walker: NoiseWalker::new(),
            phase_step,
            cursor: Vector2::zero(),
        })
    }

    /// One frame: moves and reflects the particle, advances the walker's
    /// phases, and records the cursor if the host saw one (an absent cursor
    /// keeps the last position). Returns the phases at which the host samples
    /// the noise for `place_walker`.
    pub fn step(&mut self, cursor: Option<Vector2>) -> (r: Vector2)
        requires
            old(self).wf(),
            cursor matches Some(c) ==> within_extent(c),
            old(self).walker.phase.x + old(self).phase_step <= i64::MAX,
            old(self).walker.phase.y + old(self).phase_step <= i64::MAX,
        ensures
            final(self).wf(),
            stepped(old(self).particle, final(self).particle, old(self).bounds),
            final(self).walker.phase.x == old(self).walker.phase.x + old(self).phase_step,
            final(self).walker.phase.y == old(self).walker.phase.y + old(self).phase_step,
            final(self).walker.position == old(self).walker.position,
            final(self).cursor == (match cursor {
                Some(c) => c,
                None => old(self).cursor,
            }),
            final(self).bounds == old(self).bounds,
            final(self).phase_step == old(self).phase_step,
            r == final(self).walker.phase,
    {
        proof {
            let p = self.particle;
            lemma_step_near_bounds(p.position.x as int, p.velocity.x as int, self.bounds.half_width as int);
            lemma_step_near_bounds(p.position.y as int, p.velocity.y as int, self.bounds.half_height as int);
        }
        self.particle.step(self.bounds);
        self.walker.advance(self.phase_step);
        if let Some(c) = cursor {
            self.cursor = c;
        }
        self.walker.phase
    }

    /// Places the walker from the noise samples taken at its current phases.
    pub fn place_walker(&mut self, sample_x: i64, sample_y: i64)
        requires
            old(self).wf(),
            -UNIT <= sample_x <= UNIT,
            -UNIT <= sample_y <= UNIT,
        ensures
            final(self).wf(),
            final(self).walker.position.x == noise_to_axis(sample_x as int, old(self).bounds.half_width as int),
            final(self).walker.position.y == noise_to_axis(sample_y as int, old(self).bounds.half_height as int),
            final(self).walker.phase == old(self).walker.phase,
            final(self).particle == old(self).particle,
            final(self).bounds == old(self).bounds,
            final(self).phase_step == old(self).phase_step,
            final(self).cursor == old(self).cursor,
    {
        self.walker.place(sample_x, sample_y, self.bounds);
    }

    /// The segments for the current frame, rebuilt from the top-left corner,
    /// the origin and the cursor.
    pub fn segments(&self) -> (r: FrameSegments)
        requires
            self.wf(),
        ensures
            builds(r.to_center, anchor(self.bounds), Vector2::zero_spec(), STROKE_WIDTH),
            builds(r.to_cursor, anchor(self.bounds), self.cursor, STROKE_WIDTH),
            builds(r.difference, Vector2::zero_spec(), self.cursor, STROKE_WIDTH),
    {
        let corner = Vector2::new(-self.bounds.half_width, self.bounds.half_height);
        let origin = Vector2::zero();
        FrameSegments {
            to_center: Segment::from_pts(corner, origin, STROKE_WIDTH),
            to_cursor: Segment::from_pts(corner, self.cursor, STROKE_WIDTH),
            difference: Segment::from_pts(origin, self.cursor, STROKE_WIDTH),
        }
    }
}

} // verus!
