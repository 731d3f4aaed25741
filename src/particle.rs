//! The particle advector: a position in normalized coordinates, stepped
//! through the flow field until it leaves the extended box or, under a step
//! budget, runs out of steps.
use vstd::prelude::*;

use crate::canvas::MAX_SIDE;
use crate::fixed::{clamp_range, clamp_spec, div_trunc, lerp, lerp_spec, trunc_div, SCALE};

verus! {

/// Lower edge of the extended bounding box: `-0.2`.
pub const BOX_LOW: i64 = -200_000;

/// Upper edge of the extended bounding box: `1.2`.
pub const BOX_HIGH: i64 = 1_200_000;

/// A full turn in millionths of a radian, rounded down.
pub const FULL_TURN: i64 = 6_283_185;

/// When a particle's trajectory ends.
#[derive(Clone, Copy, Debug, PartialEq, Eq)]
pub enum Termination {
    /// It ends on leaving the box or after this many steps.
    StepBudget(u64),
    /// It ends only on leaving the box.
    BoxOnly,
}

/// A particle: its normalized position and the steps it has taken.
#[derive(Clone, Copy, Debug, PartialEq, Eq)]
pub struct Particle {
    pub x: i64,
    pub y: i64,
    pub gen: u64,
}

pub open spec fn in_box(v: int) -> bool {
    BOX_LOW <= v <= BOX_HIGH
}

/// Whether a particle still takes steps under a termination policy.
pub open spec fn active_spec(p: Particle, policy: Termination) -> bool {
    in_box(p.x as int) && in_box(p.y as int) && match policy {
        Termination::StepBudget(stripes) => p.gen < stripes,
        Termination::BoxOnly => true,
    }
}

/// The particle after one step of `step` units along the direction `(dx, dy)`.
pub open spec fn advanced_spec(
    p: Particle,
    policy: Termination,
    dx: int,
    dy: int,
    step: int,
) -> Particle {
    Particle {
        x: (p.x + trunc_div(dx * step, SCALE as int)) as i64,
        y: (p.y + trunc_div(dy * step, SCALE as int)) as i64,
        gen: match policy {
            Termination::StepBudget(_) => (p.gen + 1) as u64,
            Termination::BoxOnly => p.gen,
        },
    }
}

/// A direction vector, each component in `[-1, 1]`.
pub open spec fn direction_ok(dx: int, dy: int) -> bool {
    -SCALE <= dx <= SCALE && -SCALE <= dy <= SCALE
}

/// A step size of at most one unit.
pub open spec fn step_ok(step: int) -> bool {
    0 <= step <= SCALE
}

/// Step size `1 / max(width, height)`.
pub open spec fn step_size_spec(width: int, height: int) -> int {
    if width >= height {
        (SCALE as int) / width
    } else {
        (SCALE as int) / height
    }
}

/// Heading angle, in millionths of a radian, for a noise sample in `[-1, 1]`
/// and a jitter angle: the noise is mapped to `[0, 2 pi]` and the jitter added.
pub open spec fn heading_spec(noise: int, jitter: int) -> int {
    (noise + SCALE) * FULL_TURN / (2 * SCALE) + jitter
}

/// Pixel coordinates of a normalized position on a `width` by `height`
/// canvas, each rounded toward zero and saturated to the `i32` range.
pub open spec fn pixel_spec(p: Particle, width: int, height: int) -> (int, int) {
    (
        clamp_spec(trunc_div(p.x * width, SCALE as int), i32::MIN as int, i32::MAX as int),
        clamp_spec(trunc_div(p.y * height, SCALE as int), i32::MIN as int, i32::MAX as int),
    )
}

/// A position scaled by a spatial frequency, rounded toward zero.
pub open spec fn scaled_spec(p: Particle, freq: int) -> (int, int) {
    (trunc_div(p.x * freq, SCALE as int), trunc_div(p.y * freq, SCALE as int))
}

/// Steps the particle along `dirs`, one direction per step, while it stays active.
pub open spec fn trace_spec(
    p: Particle,
    policy: Termination,
    dirs: Seq<(int, int)>,
    step: int,
) -> Particle
    decreases dirs.len(),
{
    if dirs.len() == 0 || !active_spec(p, policy) {
        p
    } else {
        trace_spec(
            advanced_spec(p, policy, dirs[0].0, dirs[0].1, step),
            policy,
            dirs.drop_first(),
            step,
        )
    }
}

/// Step size that moves a particle one pixel along the canvas's longer side.
pub fn step_size(width: u32, height: u32) -> (r: i64)
    requires
        width > 0,
        height > 0,
    ensures
        r as int == step_size_spec(width as int, height as int),
        0 <= r <= SCALE,
{
    if width >= height {
        SCALE / width as i64
    } else {
        SCALE / height as i64
    }
}

/// Heading angle for a noise sample and a jitter angle.
pub fn heading(noise: i64, jitter: i64) -> (r: i64)
    requires
        -SCALE <= noise <= SCALE,
        -1_000_000_000_000 <= jitter <= 1_000_000_000_000,
    ensures
        r as int == heading_spec(noise as int, jitter as int),
{
    let n: i64 = noise + SCALE;
    assert(0 <= n * FULL_TURN <= 2 * SCALE * FULL_TURN) by (nonlinear_arith)
        requires
            0 <= n <= 2 * SCALE,
    ;
    assert(n * FULL_TURN / (2 * SCALE as int) <= FULL_TURN) by (nonlinear_arith)
        requires
            0 <= n * FULL_TURN <= 2 * SCALE * FULL_TURN,
    ;
    n * FULL_TURN / (2 * SCALE) + jitter
}

/// A jitter angle drawn from `[-randomness, randomness]` by the fraction `t`.
pub fn jitter(randomness: i64, t: i64) -> (r: i64)
    requires
        0 <= randomness <= 1_000_000_000_000,
        0 <= t <= SCALE,
    ensures
        r as int == lerp_spec(-randomness, randomness as int, t as int),
        -randomness <= r <= randomness,
{
    lerp(-randomness, randomness, t)
}

impl Particle {
    /// A particle at `(x, y)` that has taken no step.
    pub fn new(x: i64, y: i64) -> (r: Particle)
        ensures
            r == (Particle { x, y, gen: 0 }),
    {
        Particle { x, y, gen: 0 }
    }

    /// Whether the particle takes another step.
    pub fn is_active(&self, policy: Termination) -> (r: bool)
        ensures
            r == active_spec(*self, policy),
    {
        let inside = BOX_LOW <= self.x && self.x <= BOX_HIGH && BOX_LOW <= self.y && self.y
            <= BOX_HIGH;
        match policy {
            Termination::StepBudget(stripes) => inside && self.gen < stripes,
            Termination::BoxOnly => inside,
        }
    }

    /// Pixel coordinates of the particle on a `width` by `height` canvas,
    /// each rounded toward zero and saturated to the `i32` range.
    pub fn pixel(&self, width: u32, height: u32) -> (r: (i32, i32))
        requires
            in_box(self.x as int),
            in_box(self.y as int),
        ensures
            (r.0 as int, r.1 as int) == pixel_spec(*self, width as int, height as int),
            width <= MAX_SIDE ==> -(MAX_SIDE as int) <= r.0 <= 2 * MAX_SIDE,
            height <= MAX_SIDE ==> -(MAX_SIDE as int) <= r.1 <= 2 * MAX_SIDE,
    {
        assert(-SCALE * 0x1_0000_0000 <= self.x * width <= 2 * SCALE * 0x1_0000_0000)
            by (nonlinear_arith)
            requires
                BOX_LOW <= self.x <= BOX_HIGH,
                0 <= width < 0x1_0000_0000,
        ;
        assert(-SCALE * 0x1_0000_0000 <= self.y * height <= 2 * SCALE * 0x1_0000_0000)
            by (nonlinear_arith)
            requires
                BOX_LOW <= self.y <= BOX_HIGH,
                0 <= height < 0x1_0000_0000,
        ;
        let px: i64 = div_trunc(self.x * width as i64, SCALE);
        let py: i64 = div_trunc(self.y * height as i64, SCALE);
        assert(-0x1_0000_0000 <= px <= 2 * 0x1_0000_0000) by (nonlinear_arith)
            requires
                px == trunc_div(self.x * width, SCALE as int),
                -SCALE * 0x1_0000_0000 <= self.x * width <= 2 * SCALE * 0x1_0000_0000,
        ;
        assert(-0x1_0000_0000 <= py <= 2 * 0x1_0000_0000) by (nonlinear_arith)
            requires
                py == trunc_div(self.y * height, SCALE as int),
                -SCALE * 0x1_0000_0000 <= self.y * height <= 2 * SCALE * 0x1_0000_0000,
        ;
        assert(width <= MAX_SIDE ==> -(MAX_SIDE as int) <= px <= 2 * MAX_SIDE) by (nonlinear_arith)
            requires
                px == trunc_div(self.x * width, SCALE as int),
                BOX_LOW <= self.x <= BOX_HIGH,
                0 <= width,
        ;
        assert(height <= MAX_SIDE ==> -(MAX_SIDE as int) <= py <= 2 * MAX_SIDE) by (nonlinear_arith)
            requires
                py == trunc_div(self.y * height, SCALE as int),
                BOX_LOW <= self.y <= BOX_HIGH,
                0 <= height,
        ;
        (
            clamp_range(px, i32::MIN as i64, i32::MAX as i64) as i32,
            clamp_range(py, i32::MIN as i64, i32::MAX as i64) as i32,
        )
    }

    /// The position scaled by a spatial frequency: the input of a noise field.
    pub fn scaled(&self, freq: i64) -> (r: (i64, i64))
        requires
            in_box(self.x as int),
            in_box(self.y as int),
            -1_000_000_000_000 <= freq <= 1_000_000_000_000,
        ensures
            (r.0 as int, r.1 as int) == scaled_spec(*self, freq as int),
    {
        assert(-2_000_000_000_000_000_000 <= self.x * freq <= 2_000_000_000_000_000_000)
            by (nonlinear_arith)
            requires
                BOX_LOW <= self.x <= BOX_HIGH,
                -1_000_000_000_000 <= freq <= 1_000_000_000_000,
        ;
        assert(-2_000_000_000_000_000_000 <= self.y * freq <= 2_000_000_000_000_000_000)
            by (nonlinear_arith)
            requires
                BOX_LOW <= self.y <= BOX_HIGH,
                -1_000_000_000_000 <= freq <= 1_000_000_000_000,
        ;
        (div_trunc(self.x * freq, SCALE), div_trunc(self.y * freq, SCALE))
    }

    /// Advances an active particle by one step along `(dx, dy)`.
    pub fn advance(&mut self, policy: Termination, dx: i64, dy: i64, step: i64)
        requires
            active_spec(*old(self), policy),
            direction_ok(dx as int, dy as int),
            step_ok(step as int),
        ensures
            *final(self) == advanced_spec(*old(self), policy, dx as int, dy as int, step as int),
    {
        assert(-SCALE * SCALE <= dx * step <= SCALE * SCALE) by (nonlinear_arith)
            requires
                -SCALE <= dx <= SCALE,
                0 <= step <= SCALE,
        ;
        assert(-SCALE * SCALE <= dy * step <= SCALE * SCALE) by (nonlinear_arith)
            requires
                -SCALE <= dy <= SCALE,
                0 <= step <= SCALE,
        ;
        let mx: i64 = div_trunc(dx * step, SCALE);
        let my: i64 = div_trunc(dy * step, SCALE);
        assert(-SCALE <= mx <= SCALE && -SCALE <= my <= SCALE) by (nonlinear_arith)
            requires
                mx == trunc_div(dx * step, SCALE as int),
                my == trunc_div(dy * step, SCALE as int),
                -SCALE * SCALE <= dx * step <= SCALE * SCALE,
                -SCALE * SCALE <= dy * step <= SCALE * SCALE,
        ;
        self.x = self.x + mx;
        self.y = self.y + my;
        match policy {
            Termination::StepBudget(_) => {
                self.gen = self.gen + 1;
            },
            Termination::BoxOnly => {},
        }
    }
}

} // verus!
