//! General properties of the advector and the color synthesizer.
use vstd::prelude::*;

use crate::canvas::{disc_cover, painted};
use crate::color::{
    blend_spec, center_dist_sq, dist_spec, mix_spec, noise_channel_spec,
    ramp_spec, vignette_spec, weight_spec, Lab,
};
use crate::fixed::{byte_spec, clamp_spec, is_isqrt, SCALE};
use crate::particle::{active_spec, trace_spec, Particle, Termination};

verus! {

/// Under a step budget of `stripes`, a particle stops within `stripes - gen`
/// steps whatever directions the flow field gives it.
pub proof fn lemma_budget_ends(p: Particle, stripes: u64, dirs: Seq<(int, int)>, step: int)
    requires
        dirs.len() + p.gen >= stripes,
    ensures
        !active_spec(
            trace_spec(p, Termination::StepBudget(stripes), dirs, step),
            Termination::StepBudget(stripes),
        ),
    decreases dirs.len(),
{
    let policy = Termination::StepBudget(stripes);
    if dirs.len() > 0 && active_spec(p, policy) {
        let q = crate::particle::advanced_spec(p, policy, dirs[0].0, dirs[0].1, step);
        assert(q.gen == p.gen + 1);
        lemma_budget_ends(q, stripes, dirs.drop_first(), step);
    }
}

/// The interpolated color is the first anchor at `mult == 1` and the second
/// at `mult == 0`; in between each channel lies between the anchors' channels.
pub proof fn lemma_mix_endpoints(first: Lab, second: Lab, mult: int)
    requires
        0 <= mult <= SCALE,
    ensures
        mix_spec(first, second, SCALE as int) == first,
        mix_spec(first, second, 0) == second,
        (second.l <= first.l ==> second.l <= mix_spec(first, second, mult).l <= first.l),
        (first.l <= second.l ==> first.l <= mix_spec(first, second, mult).l <= second.l),
        (second.a <= first.a ==> second.a <= mix_spec(first, second, mult).a <= first.a),
        (first.a <= second.a ==> first.a <= mix_spec(first, second, mult).a <= second.a),
        (second.b <= first.b ==> second.b <= mix_spec(first, second, mult).b <= first.b),
        (first.b <= second.b ==> first.b <= mix_spec(first, second, mult).b <= second.b),
{
    lemma_lerp_between(second.l as int, first.l as int, mult);
    lemma_lerp_between(second.a as int, first.a as int, mult);
    lemma_lerp_between(second.b as int, first.b as int, mult);
}

proof fn lemma_lerp_between(a: int, b: int, t: int)
    requires
        0 <= t <= SCALE,
    ensures
        crate::fixed::lerp_spec(a, b, 0) == a,
        crate::fixed::lerp_spec(a, b, SCALE as int) == b,
        a <= b ==> a <= crate::fixed::lerp_spec(a, b, t) <= b,
        b <= a ==> b <= crate::fixed::lerp_spec(a, b, t) <= a,
{
    if b >= a {
        assert(0 <= (b - a) * t / (SCALE as int) <= b - a) by (nonlinear_arith)
            requires
                b >= a,
                0 <= t <= SCALE,
        ;
    } else {
        assert(0 <= (a - b) * t / (SCALE as int) <= a - b) by (nonlinear_arith)
            requires
                a > b,
                0 <= t <= SCALE,
        ;
    }
}

/// The combined blend weight lies in `[0, 1]`, and every channel that the
/// anchor strategy produces from it lies in `[0, 255]`.
pub proof fn lemma_blend_in_range(bg: int, fg: int, mult: int, vignette: int)
    requires
        0 <= mult <= SCALE,
        0 <= vignette <= SCALE,
    ensures
        0 <= weight_spec(mult, vignette) <= SCALE,
        0 <= blend_spec(bg, fg, weight_spec(mult, vignette)) <= 255,
{
    let r = ramp_spec(mult);
    assert(0 <= r <= SCALE);
    assert(0 <= r * vignette / (SCALE as int) <= SCALE) by (nonlinear_arith)
        requires
            0 <= r <= SCALE,
            0 <= vignette <= SCALE,
    ;
    let w = weight_spec(mult, vignette);
    lemma_byte_in_range(clamp_spec(crate::fixed::lerp_spec(bg, fg, w), 0, SCALE as int));
}

/// Every channel that the noise strategy produces lies in `[0, 255]`.
pub proof fn lemma_noise_channel_in_range(noise: int, floor: int, vignette: int)
    requires
        -SCALE <= noise <= SCALE,
        0 <= vignette <= SCALE,
    ensures
        0 <= noise_channel_spec(noise, floor, vignette) <= 255,
{
    let v = clamp_spec((noise + SCALE) / 2 + floor, 200_000, SCALE as int);
    assert(0 <= v * vignette / (SCALE as int) <= SCALE) by (nonlinear_arith)
        requires
            0 <= v <= SCALE,
            0 <= vignette <= SCALE,
    ;
    lemma_byte_in_range(v * vignette / (SCALE as int));
}

proof fn lemma_byte_in_range(v: int)
    requires
        0 <= v <= SCALE,
    ensures
        0 <= byte_spec(v) <= 255,
{
    assert(0 <= v * 255 / (SCALE as int) <= 255) by (nonlinear_arith)
        requires
            0 <= v <= SCALE,
    ;
}

/// With the vignette enabled and a non-negative sharpness, the factor does
/// not grow with the distance from the center; disabled, it is `1` everywhere.
pub proof fn lemma_vignette_monotone(enabled: bool, sharpness: int, d1: int, d2: int)
    requires
        sharpness >= 0,
        d1 <= d2,
    ensures
        vignette_spec(enabled, sharpness, d1) >= vignette_spec(enabled, sharpness, d2),
        !enabled ==> vignette_spec(enabled, sharpness, d1) == SCALE,
{
    if enabled {
        let n1 = (SCALE - 2 * d1) * sharpness;
        let n2 = (SCALE - 2 * d2) * sharpness;
        assert(n2 <= n1) by (nonlinear_arith)
            requires
                sharpness >= 0,
                d1 <= d2,
                n1 == (SCALE - 2 * d1) * sharpness,
                n2 == (SCALE - 2 * d2) * sharpness,
        ;
        assert(n2 / (SCALE as int) <= n1 / (SCALE as int)) by (nonlinear_arith)
            requires
                n2 <= n1,
        ;
    }
}

/// The same law over positions: a position no closer to the center than
/// another gets a factor no larger.
pub proof fn lemma_vignette_monotone_in_position(
    enabled: bool,
    sharpness: int,
    x1: int,
    y1: int,
    x2: int,
    y2: int,
)
    requires
        sharpness >= 0,
        center_dist_sq(x1, y1) <= center_dist_sq(x2, y2),
    ensures
        vignette_spec(enabled, sharpness, dist_spec(x1, y1)) >= vignette_spec(
            enabled,
            sharpness,
            dist_spec(x2, y2),
        ),
{
    lemma_dist_sq_nonneg(x1, y1);
    lemma_dist_sq_nonneg(x2, y2);
    lemma_isqrt_exists(center_dist_sq(x1, y1));
    lemma_isqrt_exists(center_dist_sq(x2, y2));
    let r1 = dist_spec(x1, y1);
    let r2 = dist_spec(x2, y2);
    if r1 > r2 {
        assert((r2 + 1) * (r2 + 1) <= r1 * r1) by (nonlinear_arith)
            requires
                0 <= r2 < r1,
        ;
    }
    lemma_vignette_monotone(enabled, sharpness, r1, r2);
}

proof fn lemma_dist_sq_nonneg(x: int, y: int)
    ensures
        center_dist_sq(x, y) >= 0,
{
    let dx = SCALE / 2 - x;
    let dy = SCALE / 2 - y;
    assert(dx * dx + dy * dy >= 0) by (nonlinear_arith);
}

/// Every non-negative integer has an integer square root.
proof fn lemma_isqrt_exists(n: int)
    requires
        n >= 0,
    ensures
        exists|r: int| #[trigger] is_isqrt(n, r),
    decreases n,
{
    if n == 0 {
        assert(is_isqrt(0, 0));
    } else {
        lemma_isqrt_exists(n - 1);
        let r = choose|r: int| #[trigger] is_isqrt(n - 1, r);
        if (r + 1) * (r + 1) <= n {
            assert(n < (r + 2) * (r + 2)) by (nonlinear_arith)
                requires
                    r >= 0,
                    n - 1 < (r + 1) * (r + 1),
            ;
            assert(is_isqrt(n, r + 1));
        } else {
            assert(is_isqrt(n, r));
        }
    }
}

/// The pixels after painting `draws` (center x, center y, radius, color)
/// onto `before`, in order.
pub open spec fn paint_all(
    before: Map<(int, int), (u8, u8, u8, u8)>,
    draws: Seq<(int, int, int, (u8, u8, u8, u8))>,
) -> Map<(int, int), (u8, u8, u8, u8)>
    decreases draws.len(),
{
    if draws.len() == 0 {
        before
    } else {
        let d = draws.last();
        painted(paint_all(before, draws.drop_last()), disc_cover(d.0, d.1, d.2), d.3)
    }
}

/// The color of the last of `draws` whose disc covers `k`, if any does.
pub open spec fn last_cover(draws: Seq<(int, int, int, (u8, u8, u8, u8))>, k: (int, int)) -> Option<
    (u8, u8, u8, u8),
>
    decreases draws.len(),
{
    if draws.len() == 0 {
        None
    } else if disc_cover(draws.last().0, draws.last().1, draws.last().2).contains(k) {
        Some(draws.last().3)
    } else {
        last_cover(draws.drop_last(), k)
    }
}

/// Painting discs in order keeps the raster's pixel set and leaves each
/// pixel with the color of the last disc that covers it, or with its old
/// value where none does: later discs overwrite earlier ones, nothing is
/// averaged, and the result depends on the starting pixels and the draws alone.
pub proof fn lemma_last_disc_wins(
    before: Map<(int, int), (u8, u8, u8, u8)>,
    draws: Seq<(int, int, int, (u8, u8, u8, u8))>,
    k: (int, int),
)
    ensures
        paint_all(before, draws).dom() == before.dom(),
        before.contains_key(k) ==> paint_all(before, draws)[k] == match last_cover(draws, k) {
            Some(c) => c,
            None => before[k],
        },
    decreases draws.len(),
{
    if draws.len() > 0 {
        let d = draws.last();
        let prev = paint_all(before, draws.drop_last());
        lemma_last_disc_wins(before, draws.drop_last(), k);
        assert(painted(prev, disc_cover(d.0, d.1, d.2), d.3).dom() =~= prev.dom());
    }
}

} // verus!
