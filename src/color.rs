//! Color synthesis: anchor interpolation, blend weights, the radial vignette
//! and per-channel noise colors.
use vstd::prelude::*;

use crate::fixed::{
    byte_spec, clamp_range, clamp_spec, clamp_unit, is_isqrt, isqrt, lerp, lerp_spec, to_byte,
    SCALE,
};

verus! {

/// Largest magnitude of a color component handed to the blending code.
pub const COMPONENT_LIMIT: i64 = 4_000_000_000_000;

/// Lower bound of a noise-derived channel before the vignette: `0.2`.
pub const NOISE_CHANNEL_FLOOR: i64 = 200_000;

/// A color in the Oklab space: lightness and two opponent axes.
#[derive(Clone, Copy, Debug, PartialEq, Eq)]
pub struct Lab {
    pub l: i64,
    pub a: i64,
    pub b: i64,
}

/// A display color before clamping; components may leave `[0, SCALE]`.
#[derive(Clone, Copy, Debug, PartialEq, Eq)]
pub struct Rgb {
    pub r: i64,
    pub g: i64,
    pub b: i64,
}

/// An 8-bit RGBA pixel.
#[derive(Clone, Copy, Debug, PartialEq, Eq)]
pub struct Rgba8 {
    pub r: u8,
    pub g: u8,
    pub b: u8,
    pub a: u8,
}

pub open spec fn component_ok(v: int) -> bool {
    -COMPONENT_LIMIT <= v <= COMPONENT_LIMIT
}

impl Lab {
    pub open spec fn bounded(self) -> bool {
        component_ok(self.l as int) && component_ok(self.a as int) && component_ok(self.b as int)
    }
}

impl Rgb {
    pub open spec fn bounded(self) -> bool {
        component_ok(self.r as int) && component_ok(self.g as int) && component_ok(self.b as int)
    }

    /// Every component lies in the unit interval.
    pub open spec fn in_unit(self) -> bool {
        0 <= self.r <= SCALE && 0 <= self.g <= SCALE && 0 <= self.b <= SCALE
    }
}

/// The channel-wise interpolation that equals `first` at `mult == SCALE`
/// and `second` at `mult == 0`.
pub open spec fn mix_spec(first: Lab, second: Lab, mult: int) -> Lab {
    Lab {
        l: lerp_spec(second.l as int, first.l as int, mult) as i64,
        a: lerp_spec(second.a as int, first.a as int, mult) as i64,
        b: lerp_spec(second.b as int, first.b as int, mult) as i64,
    }
}

/// Progress fraction `1 - gen / stripes`.
pub open spec fn progress_spec(gen: int, stripes: int) -> int {
    SCALE - gen * SCALE / stripes
}

/// The linear ramp `1.6 * mult`, capped at `1`.
pub open spec fn ramp_spec(mult: int) -> int {
    if mult * 8 / 5 > SCALE {
        SCALE as int
    } else {
        mult * 8 / 5
    }
}

/// Vignette factor `clamp(0, 1, (1 - 2 * dist) * sharpness)`, or `1` when disabled.
pub open spec fn vignette_spec(enabled: bool, sharpness: int, dist: int) -> int {
    if !enabled {
        SCALE as int
    } else {
        let num = (SCALE - 2 * dist) * sharpness;
        if num <= 0 {
            0
        } else if num / (SCALE as int) > SCALE {
            SCALE as int
        } else {
            num / (SCALE as int)
        }
    }
}

/// Squared distance of `(x, y)` from the canvas center `(0.5, 0.5)`.
pub open spec fn center_dist_sq(x: int, y: int) -> int {
    (SCALE / 2 - x) * (SCALE / 2 - x) + (SCALE / 2 - y) * (SCALE / 2 - y)
}

/// Distance from the canvas center, rounded down.
pub open spec fn dist_spec(x: int, y: int) -> int {
    choose|r: int| is_isqrt(center_dist_sq(x, y), r)
}

/// An integer square root is unique.
pub proof fn lemma_isqrt_unique(n: int, r1: int, r2: int)
    requires
        is_isqrt(n, r1),
        is_isqrt(n, r2),
    ensures
        r1 == r2,
{
    if r1 < r2 {
        assert((r1 + 1) * (r1 + 1) <= r2 * r2) by (nonlinear_arith)
            requires
                0 <= r1 < r2,
        ;
    } else if r2 < r1 {
        assert((r2 + 1) * (r2 + 1) <= r1 * r1) by (nonlinear_arith)
            requires
                0 <= r2 < r1,
        ;
    }
}

/// Combined blend weight: the ramp of `mult` scaled by the vignette factor.
pub open spec fn weight_spec(mult: int, vignette: int) -> int {
    ramp_spec(mult) * vignette / (SCALE as int)
}

/// One output channel: background blended toward `fg` by `weight`, clamped, to 8 bits.
pub open spec fn blend_spec(bg: int, fg: int, weight: int) -> int {
    byte_spec(clamp_spec(lerp_spec(bg, fg, weight), 0, SCALE as int))
}

/// One noise-derived channel: noise remapped to `[0, 1]`, raised by `floor`,
/// clamped to `[0.2, 1]`, scaled by the vignette factor, to 8 bits.
pub open spec fn noise_channel_spec(noise: int, floor: int, vignette: int) -> int {
    byte_spec(
        clamp_spec((noise + SCALE) / 2 + floor, NOISE_CHANNEL_FLOOR as int, SCALE as int)
            * vignette / (SCALE as int),
    )
}

/// Interpolates between the two anchors channel by channel.
pub fn mix_anchors(first: Lab, second: Lab, mult: i64) -> (r: Lab)
    requires
        first.bounded(),
        second.bounded(),
        0 <= mult <= SCALE,
    ensures
        r == mix_spec(first, second, mult as int),
        mult == SCALE ==> r == first,
        mult == 0 ==> r == second,
{
    Lab {
        l: lerp(second.l, first.l, mult),
        a: lerp(second.a, first.a, mult),
        b: lerp(second.b, first.b, mult),
    }
}

/// Progress fraction of a particle at step `gen` of a budget of `stripes` steps.
pub fn progress(gen: u64, stripes: u64) -> (r: i64)
    requires
        stripes > 0,
        gen <= stripes,
    ensures
        r as int == progress_spec(gen as int, stripes as int),
        0 <= r <= SCALE,
        gen == 0 ==> r == SCALE,
{
    let num: u128 = gen as u128 * SCALE as u128;
    assert(0 <= gen * SCALE <= stripes * SCALE) by (nonlinear_arith)
        requires
            0 <= gen <= stripes,
    ;
    assert(gen * SCALE / (stripes as int) <= SCALE) by (nonlinear_arith)
        requires
            0 <= gen * SCALE <= stripes * SCALE,
            stripes > 0,
    ;
    let q: u128 = num / stripes as u128;
    SCALE - q as i64
}

/// The linear ramp of `mult` scaled by 1.6, capped at 1.
pub fn ramp(mult: i64) -> (r: i64)
    requires
        0 <= mult <= SCALE,
    ensures
        r as int == ramp_spec(mult as int),
        0 <= r <= SCALE,
        mult == SCALE ==> r == SCALE,
{
    let v: i64 = mult * 8 / 5;
    if v > SCALE {
        SCALE
    } else {
        v
    }
}

/// Vignette factor for a distance `dist` from the canvas center.
pub fn vignette(enabled: bool, sharpness: i64, dist: u32) -> (r: i64)
    ensures
        r as int == vignette_spec(enabled, sharpness as int, dist as int),
        0 <= r <= SCALE,
{
    if !enabled {
        return SCALE;
    }
    let base: i128 = SCALE as i128 - 2 * dist as i128;
    assert(-10_000_000_000i128 <= base <= SCALE);
    assert(-10_000_000_000i128 * 0x8000_0000_0000_0000 <= base * sharpness
        <= 10_000_000_000i128 * 0x8000_0000_0000_0000) by (nonlinear_arith)
        requires
            -10_000_000_000i128 <= base <= SCALE,
            -0x8000_0000_0000_0000 <= sharpness < 0x8000_0000_0000_0000,
    ;
    let num: i128 = base * sharpness as i128;
    if num <= 0 {
        0
    } else {
        let q: i128 = num / SCALE as i128;
        if q > SCALE as i128 {
            SCALE
        } else {
            q as i64
        }
    }
}

/// Distance from the canvas center, rounded down, for a position inside
/// the extended bounding box.
pub fn center_distance(x: i64, y: i64) -> (r: u32)
    requires
        -SCALE <= x <= 2 * SCALE,
        -SCALE <= y <= 2 * SCALE,
    ensures
        is_isqrt(center_dist_sq(x as int, y as int), r as int),
        r as int == dist_spec(x as int, y as int),
{
    let dx: i64 = SCALE / 2 - x;
    let dy: i64 = SCALE / 2 - y;
    assert(0 <= dx * dx <= 4 * SCALE * SCALE) by (nonlinear_arith)
        requires
            -2 * SCALE <= dx <= 2 * SCALE,
    ;
    assert(0 <= dy * dy <= 4 * SCALE * SCALE) by (nonlinear_arith)
        requires
            -2 * SCALE <= dy <= 2 * SCALE,
    ;
    let sq: u64 = (dx * dx + dy * dy) as u64;
    let r: u64 = isqrt(sq);
    assert(r < 3 * SCALE) by (nonlinear_arith)
        requires
            r * r <= sq,
            sq <= 8 * SCALE * SCALE,
            r >= 0,
    ;
    proof {
        let d = dist_spec(x as int, y as int);
        assert(is_isqrt(center_dist_sq(x as int, y as int), d));
        lemma_isqrt_unique(center_dist_sq(x as int, y as int), r as int, d);
    }
    r as u32
}

/// Combined blend weight of the ramp and the vignette factor.
pub fn blend_weight(mult: i64, vignette: i64) -> (r: i64)
    requires
        0 <= mult <= SCALE,
        0 <= vignette <= SCALE,
    ensures
        r as int == weight_spec(mult as int, vignette as int),
        0 <= r <= SCALE,
{
    let rm: i64 = ramp(mult);
    assert(0 <= rm * vignette <= SCALE * SCALE) by (nonlinear_arith)
        requires
            0 <= rm <= SCALE,
            0 <= vignette <= SCALE,
    ;
    assert(rm * vignette / (SCALE as int) <= SCALE) by (nonlinear_arith)
        requires
            0 <= rm * vignette <= SCALE * SCALE,
    ;
    rm * vignette / SCALE
}

/// Blends one background channel toward a foreground channel and converts to 8 bits.
pub fn blend_channel(bg: i64, fg: i64, weight: i64) -> (r: u8)
    requires
        component_ok(bg as int),
        component_ok(fg as int),
        0 <= weight <= SCALE,
    ensures
        r as int == blend_spec(bg as int, fg as int, weight as int),
{
    to_byte(clamp_unit(lerp(bg, fg, weight)))
}

/// The pixel drawn by the anchor strategy: the background blended toward the
/// interpolated color by the combined weight, fully opaque.
pub fn anchor_pixel(background: Rgb, color: Rgb, mult: i64, vignette: i64) -> (r: Rgba8)
    requires
        background.bounded(),
        color.bounded(),
        0 <= mult <= SCALE,
        0 <= vignette <= SCALE,
    ensures
        r.r as int == blend_spec(
            background.r as int,
            color.r as int,
            weight_spec(mult as int, vignette as int),
        ),
        r.g as int == blend_spec(
            background.g as int,
            color.g as int,
            weight_spec(mult as int, vignette as int),
        ),
        r.b as int == blend_spec(
            background.b as int,
            color.b as int,
            weight_spec(mult as int, vignette as int),
        ),
        r.a == 255,
{
    let w: i64 = blend_weight(mult, vignette);
    Rgba8 {
        r: blend_channel(background.r, color.r, w),
        g: blend_channel(background.g, color.g, w),
        b: blend_channel(background.b, color.b, w),
        a: 255,
    }
}

/// One channel of the noise strategy.
pub fn noise_channel(noise: i64, floor: i64, vignette: i64) -> (r: u8)
    requires
        -SCALE <= noise <= SCALE,
        component_ok(floor as int),
        0 <= vignette <= SCALE,
    ensures
        r as int == noise_channel_spec(noise as int, floor as int, vignette as int),
{
    let v: i64 = clamp_range((noise + SCALE) / 2 + floor, NOISE_CHANNEL_FLOOR, SCALE);
    assert(0 <= v * vignette <= SCALE * SCALE) by (nonlinear_arith)
        requires
            0 <= v <= SCALE,
            0 <= vignette <= SCALE,
    ;
    assert(v * vignette / (SCALE as int) <= SCALE) by (nonlinear_arith)
        requires
            0 <= v * vignette <= SCALE * SCALE,
    ;
    to_byte(v * vignette / SCALE)
}

/// The pixel drawn by the noise strategy from three channel noise samples, fully opaque.
pub fn noise_pixel(red: i64, green: i64, blue: i64, floor: i64, vignette: i64) -> (r: Rgba8)
    requires
        -SCALE <= red <= SCALE,
        -SCALE <= green <= SCALE,
        -SCALE <= blue <= SCALE,
        component_ok(floor as int),
        0 <= vignette <= SCALE,
    ensures
        r.r as int == noise_channel_spec(red as int, floor as int, vignette as int),
        r.g as int == noise_channel_spec(green as int, floor as int, vignette as int),
        r.b as int == noise_channel_spec(blue as int, floor as int, vignette as int),
        r.a == 255,
{
    Rgba8 {
        r: noise_channel(red, floor, vignette),
        g: noise_channel(green, floor, vignette),
        b: noise_channel(blue, floor, vignette),
        a: 255,
    }
}

/// The opaque pixel of a background color, each component clamped to the unit interval.
pub fn background_pixel(background: Rgb) -> (r: Rgba8)
    ensures
        r.r as int == byte_spec(clamp_spec(background.r as int, 0, SCALE as int)),
        r.g as int == byte_spec(clamp_spec(background.g as int, 0, SCALE as int)),
        r.b as int == byte_spec(clamp_spec(background.b as int, 0, SCALE as int)),
        r.a == 255,
{
    Rgba8 {
        r: to_byte(clamp_unit(background.r)),
        g: to_byte(clamp_unit(background.g)),
        b: to_byte(clamp_unit(background.b)),
        a: 255,
    }
}

/// Opaque black.
pub fn black_pixel() -> (r: Rgba8)
    ensures
        r == (Rgba8 { r: 0, g: 0, b: 0, a: 255 }),
{
    Rgba8 { r: 0, g: 0, b: 0, a: 255 }
}

} // verus!
