//! Random draws: the two anchor colors of an image, a particle's starting
//! position and its per-step jitter.
use vstd::prelude::*;

use vstd::arithmetic::div_mod::lemma_mod_multiples_vanish;

use crate::color::COMPONENT_LIMIT;
use crate::fixed::{lerp, lerp_spec, SCALE};
use crate::particle::{jitter, Particle};

verus! {

/// A full hue circle, in millionths of a degree.
pub const HUE_CIRCLE: i64 = 360_000_000;

pub assume_specification<T>[ rand::random::<T> ]() -> (r: T)
    where
        rand::distributions::Standard: rand::distributions::Distribution<T>,
;

/// A color in the Oklch space: lightness, chroma and hue in millionths of a degree.
#[derive(Clone, Copy, Debug, PartialEq, Eq)]
pub struct Lch {
    pub l: i64,
    pub c: i64,
    pub h: i64,
}

/// The intervals from which the anchors are drawn.
#[derive(Clone, Copy, Debug, PartialEq, Eq)]
pub struct AnchorRanges {
    pub luminance: (i64, i64),
    pub chroma: (i64, i64),
    /// Bounds, in degrees, of the amount subtracted from the first hue to
    /// give the second.
    pub hue_offset: (u16, u16),
}

/// Six fractions in `[0, 1)` that decide a pair of anchors.
#[derive(Clone, Copy, Debug, PartialEq, Eq)]
pub struct AnchorDraws {
    pub luminance1: i64,
    pub luminance2: i64,
    pub chroma1: i64,
    pub chroma2: i64,
    pub hue: i64,
    pub offset: i64,
}

pub open spec fn fraction_ok(t: int) -> bool {
    0 <= t < SCALE
}

impl AnchorRanges {
    pub open spec fn valid(self) -> bool {
        &&& -COMPONENT_LIMIT <= self.luminance.0 <= self.luminance.1 <= COMPONENT_LIMIT
        &&& -COMPONENT_LIMIT <= self.chroma.0 <= self.chroma.1 <= COMPONENT_LIMIT
    }
}

impl AnchorDraws {
    pub open spec fn valid(self) -> bool {
        &&& fraction_ok(self.luminance1 as int)
        &&& fraction_ok(self.luminance2 as int)
        &&& fraction_ok(self.chroma1 as int)
        &&& fraction_ok(self.chroma2 as int)
        &&& fraction_ok(self.hue as int)
        &&& fraction_ok(self.offset as int)
    }
}

/// The first hue: the fraction `t` of the full circle.
pub open spec fn first_hue_spec(t: int) -> int {
    t * HUE_CIRCLE / (SCALE as int)
}

/// The second hue: the first less an offset drawn from `[low, high]`
/// degrees, taken modulo the full circle.
pub open spec fn second_hue_spec(h1: int, low: int, high: int, t: int) -> int {
    (h1 - lerp_spec(low * SCALE, high * SCALE, t)) % (HUE_CIRCLE as int)
}

/// The anchor pair that a set of draws selects.
pub open spec fn anchors_spec(ranges: AnchorRanges, d: AnchorDraws) -> (Lch, Lch) {
    let h1 = first_hue_spec(d.hue as int);
    (
        Lch {
            l: lerp_spec(ranges.luminance.0 as int, ranges.luminance.1 as int, d.luminance1 as int)
                as i64,
            c: lerp_spec(ranges.chroma.0 as int, ranges.chroma.1 as int, d.chroma1 as int) as i64,
            h: h1 as i64,
        },
        Lch {
            l: lerp_spec(ranges.luminance.0 as int, ranges.luminance.1 as int, d.luminance2 as int)
                as i64,
            c: lerp_spec(ranges.chroma.0 as int, ranges.chroma.1 as int, d.chroma2 as int) as i64,
            h: second_hue_spec(
                h1,
                ranges.hue_offset.0 as int,
                ranges.hue_offset.1 as int,
                d.offset as int,
            ) as i64,
        },
    )
}

/// The anchor pair selected by `draws`.
pub fn anchors_from_draws(ranges: AnchorRanges, draws: AnchorDraws) -> (r: (Lch, Lch))
    requires
        ranges.valid(),
        draws.valid(),
    ensures
        r == anchors_spec(ranges, draws),
        ranges.luminance.0 <= r.0.l <= ranges.luminance.1,
        ranges.luminance.0 <= r.1.l <= ranges.luminance.1,
        ranges.chroma.0 <= r.0.c <= ranges.chroma.1,
        ranges.chroma.0 <= r.1.c <= ranges.chroma.1,
        0 <= r.0.h < HUE_CIRCLE,
        0 <= r.1.h < HUE_CIRCLE,
{
    let l1 = lerp(ranges.luminance.0, ranges.luminance.1, draws.luminance1);
    let l2 = lerp(ranges.luminance.0, ranges.luminance.1, draws.luminance2);
    let c1 = lerp(ranges.chroma.0, ranges.chroma.1, draws.chroma1);
    let c2 = lerp(ranges.chroma.0, ranges.chroma.1, draws.chroma2);
    assert(0 <= draws.hue * HUE_CIRCLE < SCALE * HUE_CIRCLE) by (nonlinear_arith)
        requires
            0 <= draws.hue < SCALE,
    ;
    assert(draws.hue * HUE_CIRCLE / (SCALE as int) < HUE_CIRCLE) by (nonlinear_arith)
        requires
            0 <= draws.hue * HUE_CIRCLE < SCALE * HUE_CIRCLE,
    ;
    let h1: i64 = draws.hue * HUE_CIRCLE / SCALE;
    let low: i64 = ranges.hue_offset.0 as i64 * SCALE;
    let high: i64 = ranges.hue_offset.1 as i64 * SCALE;
    let off: i64 = lerp(low, high, draws.offset);
    let shifted: i64 = h1 - off + 200 * HUE_CIRCLE;
    assert(shifted >= 0);
    let h2: i64 = shifted % HUE_CIRCLE;
    proof {
        lemma_mod_multiples_vanish(200, h1 - off, HUE_CIRCLE as int);
    }
    (Lch { l: l1, c: c1, h: h1 }, Lch { l: l2, c: c2, h: h2 })
}

/// The fraction that 32 bits stand for: `bits / 2^32`, rounded down.
pub open spec fn fraction_spec(bits: int) -> int {
    bits * SCALE / 0x1_0000_0000
}

/// The fraction in `[0, 1)` that 32 random bits stand for.
pub fn fraction_of_bits(bits: u32) -> (r: i64)
    ensures
        r as int == fraction_spec(bits as int),
        fraction_ok(r as int),
{
    assert(bits * SCALE < 0x1_0000_0000 * SCALE) by (nonlinear_arith)
        requires
            0 <= bits < 0x1_0000_0000,
    ;
    let wide: u64 = bits as u64 * SCALE as u64;
    (wide / 0x1_0000_0000) as i64
}

/// A fraction in `[0, 1)` drawn from the thread's random generator.
pub fn random_fraction() -> (r: i64)
    ensures
        exists|bits: u32| r as int == #[trigger] fraction_spec(bits as int),
        fraction_ok(r as int),
{
    let bits: u32 = rand::random();
    fraction_of_bits(bits)
}

/// Draws the anchor pair of a new image.
pub fn sample_anchors(ranges: AnchorRanges) -> (r: (Lch, Lch))
    requires
        ranges.valid(),
    ensures
        exists|d: AnchorDraws| d.valid() && r == anchors_spec(ranges, d),
{
    let draws = AnchorDraws {
        luminance1: random_fraction(),
        luminance2: random_fraction(),
        chroma1: random_fraction(),
        chroma2: random_fraction(),
        hue: random_fraction(),
        offset: random_fraction(),
    };
    anchors_from_draws(ranges, draws)
}

/// A particle at a random position of the unit square.
pub fn spawn_particle() -> (r: Particle)
    ensures
        fraction_ok(r.x as int),
        fraction_ok(r.y as int),
        r.gen == 0,
{
    let x = random_fraction();
    let y = random_fraction();
    Particle::new(x, y)
}

/// A jitter angle drawn uniformly from `[-randomness, randomness]`.
pub fn random_jitter(randomness: i64) -> (r: i64)
    requires
        0 <= randomness <= 1_000_000_000_000,
    ensures
        exists|t: int| fraction_ok(t) && r == lerp_spec(-randomness, randomness as int, t),
{
    let t = random_fraction();
    jitter(randomness, t)
}

} // verus!
