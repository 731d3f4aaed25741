//! One image's settings and the per-step work of both color strategies:
//! the color of a particle's current step and the disc it paints.
use vstd::prelude::*;

use crate::anchors::AnchorRanges;
use crate::canvas::{disc_painted, on_raster, Canvas, MAX_SIDE};
use crate::color::{
    anchor_pixel, background_pixel, black_pixel, blend_spec, center_distance,
    component_ok, dist_spec, mix_anchors, mix_spec, noise_channel_spec, noise_pixel, progress,
    progress_spec, vignette, vignette_spec, weight_spec, Lab, Rgb, Rgba8,
};
use crate::fixed::{byte_spec, SCALE};
use crate::particle::{active_spec, in_box, pixel_spec, Particle, Termination};

verus! {

/// How the color of a step is chosen.
#[derive(Clone, Copy, Debug, PartialEq, Eq)]
pub enum Strategy {
    /// Interpolate between two anchor colors, blended over the background;
    /// trajectories end after `stripes` steps.
    Anchors,
    /// Sample one noise field per channel; trajectories end only on leaving the box.
    Noise,
}

/// The settings of one image, reals in fixed point.
#[derive(Clone, Copy, Debug, PartialEq, Eq)]
pub struct Settings {
    pub width: u32,
    pub height: u32,
    /// Spatial frequency of the flow field.
    pub complexity: i64,
    pub particles: u32,
    /// Disc radius in pixels; zero or less paints a minimal mark.
    pub thickness: i32,
    pub background: Rgb,
    /// Largest per-step jitter angle, in millionths of a radian.
    pub randomness: i64,
    pub circle: bool,
    pub circle_sharpness: i64,
    pub anchors: AnchorRanges,
    /// Step budget of the anchor strategy.
    pub stripes: u64,
    /// Spatial frequency of the color noise fields.
    pub color_complexity: i64,
    /// Amount added to each noise-derived channel.
    pub min_color: i64,
}

impl Settings {
    pub open spec fn valid(self) -> bool {
        &&& 0 < self.width <= MAX_SIDE
        &&& 0 < self.height <= MAX_SIDE
        &&& -(MAX_SIDE as int) <= self.thickness <= MAX_SIDE
        &&& self.background.in_unit()
        &&& 0 <= self.randomness <= 1_000_000_000_000
        &&& self.anchors.valid()
        &&& -1_000_000_000_000 <= self.complexity <= 1_000_000_000_000
        &&& -1_000_000_000_000 <= self.color_complexity <= 1_000_000_000_000
        &&& component_ok(self.min_color as int)
    }
}

/// Termination policy of a strategy.
pub open spec fn termination_spec(s: Settings, strategy: Strategy) -> Termination {
    match strategy {
        Strategy::Anchors => Termination::StepBudget(s.stripes),
        Strategy::Noise => Termination::BoxOnly,
    }
}

/// The pixel that fills a fresh canvas under a strategy.
pub open spec fn fill_spec(s: Settings, strategy: Strategy) -> (u8, u8, u8, u8) {
    match strategy {
        Strategy::Anchors => (
            byte_spec(s.background.r as int) as u8,
            byte_spec(s.background.g as int) as u8,
            byte_spec(s.background.b as int) as u8,
            255u8,
        ),
        Strategy::Noise => (0u8, 0u8, 0u8, 255u8),
    }
}

/// Vignette factor at a particle's position.
pub open spec fn vignette_at_spec(s: Settings, p: Particle) -> int {
    vignette_spec(s.circle, s.circle_sharpness as int, dist_spec(p.x as int, p.y as int))
}

/// Color of a step of the anchor strategy, where `rgb` is the display
/// color of the interpolated anchor.
pub open spec fn anchor_color_spec(s: Settings, p: Particle, rgb: Rgb) -> (u8, u8, u8, u8) {
    let w = weight_spec(progress_spec(p.gen as int, s.stripes as int), vignette_at_spec(s, p));
    (
        blend_spec(s.background.r as int, rgb.r as int, w) as u8,
        blend_spec(s.background.g as int, rgb.g as int, w) as u8,
        blend_spec(s.background.b as int, rgb.b as int, w) as u8,
        255u8,
    )
}

/// Color of a step of the noise strategy from three channel noise samples.
pub open spec fn noise_color_spec(s: Settings, p: Particle, red: int, green: int, blue: int) -> (
    u8,
    u8,
    u8,
    u8,
) {
    let v = vignette_at_spec(s, p);
    (
        noise_channel_spec(red, s.min_color as int, v) as u8,
        noise_channel_spec(green, s.min_color as int, v) as u8,
        noise_channel_spec(blue, s.min_color as int, v) as u8,
        255u8,
    )
}

/// The termination policy of a strategy.
pub fn termination(s: &Settings, strategy: Strategy) -> (r: Termination)
    ensures
        r == termination_spec(*s, strategy),
{
    match strategy {
        Strategy::Anchors => Termination::StepBudget(s.stripes),
        Strategy::Noise => Termination::BoxOnly,
    }
}

/// A fresh canvas: the background color under the anchor strategy, opaque
/// black under the noise strategy.
pub fn initial_canvas(s: &Settings, strategy: Strategy) -> (r: Canvas)
    requires
        s.valid(),
    ensures
        r.wf(),
        r.spec_width() == s.width,
        r.spec_height() == s.height,
        forall|k: (int, int)|
            #![trigger r.pixels()[k]]
            on_raster(k, s.width as int, s.height as int) ==> r.pixels()[k] == fill_spec(
                *s,
                strategy,
            ),
{
    let fill = match strategy {
        Strategy::Anchors => background_pixel(s.background),
        Strategy::Noise => black_pixel(),
    };
    Canvas::new(s.width, s.height, fill)
}

/// The vignette factor at an active particle's position.
pub fn vignette_at(s: &Settings, p: &Particle) -> (r: i64)
    requires
        in_box(p.x as int),
        in_box(p.y as int),
    ensures
        r as int == vignette_at_spec(*s, *p),
        0 <= r <= SCALE,
{
    let d = center_distance(p.x, p.y);
    vignette(s.circle, s.circle_sharpness, d)
}

/// The Oklab color between the anchors for a particle's current step: the
/// first anchor at the first step, approaching the second as the budget runs out.
pub fn anchor_lab(s: &Settings, first: Lab, second: Lab, p: &Particle) -> (r: Lab)
    requires
        first.bounded(),
        second.bounded(),
        active_spec(*p, Termination::StepBudget(s.stripes)),
    ensures
        r == mix_spec(first, second, progress_spec(p.gen as int, s.stripes as int)),
        p.gen == 0 ==> r == first,
{
    let mult = progress(p.gen, s.stripes);
    mix_anchors(first, second, mult)
}

/// Color of an anchor-strategy step.
pub fn anchor_color(s: &Settings, p: &Particle, rgb: Rgb) -> (r: Rgba8)
    requires
        s.valid(),
        active_spec(*p, Termination::StepBudget(s.stripes)),
        rgb.bounded(),
    ensures
        r.channels() == anchor_color_spec(*s, *p, rgb),
{
    let mult = progress(p.gen, s.stripes);
    let v = vignette_at(s, p);
    anchor_pixel(s.background, rgb, mult, v)
}

/// Color of a noise-strategy step.
pub fn noise_color(s: &Settings, p: &Particle, red: i64, green: i64, blue: i64) -> (r: Rgba8)
    requires
        s.valid(),
        in_box(p.x as int),
        in_box(p.y as int),
        -SCALE <= red <= SCALE,
        -SCALE <= green <= SCALE,
        -SCALE <= blue <= SCALE,
    ensures
        r.channels() == noise_color_spec(*s, *p, red as int, green as int, blue as int),
{
    let v = vignette_at(s, p);
    noise_pixel(red, green, blue, s.min_color, v)
}

/// Paints the disc of a particle's current step in `color`.
pub fn paint_step(canvas: &mut Canvas, s: &Settings, p: &Particle, color: Rgba8)
    requires
        old(canvas).wf(),
        old(canvas).spec_width() == s.width,
        old(canvas).spec_height() == s.height,
        s.valid(),
        in_box(p.x as int),
        in_box(p.y as int),
    ensures
        final(canvas).wf(),
        final(canvas).spec_width() == s.width,
        final(canvas).spec_height() == s.height,
        disc_painted(
            old(canvas).pixels(),
            final(canvas).pixels(),
            s.width as int,
            s.height as int,
            pixel_spec(*p, s.width as int, s.height as int).0,
            pixel_spec(*p, s.width as int, s.height as int).1,
            s.thickness as int,
            color.channels(),
        ),
{
    let (cx, cy) = p.pixel(s.width, s.height);
    canvas.draw_disc(cx, cy, s.thickness, color);
}

} // verus!
