use flowfield::anchors::{
    anchors_from_draws, fraction_of_bits, random_fraction, random_jitter, sample_anchors, spawn_particle,
    AnchorDraws, AnchorRanges, Lch, HUE_CIRCLE,
};
use flowfield::canvas::Canvas;
use flowfield::color::{
    anchor_pixel, background_pixel, black_pixel, blend_channel, blend_weight, center_distance,
    mix_anchors, noise_channel, noise_pixel, progress, ramp, vignette, Lab, Rgb, Rgba8,
};
use flowfield::fixed::{clamp_range, clamp_unit, div_trunc, isqrt, lerp, to_byte, SCALE};
use flowfield::particle::{heading, jitter, step_size, Particle, Termination, FULL_TURN};
use flowfield::render::{
    anchor_color, anchor_lab, initial_canvas, noise_color, paint_step, termination, vignette_at,
    Settings, Strategy,
};

const BLACK: Rgba8 = Rgba8 { r: 0, g: 0, b: 0, a: 255 };

fn settings(width: u32, height: u32) -> Settings {
    Settings {
        width,
        height,
        complexity: 2 * SCALE,
        particles: 0,
        thickness: 2,
        background: Rgb { r: SCALE, g: 500_000, b: 0 },
        randomness: 100_000,
        circle: false,
        circle_sharpness: SCALE,
        anchors: AnchorRanges {
            luminance: (300_000, 800_000),
            chroma: (0, 200_000),
            hue_offset: (30, 60),
        },
        stripes: 10,
        color_complexity: SCALE,
        min_color: 0,
    }
}

#[test]
fn clamps_to_unit_interval() {
    assert_eq!(clamp_unit(-5), 0);
    assert_eq!(clamp_unit(1_500_000), SCALE);
    assert_eq!(clamp_unit(123), 123);
    assert_eq!(clamp_range(10, 20, 30), 20);
    assert_eq!(clamp_range(40, 20, 30), 30);
}

#[test]
fn bytes_truncate() {
    assert_eq!(to_byte(0), 0);
    assert_eq!(to_byte(SCALE), 255);
    assert_eq!(to_byte(500_000), 127);
    assert_eq!(to_byte(999_999), 254);
}

#[test]
fn division_rounds_toward_zero() {
    assert_eq!(div_trunc(7, 2), 3);
    assert_eq!(div_trunc(-7, 2), -3);
    assert_eq!(div_trunc(-1, 2), 0);
}

#[test]
fn lerp_values() {
    assert_eq!(lerp(0, 100, 250_000), 25);
    assert_eq!(lerp(100, 0, 250_000), 75);
    assert_eq!(lerp(-10, 10, 0), -10);
    assert_eq!(lerp(-10, 10, SCALE), 10);
    assert_eq!(lerp(-10, 10, 500_000), 0);
}

#[test]
fn integer_square_roots() {
    assert_eq!(isqrt(0), 0);
    assert_eq!(isqrt(15), 3);
    assert_eq!(isqrt(16), 4);
    assert_eq!(isqrt(500_000_000_000), 707_106);
    assert_eq!(isqrt(u64::MAX), 4_294_967_295);
}

#[test]
fn mix_hits_anchors_at_endpoints() {
    let first = Lab { l: 700_000, a: -50_000, b: 120_000 };
    let second = Lab { l: 300_000, a: 80_000, b: -20_000 };
    assert_eq!(mix_anchors(first, second, SCALE), first);
    assert_eq!(mix_anchors(first, second, 0), second);
    let mid = mix_anchors(first, second, 500_000);
    assert_eq!(mid, Lab { l: 500_000, a: 15_000, b: 50_000 });
    let near = mix_anchors(first, second, 1);
    assert!((near.l - second.l).abs() <= 1);
}

#[test]
fn progress_fractions() {
    assert_eq!(progress(0, 10), SCALE);
    assert_eq!(progress(5, 10), 500_000);
    assert_eq!(progress(3, 7), 571_429);
    assert_eq!(progress(10, 10), 0);
}

#[test]
fn ramp_is_capped() {
    assert_eq!(ramp(0), 0);
    assert_eq!(ramp(500_000), 800_000);
    assert_eq!(ramp(700_000), SCALE);
    assert_eq!(ramp(SCALE), SCALE);
}

#[test]
fn vignette_disabled_is_one() {
    assert_eq!(vignette(false, SCALE, 0), SCALE);
    assert_eq!(vignette(false, -5, 900_000), SCALE);
}

#[test]
fn vignette_decreases_with_distance() {
    let mut last = SCALE;
    let mut d: u32 = 0;
    while d <= 1_000_000 {
        let v = vignette(true, 3 * SCALE, d);
        assert!(v <= last);
        assert!((0..=SCALE).contains(&v));
        last = v;
        d += 50_000;
    }
    assert_eq!(vignette(true, 3 * SCALE, 250_000), SCALE);
    assert_eq!(vignette(true, SCALE, 250_000), 500_000);
    assert_eq!(vignette(true, SCALE, 600_000), 0);
}

#[test]
fn scenario_vignette_center_and_corner() {
    assert_eq!(center_distance(500_000, 500_000), 0);
    assert_eq!(vignette(true, SCALE, center_distance(500_000, 500_000)), SCALE);
    assert_eq!(center_distance(0, 0), 707_106);
    assert_eq!(vignette(true, SCALE, center_distance(0, 0)), 0);
    let mut s = settings(100, 100);
    s.circle = true;
    let center = Particle::new(500_000, 500_000);
    let corner = Particle::new(0, 0);
    assert_eq!(vignette_at(&s, &center), SCALE);
    assert_eq!(vignette_at(&s, &corner), 0);
    let red = Rgb { r: SCALE, g: 0, b: 0 };
    assert_eq!(anchor_color(&s, &corner, red), background_pixel(s.background));
    assert_eq!(noise_color(&s, &corner, SCALE, SCALE, SCALE), BLACK);
}

#[test]
fn weights_and_blends() {
    assert_eq!(blend_weight(SCALE, SCALE), SCALE);
    assert_eq!(blend_weight(500_000, 500_000), 400_000);
    assert_eq!(blend_weight(SCALE, 0), 0);
    assert_eq!(blend_channel(0, SCALE, 500_000), 127);
    assert_eq!(blend_channel(0, 3 * SCALE, SCALE), 255);
    assert_eq!(blend_channel(SCALE, -SCALE, SCALE), 0);
}

#[test]
fn anchor_pixel_blends_over_background() {
    let bg = Rgb { r: 0, g: 0, b: 0 };
    let white = Rgb { r: SCALE, g: SCALE, b: SCALE };
    assert_eq!(anchor_pixel(bg, white, SCALE, SCALE), Rgba8 { r: 255, g: 255, b: 255, a: 255 });
    assert_eq!(anchor_pixel(bg, white, 0, SCALE), BLACK);
    let wild = Rgb { r: -2 * SCALE, g: 2 * SCALE, b: 250_000 };
    assert_eq!(anchor_pixel(bg, wild, SCALE, SCALE), Rgba8 { r: 0, g: 255, b: 63, a: 255 });
}

#[test]
fn noise_channels() {
    assert_eq!(noise_channel(-SCALE, 0, SCALE), 51);
    assert_eq!(noise_channel(SCALE, 0, SCALE), 255);
    assert_eq!(noise_channel(0, 0, SCALE), 127);
    assert_eq!(noise_channel(0, 100_000, SCALE), 153);
    assert_eq!(noise_channel(SCALE, 0, 0), 0);
    assert_eq!(noise_channel(SCALE, 5 * SCALE, 500_000), 127);
    assert_eq!(noise_pixel(-SCALE, 0, SCALE, 0, SCALE), Rgba8 { r: 51, g: 127, b: 255, a: 255 });
}

#[test]
fn background_and_black_pixels() {
    let p = background_pixel(Rgb { r: SCALE, g: 0, b: 500_000 });
    assert_eq!(p, Rgba8 { r: 255, g: 0, b: 127, a: 255 });
    assert_eq!(black_pixel(), BLACK);
}

#[test]
fn step_sizes_and_headings() {
    assert_eq!(step_size(100, 50), 10_000);
    assert_eq!(step_size(50, 400), 2_500);
    assert_eq!(heading(-SCALE, 0), 0);
    assert_eq!(heading(SCALE, 0), FULL_TURN);
    assert_eq!(heading(0, 0), 3_141_592);
    assert_eq!(heading(0, -100), 3_141_492);
    assert_eq!(jitter(1000, 0), -1000);
    assert_eq!(jitter(1000, SCALE), 1000);
    assert_eq!(jitter(1000, 500_000), 0);
}

#[test]
fn particle_moves_and_counts() {
    let mut p = Particle::new(500_000, 500_000);
    let budget = Termination::StepBudget(3);
    assert!(p.is_active(budget));
    p.advance(budget, SCALE, -SCALE, 10_000);
    assert_eq!(p, Particle { x: 510_000, y: 490_000, gen: 1 });
    p.advance(Termination::BoxOnly, 707_106, 0, 10_000);
    assert_eq!(p, Particle { x: 517_071, y: 490_000, gen: 1 });
    let mut q = Particle::new(100, 0);
    q.advance(Termination::BoxOnly, -SCALE, 0, 150);
    assert_eq!(q.x, -50);
}

#[test]
fn particle_leaves_the_box() {
    assert!(!Particle::new(-200_001, 0).is_active(Termination::BoxOnly));
    assert!(!Particle::new(0, 1_200_001).is_active(Termination::BoxOnly));
    assert!(Particle::new(-200_000, 1_200_000).is_active(Termination::BoxOnly));
    let spent = Particle { x: 0, y: 0, gen: 5 };
    assert!(!spent.is_active(Termination::StepBudget(5)));
    assert!(spent.is_active(Termination::BoxOnly));
}

#[test]
fn budget_ends_trajectory() {
    let policy = Termination::StepBudget(5);
    let mut p = Particle::new(500_000, 500_000);
    let mut steps = 0;
    while p.is_active(policy) {
        p.advance(policy, 0, 0, 10_000);
        steps += 1;
        assert!(steps <= 5);
    }
    assert_eq!(steps, 5);
    let mut none = Particle::new(500_000, 500_000);
    assert!(!none.is_active(Termination::StepBudget(0)));
    none.advance(Termination::BoxOnly, 0, 0, 0);
    assert_eq!(none.gen, 0);
}

#[test]
fn pixel_coordinates_truncate() {
    let p = Particle::new(500_000, 250_000);
    assert_eq!(p.pixel(100, 80), (50, 20));
    let q = Particle::new(-5_000, -15_000);
    assert_eq!(q.pixel(100, 100), (0, -1));
    let r = Particle::new(1_199_999, 999_999);
    assert_eq!(r.pixel(10, 10), (11, 9));
}

#[test]
fn scaled_positions() {
    let p = Particle::new(500_000, -250_000);
    assert_eq!(p.scaled(3 * SCALE), (1_500_000, -750_000));
    assert_eq!(p.scaled(1), (0, 0));
}

#[test]
fn anchors_from_fixed_draws() {
    let ranges = AnchorRanges {
        luminance: (0, SCALE),
        chroma: (0, 400_000),
        hue_offset: (30, 60),
    };
    let zero = AnchorDraws {
        luminance1: 0,
        luminance2: 0,
        chroma1: 0,
        chroma2: 0,
        hue: 0,
        offset: 0,
    };
    let (a, b) = anchors_from_draws(ranges, zero);
    assert_eq!(a, Lch { l: 0, c: 0, h: 0 });
    assert_eq!(b, Lch { l: 0, c: 0, h: 330 * SCALE });
    let draws = AnchorDraws {
        luminance1: 500_000,
        luminance2: 250_000,
        chroma1: 500_000,
        chroma2: 750_000,
        hue: 500_000,
        offset: 500_000,
    };
    let (a, b) = anchors_from_draws(ranges, draws);
    assert_eq!(a, Lch { l: 500_000, c: 200_000, h: 180 * SCALE });
    assert_eq!(b, Lch { l: 250_000, c: 300_000, h: 135 * SCALE });
}

#[test]
fn fractions_from_bits() {
    assert_eq!(fraction_of_bits(0), 0);
    assert_eq!(fraction_of_bits(1 << 31), 500_000);
    assert_eq!(fraction_of_bits(1 << 30), 250_000);
    assert_eq!(fraction_of_bits(u32::MAX), 999_999);
}

#[test]
fn second_hue_wraps_below_zero() {
    let ranges = AnchorRanges {
        luminance: (0, SCALE),
        chroma: (0, SCALE),
        hue_offset: (10, 10),
    };
    let draws = AnchorDraws {
        luminance1: 0,
        luminance2: 0,
        chroma1: 0,
        chroma2: 0,
        hue: 12_500,
        offset: 0,
    };
    let (a, b) = anchors_from_draws(ranges, draws);
    assert_eq!(a.h, 4_500_000);
    assert_eq!(b.h, 354_500_000);
}

#[test]
fn random_draws_stay_in_range() {
    let ranges = settings(10, 10).anchors;
    for _ in 0..200 {
        let t = random_fraction();
        assert!((0..SCALE).contains(&t));
        let p = spawn_particle();
        assert!((0..SCALE).contains(&p.x) && (0..SCALE).contains(&p.y) && p.gen == 0);
        let j = random_jitter(1000);
        assert!((-1000..=1000).contains(&j));
        let (a, b) = sample_anchors(ranges);
        for c in [a, b] {
            assert!((300_000..=800_000).contains(&c.l));
            assert!((0..=200_000).contains(&c.c));
            assert!((0..HUE_CIRCLE).contains(&c.h));
        }
    }
}

#[test]
fn canvas_fill_and_discs() {
    let fill = Rgba8 { r: 1, g: 2, b: 3, a: 255 };
    let red = Rgba8 { r: 255, g: 0, b: 0, a: 255 };
    let mut c = Canvas::new(20, 10, fill);
    assert_eq!(c.width(), 20);
    assert_eq!(c.height(), 10);
    c.draw_disc(5, 5, 2, red);
    assert_eq!(c.pixel(5, 5), red);
    assert_eq!(c.pixel(7, 5), red);
    assert_eq!(c.pixel(8, 5), fill);
    assert_eq!(c.pixel(19, 9), fill);
    c.draw_disc(15, 5, -1, red);
    assert_eq!(c.pixel(15, 5), fill);
    c.draw_disc(15, 5, 0, red);
    assert_eq!(c.pixel(15, 5), red);
    assert_eq!(c.pixel(16, 5), fill);
    c.draw_disc(-50, -50, 3, red);
    c.draw_disc(0, 0, 1, fill);
    assert_eq!(c.pixel(0, 0), fill);
    let bytes = c.to_bytes();
    assert_eq!(bytes.len(), 4 * 20 * 10);
    assert_eq!(&bytes[0..4], &[1, 2, 3, 255]);
    let at = 4 * (5 * 20 + 5);
    assert_eq!(&bytes[at..at + 4], &[255, 0, 0, 255]);
}

#[test]
fn later_discs_overwrite() {
    let fill = BLACK;
    let red = Rgba8 { r: 255, g: 0, b: 0, a: 255 };
    let blue = Rgba8 { r: 0, g: 0, b: 255, a: 255 };
    let mut c = Canvas::new(10, 10, fill);
    c.draw_disc(5, 5, 2, red);
    c.draw_disc(6, 5, 1, blue);
    assert_eq!(c.pixel(6, 5), blue);
    assert_eq!(c.pixel(4, 5), red);
}

#[test]
fn scenario_no_particles_gives_background() {
    let s = settings(100, 100);
    assert_eq!(s.particles, 0);
    let c = initial_canvas(&s, Strategy::Anchors);
    let bg = Rgba8 { r: 255, g: 127, b: 0, a: 255 };
    for y in 0..100 {
        for x in 0..100 {
            assert_eq!(c.pixel(x, y), bg);
        }
    }
    let n = initial_canvas(&s, Strategy::Noise);
    for y in 0..100 {
        for x in 0..100 {
            assert_eq!(n.pixel(x, y), BLACK);
        }
    }
}

#[test]
fn scenario_one_particle_one_step() {
    let mut s = settings(100, 100);
    s.particles = 1;
    s.stripes = 1;
    s.thickness = 3;
    let policy = termination(&s, Strategy::Anchors);
    assert_eq!(policy, Termination::StepBudget(1));
    assert_eq!(termination(&s, Strategy::Noise), Termination::BoxOnly);
    let first = Lab { l: 600_000, a: 100_000, b: -50_000 };
    let second = Lab { l: 200_000, a: 0, b: 0 };
    let mut canvas = initial_canvas(&s, Strategy::Anchors);
    let mut p = Particle::new(300_000, 400_000);
    let mut drawn = 0;
    while p.is_active(policy) {
        let lab = anchor_lab(&s, first, second, &p);
        assert_eq!(lab, first);
        let rgb = Rgb { r: 0, g: SCALE, b: 250_000 };
        let color = anchor_color(&s, &p, rgb);
        assert_eq!(color, Rgba8 { r: 0, g: 255, b: 63, a: 255 });
        paint_step(&mut canvas, &s, &p, color);
        p.advance(policy, SCALE, 0, step_size(s.width, s.height));
        drawn += 1;
    }
    assert_eq!(drawn, 1);
    assert_eq!(canvas.pixel(30, 40), Rgba8 { r: 0, g: 255, b: 63, a: 255 });
    assert_eq!(canvas.pixel(60, 60), Rgba8 { r: 255, g: 127, b: 0, a: 255 });
    for y in 0..100 {
        for x in 0..100 {
            let inside = (27..=33).contains(&x) && (37..=43).contains(&y);
            if !inside {
                assert_eq!(canvas.pixel(x, y), Rgba8 { r: 255, g: 127, b: 0, a: 255 });
            }
        }
    }
}
