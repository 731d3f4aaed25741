//! The canvas compositor: an RGBA raster filled with a background pixel
//! and painted with filled discs, later discs overwriting earlier ones.
use vstd::prelude::*;

use crate::color::Rgba8;

verus! {

/// An RGBA image buffer, opaque to the proofs; its pixels are `raster_pixels`.
#[verifier::external_body]
pub struct Raster {
    img: image::RgbaImage,
}

/// Largest canvas side, and largest disc radius, that the compositor accepts.
pub const MAX_SIDE: u32 = 1_048_576;

/// The pixels of a raster, keyed by `(x, y)`.
pub uninterp spec fn raster_pixels(r: Raster) -> Map<(int, int), (u8, u8, u8, u8)>;

/// Whether `(x, y)` lies on a `width` by `height` raster.
pub open spec fn on_raster(k: (int, int), width: int, height: int) -> bool {
    0 <= k.0 < width && 0 <= k.1 < height
}

/// Whether `(x, y)` lies in the square of half-side `radius` around `(cx, cy)`.
pub open spec fn in_square(k: (int, int), cx: int, cy: int, radius: int) -> bool {
    cx - radius <= k.0 <= cx + radius && cy - radius <= k.1 <= cy + radius
}

/// The pixels that a filled disc of `radius` centered at `(cx, cy)` covers.
pub uninterp spec fn disc_cover(cx: int, cy: int, radius: int) -> Set<(int, int)>;

/// `before` with every pixel of `cover` overwritten by `color`.
pub open spec fn painted(
    before: Map<(int, int), (u8, u8, u8, u8)>,
    cover: Set<(int, int)>,
    color: (u8, u8, u8, u8),
) -> Map<(int, int), (u8, u8, u8, u8)> {
    Map::new(
        |k: (int, int)| before.contains_key(k),
        |k: (int, int)|
            if cover.contains(k) {
                color
            } else {
                before[k]
            },
    )
}

/// What painting a disc of `color` at `(cx, cy)` does to a `width` by
/// `height` raster: the pixels of the disc's cover take `color` and all
/// others keep their value; the cover lies inside the square of half-side
/// `radius`, holds the center when `radius >= 0` and is empty when
/// `radius < 0`.
pub open spec fn disc_painted(
    before: Map<(int, int), (u8, u8, u8, u8)>,
    after: Map<(int, int), (u8, u8, u8, u8)>,
    width: int,
    height: int,
    cx: int,
    cy: int,
    radius: int,
    color: (u8, u8, u8, u8),
) -> bool {
    &&& after == painted(before, disc_cover(cx, cy, radius), color)
    &&& forall|k: (int, int)|
        #![trigger after[k]]
        on_raster(k, width, height) ==> (after[k] == before[k] || after[k] == color)
    &&& forall|k: (int, int)|
        #![trigger after[k]]
        on_raster(k, width, height) && !in_square(k, cx, cy, radius) ==> after[k] == before[k]
    &&& radius < 0 ==> after == before
    &&& radius >= 0 && on_raster((cx, cy), width, height) ==> after[(cx, cy)] == color
}

impl Rgba8 {
    pub open spec fn channels(self) -> (u8, u8, u8, u8) {
        (self.r, self.g, self.b, self.a)
    }
}

/// Relies on image's `ImageBuffer::from_pixel`: a `width` by `height`
/// buffer with every pixel set to `fill`.
#[verifier::external_body]
fn filled_image(width: u32, height: u32, fill: Rgba8) -> (r: Raster)
    requires
        0 < width <= MAX_SIDE,
        0 < height <= MAX_SIDE,
    ensures
        raster_pixels(r) == Map::new(
            |k: (int, int)| on_raster(k, width as int, height as int),
            |k: (int, int)| fill.channels(),
        ),
{
    let pixel = image::Rgba([fill.r, fill.g, fill.b, fill.a]);
    Raster { img: image::RgbaImage::from_pixel(width, height, pixel) }
}

/// Relies on imageproc's `draw_filled_circle_mut`: the set of pixels it
/// covers depends on the center and radius alone; it overwrites those on the
/// raster with `color` and leaves every other pixel; that set lies inside the
/// square of half-side `radius` around the center, holds the center when
/// `radius >= 0` and is empty when `radius < 0`.
#[verifier::external_body]
fn paint_disc(img: &mut Raster, cx: i32, cy: i32, radius: i32, color: Rgba8)
    requires
        -2 * MAX_SIDE <= cx <= 2 * MAX_SIDE,
        -2 * MAX_SIDE <= cy <= 2 * MAX_SIDE,
        -MAX_SIDE <= radius <= MAX_SIDE,
    ensures
        raster_pixels(*final(img)) == painted(
            raster_pixels(*old(img)),
            disc_cover(cx as int, cy as int, radius as int),
            color.channels(),
        ),
        raster_pixels(*final(img)).dom() == raster_pixels(*old(img)).dom(),
        forall|k: (int, int)|
            #![trigger raster_pixels(*final(img))[k]]
            raster_pixels(*old(img)).contains_key(k) ==> (raster_pixels(*final(img))[k]
                == raster_pixels(*old(img))[k] || raster_pixels(*final(img))[k]
                == color.channels()),
        forall|k: (int, int)|
            #![trigger raster_pixels(*final(img))[k]]
            raster_pixels(*old(img)).contains_key(k) && !in_square(
                k,
                cx as int,
                cy as int,
                radius as int,
            ) ==> raster_pixels(*final(img))[k] == raster_pixels(*old(img))[k],
        radius < 0 ==> raster_pixels(*final(img)) == raster_pixels(*old(img)),
        radius >= 0 && raster_pixels(*old(img)).contains_key((cx as int, cy as int))
            ==> raster_pixels(*final(img))[(cx as int, cy as int)] == color.channels(),
{
    imageproc::drawing::draw_filled_circle_mut(
        &mut img.img,
        (cx, cy),
        radius,
        image::Rgba([color.r, color.g, color.b, color.a]),
    )
}

/// Relies on image's `ImageBuffer::get_pixel`: the pixel stored at `(x, y)`.
#[verifier::external_body]
fn read_pixel(img: &Raster, x: u32, y: u32) -> (r: Rgba8)
    requires
        raster_pixels(*img).contains_key((x as int, y as int)),
    ensures
        r.channels() == raster_pixels(*img)[(x as int, y as int)],
{
    let p = img.img.get_pixel(x, y);
    Rgba8 { r: p.0[0], g: p.0[1], b: p.0[2], a: p.0[3] }
}

/// Channel `c` (red, green, blue, alpha) of a pixel.
pub open spec fn channel_of(p: (u8, u8, u8, u8), c: int) -> u8 {
    if c == 0 {
        p.0
    } else if c == 1 {
        p.1
    } else if c == 2 {
        p.2
    } else {
        p.3
    }
}

/// Relies on image's `ImageBuffer::as_raw`: the samples in row-major order,
/// four per pixel, for a buffer of the given size.
#[verifier::external_body]
fn raster_bytes(img: &Raster, width: u32, height: u32) -> (r: Vec<u8>)
    requires
        forall|k: (int, int)|
            #![trigger raster_pixels(*img).contains_key(k)]
            raster_pixels(*img).contains_key(k) <==> on_raster(k, width as int, height as int),
    ensures
        r@.len() == 4 * width * height,
        forall|x: int, y: int, c: int|
            0 <= x < width && 0 <= y < height && 0 <= c < 4 ==> #[trigger] r@[4 * (y * width
                + x) + c] == channel_of(raster_pixels(*img)[(x, y)], c),
{
    img.img.as_raw().clone()
}

/// A raster of RGBA pixels.
pub struct Canvas {
    width: u32,
    height: u32,
    image: Raster,
}

impl Canvas {
    /// The pixels, keyed by `(x, y)`.
    pub closed spec fn pixels(&self) -> Map<(int, int), (u8, u8, u8, u8)> {
        raster_pixels(self.image)
    }

    pub closed spec fn spec_width(&self) -> int {
        self.width as int
    }

    pub closed spec fn spec_height(&self) -> int {
        self.height as int
    }

    /// The pixels cover exactly the raster of the canvas's size.
    pub closed spec fn wf(&self) -> bool {
        &&& 0 < self.width <= MAX_SIDE
        &&& 0 < self.height <= MAX_SIDE
        &&& forall|k: (int, int)|
            #![trigger raster_pixels(self.image).contains_key(k)]
            raster_pixels(self.image).contains_key(k) <==> on_raster(
                k,
                self.width as int,
                self.height as int,
            )
    }

    /// A `width` by `height` canvas with every pixel equal to `fill`.
    pub fn new(width: u32, height: u32, fill: Rgba8) -> (r: Canvas)
        requires
            0 < width <= MAX_SIDE,
            0 < height <= MAX_SIDE,
        ensures
            r.wf(),
            r.spec_width() == width,
            r.spec_height() == height,
            forall|k: (int, int)|
                #![trigger r.pixels()[k]]
                on_raster(k, width as int, height as int) ==> r.pixels()[k] == fill.channels(),
    {
        Canvas { width, height, image: filled_image(width, height, fill) }
    }

    pub fn width(&self) -> (r: u32)
        ensures
            r == self.spec_width(),
    {
        self.width
    }

    pub fn height(&self) -> (r: u32)
        ensures
            r == self.spec_height(),
    {
        self.height
    }

    /// The pixel at `(x, y)`.
    pub fn pixel(&self, x: u32, y: u32) -> (r: Rgba8)
        requires
            self.wf(),
            on_raster((x as int, y as int), self.spec_width(), self.spec_height()),
        ensures
            r.channels() == self.pixels()[(x as int, y as int)],
    {
        read_pixel(&self.image, x, y)
    }

    /// Paints a filled disc of `color` centered at `(cx, cy)`, clipped to the canvas.
    pub fn draw_disc(&mut self, cx: i32, cy: i32, radius: i32, color: Rgba8)
        requires
            old(self).wf(),
            -2 * MAX_SIDE <= cx <= 2 * MAX_SIDE,
            -2 * MAX_SIDE <= cy <= 2 * MAX_SIDE,
            -MAX_SIDE <= radius <= MAX_SIDE,
        ensures
            final(self).wf(),
            final(self).spec_width() == old(self).spec_width(),
            final(self).spec_height() == old(self).spec_height(),
            disc_painted(
                old(self).pixels(),
                final(self).pixels(),
                old(self).spec_width(),
                old(self).spec_height(),
                cx as int,
                cy as int,
                radius as int,
                color.channels(),
            ),
    {
        paint_disc(&mut self.image, cx, cy, radius, color);
        assert(forall|k: (int, int)|
            #![trigger raster_pixels(self.image).contains_key(k)]
            raster_pixels(self.image).contains_key(k) <==> raster_pixels(old(self).image).contains_key(k));
    }

    /// The pixels as bytes, row by row from the top, four channels each.
    pub fn to_bytes(&self) -> (r: Vec<u8>)
        requires
            self.wf(),
        ensures
            r@.len() == 4 * self.spec_width() * self.spec_height(),
            forall|x: int, y: int, c: int|
                0 <= x < self.spec_width() && 0 <= y < self.spec_height() && 0 <= c < 4
                    ==> #[trigger] r@[4 * (y * self.spec_width() + x) + c] == channel_of(
                    self.pixels()[(x, y)],
                    c,
                ),
    {
        raster_bytes(&self.image, self.width, self.height)
    }
}

} // verus!
