//! Rasterisation and resampling through imageproc and image. Each call
//! returns a new image of the outcome; the bytes drawn are named, not spelled
//! out, and each wrapper states what the called function preserves.
use vstd::prelude::*;

use image::GenericImageView;

use crate::raster::{Color, ImageHandler, Raster, COORD_LIMIT};

verus! {

#[verifier::external_type_specification]
#[verifier::external_body]
pub struct ExFont<'a>(rusttype::Font<'a>);

#[verifier::external_type_specification]
#[verifier::external_body]
pub struct ExScale(rusttype::Scale);

/// The typeface and glyph size that text stamps are rendered with.
pub struct TextStyle {
    pub font: rusttype::Font<'static>,
    pub scale: rusttype::Scale,
}

/// A coordinate that the drawing routines take without overflow.
pub open spec fn coord_ok(v: int) -> bool {
    -2 * COORD_LIMIT <= v <= 2 * COORD_LIMIT
}

/// The bytes of `img` after a filled circle is drawn on it.
pub uninterp spec fn filled_circle_of(img: Raster, cx: int, cy: int, radius: int, color: Color) -> Seq<u8>;

/// The bytes of `img` after a circle outline is drawn on it.
pub uninterp spec fn hollow_circle_of(img: Raster, cx: int, cy: int, radius: int, color: Color) -> Seq<u8>;

/// The bytes of `img` after a line segment is drawn on it.
pub uninterp spec fn line_segment_of(img: Raster, x0: int, y0: int, x1: int, y1: int, color: Color) -> Seq<u8>;

/// Whether pixel `(px, py)` lies on the outline of the `w` by `h`
/// rectangle whose top-left pixel is `(x, y)`.
pub open spec fn on_outline(px: int, py: int, x: int, y: int, w: int, h: int) -> bool {
    let right = x + w - 1;
    let bottom = y + h - 1;
    ||| (py == y || py == bottom) && x <= px <= right
    ||| (px == x || px == right) && y <= py <= bottom
}

/// Channel `k` (red, green, blue, alpha) of a colour.
pub open spec fn channel(c: Color, k: int) -> u8 {
    if k == 0 {
        c.r
    } else if k == 1 {
        c.g
    } else if k == 2 {
        c.b
    } else {
        c.a
    }
}

/// The bytes of `img` with the rectangle's outline pixels set to `color`.
pub open spec fn outlined_bytes(img: Raster, x: int, y: int, w: int, h: int, color: Color) -> Seq<u8> {
    Seq::new(
        img.bytes.len(),
        |i: int|
            if on_outline((i / 4) % (img.width as int), (i / 4) / (img.width as int), x, y, w, h) {
                channel(color, i % 4)
            } else {
                img.bytes[i]
            },
    )
}

/// The image whose bytes are `bytes` and whose dimensions are those of `img`.
pub open spec fn with_bytes(img: Raster, bytes: Seq<u8>) -> Raster {
    Raster { width: img.width, height: img.height, bytes }
}

/// The `w` by `h` region of `img` whose top-left pixel is `(x, y)`.
pub open spec fn sub_raster(img: Raster, x: int, y: int, w: int, h: int) -> Raster {
    Raster {
        width: w as nat,
        height: h as nat,
        bytes: Seq::new(
            (w * h * 4) as nat,
            |i: int| img.bytes[((y + (i / 4) / w) * img.width + x + (i / 4) % w) * 4 + i % 4],
        ),
    }
}

/// Relies on imageproc::drawing::draw_filled_circle: a copy of the image of
/// the same size, with the circle drawn as far as it lies inside. Its work
/// grows with the square of the radius, so the radius is kept to a brush's.
#[verifier::external_body]
pub fn filled_circle(img: &ImageHandler, cx: i32, cy: i32, radius: i32, color: Color) -> (r: ImageHandler)
    requires
        img.wf(),
        coord_ok(cx as int),
        coord_ok(cy as int),
        0 <= radius <= 64,
    ensures
        r.wf(),
        r@ == with_bytes(img@, filled_circle_of(img@, cx as int, cy as int, radius as int, color)),
{
    let src = image::RgbaImage::from_raw(img.width, img.height, img.buffer.clone()).unwrap();
    let px = image::Rgba([color.r, color.g, color.b, color.a]);
    let out = imageproc::drawing::draw_filled_circle(&src, (cx, cy), radius, px);
    ImageHandler { width: out.width(), height: out.height(), buffer: out.into_raw() }
}

/// Relies on imageproc::drawing::draw_hollow_circle: a copy of the image of
/// the same size, with the outline drawn as far as it lies inside.
#[verifier::external_body]
pub fn hollow_circle(img: &ImageHandler, cx: i32, cy: i32, radius: i32, color: Color) -> (r: ImageHandler)
    requires
        img.wf(),
        coord_ok(cx as int),
        coord_ok(cy as int),
        0 <= radius <= 8 * COORD_LIMIT,
    ensures
        r.wf(),
        r@ == with_bytes(img@, hollow_circle_of(img@, cx as int, cy as int, radius as int, color)),
{
    let src = image::RgbaImage::from_raw(img.width, img.height, img.buffer.clone()).unwrap();
    let px = image::Rgba([color.r, color.g, color.b, color.a]);
    let out = imageproc::drawing::draw_hollow_circle(&src, (cx, cy), radius, px);
    ImageHandler { width: out.width(), height: out.height(), buffer: out.into_raw() }
}

/// Relies on imageproc::drawing::draw_line_segment: a copy of the image of
/// the same size, with the segment drawn as far as it lies inside. The
/// integer end points are handed over as the crate's coordinate type.
#[verifier::external_body]
pub fn line_segment(img: &ImageHandler, x0: i32, y0: i32, x1: i32, y1: i32, color: Color) -> (r: ImageHandler)
    requires
        img.wf(),
        coord_ok(x0 as int),
        coord_ok(y0 as int),
        coord_ok(x1 as int),
        coord_ok(y1 as int),
    ensures
        r.wf(),
        r@ == with_bytes(img@, line_segment_of(img@, x0 as int, y0 as int, x1 as int, y1 as int, color)),
{
    let src = image::RgbaImage::from_raw(img.width, img.height, img.buffer.clone()).unwrap();
    let px = image::Rgba([color.r, color.g, color.b, color.a]);
    let out = imageproc::drawing::draw_line_segment(&src, (x0 as _, y0 as _), (x1 as _, y1 as _), px);
    ImageHandler { width: out.width(), height: out.height(), buffer: out.into_raw() }
}

/// Relies on imageproc::drawing::draw_hollow_rect with imageproc::rect::Rect
/// (whose size must be positive): a copy of the image of the same size in
/// which the outline pixels that lie inside are overwritten with the colour.
/// The outline is four axis-aligned Bresenham segments between the corners
/// `(x, y)` and `(x + w - 1, y + h - 1)`, passed as exactly representable
/// floats.
#[verifier::external_body]
pub fn hollow_rect(img: &ImageHandler, x: i32, y: i32, w: u32, h: u32, color: Color) -> (r: ImageHandler)
    requires
        img.wf(),
        -COORD_LIMIT <= x,
        -COORD_LIMIT <= y,
        0 < w,
        0 < h,
        x + w - 1 <= COORD_LIMIT,
        y + h - 1 <= COORD_LIMIT,
    ensures
        r.wf(),
        r@ == with_bytes(img@, outlined_bytes(img@, x as int, y as int, w as int, h as int, color)),
{
    let src = image::RgbaImage::from_raw(img.width, img.height, img.buffer.clone()).unwrap();
    let px = image::Rgba([color.r, color.g, color.b, color.a]);
    let rect = imageproc::rect::Rect::at(x, y).of_size(w, h);
    let out = imageproc::drawing::draw_hollow_rect(&src, rect, px);
    ImageHandler { width: out.width(), height: out.height(), buffer: out.into_raw() }
}

/// Relies on imageproc::drawing::draw_text: a copy of the image of the same
/// size with the text blended in. What it draws depends on the font.
#[verifier::external_body]
pub fn stamp_text(img: &ImageHandler, color: Color, x: i32, y: i32, style: &TextStyle, text: &str) -> (r: ImageHandler)
    requires
        img.wf(),
        coord_ok(x as int),
        coord_ok(y as int),
    ensures
        r.wf(),
        r@.width == img@.width,
        r@.height == img@.height,
{
    let src = image::RgbaImage::from_raw(img.width, img.height, img.buffer.clone()).unwrap();
    let px = image::Rgba([color.r, color.g, color.b, color.a]);
    let out = imageproc::drawing::draw_text(&src, px, x, y, style.scale, &style.font, text);
    ImageHandler { width: out.width(), height: out.height(), buffer: out.into_raw() }
}

/// Relies on image's GenericImageView::view and SubImage::to_image: the
/// pixels of the region, copied row by row (the view asserts that the
/// region lies inside the image).
#[verifier::external_body]
pub fn sub_image(img: &ImageHandler, x: u32, y: u32, w: u32, h: u32) -> (r: ImageHandler)
    requires
        img.wf(),
        x + w <= img.width,
        y + h <= img.height,
    ensures
        r.wf(),
        r@ == sub_raster(img@, x as int, y as int, w as int, h as int),
{
    let src = image::RgbaImage::from_raw(img.width, img.height, img.buffer.clone()).unwrap();
    let out = src.view(x, y, w, h).to_image();
    ImageHandler { width: out.width(), height: out.height(), buffer: out.into_raw() }
}

/// Relies on image::imageops::resize with the Lanczos3 filter: an image of
/// exactly `nw` by `nh` pixels. Its pixels rest on `f32::sin`, whose
/// precision std leaves open, so nothing is said of them.
#[verifier::external_body]
pub fn resize_lanczos3(img: &ImageHandler, nw: u32, nh: u32) -> (r: ImageHandler)
    requires
        img.wf(),
        img.width > 0,
        img.height > 0,
        0 < nw <= crate::raster::MAX_SIDE,
        0 < nh <= crate::raster::MAX_SIDE,
    ensures
        r.wf(),
        r@.width == nw,
        r@.height == nh,
{
    let src = image::RgbaImage::from_raw(img.width, img.height, img.buffer.clone()).unwrap();
    let out = image::imageops::resize(&src, nw, nh, image::imageops::FilterType::Lanczos3);
    ImageHandler { width: out.width(), height: out.height(), buffer: out.into_raw() }
}

} // verus!
