use vstd::prelude::*;

verus! {

/// Largest width or height of an image that the library handles.
pub const MAX_SIDE: u32 = 65535;

/// Largest magnitude of a stored point coordinate.
pub const COORD_LIMIT: i32 = 16777216;

/// An RGBA colour with 8 bits per channel.
#[derive(Debug, Clone, Copy, PartialEq, Eq, Structural)]
pub struct Color {
    pub r: u8,
    pub g: u8,
    pub b: u8,
    pub a: u8,
}

pub open spec fn rgb(r: u8, g: u8, b: u8) -> Color {
    Color { r, g, b, a: 255 }
}

/// The palette colour for a slider value, in bands ten wide:
/// black, red, orange, yellow, green, blue, indigo, violet, then white.
pub open spec fn band_color(v: u8) -> Color {
    if v <= 9 {
        rgb(0, 0, 0)
    } else if v <= 19 {
        rgb(255, 0, 0)
    } else if v <= 29 {
        rgb(255, 165, 0)
    } else if v <= 39 {
        rgb(255, 255, 51)
    } else if v <= 49 {
        rgb(34, 139, 34)
    } else if v <= 59 {
        rgb(0, 0, 255)
    } else if v <= 69 {
        rgb(73, 0, 130)
    } else if v <= 79 {
        rgb(218, 112, 238)
    } else {
        rgb(255, 255, 255)
    }
}

/// Maps a colour slider value to its palette colour.
pub fn color_band(v: u8) -> (c: Color)
    ensures
        c == band_color(v),
        v <= 9 ==> c == rgb(0, 0, 0),
        v >= 80 ==> c == rgb(255, 255, 255),
{
    let (r, g, b) = if v <= 9 {
        (0u8, 0u8, 0u8)
    } else if v <= 19 {
        (255, 0, 0)
    } else if v <= 29 {
        (255, 165, 0)
    } else if v <= 39 {
        (255, 255, 51)
    } else if v <= 49 {
        (34, 139, 34)
    } else if v <= 59 {
        (0, 0, 255)
    } else if v <= 69 {
        (73, 0, 130)
    } else if v <= 79 {
        (218, 112, 238)
    } else {
        (255, 255, 255)
    };
    Color { r, g, b, a: 255 }
}

/// The fixed highlight colour of a crop preview outline.
pub fn highlight_color() -> (c: Color)
    ensures
        c == rgb(255, 0, 0),
{
    Color { r: 255, g: 0, b: 0, a: 255 }
}

/// What an image is: its dimensions and its row-major RGBA bytes.
pub ghost struct Raster {
    pub width: nat,
    pub height: nat,
    pub bytes: Seq<u8>,
}

/// A raster that a well-formed image can hold.
pub open spec fn raster_ok(r: Raster) -> bool {
    &&& r.width <= MAX_SIDE
    &&& r.height <= MAX_SIDE
    &&& r.bytes.len() == r.width * r.height * 4
}

/// An RGBA8 pixel buffer: `width` by `height` pixels, four bytes each,
/// row by row.
#[derive(Debug, Clone)]
pub struct ImageHandler {
    pub buffer: Vec<u8>,
    pub width: u32,
    pub height: u32,
}

impl View for ImageHandler {
    type V = Raster;

    open spec fn view(&self) -> Raster {
        Raster { width: self.width as nat, height: self.height as nat, bytes: self.buffer@ }
    }
}

impl ImageHandler {
    pub open spec fn wf(&self) -> bool {
        raster_ok(self@)
    }

    /// Builds an image from its dimensions and bytes; `None` where the
    /// byte count is not `width * height * 4` or a side exceeds `MAX_SIDE`.
    pub fn new(width: u32, height: u32, buffer: Vec<u8>) -> (r: Option<ImageHandler>)
        ensures
            r is Some <==> raster_ok(Raster { width: width as nat, height: height as nat, bytes: buffer@ }),
            r is Some ==> r->Some_0@ == (Raster { width: width as nat, height: height as nat, bytes: buffer@ }),
    {
        if width > MAX_SIDE || height > MAX_SIDE {
            return None;
        }
        assert(width as u64 * height as u64 <= 65535 * 65535) by (nonlinear_arith)
            requires
                width <= 65535,
                height <= 65535,
        ;
        let expected: u64 = width as u64 * height as u64 * 4;
        if buffer.len() as u64 != expected {
            return None;
        }
        Some(ImageHandler { buffer, width, height })
    }

    pub fn width(&self) -> (r: u32)
        ensures
            r == self.width,
    {
        self.width
    }

    pub fn height(&self) -> (r: u32)
        ensures
            r == self.height,
    {
        self.height
    }
}

/// A copy of an image that keeps every field.
pub fn copy_image(img: &ImageHandler) -> (r: ImageHandler)
    ensures
        r@ == img@,
{
    ImageHandler { buffer: img.buffer.clone(), width: img.width, height: img.height }
}

} // verus!
