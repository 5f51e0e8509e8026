//! Choosing an output format from a file name and encoding an image into
//! that format's bytes.
use vstd::prelude::*;

use image::ImageEncoder;

use crate::raster::{ImageHandler, Raster};

verus! {

/// Quality of lossy (JPEG) output.
pub const JPEG_QUALITY: u8 = 85;

/// Speed handed to the GIF encoder's constructor, which asserts a value from
/// 1 to 30. Its `encode` quantises at speed 1 whatever this is.
pub const GIF_SPEED: i32 = 10;

#[verifier::external_type_specification]
#[verifier::external_body]
pub struct ExImageError(image::ImageError);

/// An output format.
#[derive(Debug, Clone, Copy, PartialEq, Eq, Structural)]
pub enum FileFormat {
    /// Lossless PNG.
    Png,
    /// Lossy JPEG.
    Jpeg,
    /// Palette GIF.
    Gif,
}

/// Why an image could not be turned into file contents.
#[derive(Debug, Clone, Copy, PartialEq, Eq, Structural)]
pub enum CodecError {
    /// The file name has no extension, or one of no supported format.
    UnsupportedFormat,
    /// The encoder refused the image.
    EncodingFailed,
}

/// The PNG encoding of an image.
pub uninterp spec fn png_bytes_of(img: Raster) -> Seq<u8>;

/// The JPEG encoding of an image at a quality.
pub uninterp spec fn jpeg_bytes_of(img: Raster, quality: u8) -> Seq<u8>;

/// The GIF encoding of an image.
pub uninterp spec fn gif_bytes_of(img: Raster) -> Seq<u8>;

/// Relies on image::codecs::png::PngEncoder::write_image (RGBA8 pixels):
/// on success the PNG encoding of the image. The png writer refuses only a
/// zero width or height, and writing into a `Vec` does not fail.
#[verifier::external_body]
fn encode_png(img: &ImageHandler) -> (r: Result<Vec<u8>, image::ImageError>)
    requires
        img.wf(),
    ensures
        r is Ok ==> r->Ok_0@ == png_bytes_of(img@),
        img.width > 0 && img.height > 0 ==> r is Ok,
{
    let mut out: Vec<u8> = Vec::new();
    let enc = image::codecs::png::PngEncoder::new(&mut out);
    let r = enc.write_image(&img.buffer, img.width, img.height, image::ColorType::Rgba8);
    r.map(|_| out)
}

/// Relies on image::codecs::jpeg::JpegEncoder::new_with_quality and its
/// encode (RGBA8 pixels): on success the JPEG encoding at that quality. It
/// refuses only sides above 65535, which a well-formed image does not have,
/// and writing into a `Vec` does not fail.
#[verifier::external_body]
fn encode_jpeg(img: &ImageHandler, quality: u8) -> (r: Result<Vec<u8>, image::ImageError>)
    requires
        img.wf(),
    ensures
        r is Ok ==> r->Ok_0@ == jpeg_bytes_of(img@, quality),
        img.width > 0 && img.height > 0 ==> r is Ok,
{
    let mut out: Vec<u8> = Vec::new();
    let mut enc = image::codecs::jpeg::JpegEncoder::new_with_quality(&mut out, quality);
    let r = enc.encode(&img.buffer, img.width, img.height, image::ColorType::Rgba8);
    r.map(|_| out)
}

/// Relies on image::codecs::gif::GifEncoder::new_with_speed (which asserts
/// a speed from 1 to 30) and its encode (RGBA8 pixels), which builds its
/// frame through gif's Frame::from_rgba at speed 1: the speed given has no
/// effect on the bytes. The encoder is dropped, writing the trailer, before
/// the bytes are returned. It refuses
/// only sides above 65535 (the palette it builds has at most 256 colours),
/// and writing into a `Vec` does not fail.
#[verifier::external_body]
fn encode_gif(img: &ImageHandler, speed: i32) -> (r: Result<Vec<u8>, image::ImageError>)
    requires
        img.wf(),
        1 <= speed <= 30,
    ensures
        r is Ok ==> r->Ok_0@ == gif_bytes_of(img@),
        img.width > 0 && img.height > 0 ==> r is Ok,
{
    let mut out: Vec<u8> = Vec::new();
    let r = {
        let mut enc = image::codecs::gif::GifEncoder::new_with_speed(&mut out, speed);
        enc.encode(&img.buffer, img.width, img.height, image::ColorType::Rgba8)
    };
    r.map(|_| out)
}

/// The file contents of an image in a format.
pub open spec fn encoded_of(f: FileFormat, img: Raster) -> Seq<u8> {
    match f {
        FileFormat::Png => png_bytes_of(img),
        FileFormat::Jpeg => jpeg_bytes_of(img, JPEG_QUALITY),
        FileFormat::Gif => gif_bytes_of(img),
    }
}

pub open spec fn is_separator(c: char) -> bool {
    c == '/' || c == '\\'
}

/// Where the last path component of the first `n` characters starts.
pub open spec fn name_start(s: Seq<char>, n: int) -> int
    decreases n,
{
    if n <= 0 {
        0
    } else if is_separator(s[n - 1]) {
        n
    } else {
        name_start(s, n - 1)
    }
}

/// The position of the last `.` in `s[from..n]`, or -1.
pub open spec fn last_dot(s: Seq<char>, from: int, n: int) -> int
    decreases n - from,
{
    if n <= from {
        -1
    } else if s[n - 1] == '.' {
        n - 1
    } else {
        last_dot(s, from, n - 1)
    }
}

/// The extension of a path: what follows the last `.` of its last
/// component, unless that dot opens the component.
pub open spec fn extension_of(s: Seq<char>) -> Option<Seq<char>> {
    let start = name_start(s, s.len() as int);
    let dot = last_dot(s, start, s.len() as int);
    if dot > start {
        Some(s.subrange(dot + 1, s.len() as int))
    } else {
        None
    }
}

/// The format an extension selects: `png`, `jpg` or `jpeg`, `gif`.
pub open spec fn format_of_extension(e: Seq<char>) -> Option<FileFormat> {
    if e == seq!['p', 'n', 'g'] {
        Some(FileFormat::Png)
    } else if e == seq!['j', 'p', 'g'] || e == seq!['j', 'p', 'e', 'g'] {
        Some(FileFormat::Jpeg)
    } else if e == seq!['g', 'i', 'f'] {
        Some(FileFormat::Gif)
    } else {
        None
    }
}

pub open spec fn format_for(path: Seq<char>) -> Option<FileFormat> {
    match extension_of(path) {
        Some(e) => format_of_extension(e),
        None => None,
    }
}

/// Whether `s[from..]` is exactly `lit`.
fn tail_is(s: &str, from: usize, len: usize, lit: &str) -> (r: bool)
    requires
        len == s@.len(),
        from <= len,
    ensures
        r == (s@.subrange(from as int, len as int) == lit@),
{
    let n = lit.unicode_len();
    if len - from != n {
        proof {
            assert(s@.subrange(from as int, len as int).len() != lit@.len());
        }
        return false;
    }
    let mut i: usize = 0;
    while i < n
        invariant
            n == lit@.len(),
            from + n == len,
            len == s@.len(),
            i <= n,
            forall|k: int| 0 <= k < i ==> s@[from + k] == lit@[k],
        decreases n - i,
    {
        if s.get_char(from + i) != lit.get_char(i) {
            proof {
                assert(s@.subrange(from as int, len as int)[i as int] != lit@[i as int]);
            }
            return false;
        }
        i = i + 1;
    }
    assert(s@.subrange(from as int, len as int) =~= lit@);
    true
}

/// Chooses the output format from a path's extension; `None` where it has
/// no extension or one of no supported format.
pub fn format_for_path(path: &str) -> (r: Option<FileFormat>)
    ensures
        r == format_for(path@),
{
    let len = path.unicode_len();
    let mut start: usize = len;
    while start > 0 && !(path.get_char(start - 1) == '/' || path.get_char(start - 1) == '\\')
        invariant
            start <= len,
            len == path@.len(),
            name_start(path@, len as int) == name_start(path@, start as int),
        decreases start,
    {
        start = start - 1;
    }
    let mut dot: usize = len;
    while dot > start && path.get_char(dot - 1) != '.'
        invariant
            start <= dot <= len,
            len == path@.len(),
            last_dot(path@, start as int, len as int) == last_dot(path@, start as int, dot as int),
        decreases dot,
    {
        dot = dot - 1;
    }
    if dot == start || dot - 1 == start {
        return None;
    }
    proof {
        reveal_strlit("png");
        reveal_strlit("jpg");
        reveal_strlit("jpeg");
        reveal_strlit("gif");
        assert("png"@ =~= seq!['p', 'n', 'g']);
        assert("jpg"@ =~= seq!['j', 'p', 'g']);
        assert("jpeg"@ =~= seq!['j', 'p', 'e', 'g']);
        assert("gif"@ =~= seq!['g', 'i', 'f']);
    }
    if tail_is(path, dot, len, "png") {
        Some(FileFormat::Png)
    } else if tail_is(path, dot, len, "jpg") || tail_is(path, dot, len, "jpeg") {
        Some(FileFormat::Jpeg)
    } else if tail_is(path, dot, len, "gif") {
        Some(FileFormat::Gif)
    } else {
        None
    }
}

/// The library's reading of an encoder's outcome.
fn encoding_outcome(r: Result<Vec<u8>, image::ImageError>) -> (o: Result<Vec<u8>, CodecError>)
    ensures
        r is Ok ==> o == Ok::<Vec<u8>, CodecError>(r->Ok_0),
        r is Err ==> o == Err::<Vec<u8>, CodecError>(CodecError::EncodingFailed),
{
    match r {
        Ok(b) => Ok(b),
        Err(_) => Err(CodecError::EncodingFailed),
    }
}

impl ImageHandler {
    /// The file contents of this image in format `f`: lossless PNG, JPEG at
    /// quality 85, or palette GIF. An image with pixels always encodes;
    /// only an empty one may be refused.
    pub fn encode(&self, f: FileFormat) -> (r: Result<Vec<u8>, CodecError>)
        requires
            self.wf(),
        ensures
            self@.width > 0 && self@.height > 0 ==> r is Ok,
            match r {
                Ok(b) => b@ == encoded_of(f, self@),
                Err(e) => e == CodecError::EncodingFailed,
            },
    {
        let out = match f {
            FileFormat::Png => encode_png(self),
            FileFormat::Jpeg => encode_jpeg(self, JPEG_QUALITY),
            FileFormat::Gif => encode_gif(self, GIF_SPEED),
        };
        encoding_outcome(out)
    }

    /// The file contents for saving this image at `path`, in the format its
    /// extension selects. An unsupported or missing extension is refused
    /// before anything is encoded; with a supported one, an image with
    /// pixels always gives its contents.
    pub fn save_image(&self, path: &str) -> (r: Result<Vec<u8>, CodecError>)
        requires
            self.wf(),
        ensures
            format_for(path@) is None <==> r == Err::<Vec<u8>, CodecError>(CodecError::UnsupportedFormat),
            format_for(path@) is Some && self@.width > 0 && self@.height > 0 ==> r is Ok,
            format_for(path@) is Some ==> match r {
                Ok(b) => b@ == encoded_of(format_for(path@)->Some_0, self@),
                Err(e) => e == CodecError::EncodingFailed,
            },
    {
        match format_for_path(path) {
            Some(f) => self.encode(f),
            None => Err(CodecError::UnsupportedFormat),
        }
    }
}

} // verus!
