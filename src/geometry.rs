//! Pointer mapping, crop-rectangle normalisation, arrow slopes and circle
//! radii, all in integer arithmetic.
use vstd::prelude::*;

use crate::raster::{COORD_LIMIT, MAX_SIDE};

verus! {

/// A point in pixels.
#[derive(Debug, Clone, Copy, PartialEq, Eq, Structural)]
pub struct Point {
    pub x: i32,
    pub y: i32,
}

pub open spec fn pt(x: int, y: int) -> Point {
    Point { x: x as i32, y: y as i32 }
}

/// The origin, which also stands for "no point recorded yet".
pub open spec fn origin() -> Point {
    Point { x: 0, y: 0 }
}

pub fn zero_point() -> (p: Point)
    ensures
        p == origin(),
{
    Point { x: 0, y: 0 }
}

/// A point whose coordinates lie within the stored-coordinate limit.
pub open spec fn point_ok(p: Point) -> bool {
    -COORD_LIMIT <= p.x <= COORD_LIMIT && -COORD_LIMIT <= p.y <= COORD_LIMIT
}

/// The display-space rectangle in which an image is rendered.
#[derive(Debug, Clone, Copy, PartialEq, Eq, Structural)]
pub struct Bounds {
    pub x: i32,
    pub y: i32,
    pub width: i32,
    pub height: i32,
}

impl Bounds {
    pub open spec fn valid(&self) -> bool {
        &&& -COORD_LIMIT <= self.x <= COORD_LIMIT
        &&& -COORD_LIMIT <= self.y <= COORD_LIMIT
        &&& 0 <= self.width <= COORD_LIMIT
        &&& 0 <= self.height <= COORD_LIMIT
    }

    /// Whether `p` lies in the rectangle, edges included.
    pub open spec fn holds(&self, p: Point) -> bool {
        &&& self.x <= p.x <= self.x + self.width
        &&& self.y <= p.y <= self.y + self.height
    }

    pub fn contains(&self, p: Point) -> (r: bool)
        requires
            self.valid(),
        ensures
            r == self.holds(p),
    {
        let px = p.x as i64;
        let py = p.y as i64;
        self.x as i64 <= px && px <= self.x as i64 + self.width as i64 && self.y as i64 <= py
            && py <= self.y as i64 + self.height as i64
    }
}

/// `p` in the pixel space of a `w` by `h` image rendered in `b`: each axis
/// offset from the bounds' origin and scaled by image size over bounds size;
/// the origin where the bounds are empty in either direction.
pub open spec fn mapped(b: Bounds, p: Point, w: int, h: int) -> Point {
    if b.width != 0 && b.height != 0 {
        pt((p.x - b.x) * w / (b.width as int), (p.y - b.y) * h / (b.height as int))
    } else {
        origin()
    }
}

proof fn lemma_scaled_within(d: int, size: int, span: int)
    requires
        0 <= d <= span,
        0 < span,
        0 <= size,
    ensures
        0 <= d * size / span <= size,
{
    assert(0 <= d * size) by (nonlinear_arith)
        requires
            0 <= d,
            0 <= size,
    ;
    assert(d * size <= span * size) by (nonlinear_arith)
        requires
            d <= span,
            0 <= size,
    ;
    vstd::arithmetic::div_mod::lemma_div_is_ordered(d * size, span * size, span);
    vstd::arithmetic::div_mod::lemma_div_multiples_vanish(size, span);
    vstd::arithmetic::div_mod::lemma_div_pos_is_pos(d * size, span);
}

/// Maps a display position inside `b` to the pixel space of a `w` by `h` image.
pub fn map_point(b: Bounds, p: Point, w: u32, h: u32) -> (r: Point)
    requires
        b.valid(),
        b.holds(p),
        w <= MAX_SIDE,
        h <= MAX_SIDE,
    ensures
        r == mapped(b, p, w as int, h as int),
        0 <= r.x <= w,
        0 <= r.y <= h,
{
    if b.width != 0 && b.height != 0 {
        let dx: i64 = p.x as i64 - b.x as i64;
        let dy: i64 = p.y as i64 - b.y as i64;
        proof {
            lemma_scaled_within(dx as int, w as int, b.width as int);
            lemma_scaled_within(dy as int, h as int, b.height as int);
            assert(dx * (w as i64) <= COORD_LIMIT * MAX_SIDE) by (nonlinear_arith)
                requires
                    0 <= dx <= COORD_LIMIT,
                    w <= MAX_SIDE,
            ;
            assert(dy * (h as i64) <= COORD_LIMIT * MAX_SIDE) by (nonlinear_arith)
                requires
                    0 <= dy <= COORD_LIMIT,
                    h <= MAX_SIDE,
            ;
        }
        let mx: i64 = dx * (w as i64) / (b.width as i64);
        let my: i64 = dy * (h as i64) / (b.height as i64);
        Point { x: mx as i32, y: my as i32 }
    } else {
        Point { x: 0, y: 0 }
    }
}

/// The offset of `p` from the origin of `b`, unscaled.
pub fn offset_in(b: Bounds, p: Point) -> (r: Point)
    requires
        b.valid(),
        b.holds(p),
    ensures
        r == pt(p.x - b.x, p.y - b.y),
        0 <= r.x <= COORD_LIMIT,
        0 <= r.y <= COORD_LIMIT,
{
    Point { x: (p.x as i64 - b.x as i64) as i32, y: (p.y as i64 - b.y as i64) as i32 }
}

/// An axis-aligned rectangle: top-left corner and size.
#[derive(Debug, Clone, Copy, PartialEq, Eq, Structural)]
pub struct CropRect {
    pub x: i32,
    pub y: i32,
    pub width: u32,
    pub height: u32,
}

pub open spec fn min_of(a: int, b: int) -> int {
    if a <= b { a } else { b }
}

pub open spec fn abs_of(a: int) -> int {
    if a < 0 { -a } else { a }
}

/// The rectangle spanned by two opposite corners, whichever two they are.
pub open spec fn normalized(a: Point, b: Point) -> CropRect {
    CropRect {
        x: min_of(a.x as int, b.x as int) as i32,
        y: min_of(a.y as int, b.y as int) as i32,
        width: abs_of(b.x - a.x) as u32,
        height: abs_of(b.y - a.y) as u32,
    }
}

/// The axis-aligned rectangle spanned by corners `start` and `end`.
pub fn normalize(start: Point, end: Point) -> (r: CropRect)
    ensures
        r == normalized(start, end),
        r.x == min_of(start.x as int, end.x as int),
        r.y == min_of(start.y as int, end.y as int),
        r.width == abs_of(end.x - start.x),
        r.height == abs_of(end.y - start.y),
{
    let dx: i64 = end.x as i64 - start.x as i64;
    let dy: i64 = end.y as i64 - start.y as i64;
    let x = if start.x <= end.x { start.x } else { end.x };
    let y = if start.y <= end.y { start.y } else { end.y };
    let w: i64 = if dx < 0 { -dx } else { dx };
    let h: i64 = if dy < 0 { -dy } else { dy };
    CropRect { x, y, width: w as u32, height: h as u32 }
}

/// Normalisation does not depend on which corner came first.
pub proof fn lemma_normalize_symmetric(a: Point, b: Point)
    ensures
        normalized(a, b) == normalized(b, a),
{
}

/// A rational slope `num / den` with a positive denominator.
#[derive(Debug, Clone, Copy, PartialEq, Eq, Structural)]
pub struct Slope {
    pub num: i64,
    pub den: i64,
}

pub open spec fn slope(num: int, den: int) -> Slope {
    Slope { num: num as i64, den: den as i64 }
}

/// The slope `dy / dx` of an arrow's shaft, clamped for its head: a
/// positive slope up to one half becomes one half, one above one becomes
/// one, and the same mirrored below zero; other values stay. A vertical
/// shaft counts as slope one or minus one, and a shaft of no length as zero.
pub open spec fn clamped_slope(dx: int, dy: int) -> Slope {
    if dx == 0 {
        if dy > 0 {
            slope(1, 1)
        } else if dy < 0 {
            slope(-1, 1)
        } else {
            slope(0, 1)
        }
    } else {
        let n = if dx > 0 { dy } else { -dy };
        let d = if dx > 0 { dx } else { -dx };
        if n > 0 && 2 * n <= d {
            slope(1, 2)
        } else if n > d {
            slope(1, 1)
        } else if n < 0 && -2 * n <= d {
            slope(-1, 2)
        } else if n < -d {
            slope(-1, 1)
        } else {
            slope(n, d)
        }
    }
}

/// Computes the clamped arrow-head slope of a shaft `(dx, dy)`.
pub fn clamp_slope(dx: i64, dy: i64) -> (r: Slope)
    requires
        -4 * COORD_LIMIT <= dx <= 4 * COORD_LIMIT,
        -4 * COORD_LIMIT <= dy <= 4 * COORD_LIMIT,
    ensures
        r == clamped_slope(dx as int, dy as int),
        0 < r.den <= 4 * COORD_LIMIT,
        -r.den <= r.num <= r.den,
{
    if dx == 0 {
        if dy > 0 {
            Slope { num: 1, den: 1 }
        } else if dy < 0 {
            Slope { num: -1, den: 1 }
        } else {
            Slope { num: 0, den: 1 }
        }
    } else {
        let n: i64 = if dx > 0 { dy } else { -dy };
        let d: i64 = if dx > 0 { dx } else { -dx };
        if n > 0 && 2 * n <= d {
            Slope { num: 1, den: 2 }
        } else if n > d {
            Slope { num: 1, den: 1 }
        } else if n < 0 && d + 2 * n >= 0 {
            Slope { num: -1, den: 2 }
        } else if n < -d {
            Slope { num: -1, den: 1 }
        } else {
            Slope { num: n, den: d }
        }
    }
}

/// `len * s`, rounded toward zero.
pub open spec fn scaled_offset(s: Slope, len: int) -> int {
    if s.num >= 0 {
        (len * s.num) / (s.den as int)
    } else {
        -((len * -s.num) / (s.den as int))
    }
}

/// The offset `len * s` in whole pixels, rounded toward zero.
pub fn offset_along(s: Slope, len: i64) -> (r: i64)
    requires
        0 < s.den <= 4 * COORD_LIMIT,
        -s.den <= s.num <= s.den,
        0 <= len <= 1000,
    ensures
        r == scaled_offset(s, len as int),
        -len <= r <= len,
{
    let m: i64 = if s.num >= 0 { s.num } else { -s.num };
    proof {
        assert(len * m <= len * s.den) by (nonlinear_arith)
            requires
                0 <= len,
                0 <= m <= s.den,
        ;
        assert(0 <= len * m) by (nonlinear_arith)
            requires
                0 <= len,
                0 <= m,
        ;
        assert(len * s.den <= 1000 * s.den) by (nonlinear_arith)
            requires
                len <= 1000,
                0 < s.den,
        ;
        vstd::arithmetic::div_mod::lemma_div_is_ordered(len * m, len * s.den, s.den as int);
        vstd::arithmetic::div_mod::lemma_div_multiples_vanish(len as int, s.den as int);
        vstd::arithmetic::div_mod::lemma_div_pos_is_pos(len * m, s.den as int);
    }
    let q: i64 = (len * m) / s.den;
    if s.num >= 0 {
        q
    } else {
        -q
    }
}

/// Whether `r` is the largest natural number whose square is at most `n`.
pub open spec fn is_floor_sqrt(n: nat, r: nat) -> bool {
    r * r <= n && n < (r + 1) * (r + 1)
}

/// The largest natural number whose square is at most `n`.
pub open spec fn floor_sqrt(n: nat) -> nat {
    choose|r: nat| is_floor_sqrt(n, r)
}

proof fn lemma_floor_sqrt_unique(n: nat, r: nat)
    requires
        r * r <= n < (r + 1) * (r + 1),
    ensures
        floor_sqrt(n) == r,
{
    assert(is_floor_sqrt(n, r));
    let s = floor_sqrt(n);
    assert(s * s <= n && n < (s + 1) * (s + 1));
    if s < r {
        assert((s + 1) * (s + 1) <= r * r) by (nonlinear_arith)
            requires
                s + 1 <= r,
        ;
    } else if r < s {
        assert((r + 1) * (r + 1) <= s * s) by (nonlinear_arith)
            requires
                r + 1 <= s,
        ;
    }
}

/// The integer square root of `n`, rounded down.
pub fn isqrt(n: u64) -> (r: u64)
    ensures
        r == floor_sqrt(n as nat),
        (r as int) * (r as int) <= n,
{
    let mut lo: u64 = 0;
    let mut hi: u64 = 4294967296;
    while hi - lo > 1
        invariant
            lo < hi <= 4294967296,
            (lo as int) * (lo as int) <= n,
            (n as int) < (hi as int) * (hi as int),
        decreases hi - lo,
    {
        let mid: u64 = lo + (hi - lo) / 2;
        assert((mid as int) * (mid as int) < 4294967296 * 4294967296) by (nonlinear_arith)
            requires
                0 <= mid < 4294967296,
        ;
        if mid * mid <= n {
            lo = mid;
        } else {
            hi = mid;
        }
    }
    proof {
        lemma_floor_sqrt_unique(n as nat, lo as nat);
    }
    lo
}

/// The radius of a circle centred at `a` through `b`, rounded down.
pub open spec fn radius_between(a: Point, b: Point) -> nat {
    floor_sqrt(((b.x - a.x) * (b.x - a.x) + (b.y - a.y) * (b.y - a.y)) as nat)
}

/// Computes the Euclidean distance from `a` to `b`, rounded down.
pub fn radius(a: Point, b: Point) -> (r: i32)
    requires
        point_ok(a),
        point_ok(b),
    ensures
        r == radius_between(a, b),
        0 <= r <= 4 * COORD_LIMIT,
{
    let dx: i64 = b.x as i64 - a.x as i64;
    let dy: i64 = b.y as i64 - a.y as i64;
    proof {
        assert(0 <= dx * dx <= 4 * COORD_LIMIT * COORD_LIMIT) by (nonlinear_arith)
            requires
                -2 * COORD_LIMIT <= dx <= 2 * COORD_LIMIT,
        ;
        assert(0 <= dy * dy <= 4 * COORD_LIMIT * COORD_LIMIT) by (nonlinear_arith)
            requires
                -2 * COORD_LIMIT <= dy <= 2 * COORD_LIMIT,
        ;
    }
    let sq: u64 = (dx * dx + dy * dy) as u64;
    let r = isqrt(sq);
    proof {
        if r > 4 * COORD_LIMIT {
            assert((r as int) * (r as int) > 16 * COORD_LIMIT * COORD_LIMIT) by (nonlinear_arith)
                requires
                    r > 4 * COORD_LIMIT,
            ;
        }
    }
    r as i32
}

} // verus!
