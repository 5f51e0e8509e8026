//! The annotation state machine: which tool is active, the crop interaction,
//! the pointer's anchor points, and the image being edited.
use vstd::prelude::*;

use crate::drawing::{
    filled_circle, filled_circle_of, hollow_circle, hollow_circle_of, hollow_rect, line_segment,
    line_segment_of, outlined_bytes, resize_lanczos3, stamp_text, sub_image, with_bytes, TextStyle,
};
use crate::enums::{CropMode, Draw};
use crate::geometry::{
    clamp_slope, clamped_slope, map_point, mapped, normalize, normalized, offset_along, offset_in,
    origin, point_ok, pt, radius, radius_between, scaled_offset, zero_point, Bounds, CropRect,
    Point,
};
use crate::raster::{
    band_color, color_band, highlight_color, raster_ok, rgb, Color, ImageHandler, Raster, COORD_LIMIT,
};

verus! {

/// Radius of a freehand brush stamp, in pixels.
pub const BRUSH_RADIUS: i32 = 5;

/// Length of each arrow-head stroke, in pixels.
pub const HEAD_LENGTH: i64 = 30;

/// Width of an image after a crop is committed.
pub const CROP_OUT_WIDTH: u32 = 1920;

/// Height of an image after a crop is committed.
pub const CROP_OUT_HEIGHT: u32 = 1080;

/// The active annotation tool.
#[derive(Debug, Clone, Copy, PartialEq, Eq, Structural)]
pub enum DrawMode {
    Nothing,
    FreeHand,
    Circle,
    Text,
    Arrow,
    Crop,
}

/// A pointer event over the rendered image.
#[derive(Debug, Clone, Copy, PartialEq, Eq, Structural)]
pub enum PointerEvent {
    Moved(Point),
    Pressed,
    Released,
}

/// The editing state of one annotation session.
///
/// A recorded point equal to the origin counts as "not recorded yet".
pub struct Annotation {
    pub draw: DrawMode,
    pub crop: CropMode,
    pub crop_start: Point,
    pub crop_end: Point,
    pub pressed: bool,
    pub figure_press: Point,
    pub figure_released: Point,
    pub text: String,
    pub color_slider: u8,
    pub working: Option<ImageHandler>,
}

/// What an annotation session is, with the image as a raster.
pub ghost struct AnnotationView {
    pub draw: DrawMode,
    pub crop: CropMode,
    pub crop_start: Point,
    pub crop_end: Point,
    pub pressed: bool,
    pub figure_press: Point,
    pub figure_released: Point,
    pub text: Seq<char>,
    pub color_slider: u8,
    pub working: Option<Raster>,
}

pub open spec fn opt_view(o: Option<ImageHandler>) -> Option<Raster> {
    match o {
        Some(i) => Some(i@),
        None => None,
    }
}

pub open spec fn opt_ok(o: Option<ImageHandler>) -> bool {
    match o {
        Some(i) => i.wf(),
        None => true,
    }
}

impl View for Annotation {
    type V = AnnotationView;

    open spec fn view(&self) -> AnnotationView {
        AnnotationView {
            draw: self.draw,
            crop: self.crop,
            crop_start: self.crop_start,
            crop_end: self.crop_end,
            pressed: self.pressed,
            figure_press: self.figure_press,
            figure_released: self.figure_released,
            text: self.text@,
            color_slider: self.color_slider,
            working: opt_view(self.working),
        }
    }
}

/// The mode that a toolbar request toggles, if it is a toggle.
pub open spec fn toggled_mode(d: Draw) -> Option<DrawMode> {
    match d {
        Draw::FreeHand => Some(DrawMode::FreeHand),
        Draw::Circle => Some(DrawMode::Circle),
        Draw::Text => Some(DrawMode::Text),
        Draw::Arrow => Some(DrawMode::Arrow),
        Draw::Crop => Some(DrawMode::Crop),
        _ => None,
    }
}

/// Whether the crop rectangle `r`, inset by one pixel on each side, leaves
/// a non-empty region inside `img`.
pub open spec fn crop_fits(img: Raster, r: CropRect) -> bool {
    &&& r.width > 2
    &&& r.height > 2
    &&& r.x + 1 >= 0
    &&& r.y + 1 >= 0
    &&& r.x + r.width - 1 <= img.width
    &&& r.y + r.height - 1 <= img.height
}

/// The state after the proposed crop is committed, where `resampled` is
/// the image that resampling the crop's interior gave: it replaces the image
/// where the inset rectangle fits.
pub open spec fn crop_committed(s: AnnotationView, resampled: Raster) -> AnnotationView {
    let r = normalized(s.crop_start, s.crop_end);
    AnnotationView {
        working: match s.working {
            Some(img) => if crop_fits(img, r) { Some(resampled) } else { Some(img) },
            None => None,
        },
        crop: CropMode::CropStatus,
        draw: DrawMode::Nothing,
        crop_start: origin(),
        crop_end: origin(),
        ..s
    }
}

/// Whether request `d` commits a proposed crop whose inset fits the image,
/// so that the image is resampled.
pub open spec fn resamples(s: AnnotationView, d: Draw) -> bool {
    &&& d == Draw::Crop
    &&& s.draw == DrawMode::Crop
    &&& s.crop == CropMode::CropConfirm
    &&& s.working is Some
    &&& crop_fits(s.working->Some_0, normalized(s.crop_start, s.crop_end))
}

/// Switches between `m` and no tool.
pub open spec fn flip(s: AnnotationView, m: DrawMode) -> AnnotationView {
    if s.draw == m {
        AnnotationView { draw: DrawMode::Nothing, ..s }
    } else {
        AnnotationView { draw: m, ..s }
    }
}

/// The state after a toolbar request, `resampled` standing for the image a
/// committed crop yields. While a crop awaits confirmation only the crop
/// toggle and the text and colour inputs act; "clear" and "save changes" act
/// on the whole session and leave this state as it is.
pub open spec fn draw_step(s: AnnotationView, d: Draw, resampled: Raster) -> AnnotationView {
    let confirming = s.crop == CropMode::CropConfirm;
    match d {
        Draw::Crop => {
            if s.draw == DrawMode::Crop && !confirming {
                AnnotationView { draw: DrawMode::Nothing, ..s }
            } else if s.draw == DrawMode::Crop && confirming {
                crop_committed(s, resampled)
            } else {
                AnnotationView { draw: DrawMode::Crop, ..s }
            }
        },
        Draw::Arrow => if confirming { s } else { flip(s, DrawMode::Arrow) },
        Draw::FreeHand => if confirming { s } else { flip(s, DrawMode::FreeHand) },
        Draw::Circle => if confirming { s } else { flip(s, DrawMode::Circle) },
        Draw::Text => {
            if confirming {
                s
            } else if s.draw == DrawMode::Text {
                AnnotationView { draw: DrawMode::Nothing, text: Seq::empty(), ..s }
            } else {
                AnnotationView { draw: DrawMode::Text, ..s }
            }
        },
        Draw::TextInput(t) => AnnotationView { text: t@, ..s },
        Draw::ColorSlider(v) => AnnotationView { color_slider: v, ..s },
        _ => s,
    }
}

/// Records a figure's anchor at `q` if none is recorded, then its far point.
pub open spec fn figure_tracked(s: AnnotationView, q: Point) -> AnnotationView {
    let press = if s.figure_press == origin() { q } else { s.figure_press };
    let rel = if press != origin() { q } else { s.figure_released };
    AnnotationView { figure_press: press, figure_released: rel, ..s }
}

/// Records the crop's first corner at `q` if none is recorded, then its
/// opposite corner.
pub open spec fn crop_tracked(s: AnnotationView, q: Point) -> AnnotationView {
    let start = if s.crop_start == origin() { q } else { s.crop_start };
    let end = if start != origin() { q } else { s.crop_end };
    AnnotationView { crop_start: start, crop_end: end, ..s }
}

/// The bytes of `img` after an arrow from `a` to `e` is drawn: two head
/// strokes ending at `e`, then the shaft.
pub open spec fn arrow_bytes(img: Raster, a: Point, e: Point, c: Color) -> Seq<u8> {
    let off = scaled_offset(clamped_slope(e.x - a.x, e.y - a.y), HEAD_LENGTH as int);
    let sx = if a.y > e.y { off } else { -off };
    let i1 = with_bytes(img, line_segment_of(img, e.x + sx, e.y + sx, e.x as int, e.y as int, c));
    let i2 = with_bytes(i1, line_segment_of(i1, e.x + sx, e.y - sx, e.x as int, e.y as int, c));
    line_segment_of(i2, a.x as int, a.y as int, e.x as int, e.y as int, c)
}

/// Whether `ev` stamps the pending text: a press while the text tool is on.
pub open spec fn is_text_stamp(s: AnnotationView, ev: PointerEvent) -> bool {
    &&& s.working is Some
    &&& s.draw == DrawMode::Text
    &&& s.crop != CropMode::CropConfirm
    &&& ev == PointerEvent::Pressed
}

/// The state after a pointer event over bounds `b`, for every event but a
/// text stamp (see `is_text_stamp`). With no image nothing changes.
pub open spec fn pointer_step(s: AnnotationView, b: Bounds, ev: PointerEvent) -> AnnotationView {
    match s.working {
        None => s,
        Some(img) => {
            let c = band_color(s.color_slider);
            let confirming = s.crop == CropMode::CropConfirm;
            let fp = s.figure_press;
            let fr = s.figure_released;
            match s.draw {
                DrawMode::FreeHand => if confirming { s } else {
                    match ev {
                        PointerEvent::Moved(p) => if b.holds(p) && s.pressed {
                            let q = mapped(b, p, img.width as int, img.height as int);
                            let bytes = filled_circle_of(img, q.x as int, q.y as int, BRUSH_RADIUS as int, c);
                            AnnotationView { working: Some(with_bytes(img, bytes)), ..s }
                        } else {
                            s
                        },
                        PointerEvent::Pressed => AnnotationView { pressed: true, ..s },
                        PointerEvent::Released => AnnotationView { pressed: false, ..s },
                    }
                },
                DrawMode::Circle => if confirming { s } else {
                    match ev {
                        PointerEvent::Moved(p) => if b.holds(p) && s.pressed {
                            figure_tracked(s, mapped(b, p, img.width as int, img.height as int))
                        } else {
                            s
                        },
                        PointerEvent::Pressed => AnnotationView { pressed: true, ..s },
                        PointerEvent::Released => {
                            let bytes = hollow_circle_of(img, fp.x as int, fp.y as int, radius_between(fp, fr) as int, c);
                            AnnotationView {
                                pressed: false,
                                working: Some(with_bytes(img, bytes)),
                                figure_press: origin(),
                                figure_released: origin(),
                                ..s
                            }
                        },
                    }
                },
                DrawMode::Arrow => if confirming { s } else {
                    match ev {
                        PointerEvent::Moved(p) => if b.holds(p) && s.pressed {
                            figure_tracked(s, mapped(b, p, img.width as int, img.height as int))
                        } else {
                            s
                        },
                        PointerEvent::Pressed => AnnotationView { pressed: true, ..s },
                        PointerEvent::Released => AnnotationView {
                            pressed: false,
                            working: Some(with_bytes(img, arrow_bytes(img, fp, fr, c))),
                            figure_press: origin(),
                            figure_released: origin(),
                            ..s
                        },
                    }
                },
                DrawMode::Text => if confirming { s } else {
                    match ev {
                        PointerEvent::Moved(p) => if b.holds(p) {
                            AnnotationView { figure_press: pt(p.x - b.x, p.y - b.y), ..s }
                        } else {
                            s
                        },
                        _ => s,
                    }
                },
                DrawMode::Crop => match ev {
                    PointerEvent::Moved(p) => if !confirming && b.holds(p) && s.pressed {
                        crop_tracked(s, mapped(b, p, img.width as int, img.height as int))
                    } else {
                        s
                    },
                    PointerEvent::Pressed => AnnotationView { pressed: true, ..s },
                    PointerEvent::Released => {
                        let r = normalized(s.crop_start, s.crop_end);
                        if !confirming && r.width > 0 && r.height > 0 {
                            let bytes = outlined_bytes(img, r.x as int, r.y as int, r.width as int, r.height as int, rgb(255, 0, 0));
                            AnnotationView {
                                pressed: false,
                                working: Some(with_bytes(img, bytes)),
                                crop: CropMode::CropConfirm,
                                ..s
                            }
                        } else {
                            AnnotationView { pressed: false, ..s }
                        }
                    },
                },
                DrawMode::Nothing => s,
            }
        },
    }
}

/// `v * size / span`, rounded toward zero; zero where `span` is zero.
pub open spec fn scaled_trunc(v: int, size: int, span: int) -> int {
    if span == 0 {
        0
    } else if v >= 0 {
        v * size / span
    } else {
        -((-v * size) / span)
    }
}

pub open spec fn clamp_coord(v: int) -> int {
    if v > COORD_LIMIT {
        COORD_LIMIT as int
    } else if v < -COORD_LIMIT {
        -COORD_LIMIT
    } else {
        v
    }
}

/// Where the pending text is stamped: the recorded display offset scaled
/// into the image (the origin where the bounds are empty), kept within the
/// coordinate limit, beyond which it would lie off the image either way.
pub open spec fn text_position(s: AnnotationView, b: Bounds, img: Raster) -> Point {
    if b.width != 0 && b.height != 0 {
        pt(
            clamp_coord(scaled_trunc(s.figure_press.x as int, img.width as int, b.width as int)),
            clamp_coord(scaled_trunc(s.figure_press.y as int, img.height as int, b.height as int)),
        )
    } else {
        origin()
    }
}

/// The position that `text_position` describes, computed.
fn scale_axis(v: i32, size: u32, span: i32) -> (r: i32)
    requires
        -COORD_LIMIT <= v <= COORD_LIMIT,
        size <= crate::raster::MAX_SIDE,
        0 < span,
    ensures
        r == clamp_coord(scaled_trunc(v as int, size as int, span as int)),
{
    let m: i64 = if v >= 0 { v as i64 } else { -(v as i64) };
    proof {
        assert(0 <= m * (size as i64) <= COORD_LIMIT * crate::raster::MAX_SIDE) by (nonlinear_arith)
            requires
                0 <= m <= COORD_LIMIT,
                size <= crate::raster::MAX_SIDE,
        ;
        vstd::arithmetic::div_mod::lemma_div_pos_is_pos(m * (size as i64), span as int);
        vstd::arithmetic::div_mod::lemma_div_is_ordered_by_denominator(m * (size as i64), 1, span as int);
    }
    let q: i64 = (m * (size as i64)) / (span as i64);
    let t: i64 = if v >= 0 { q } else { -q };
    if t > COORD_LIMIT as i64 {
        COORD_LIMIT
    } else if t < -(COORD_LIMIT as i64) {
        -COORD_LIMIT
    } else {
        t as i32
    }
}

impl Annotation {
    /// The image, if any, is well formed and every recorded point lies
    /// within the coordinate limit.
    pub open spec fn wf(&self) -> bool {
        &&& opt_ok(self.working)
        &&& point_ok(self.crop_start)
        &&& point_ok(self.crop_end)
        &&& point_ok(self.figure_press)
        &&& point_ok(self.figure_released)
    }

    /// The initial state: no tool, no crop, no text, black, and no image.
    pub open spec fn new_view() -> AnnotationView {
        AnnotationView {
            draw: DrawMode::Nothing,
            crop: CropMode::CropStatus,
            crop_start: origin(),
            crop_end: origin(),
            pressed: false,
            figure_press: origin(),
            figure_released: origin(),
            text: Seq::empty(),
            color_slider: 0,
            working: None,
        }
    }

    pub fn new() -> (r: Annotation)
        ensures
            r.wf(),
            r@ == Annotation::new_view(),
    {
        Annotation {
            draw: DrawMode::Nothing,
            crop: CropMode::CropStatus,
            crop_start: zero_point(),
            crop_end: zero_point(),
            pressed: false,
            figure_press: zero_point(),
            figure_released: zero_point(),
            text: String::new(),
            color_slider: 0,
            working: None,
        }
    }

    /// Commits the proposed crop: where the inset rectangle fits the image,
    /// the image becomes that region resampled to 1920 by 1080; the crop
    /// interaction and the tool are reset either way.
    pub fn commit_crop(&mut self)
        requires
            old(self).wf(),
        ensures
            final(self).wf(),
            final(self)@ == crop_committed(old(self)@, final(self)@.working->Some_0),
            old(self)@.working is Some && crop_fits(
                old(self)@.working->Some_0,
                normalized(old(self)@.crop_start, old(self)@.crop_end),
            ) ==> final(self)@.working->Some_0.width == CROP_OUT_WIDTH
                && final(self)@.working->Some_0.height == CROP_OUT_HEIGHT,
    {
        let r = normalize(self.crop_start, self.crop_end);
        let next = match &self.working {
            Some(img) => {
                if r.width > 2 && r.height > 2 && r.x as i64 + 1 >= 0 && r.y as i64 + 1 >= 0
                    && r.x as i64 + r.width as i64 - 1 <= img.width as i64
                    && r.y as i64 + r.height as i64 - 1 <= img.height as i64 {
                    let inner = sub_image(img, (r.x + 1) as u32, (r.y + 1) as u32, r.width - 2, r.height - 2);
                    Some(resize_lanczos3(&inner, CROP_OUT_WIDTH, CROP_OUT_HEIGHT))
                } else {
                    None
                }
            },
            None => None,
        };
        match next {
            Some(n) => {
                self.working = Some(n);
            },
            None => {},
        }
        self.crop = CropMode::CropStatus;
        self.draw = DrawMode::Nothing;
        self.crop_start = zero_point();
        self.crop_end = zero_point();
    }

    /// Applies a toolbar request (see `draw_result`).
    pub fn apply(&mut self, d: Draw)
        requires
            old(self).wf(),
        ensures
            final(self).wf(),
            draw_result(old(self)@, d, final(self)@),
    {
        let confirming = self.crop == CropMode::CropConfirm;
        match d {
            Draw::Crop => {
                if self.draw == DrawMode::Crop && !confirming {
                    self.draw = DrawMode::Nothing;
                } else if self.draw == DrawMode::Crop && confirming {
                    self.commit_crop();
                } else {
                    self.draw = DrawMode::Crop;
                }
            },
            Draw::Arrow => {
                if !confirming {
                    self.flip(DrawMode::Arrow);
                }
            },
            Draw::FreeHand => {
                if !confirming {
                    self.flip(DrawMode::FreeHand);
                }
            },
            Draw::Circle => {
                if !confirming {
                    self.flip(DrawMode::Circle);
                }
            },
            Draw::Text => {
                if !confirming {
                    if self.draw == DrawMode::Text {
                        self.draw = DrawMode::Nothing;
                        self.text = String::new();
                    } else {
                        self.draw = DrawMode::Text;
                    }
                }
            },
            Draw::TextInput(t) => {
                self.text = t;
            },
            Draw::ColorSlider(v) => {
                self.color_slider = v;
            },
            _ => {},
        }
    }

    fn flip(&mut self, m: DrawMode)
        ensures
            final(self)@ == flip(old(self)@, m),
            final(self).working == old(self).working,
            final(self).crop_start == old(self).crop_start,
            final(self).crop_end == old(self).crop_end,
            final(self).figure_press == old(self).figure_press,
            final(self).figure_released == old(self).figure_released,
    {
        if self.draw == m {
            self.draw = DrawMode::Nothing;
        } else {
            self.draw = m;
        }
    }

    fn track_figure(&mut self, q: Point)
        requires
            old(self).wf(),
            point_ok(q),
        ensures
            final(self).wf(),
            final(self)@ == figure_tracked(old(self)@, q),
            final(self).working == old(self).working,
    {
        if self.figure_press == zero_point() {
            self.figure_press = q;
        }
        if self.figure_press != zero_point() {
            self.figure_released = q;
        }
    }

    fn track_crop(&mut self, q: Point)
        requires
            old(self).wf(),
            point_ok(q),
        ensures
            final(self).wf(),
            final(self)@ == crop_tracked(old(self)@, q),
            final(self).working == old(self).working,
    {
        if self.crop_start == zero_point() {
            self.crop_start = q;
        }
        if self.crop_start != zero_point() {
            self.crop_end = q;
        }
    }

    /// Where the pending text would be stamped over bounds `b`; the origin
    /// when there is no image.
    pub fn text_anchor(&self, b: Bounds) -> (r: Point)
        requires
            self.wf(),
            b.valid(),
        ensures
            r == match self@.working {
                Some(img) => text_position(self@, b, img),
                None => origin(),
            },
            point_ok(r),
    {
        match &self.working {
            Some(img) => {
                if b.width != 0 && b.height != 0 {
                    Point {
                        x: scale_axis(self.figure_press.x, img.width, b.width),
                        y: scale_axis(self.figure_press.y, img.height, b.height),
                    }
                } else {
                    zero_point()
                }
            },
            None => zero_point(),
        }
    }

    /// Handles a pointer event over the rendered image's bounds `b` (see
    /// `pointer_step`). A press with the text tool on changes nothing here
    /// and returns `true`: the pending text is then due, through
    /// `stamp_text`.
    pub fn pointer(&mut self, b: Bounds, ev: PointerEvent) -> (stamp_due: bool)
        requires
            old(self).wf(),
            b.valid(),
        ensures
            final(self).wf(),
            stamp_due == is_text_stamp(old(self)@, ev),
            !stamp_due ==> final(self)@ == pointer_step(old(self)@, b, ev),
            stamp_due ==> final(self)@ == old(self)@,
    {
        let (w, h) = match &self.working {
            Some(img) => (img.width, img.height),
            None => {
                return false;
            },
        };
        let c = color_band(self.color_slider);
        let confirming = self.crop == CropMode::CropConfirm;
        match self.draw {
            DrawMode::FreeHand => {
                if !confirming {
                    match ev {
                        PointerEvent::Moved(p) => {
                            if b.contains(p) && self.pressed {
                                let q = map_point(b, p, w, h);
                                let out = match &self.working {
                                    Some(img) => filled_circle(img, q.x, q.y, BRUSH_RADIUS, c),
                                    None => {
                                        return false;
                                    },
                                };
                                self.working = Some(out);
                            }
                        },
                        PointerEvent::Pressed => {
                            self.pressed = true;
                        },
                        PointerEvent::Released => {
                            self.pressed = false;
                        },
                    }
                }
            },
            DrawMode::Circle => {
                if !confirming {
                    match ev {
                        PointerEvent::Moved(p) => {
                            if b.contains(p) && self.pressed {
                                let q = map_point(b, p, w, h);
                                self.track_figure(q);
                            }
                        },
                        PointerEvent::Pressed => {
                            self.pressed = true;
                        },
                        PointerEvent::Released => {
                            let fp = self.figure_press;
                            let rad = radius(fp, self.figure_released);
                            let out = match &self.working {
                                Some(img) => hollow_circle(img, fp.x, fp.y, rad, c),
                                None => {
                                    return false;
                                },
                            };
                            self.pressed = false;
                            self.working = Some(out);
                            self.figure_press = zero_point();
                            self.figure_released = zero_point();
                        },
                    }
                }
            },
            DrawMode::Arrow => {
                if !confirming {
                    match ev {
                        PointerEvent::Moved(p) => {
                            if b.contains(p) && self.pressed {
                                let q = map_point(b, p, w, h);
                                self.track_figure(q);
                            }
                        },
                        PointerEvent::Pressed => {
                            self.pressed = true;
                        },
                        PointerEvent::Released => {
                            let out = match &self.working {
                                Some(img) => draw_arrow(img, self.figure_press, self.figure_released, c),
                                None => {
                                    return false;
                                },
                            };
                            self.pressed = false;
                            self.working = Some(out);
                            self.figure_press = zero_point();
                            self.figure_released = zero_point();
                        },
                    }
                }
            },
            DrawMode::Text => {
                if !confirming {
                    match ev {
                        PointerEvent::Moved(p) => {
                            if b.contains(p) {
                                self.figure_press = offset_in(b, p);
                            }
                        },
                        PointerEvent::Pressed => {
                            return true;
                        },
                        PointerEvent::Released => {},
                    }
                }
            },
            DrawMode::Crop => {
                match ev {
                    PointerEvent::Moved(p) => {
                        if !confirming && b.contains(p) && self.pressed {
                            let q = map_point(b, p, w, h);
                            self.track_crop(q);
                        }
                    },
                    PointerEvent::Pressed => {
                        self.pressed = true;
                    },
                    PointerEvent::Released => {
                        self.pressed = false;
                        if !confirming {
                            let r = normalize(self.crop_start, self.crop_end);
                            if r.width > 0 && r.height > 0 {
                                let out = match &self.working {
                                    Some(img) => hollow_rect(img, r.x, r.y, r.width, r.height, highlight_color()),
                                    None => {
                                        return false;
                                    },
                                };
                                self.working = Some(out);
                                self.crop = CropMode::CropConfirm;
                            }
                        }
                    },
                }
            },
            DrawMode::Nothing => {},
        }
        false
    }

    /// Stamps the pending text at `text_anchor` in colour and `style`: the
    /// image keeps its size, and the anchor is forgotten.
    pub fn stamp_text(&mut self, b: Bounds, style: &TextStyle)
        requires
            old(self).wf(),
            b.valid(),
            is_text_stamp(old(self)@, PointerEvent::Pressed),
        ensures
            final(self).wf(),
            final(self)@ == (AnnotationView {
                working: final(self)@.working,
                figure_press: origin(),
                ..old(self)@
            }),
            final(self)@.working is Some,
            final(self)@.working->Some_0.width == old(self)@.working->Some_0.width,
            final(self)@.working->Some_0.height == old(self)@.working->Some_0.height,
    {
        let c = color_band(self.color_slider);
        let at = self.text_anchor(b);
        let out = match &self.working {
            Some(img) => stamp_text(img, c, at.x, at.y, style, self.text.as_str()),
            None => {
                return ;
            },
        };
        self.working = Some(out);
        self.figure_press = zero_point();
    }

}

/// Draws an arrow from `a` to `e` on a copy of `img`.
fn draw_arrow(img: &ImageHandler, a: Point, e: Point, c: Color) -> (r: ImageHandler)
    requires
        img.wf(),
        point_ok(a),
        point_ok(e),
    ensures
        r.wf(),
        r@ == with_bytes(img@, arrow_bytes(img@, a, e, c)),
{
    let sl = clamp_slope(e.x as i64 - a.x as i64, e.y as i64 - a.y as i64);
    let off = offset_along(sl, HEAD_LENGTH);
    let sx: i64 = if a.y > e.y { off } else { -off };
    let hx = (e.x as i64 + sx) as i32;
    let i1 = line_segment(img, hx, (e.y as i64 + sx) as i32, e.x, e.y, c);
    let i2 = line_segment(&i1, hx, (e.y as i64 - sx) as i32, e.x, e.y, c);
    line_segment(&i2, a.x, a.y, e.x, e.y, c)
}

/// Toggling the same tool twice, starting from any other tool or from none,
/// leaves no tool active. While a crop awaits confirmation only the crop
/// toggle acts, so there the law is about that toggle.
pub proof fn lemma_toggle_twice_deselects(s: AnnotationView, d: Draw, t1: AnnotationView, t2: AnnotationView)
    requires
        toggled_mode(d) is Some,
        s.draw != toggled_mode(d)->Some_0,
        s.crop == CropMode::CropStatus || d == Draw::Crop,
        draw_result(s, d, t1),
        draw_result(t1, d, t2),
    ensures
        t2.draw == DrawMode::Nothing,
{
}

/// Committing a proposed crop whose rectangle is more than two pixels wide
/// and tall and whose interior (the rectangle inset by one pixel) lies in
/// the image yields an image of exactly 1920 by 1080 pixels, whatever the
/// rectangle's size. The crop interaction and the tool are reset.
pub proof fn lemma_crop_commit_size(s: AnnotationView, t: AnnotationView)
    requires
        s.draw == DrawMode::Crop,
        s.crop == CropMode::CropConfirm,
        s.working is Some,
        normalized(s.crop_start, s.crop_end).width > 2,
        normalized(s.crop_start, s.crop_end).height > 2,
        normalized(s.crop_start, s.crop_end).x + 1 >= 0,
        normalized(s.crop_start, s.crop_end).y + 1 >= 0,
        normalized(s.crop_start, s.crop_end).x + normalized(s.crop_start, s.crop_end).width - 1
            <= s.working->Some_0.width,
        normalized(s.crop_start, s.crop_end).y + normalized(s.crop_start, s.crop_end).height - 1
            <= s.working->Some_0.height,
        draw_result(s, Draw::Crop, t),
    ensures
        t.working is Some,
        t.working->Some_0.width == 1920,
        t.working->Some_0.height == 1080,
        t.crop == CropMode::CropStatus,
        t.draw == DrawMode::Nothing,
        t.crop_start == origin(),
        t.crop_end == origin(),
{
}

/// Whether `t` is a state that request `d` leads to from `s`: `draw_step`,
/// where a crop commit's resampled image is some well-formed 1920 by 1080
/// image (its pixels are not pinned down).
pub open spec fn draw_result(s: AnnotationView, d: Draw, t: AnnotationView) -> bool {
    &&& t == draw_step(s, d, t.working->Some_0)
    &&& resamples(s, d) ==> {
        &&& t.working is Some
        &&& raster_ok(t.working->Some_0)
        &&& t.working->Some_0.width == CROP_OUT_WIDTH
        &&& t.working->Some_0.height == CROP_OUT_HEIGHT
    }
}

} // verus!
