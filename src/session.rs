//! An editing session over a set of captured images: which slot is
//! selected, the annotation state, and committing or discarding edits.
use vstd::prelude::*;

use crate::annotate::{
    draw_result, is_text_stamp, opt_ok, opt_view, pointer_step, Annotation, AnnotationView, PointerEvent,
};
use crate::drawing::TextStyle;
use crate::enums::{CropMode, Draw};
use crate::geometry::{origin, zero_point, Bounds};
use crate::raster::{copy_image, ImageHandler, Raster};

verus! {

/// The captured set: one optional image per captured surface, a missing
/// one standing for a surface whose capture failed.
pub open spec fn slots_view(v: Seq<Option<ImageHandler>>) -> Seq<Option<Raster>> {
    v.map_values(|o: Option<ImageHandler>| opt_view(o))
}

/// A copy of an optional image.
pub fn copy_slot(o: &Option<ImageHandler>) -> (r: Option<ImageHandler>)
    ensures
        opt_view(r) == opt_view(*o),
        opt_ok(*o) ==> opt_ok(r),
{
    match o {
        Some(img) => Some(copy_image(img)),
        None => None,
    }
}

/// The indices of the slots that hold an image, among the first `n`, in order.
pub open spec fn filled_prefix(s: Seq<Option<Raster>>, n: int) -> Seq<usize>
    decreases n,
{
    if n <= 0 {
        Seq::empty()
    } else if s[n - 1] is Some {
        filled_prefix(s, n - 1).push((n - 1) as usize)
    } else {
        filled_prefix(s, n - 1)
    }
}

/// The state after "clear": the image of the selected slot again, and no
/// pending crop.
pub open spec fn cleared(a: AnnotationView, slot: Option<Raster>) -> AnnotationView {
    AnnotationView {
        working: slot,
        crop: CropMode::CropStatus,
        crop_start: origin(),
        crop_end: origin(),
        ..a
    }
}

pub struct Session {
    pub captured: Vec<Option<ImageHandler>>,
    pub selected: usize,
    pub annotation: Annotation,
}

impl Session {
    /// Every image is well formed, and the selection lies inside a
    /// non-empty captured set.
    pub open spec fn wf(&self) -> bool {
        &&& self.annotation.wf()
        &&& forall|i: int| 0 <= i < self.captured@.len() ==> opt_ok(#[trigger] self.captured@[i])
        &&& self.captured@.len() > 0 ==> self.selected < self.captured@.len()
    }

    pub open spec fn slots(&self) -> Seq<Option<Raster>> {
        slots_view(self.captured@)
    }

    /// A session with nothing captured yet.
    pub fn new() -> (r: Session)
        ensures
            r.wf(),
            r.captured@.len() == 0,
            r.selected == 0,
            r.annotation@ == Annotation::new_view(),
    {
        Session { captured: Vec::new(), selected: 0, annotation: Annotation::new() }
    }

    /// Takes a newly delivered captured set: it replaces the old one, the
    /// first slot is selected, and its image becomes the one edited.
    pub fn screen_done(&mut self, images: Vec<Option<ImageHandler>>)
        requires
            old(self).wf(),
            images@.len() > 0,
            forall|i: int| 0 <= i < images@.len() ==> opt_ok(#[trigger] images@[i]),
        ensures
            final(self).wf(),
            final(self).slots() == slots_view(images@),
            final(self).selected == 0,
            final(self).annotation@ == (AnnotationView {
                working: slots_view(images@)[0],
                ..old(self).annotation@
            }),
    {
        let first = copy_slot(&images[0]);
        self.captured = images;
        self.selected = 0;
        self.annotation.working = first;
    }

    /// Selects slot `i` and starts editing its image.
    pub fn select(&mut self, i: usize)
        requires
            old(self).wf(),
            i < old(self).captured@.len(),
        ensures
            final(self).wf(),
            final(self).slots() == old(self).slots(),
            final(self).selected == i,
            final(self).annotation@ == (AnnotationView {
                working: old(self).slots()[i as int],
                ..old(self).annotation@
            }),
    {
        let w = copy_slot(&self.captured[i]);
        self.selected = i;
        self.annotation.working = w;
    }

    /// Discards every uncommitted edit: the image edited becomes the last
    /// committed image of the selected slot, and any pending crop is dropped.
    pub fn clear(&mut self)
        requires
            old(self).wf(),
            old(self).captured@.len() > 0,
        ensures
            final(self).wf(),
            final(self).slots() == old(self).slots(),
            final(self).selected == old(self).selected,
            final(self).annotation@ == cleared(
                old(self).annotation@,
                old(self).slots()[old(self).selected as int],
            ),
    {
        let w = copy_slot(&self.captured[self.selected]);
        self.annotation.working = w;
        self.annotation.crop = CropMode::CropStatus;
        self.annotation.crop_start = zero_point();
        self.annotation.crop_end = zero_point();
    }

    /// Commits the image edited into the selected slot; nothing happens
    /// while a crop awaits confirmation or when nothing was captured.
    pub fn save_changes(&mut self)
        requires
            old(self).wf(),
        ensures
            final(self).wf(),
            final(self).selected == old(self).selected,
            final(self).annotation@ == old(self).annotation@,
            if old(self).annotation.crop != CropMode::CropConfirm && old(self).captured@.len() > 0 {
                final(self).slots() == old(self).slots().update(
                    old(self).selected as int,
                    old(self).annotation@.working,
                )
            } else {
                final(self).slots() == old(self).slots()
            },
    {
        if self.annotation.crop != CropMode::CropConfirm && self.selected < self.captured.len() {
            let w = copy_slot(&self.annotation.working);
            self.captured.set(self.selected, w);
            proof {
                assert(self.slots() =~= old(self).slots().update(
                    old(self).selected as int,
                    old(self).annotation@.working,
                ));
            }
        }
    }

    /// Applies a toolbar request: "clear" and "save changes" act on the
    /// session, every other request on the annotation state.
    pub fn update_draw(&mut self, d: Draw)
        requires
            old(self).wf(),
            d == Draw::ClearButton ==> old(self).captured@.len() > 0,
        ensures
            final(self).wf(),
            final(self).selected == old(self).selected,
            d == Draw::ClearButton ==> final(self).slots() == old(self).slots()
                && final(self).annotation@ == cleared(
                old(self).annotation@,
                old(self).slots()[old(self).selected as int],
            ),
            d == Draw::SaveModifyChanges ==> final(self).annotation@ == old(self).annotation@
                && if old(self).annotation.crop != CropMode::CropConfirm && old(self).captured@.len() > 0 {
                final(self).slots() == old(self).slots().update(
                    old(self).selected as int,
                    old(self).annotation@.working,
                )
            } else {
                final(self).slots() == old(self).slots()
            },
            d != Draw::ClearButton && d != Draw::SaveModifyChanges ==> final(self).slots() == old(self).slots()
                && draw_result(old(self).annotation@, d, final(self).annotation@),
    {
        match d {
            Draw::ClearButton => self.clear(),
            Draw::SaveModifyChanges => self.save_changes(),
            _ => self.annotation.apply(d),
        }
    }

    /// Hands a pointer event to the annotation state (see
    /// `Annotation::pointer`); `true` when the pending text is due.
    pub fn pointer(&mut self, b: Bounds, ev: PointerEvent) -> (stamp_due: bool)
        requires
            old(self).wf(),
            b.valid(),
        ensures
            final(self).wf(),
            final(self).slots() == old(self).slots(),
            final(self).selected == old(self).selected,
            stamp_due == is_text_stamp(old(self).annotation@, ev),
            !stamp_due ==> final(self).annotation@ == pointer_step(old(self).annotation@, b, ev),
            stamp_due ==> final(self).annotation@ == old(self).annotation@,
    {
        self.annotation.pointer(b, ev)
    }

    /// Stamps the pending text (see `Annotation::stamp_text`).
    pub fn stamp_text(&mut self, b: Bounds, style: &TextStyle)
        requires
            old(self).wf(),
            b.valid(),
            is_text_stamp(old(self).annotation@, PointerEvent::Pressed),
        ensures
            final(self).wf(),
            final(self).slots() == old(self).slots(),
            final(self).selected == old(self).selected,
            final(self).annotation@ == (AnnotationView {
                working: final(self).annotation@.working,
                figure_press: origin(),
                ..old(self).annotation@
            }),
            final(self).annotation@.working is Some,
            final(self).annotation@.working->Some_0.width == old(self).annotation@.working->Some_0.width,
            final(self).annotation@.working->Some_0.height == old(self).annotation@.working->Some_0.height,
    {
        self.annotation.stamp_text(b, style);
    }

    /// The indices of the slots that hold an image, in order: the images to
    /// copy to the clipboard or to save once a capture is delivered.
    pub fn filled_slots(&self) -> (r: Vec<usize>)
        ensures
            r@ == filled_prefix(self.slots(), self.captured@.len() as int),
    {
        let mut r: Vec<usize> = Vec::new();
        let mut i: usize = 0;
        while i < self.captured.len()
            invariant
                i <= self.captured@.len(),
                r@ == filled_prefix(self.slots(), i as int),
            decreases self.captured@.len() - i,
        {
            if self.captured[i].is_some() {
                r.push(i);
            }
            i = i + 1;
        }
        r
    }
}

} // verus!
