use multi_platform_screen_grabbing_utility::annotate::{Annotation, DrawMode, PointerEvent};
use multi_platform_screen_grabbing_utility::enums::{CropMode, Draw};
use multi_platform_screen_grabbing_utility::geometry::{Bounds, Point};
use multi_platform_screen_grabbing_utility::raster::ImageHandler;
use multi_platform_screen_grabbing_utility::session::Session;

const SIDE: u32 = 40;

fn white() -> ImageHandler {
    ImageHandler::new(SIDE, SIDE, vec![255; (SIDE * SIDE * 4) as usize]).unwrap()
}

fn pixel(img: &ImageHandler, x: u32, y: u32) -> [u8; 4] {
    let i = ((y * img.width() + x) * 4) as usize;
    [img.buffer[i], img.buffer[i + 1], img.buffer[i + 2], img.buffer[i + 3]]
}

fn bounds() -> Bounds {
    Bounds { x: 0, y: 0, width: SIDE as i32, height: SIDE as i32 }
}

fn session() -> Session {
    let mut s = Session::new();
    s.screen_done(vec![Some(white()), None]);
    s
}

fn drag(s: &mut Session, points: &[(i32, i32)]) {
    assert!(!s.pointer(bounds(), PointerEvent::Pressed));
    for &(x, y) in points {
        assert!(!s.pointer(bounds(), PointerEvent::Moved(Point { x, y })));
    }
    assert!(!s.pointer(bounds(), PointerEvent::Released));
}

fn working(s: &Session) -> &ImageHandler {
    s.annotation.working.as_ref().unwrap()
}

#[test]
fn toggling_a_mode_twice_deselects_it() {
    for d in [Draw::FreeHand, Draw::Circle, Draw::Arrow, Draw::Text, Draw::Crop] {
        let mut s = session();
        s.update_draw(d.clone());
        assert_ne!(s.annotation.draw, DrawMode::Nothing);
        s.update_draw(d);
        assert_eq!(s.annotation.draw, DrawMode::Nothing);
    }
}

#[test]
fn switching_modes_replaces_the_active_one() {
    let mut s = session();
    s.update_draw(Draw::Circle);
    s.update_draw(Draw::Arrow);
    assert_eq!(s.annotation.draw, DrawMode::Arrow);
}

#[test]
fn leaving_text_mode_drops_pending_text() {
    let mut a = Annotation::new();
    a.apply(Draw::Text);
    a.apply(Draw::TextInput("hello".to_string()));
    assert_eq!(a.text, "hello");
    a.apply(Draw::Text);
    assert_eq!(a.draw, DrawMode::Nothing);
    assert_eq!(a.text, "");
}

#[test]
fn color_slider_is_recorded() {
    let mut a = Annotation::new();
    a.apply(Draw::ColorSlider(42));
    assert_eq!(a.color_slider, 42);
}

#[test]
fn freehand_stamps_while_pressed() {
    let mut s = session();
    s.update_draw(Draw::FreeHand);
    assert!(!s.pointer(bounds(), PointerEvent::Moved(Point { x: 10, y: 10 })));
    assert_eq!(pixel(working(&s), 10, 10), [255, 255, 255, 255]);
    drag(&mut s, &[(20, 20)]);
    assert_eq!(pixel(working(&s), 20, 20), [0, 0, 0, 255]);
    assert_eq!(pixel(working(&s), 24, 20), [0, 0, 0, 255]);
    assert_eq!(pixel(working(&s), 27, 20), [255, 255, 255, 255]);
}

#[test]
fn circle_goes_through_release_point() {
    let mut s = session();
    s.update_draw(Draw::ColorSlider(15));
    s.update_draw(Draw::Circle);
    drag(&mut s, &[(20, 20), (23, 24)]);
    let img = working(&s);
    assert_eq!(pixel(img, 25, 20), [255, 0, 0, 255]);
    assert_eq!(pixel(img, 20, 20), [255, 255, 255, 255]);
    assert_eq!(s.annotation.figure_press, Point { x: 0, y: 0 });
    assert_eq!(s.annotation.figure_released, Point { x: 0, y: 0 });
}

#[test]
fn arrow_draws_its_shaft() {
    let mut s = session();
    s.update_draw(Draw::Arrow);
    drag(&mut s, &[(5, 20), (35, 20)]);
    let img = working(&s);
    assert_eq!(pixel(img, 20, 20), [0, 0, 0, 255]);
    assert_eq!(pixel(img, 35, 20), [0, 0, 0, 255]);
}

#[test]
fn events_outside_bounds_are_ignored() {
    let mut s = session();
    s.update_draw(Draw::FreeHand);
    let before = working(&s).buffer.clone();
    s.pointer(bounds(), PointerEvent::Pressed);
    s.pointer(bounds(), PointerEvent::Moved(Point { x: 100, y: 10 }));
    assert_eq!(working(&s).buffer, before);
}

#[test]
fn crop_preview_then_commit_resamples_to_full_hd() {
    let mut s = session();
    s.update_draw(Draw::Crop);
    drag(&mut s, &[(30, 25), (5, 8)]);
    assert_eq!(s.annotation.crop, CropMode::CropConfirm);
    assert_eq!(pixel(working(&s), 5, 8), [255, 0, 0, 255]);
    assert_eq!(pixel(working(&s), 15, 15), [255, 255, 255, 255]);
    s.update_draw(Draw::FreeHand);
    assert_eq!(s.annotation.draw, DrawMode::Crop);
    s.update_draw(Draw::Crop);
    let img = working(&s);
    assert_eq!((img.width(), img.height()), (1920, 1080));
    assert_eq!(img.buffer.len(), 1920 * 1080 * 4);
    assert_eq!(s.annotation.crop, CropMode::CropStatus);
    assert_eq!(s.annotation.draw, DrawMode::Nothing);
    assert_eq!(s.annotation.crop_start, Point { x: 0, y: 0 });
    assert_eq!(s.annotation.crop_end, Point { x: 0, y: 0 });
}

#[test]
fn thin_crop_is_not_proposed() {
    let mut s = session();
    s.update_draw(Draw::Crop);
    drag(&mut s, &[(10, 10), (10, 30)]);
    assert_eq!(s.annotation.crop, CropMode::CropStatus);
}

#[test]
fn clear_restores_last_commit_and_drops_crop() {
    let mut s = session();
    s.update_draw(Draw::FreeHand);
    drag(&mut s, &[(20, 20)]);
    s.update_draw(Draw::FreeHand);
    s.update_draw(Draw::Crop);
    drag(&mut s, &[(5, 5), (30, 30)]);
    assert_eq!(s.annotation.crop, CropMode::CropConfirm);
    s.update_draw(Draw::ClearButton);
    assert_eq!(working(&s).buffer, white().buffer);
    assert_eq!(s.annotation.crop, CropMode::CropStatus);
    assert_eq!(s.annotation.crop_start, Point { x: 0, y: 0 });
    assert_eq!(s.annotation.crop_end, Point { x: 0, y: 0 });
}

#[test]
fn save_changes_commits_then_clear_keeps_it() {
    let mut s = session();
    s.update_draw(Draw::FreeHand);
    drag(&mut s, &[(20, 20)]);
    s.update_draw(Draw::SaveModifyChanges);
    let committed = s.captured[0].as_ref().unwrap().buffer.clone();
    assert_eq!(committed, working(&s).buffer);
    assert_ne!(committed, white().buffer);
    s.update_draw(Draw::ClearButton);
    assert_eq!(working(&s).buffer, committed);
}

#[test]
fn save_changes_waits_for_crop_confirmation() {
    let mut s = session();
    s.update_draw(Draw::Crop);
    drag(&mut s, &[(5, 5), (30, 30)]);
    s.update_draw(Draw::SaveModifyChanges);
    assert_eq!(s.captured[0].as_ref().unwrap().buffer, white().buffer);
}

#[test]
fn selecting_a_failed_slot_leaves_nothing_to_edit() {
    let mut s = session();
    s.select(1);
    assert_eq!(s.selected, 1);
    assert!(s.annotation.working.is_none());
    s.update_draw(Draw::FreeHand);
    drag(&mut s, &[(20, 20)]);
    assert!(s.annotation.working.is_none());
    assert_eq!(s.filled_slots(), vec![0]);
}

#[test]
fn text_press_asks_for_a_stamp() {
    let mut s = session();
    s.update_draw(Draw::Text);
    assert!(!s.pointer(bounds(), PointerEvent::Moved(Point { x: 12, y: 7 })));
    assert_eq!(s.annotation.figure_press, Point { x: 12, y: 7 });
    assert_eq!(s.annotation.text_anchor(Bounds { x: 0, y: 0, width: 20, height: 20 }), Point { x: 24, y: 14 });
    assert!(s.pointer(bounds(), PointerEvent::Pressed));
}
