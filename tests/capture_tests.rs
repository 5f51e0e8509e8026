use multi_platform_screen_grabbing_utility::capture::{capture_delay_ms, capture_targets, CaptureError, CaptureJob};
use multi_platform_screen_grabbing_utility::choice::Choice;
use multi_platform_screen_grabbing_utility::raster::ImageHandler;

#[test]
fn all_surfaces_are_targeted_in_order() {
    assert_eq!(capture_targets(Choice::F, 3), Ok(vec![0, 1, 2]));
    assert_eq!(capture_targets(Choice::F, 0), Ok(vec![]));
}

#[test]
fn single_surface_is_numbered_from_one() {
    assert_eq!(capture_targets(Choice::A, 1), Ok(vec![0]));
    assert_eq!(capture_targets(Choice::C, 3), Ok(vec![2]));
}

#[test]
fn out_of_range_surface_is_an_error() {
    assert_eq!(capture_targets(Choice::C, 2), Err(CaptureError::ScreenIndexOutOfBounds));
    assert!(CaptureJob::new(Choice::E, 4).is_err());
}

#[test]
fn delay_adds_grace_period() {
    assert_eq!(capture_delay_ms(0), 500);
    assert_eq!(capture_delay_ms(3), 3500);
}

#[test]
fn capturing_all_delivers_one_slot_per_monitor() {
    let monitors = 3;
    let mut job = CaptureJob::new(Choice::F, monitors).unwrap();
    let mut seen = Vec::new();
    while let Some(t) = job.next_target() {
        seen.push(t);
        let outcome = if t == 1 { None } else { ImageHandler::new(1, 1, vec![0, 0, 0, 255]) };
        job.record(outcome);
    }
    assert!(job.is_complete());
    assert_eq!(seen, vec![0, 1, 2]);
    let set = job.deliver();
    assert_eq!(set.len(), monitors);
    assert!(set[0].is_some());
    assert!(set[1].is_none());
}

#[test]
fn all_failed_capture_still_delivers_every_slot() {
    let mut job = CaptureJob::new(Choice::F, 2).unwrap();
    while job.next_target().is_some() {
        job.record(None);
    }
    let set = job.deliver();
    assert_eq!(set.len(), 2);
    assert!(set.iter().all(|s| s.is_none()));
}
