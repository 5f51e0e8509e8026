use multi_platform_screen_grabbing_utility::choice::Choice;
use multi_platform_screen_grabbing_utility::naming::{autosave_path, push_padded, screenshot_stamp};

#[test]
fn stamp_is_zero_padded() {
    assert_eq!(screenshot_stamp(2024, 3, 7, 9, 5, 0), "Screenshot_2024_03_07_09_05_00");
    assert_eq!(screenshot_stamp(987, 12, 31, 23, 59, 59), "Screenshot_0987_12_31_23_59_59");
}

#[test]
fn padding_never_truncates() {
    let mut s = String::new();
    push_padded(&mut s, 12345, 4);
    assert_eq!(s, "12345");
    let mut t = String::from("x");
    push_padded(&mut t, 0, 3);
    assert_eq!(t, "x000");
    let mut u = String::new();
    push_padded(&mut u, 0, 0);
    assert_eq!(u, "0");
}

#[test]
fn autosave_path_joins_parts() {
    let stamp = screenshot_stamp(2024, 1, 2, 3, 4, 5);
    assert_eq!(
        autosave_path("C:\\shots\\", &stamp, 12, Choice::B),
        "C:\\shots\\Screenshot_2024_01_02_03_04_05_12.png"
    );
    assert_eq!(autosave_path("", "s", 0, Choice::A), "s_0.jpg");
}
