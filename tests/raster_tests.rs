use multi_platform_screen_grabbing_utility::raster::{color_band, Color, ImageHandler};

fn rgb(r: u8, g: u8, b: u8) -> Color {
    Color { r, g, b, a: 255 }
}

#[test]
fn color_bands_are_ten_wide() {
    assert_eq!(color_band(0), rgb(0, 0, 0));
    assert_eq!(color_band(9), rgb(0, 0, 0));
    assert_eq!(color_band(10), rgb(255, 0, 0));
    assert_eq!(color_band(25), rgb(255, 165, 0));
    assert_eq!(color_band(39), rgb(255, 255, 51));
    assert_eq!(color_band(40), rgb(34, 139, 34));
    assert_eq!(color_band(55), rgb(0, 0, 255));
    assert_eq!(color_band(60), rgb(73, 0, 130));
    assert_eq!(color_band(79), rgb(218, 112, 238));
}

#[test]
fn high_slider_values_are_white() {
    for v in 80..=255u8 {
        assert_eq!(color_band(v), rgb(255, 255, 255));
    }
}

#[test]
fn image_requires_four_bytes_per_pixel() {
    assert!(ImageHandler::new(2, 3, vec![0; 24]).is_some());
    assert!(ImageHandler::new(2, 3, vec![0; 23]).is_none());
    assert!(ImageHandler::new(70000, 1, vec![0; 280000]).is_none());
    let img = ImageHandler::new(2, 3, vec![7; 24]).unwrap();
    assert_eq!(img.width(), 2);
    assert_eq!(img.height(), 3);
    assert_eq!(img.buffer.len(), 24);
}
