use multi_platform_screen_grabbing_utility::drawing::{
    filled_circle, hollow_circle, hollow_rect, line_segment, resize_lanczos3, sub_image,
};
use multi_platform_screen_grabbing_utility::raster::{Color, ImageHandler};

fn gradient(w: u32, h: u32) -> ImageHandler {
    let mut bytes = Vec::new();
    for y in 0..h {
        for x in 0..w {
            bytes.extend_from_slice(&[x as u8, y as u8, 7, 255]);
        }
    }
    ImageHandler::new(w, h, bytes).unwrap()
}

fn pixel(img: &ImageHandler, x: u32, y: u32) -> [u8; 4] {
    let i = ((y * img.width() + x) * 4) as usize;
    [img.buffer[i], img.buffer[i + 1], img.buffer[i + 2], img.buffer[i + 3]]
}

const BLUE: Color = Color { r: 0, g: 0, b: 255, a: 255 };

#[test]
fn sub_image_copies_the_region() {
    let img = gradient(10, 8);
    let part = sub_image(&img, 3, 2, 4, 5);
    assert_eq!((part.width(), part.height()), (4, 5));
    assert_eq!(pixel(&part, 0, 0), [3, 2, 7, 255]);
    assert_eq!(pixel(&part, 3, 4), [6, 6, 7, 255]);
}

#[test]
fn resize_changes_size_and_keeps_flat_colour() {
    let img = ImageHandler::new(3, 2, [10u8, 20, 30, 255].repeat(6)).unwrap();
    let big = resize_lanczos3(&img, 12, 7);
    assert_eq!((big.width(), big.height()), (12, 7));
    assert_eq!(pixel(&big, 5, 3), [10, 20, 30, 255]);
}

#[test]
fn shapes_are_drawn_in_place() {
    let img = gradient(20, 20);
    let dot = filled_circle(&img, 10, 10, 2, BLUE);
    assert_eq!(pixel(&dot, 11, 11), [0, 0, 255, 255]);
    assert_eq!(pixel(&dot, 0, 0), pixel(&img, 0, 0));
    let ring = hollow_circle(&img, 10, 10, 4, BLUE);
    assert_eq!(pixel(&ring, 14, 10), [0, 0, 255, 255]);
    assert_eq!(pixel(&ring, 10, 10), pixel(&img, 10, 10));
    let line = line_segment(&img, 2, 5, 17, 5, BLUE);
    assert_eq!(pixel(&line, 9, 5), [0, 0, 255, 255]);
    let rect = hollow_rect(&img, 4, 4, 6, 6, BLUE);
    assert_eq!(pixel(&rect, 9, 6), [0, 0, 255, 255]);
    assert_eq!(pixel(&rect, 6, 6), pixel(&img, 6, 6));
}

#[test]
fn drawing_off_the_image_changes_nothing() {
    let img = gradient(8, 8);
    let out = filled_circle(&img, -100, -100, 3, BLUE);
    assert_eq!(out.buffer, img.buffer);
}

#[test]
fn rectangle_outline_is_exactly_its_border() {
    let img = gradient(12, 12);
    let rect = hollow_rect(&img, 2, 3, 5, 4, BLUE);
    for y in 0..12 {
        for x in 0..12 {
            let border = ((y == 3 || y == 6) && (2..=6).contains(&x)) || ((x == 2 || x == 6) && (3..=6).contains(&y));
            let expected = if border { [0, 0, 255, 255] } else { pixel(&img, x, y) };
            assert_eq!(pixel(&rect, x, y), expected, "({}, {})", x, y);
        }
    }
}

#[test]
fn rectangle_partly_outside_is_clipped() {
    let img = gradient(6, 6);
    let rect = hollow_rect(&img, -2, 1, 5, 20, BLUE);
    assert_eq!(pixel(&rect, 2, 1), [0, 0, 255, 255]);
    assert_eq!(pixel(&rect, 2, 5), [0, 0, 255, 255]);
    assert_eq!(pixel(&rect, 3, 1), pixel(&img, 3, 1));
    assert_eq!(pixel(&rect, 1, 3), pixel(&img, 1, 3));
}
