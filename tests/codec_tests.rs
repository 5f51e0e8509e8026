use multi_platform_screen_grabbing_utility::codec::{format_for_path, CodecError, FileFormat};
use multi_platform_screen_grabbing_utility::raster::ImageHandler;

fn sample() -> ImageHandler {
    let mut bytes = Vec::new();
    for i in 0..(8 * 6) {
        bytes.extend_from_slice(&[(i * 5) as u8, 100, (255 - i * 3) as u8, 255]);
    }
    ImageHandler::new(8, 6, bytes).unwrap()
}

#[test]
fn extension_selects_format() {
    assert_eq!(format_for_path("shot.png"), Some(FileFormat::Png));
    assert_eq!(format_for_path("shot.jpg"), Some(FileFormat::Jpeg));
    assert_eq!(format_for_path("shot.jpeg"), Some(FileFormat::Jpeg));
    assert_eq!(format_for_path("shot.gif"), Some(FileFormat::Gif));
    assert_eq!(format_for_path("shot.bmp"), None);
}

#[test]
fn extension_comes_from_last_component() {
    assert_eq!(format_for_path("/tmp/dir.png/shot"), None);
    assert_eq!(format_for_path("C:\\a.b\\shot.gif"), Some(FileFormat::Gif));
    assert_eq!(format_for_path(".png"), None);
    assert_eq!(format_for_path("shot."), None);
    assert_eq!(format_for_path("archive.tar.png"), Some(FileFormat::Png));
    assert_eq!(format_for_path("shot.PNG"), None);
}

#[test]
fn unsupported_extension_is_refused() {
    assert_eq!(sample().save_image("shot.bmp"), Err(CodecError::UnsupportedFormat));
    assert_eq!(sample().save_image("shot"), Err(CodecError::UnsupportedFormat));
}

#[test]
fn png_output_is_a_png_stream() {
    let bytes = sample().save_image("shot.png").unwrap();
    assert_eq!(&bytes[..8], &[0x89, b'P', b'N', b'G', 0x0D, 0x0A, 0x1A, 0x0A]);
}

#[test]
fn jpeg_output_is_a_jpeg_stream() {
    let a = sample().save_image("shot.jpg").unwrap();
    let b = sample().save_image("shot.jpeg").unwrap();
    assert_eq!(&a[..2], &[0xFF, 0xD8]);
    assert_eq!(a, b);
}

#[test]
fn gif_output_is_a_gif_stream() {
    let bytes = sample().save_image("shot.gif").unwrap();
    assert_eq!(&bytes[..6], b"GIF89a");
    assert_eq!(*bytes.last().unwrap(), 0x3B);
}

#[test]
fn encode_by_format_matches_save() {
    let img = sample();
    assert_eq!(img.encode(FileFormat::Png), img.save_image("x/y/shot.png"));
}

#[test]
fn every_format_encodes_a_single_pixel() {
    let img = ImageHandler::new(1, 1, vec![1, 2, 3, 255]).unwrap();
    for path in ["a.png", "a.jpg", "a.jpeg", "a.gif"] {
        assert!(img.save_image(path).is_ok(), "{}", path);
    }
}

#[test]
fn empty_png_is_refused_by_the_encoder() {
    let img = ImageHandler::new(0, 0, vec![]).unwrap();
    assert_eq!(img.encode(FileFormat::Png), Err(CodecError::EncodingFailed));
}
