use std::io::Cursor;

use y_engine::state::starting::geometry::{splash_window_geometry, WindowGeometry};
use y_engine::state::starting::splash::{Frame, SplashError, SplashImage};

// A PNG file of 2 by 2 pixels: red, half-clear green, clear blue, (9, 8, 7, 6).
const TWO_BY_TWO_PNG: [u8; 79] = [
    0x89, 0x50, 0x4e, 0x47, 0x0d, 0x0a, 0x1a, 0x0a, 0x00, 0x00, 0x00, 0x0d,
    0x49, 0x48, 0x44, 0x52, 0x00, 0x00, 0x00, 0x02, 0x00, 0x00, 0x00, 0x02,
    0x08, 0x06, 0x00, 0x00, 0x00, 0x72, 0xb6, 0x0d, 0x24, 0x00, 0x00, 0x00,
    0x16, 0x49, 0x44, 0x41, 0x54, 0x78, 0xda, 0x63, 0xf8, 0xcf, 0xc0, 0xf0,
    0x1f, 0x08, 0x1b, 0x18, 0x40, 0x34, 0x27, 0x07, 0x3b, 0x1b, 0x00, 0x36,
    0x31, 0x04, 0x9b, 0xd8, 0x30, 0x97, 0x5a, 0x00, 0x00, 0x00, 0x00, 0x49,
    0x45, 0x4e, 0x44, 0xae, 0x42, 0x60, 0x82,
];

// A PNG file of 64 by 64 pixels: a frame of light pixels, two wide, around a
// dark field.
const SPLASH_PNG: [u8; 172] = [
    0x89, 0x50, 0x4e, 0x47, 0x0d, 0x0a, 0x1a, 0x0a, 0x00, 0x00, 0x00, 0x0d,
    0x49, 0x48, 0x44, 0x52, 0x00, 0x00, 0x00, 0x40, 0x00, 0x00, 0x00, 0x40,
    0x08, 0x06, 0x00, 0x00, 0x00, 0xaa, 0x69, 0x71, 0xde, 0x00, 0x00, 0x00,
    0x73, 0x49, 0x44, 0x41, 0x54, 0x78, 0xda, 0xed, 0xdb, 0xa1, 0x11, 0x00,
    0x20, 0x10, 0x03, 0xc1, 0x2f, 0x03, 0x41, 0x11, 0xf4, 0x5f, 0xd0, 0x6b,
    0x3a, 0x00, 0x43, 0x15, 0x64, 0xc5, 0xcd, 0x44, 0xaf, 0x4f, 0x75, 0xef,
    0x93, 0x5c, 0x01, 0x78, 0x63, 0xcc, 0x15, 0x15, 0x00, 0x00, 0x00, 0x00,
    0x00, 0x00, 0x00, 0x00, 0x00, 0x00, 0x00, 0x00, 0x00, 0x00, 0x00, 0x00,
    0x00, 0x00, 0x00, 0x00, 0x00, 0x00, 0x00, 0x00, 0x00, 0x00, 0x00, 0x00,
    0x00, 0x00, 0x00, 0x00, 0x00, 0x00, 0x00, 0x00, 0x00, 0x00, 0x00, 0x00,
    0x00, 0x00, 0x00, 0x00, 0x00, 0x00, 0x00, 0x00, 0x00, 0x00, 0x00, 0x00,
    0x00, 0x00, 0x00, 0x00, 0x00, 0x00, 0x00, 0x00, 0x00, 0x00, 0x00, 0x00,
    0x00, 0xbf, 0x02, 0x78, 0x8f, 0x87, 0x76, 0x01, 0xfa, 0x2b, 0xbc, 0x07,
    0x5a, 0xe0, 0x54, 0x1e, 0x00, 0x00, 0x00, 0x00, 0x49, 0x45, 0x4e, 0x44,
    0xae, 0x42, 0x60, 0x82,
];

fn word(r: u8, g: u8, b: u8, a: u8) -> u32 {
    u32::from_ne_bytes([r, g, b, a])
}

// A 3 by 2 image whose pixel in column x of row y is (x, y, 10 * x + y, 255).
fn three_by_two() -> SplashImage {
    let mut bytes = Vec::new();
    for y in 0..2u8 {
        for x in 0..3u8 {
            bytes.extend_from_slice(&[x, y, 10 * x + y, 255]);
        }
    }
    SplashImage::from_rgba8(3, 2, bytes).unwrap()
}

#[test]
fn image_from_bytes_keeps_size_and_bytes() {
    let image = SplashImage::from_rgba8(1, 2, vec![1, 2, 3, 4, 5, 6, 7, 8]).unwrap();
    assert_eq!(image.width(), 1);
    assert_eq!(image.height(), 2);
    assert_eq!(image.as_raw(), &vec![1, 2, 3, 4, 5, 6, 7, 8]);
}

#[test]
fn image_from_bytes_wants_four_bytes_a_pixel() {
    assert_eq!(
        SplashImage::from_rgba8(2, 2, vec![0; 15]).unwrap_err(),
        SplashError::PixelCount
    );
    assert_eq!(
        SplashImage::from_rgba8(2, 2, vec![0; 17]).unwrap_err(),
        SplashError::PixelCount
    );
    assert_eq!(
        SplashImage::from_rgba8(2, 2, vec![0; 12]).unwrap_err(),
        SplashError::PixelCount
    );
    assert_eq!(
        SplashImage::from_rgba8(0, 5, vec![0; 4]).unwrap_err(),
        SplashError::PixelCount
    );
    assert!(SplashImage::from_rgba8(0, 5, Vec::new()).is_ok());
    assert!(SplashImage::from_rgba8(u32::MAX, 0, Vec::new()).is_ok());
}

#[test]
fn frame_of_the_image_size_copies_every_pixel() {
    let frame = three_by_two().draw(3, 2);
    assert_eq!(
        frame,
        Frame {
            width: 3,
            height: 2,
            pixels: vec![
                word(0, 0, 0, 255),
                word(1, 0, 10, 255),
                word(2, 0, 20, 255),
                word(0, 1, 1, 255),
                word(1, 1, 11, 255),
                word(2, 1, 21, 255),
            ],
        }
    );
}

#[test]
fn smaller_frame_shows_the_top_left_of_the_image() {
    let frame = three_by_two().draw(2, 1);
    assert_eq!(
        frame,
        Frame { width: 2, height: 1, pixels: vec![word(0, 0, 0, 255), word(1, 0, 10, 255)] }
    );
}

#[test]
fn larger_frame_is_empty_beyond_the_image() {
    let frame = three_by_two().draw(4, 3);
    assert_eq!(frame.width, 4);
    assert_eq!(frame.height, 3);
    assert_eq!(
        frame.pixels,
        vec![
            word(0, 0, 0, 255),
            word(1, 0, 10, 255),
            word(2, 0, 20, 255),
            0,
            word(0, 1, 1, 255),
            word(1, 1, 11, 255),
            word(2, 1, 21, 255),
            0,
            0,
            0,
            0,
            0,
        ]
    );
}

#[test]
fn frame_without_area_has_no_pixels() {
    assert_eq!(three_by_two().draw(0, 7).pixels, Vec::<u32>::new());
    assert_eq!(three_by_two().draw(7, 0).pixels, Vec::<u32>::new());
}

#[test]
fn packed_word_is_in_the_byte_order_of_the_machine() {
    let image = SplashImage::from_rgba8(1, 1, vec![0x11, 0x22, 0x33, 0x44]).unwrap();
    let frame = image.draw(1, 1);
    let word = frame.pixels[0];
    assert!(word == 0x4433_2211 || word == 0x1122_3344);
    assert_eq!(word.to_ne_bytes(), [0x11, 0x22, 0x33, 0x44]);
}

#[test]
fn decode_reads_an_encoded_image() {
    let pixels: Vec<u8> = vec![
        255, 0, 0, 255, 0, 255, 0, 255, 0, 0, 255, 255, 9, 8, 7, 6, 1, 2, 3, 4, 5, 6, 7, 8,
    ];
    let source = image::RgbaImage::from_raw(3, 2, pixels.clone()).unwrap();
    let mut encoded = Cursor::new(Vec::new());
    source.write_to(&mut encoded, image::ImageFormat::Png).unwrap();
    let encoded = encoded.into_inner();
    assert_ne!(encoded, pixels);

    let decoded = SplashImage::decode(&encoded).unwrap();
    assert_eq!(decoded.width(), 3);
    assert_eq!(decoded.height(), 2);
    assert_eq!(decoded.as_raw(), &pixels);
}

#[test]
fn decode_widens_an_image_without_alpha() {
    let source = image::RgbImage::from_raw(2, 1, vec![10, 20, 30, 40, 50, 60]).unwrap();
    let mut encoded = Cursor::new(Vec::new());
    source.write_to(&mut encoded, image::ImageFormat::Png).unwrap();
    let decoded = SplashImage::decode(&encoded.into_inner()).unwrap();
    assert_eq!(decoded.width(), 2);
    assert_eq!(decoded.height(), 1);
    assert_eq!(decoded.as_raw(), &vec![10, 20, 30, 255, 40, 50, 60, 255]);
}

#[test]
fn decode_refuses_what_is_no_image() {
    assert_eq!(SplashImage::decode(&[]).unwrap_err(), SplashError::Undecodable);
    assert_eq!(
        SplashImage::decode(b"not an image at all").unwrap_err(),
        SplashError::Undecodable
    );
}

#[test]
fn decode_reads_a_png_written_by_hand() {
    let decoded = SplashImage::decode(&TWO_BY_TWO_PNG).unwrap();
    assert_eq!(decoded.width(), 2);
    assert_eq!(decoded.height(), 2);
    assert_eq!(
        decoded.as_raw(),
        &vec![255, 0, 0, 255, 0, 255, 0, 128, 0, 0, 255, 0, 9, 8, 7, 6]
    );
}

#[test]
fn decode_refuses_images_that_are_no_png() {
    // The first bytes of a GIF and of a JPEG file.
    assert_eq!(
        SplashImage::decode(b"GIF89a\x01\x00\x01\x00\x00\x00\x00;").unwrap_err(),
        SplashError::Undecodable
    );
    let jpeg = [0xff, 0xd8, 0xff, 0xe0, 0x00, 0x10, b'J', b'F', b'I', b'F'];
    assert_eq!(SplashImage::decode(&jpeg).unwrap_err(), SplashError::Undecodable);
    // A PNG cut short.
    assert_eq!(
        SplashImage::decode(&TWO_BY_TWO_PNG[..40]).unwrap_err(),
        SplashError::Undecodable
    );
}

#[test]
fn decode_gives_the_same_image_every_time() {
    let first = SplashImage::decode(&SPLASH_PNG).unwrap();
    let second = SplashImage::decode(&SPLASH_PNG).unwrap();
    assert_eq!(first.width(), second.width());
    assert_eq!(first.height(), second.height());
    assert_eq!(first.as_raw(), second.as_raw());
}

#[test]
fn splash_of_64_by_64_gets_a_centered_window_of_its_size() {
    let splash = SplashImage::decode(&SPLASH_PNG).unwrap();
    assert_eq!((splash.width(), splash.height()), (64, 64));
    assert_eq!(splash.as_raw().len(), 4 * 64 * 64);
    assert_eq!(&splash.as_raw()[..4], &[230, 230, 240, 255]);
    let middle = 4 * (32 * 64 + 32);
    assert_eq!(&splash.as_raw()[middle..middle + 4], &[24, 28, 48, 255]);
    assert_eq!(
        splash_window_geometry(splash.width(), splash.height(), 1920, 1080),
        WindowGeometry { x: (1920 - 64) / 2, y: (1080 - 64) / 2, width: 64, height: 64 }
    );
    let frame = splash.draw(64, 64);
    assert_eq!(frame.pixels.len(), 64 * 64);
    assert_eq!(frame.pixels[0], u32::from_ne_bytes([230, 230, 240, 255]));
    assert_eq!(frame.pixels[32 * 64 + 32], u32::from_ne_bytes([24, 28, 48, 255]));
}
