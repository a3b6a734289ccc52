use bluepresence::icon::load_icon_data;
use image::{DynamicImage, ImageFormat, RgbaImage};
use std::io::Cursor;

fn encoded(format: ImageFormat) -> (Vec<u8>, Vec<u8>) {
    let pixels: Vec<u8> = vec![
        255, 0, 0, 255, 0, 255, 0, 128, 0, 0, 255, 0, //
        10, 20, 30, 40, 50, 60, 70, 80, 90, 100, 110, 120,
    ];
    let image = RgbaImage::from_raw(3, 2, pixels.clone()).expect("sizes agree");
    let mut bytes: Vec<u8> = Vec::new();
    DynamicImage::ImageRgba8(image)
        .write_to(&mut Cursor::new(&mut bytes), format)
        .expect("encodes");
    (bytes, pixels)
}

#[test]
fn png_icon_decodes_to_its_pixels() {
    let (bytes, pixels) = encoded(ImageFormat::Png);
    let icon = load_icon_data(&bytes).expect("a png");
    assert_eq!((icon.width, icon.height), (3, 2));
    assert_eq!(icon.rgba, pixels);
}

#[test]
fn ico_icon_decodes_to_its_pixels() {
    let (bytes, pixels) = encoded(ImageFormat::Ico);
    let icon = load_icon_data(&bytes).expect("an ico");
    assert_eq!((icon.width, icon.height), (3, 2));
    assert_eq!(icon.rgba, pixels);
}

#[test]
fn garbage_is_no_icon() {
    assert!(load_icon_data(b"not an image").is_none());
    assert!(load_icon_data(&[]).is_none());
}
