use std::io::Cursor;

use image::{DynamicImage, ImageOutputFormat, RgbImage, RgbaImage};
use sgl::{from_image, from_image_bytes, Pixel};

#[test]
fn image_is_converted_to_rgba_pixels() {
    let rgb = RgbImage::from_raw(2, 1, vec![1, 2, 3, 4, 5, 6]).unwrap();
    let bitmap = from_image(&DynamicImage::ImageRgb8(rgb)).unwrap();

    assert_eq!(2, bitmap.width());
    assert_eq!(1, bitmap.height());
    assert_eq!(&[Pixel::rgba(1, 2, 3, 0xff), Pixel::rgba(4, 5, 6, 0xff)], bitmap.pixels());
}

#[test]
fn png_bytes_decode_to_a_bitmap() {
    let rgba = RgbaImage::from_raw(1, 2, vec![0xff, 0, 0, 0xff, 0, 0xff, 0, 0x80]).unwrap();
    let mut png = Vec::new();
    DynamicImage::ImageRgba8(rgba)
        .write_to(&mut Cursor::new(&mut png), ImageOutputFormat::Png)
        .unwrap();

    let bitmap = from_image_bytes(&png).unwrap();

    assert_eq!(1, bitmap.width());
    assert_eq!(2, bitmap.height());
    assert_eq!(&[Pixel::red(), Pixel::rgba(0, 0xff, 0, 0x80)], bitmap.pixels());
}

#[test]
fn bytes_that_are_no_image_fail_to_decode() {
    assert!(from_image_bytes(&[1, 2, 3, 4]).is_err());
    assert!(from_image_bytes(&[]).is_err());
}
