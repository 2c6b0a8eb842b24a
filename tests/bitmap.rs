use sgl::{Bitmap, Pixel};

#[test]
fn create_some_bitmap_from_pixels() {
    let pixels = vec![Pixel::red(); 6];
    let bitmap = Bitmap::from_pixels(2, 3, pixels).unwrap();

    assert_eq!(2, bitmap.width());
    assert_eq!(3, bitmap.height());
    assert_eq!(&[Pixel::red(); 6], bitmap.pixels());
}

#[test]
fn does_not_create_bitmap_when_dimensions_dont_match_pixel_count() {
    let pixels = vec![Pixel::red()];
    let bitmap = Bitmap::from_pixels(2, 3, pixels);

    assert!(bitmap.is_err());
}

#[test]
fn creates_blank_bitmap_with_dimensions() {
    let bitmap = Bitmap::new(5, 10);

    assert_eq!(5, bitmap.width());
    assert_eq!(10, bitmap.height());
    assert_eq!(&[Pixel::default(); 50], bitmap.pixels());
}

#[test]
fn sets_pixel_color_for_valid_coord() {
    let mut bitmap = Bitmap::new(2, 2);
    bitmap.set_pixel(0, 0, Pixel::red());
    bitmap.set_pixel(1, 1, Pixel::green());

    assert_eq!(
        &[Pixel::red(), Pixel::default(), Pixel::default(), Pixel::green()],
        bitmap.pixels()
    );
}

#[test]
fn does_not_set_pixel_color_for_invalid_coord() {
    let mut bitmap = Bitmap::new(2, 2);
    bitmap.set_pixel(2, 2, Pixel::red());

    assert_eq!(&[Pixel::default(); 4], bitmap.pixels());
}

#[test]
fn sets_pixel_color_from_pixel_iterator() {
    let mut bitmap = Bitmap::new(2, 2);
    for pixel in bitmap.pixels_mut() {
        *pixel = Pixel::red();
    }

    assert_eq!(&[Pixel::red(); 4], bitmap.pixels());
}

#[test]
fn derefs_into_slice_of_bytes() {
    let pixels = vec![Pixel::red(); 1];
    let bitmap = Bitmap::from_pixels(1, 1, pixels).unwrap();

    assert_eq!([0xff, 0x00, 0x00, 0xff], &*bitmap.to_bytes());
}

#[test]
fn set_pixel_addresses_rows_by_width() {
    let mut bitmap = Bitmap::new(3, 2);
    bitmap.set_pixel(2, 0, Pixel::red());
    bitmap.set_pixel(0, 1, Pixel::green());
    bitmap.set_pixel(3, 0, Pixel::black());
    bitmap.set_pixel(0, 2, Pixel::black());

    let w = Pixel::white();
    assert_eq!(&[w, w, Pixel::red(), Pixel::green(), w, w], bitmap.pixels());
}

#[test]
fn empty_bitmap_has_no_pixels() {
    let bitmap = Bitmap::new(0, 7);
    assert!(bitmap.pixels().is_empty());
    assert!(Bitmap::from_pixels(0, 0, Vec::new()).is_ok());
}

#[test]
fn bytes_are_channels_in_order() {
    let pixels = vec![Pixel::rgba(1, 2, 3, 4), Pixel::rgba(5, 6, 7, 8)];
    let bitmap = Bitmap::from_pixels(2, 1, pixels).unwrap();

    assert_eq!(vec![1u8, 2, 3, 4, 5, 6, 7, 8], bitmap.to_bytes());
}

#[test]
fn bitmap_from_rgba_bytes() {
    let bytes = [1u8, 2, 3, 4, 5, 6, 7, 8];
    let bitmap = Bitmap::from_rgba_bytes(1, 2, &bytes).unwrap();

    assert_eq!(1, bitmap.width());
    assert_eq!(2, bitmap.height());
    assert_eq!(&[Pixel::rgba(1, 2, 3, 4), Pixel::rgba(5, 6, 7, 8)], bitmap.pixels());
    assert_eq!(bytes.to_vec(), bitmap.to_bytes());
}

#[test]
fn bitmap_from_rgba_bytes_rejects_partial_pixels_and_wrong_counts() {
    assert!(Bitmap::from_rgba_bytes(1, 1, &[1, 2, 3]).is_err());
    assert!(Bitmap::from_rgba_bytes(1, 2, &[1, 2, 3, 4, 5]).is_err());
    assert!(Bitmap::from_rgba_bytes(2, 2, &[1, 2, 3, 4, 5, 6, 7, 8]).is_err());
}

#[test]
fn upload_layout_of_matching_texture() {
    let bitmap = Bitmap::new(3, 5);

    assert_eq!((12, 5), bitmap.upload_layout(3, 5).unwrap());
    assert!(bitmap.upload_layout(5, 3).is_err());
    assert!(bitmap.upload_layout(3, 4).is_err());
}
