use image::{DynamicImage, ImageOutputFormat, Rgb, RgbImage, Rgba, RgbaImage};
use pickme::color::Color;
use pickme::sampler::{color_at_origin, color_of_capture, SampleError};
use std::io::Cursor;

fn png(image: DynamicImage) -> Vec<u8> {
    let mut bytes = Vec::new();
    image.write_to(&mut Cursor::new(&mut bytes), ImageOutputFormat::Png).unwrap();
    bytes
}

fn pixel(r: u8, g: u8, b: u8) -> DynamicImage {
    DynamicImage::ImageRgb8(RgbImage::from_pixel(1, 1, Rgb([r, g, b])))
}

#[test]
fn the_color_of_a_captured_pixel() {
    assert_eq!(color_of_capture(&png(pixel(10, 20, 30))), Ok(Color { r: 10, g: 20, b: 30 }));
    assert_eq!(color_of_capture(&png(pixel(0, 0, 0))), Ok(Color { r: 0, g: 0, b: 0 }));
    assert_eq!(color_of_capture(&png(pixel(255, 0, 128))), Ok(Color { r: 255, g: 0, b: 128 }));
}

#[test]
fn the_alpha_of_a_captured_pixel_is_dropped() {
    let image = DynamicImage::ImageRgba8(RgbaImage::from_pixel(1, 1, Rgba([1, 2, 3, 77])));
    assert_eq!(color_of_capture(&png(image)), Ok(Color { r: 1, g: 2, b: 3 }));
}

#[test]
fn the_top_left_pixel_is_the_one_read() {
    let mut image = RgbImage::from_pixel(3, 2, Rgb([9, 9, 9]));
    image.put_pixel(0, 0, Rgb([1, 2, 3]));
    image.put_pixel(1, 0, Rgb([4, 5, 6]));
    image.put_pixel(0, 1, Rgb([7, 8, 9]));
    let image = DynamicImage::ImageRgb8(image);
    assert_eq!(color_at_origin(&image), Ok(Color { r: 1, g: 2, b: 3 }));
    assert_eq!(color_of_capture(&png(image)), Ok(Color { r: 1, g: 2, b: 3 }));
}

#[test]
fn bytes_that_are_no_image_are_undecodable() {
    assert_eq!(color_of_capture(&[]), Err(SampleError::Undecodable));
    assert_eq!(color_of_capture(&[1, 2, 3, 4, 5]), Err(SampleError::Undecodable));
    assert_eq!(color_of_capture(b"#0a0a0a"), Err(SampleError::Undecodable));
}

#[test]
fn a_cut_off_image_is_undecodable() {
    let bytes = png(pixel(10, 20, 30));
    assert_eq!(color_of_capture(&bytes[..bytes.len() / 2]), Err(SampleError::Undecodable));
    assert_eq!(color_of_capture(&bytes[..8]), Err(SampleError::Undecodable));
}

#[test]
fn an_image_without_pixels_has_no_color() {
    assert_eq!(color_at_origin(&DynamicImage::new_rgb8(0, 0)), Err(SampleError::EmptyImage));
    assert_eq!(color_at_origin(&DynamicImage::new_rgb8(0, 4)), Err(SampleError::EmptyImage));
    assert_eq!(color_at_origin(&DynamicImage::new_rgba8(4, 0)), Err(SampleError::EmptyImage));
}

#[test]
fn a_gray_pixel_has_three_equal_channels() {
    let image = DynamicImage::new_luma8(1, 1);
    assert_eq!(color_at_origin(&image), Ok(Color { r: 0, g: 0, b: 0 }));
    let image = DynamicImage::ImageLuma8(image::GrayImage::from_pixel(2, 2, image::Luma([200])));
    assert_eq!(color_at_origin(&image), Ok(Color { r: 200, g: 200, b: 200 }));
}
