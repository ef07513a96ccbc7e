//! Reading the color out of a captured region of the screen.
//!
//! The capture itself is the driver's work. It arrives here as the bytes of
//! an encoded image, which the `image` crate decodes.

use vstd::prelude::*;
use crate::color::Color;

verus! {

/// `image::DynamicImage`, a decoded image. Nothing is known of its inside
/// but what `image_rows` names.
#[verifier::external_type_specification]
#[verifier::external_body]
pub struct ExDynamicImage(image::DynamicImage);

/// `image::ImageError`, the reason why bytes were not decoded. It is only
/// told apart from success.
#[verifier::external_type_specification]
#[verifier::external_body]
pub struct ExImageError(image::ImageError);

/// The pixels of a decoded image as its `get_pixel` gives them: the rows from
/// the top, each row from the left, each pixel as red, green, blue and alpha.
pub uninterp spec fn image_rows(img: image::DynamicImage) -> Seq<Seq<(u8, u8, u8, u8)>>;

/// The rows of the image that the `image` crate decodes from the given bytes,
/// or nothing where it refuses them.
pub uninterp spec fn decoded(bytes: Seq<u8>) -> Option<Seq<Seq<(u8, u8, u8, u8)>>>;

/// Calls `image::io::Reader::with_guessed_format` and `decode` on the bytes.
/// Taken on trust: the outcome depends on the bytes alone. They either decode
/// to an image, whose pixels are then the ones named by `decoded`, or are
/// refused.
#[verifier::external_body]
fn decode_image(bytes: &[u8]) -> (r: Result<image::DynamicImage, image::ImageError>)
    ensures
        match r {
            Ok(img) => decoded(bytes@) == Some(image_rows(img)),
            Err(_) => decoded(bytes@) is None,
        },
{
    image::io::Reader::new(std::io::Cursor::new(bytes))
        .with_guessed_format()
        .map_err(image::ImageError::IoError)?
        .decode()
}

/// Calls `GenericImageView::dimensions`. Taken on trust: it gives the width
/// and the height of the image, which are the length of each row and the
/// number of rows.
#[verifier::external_body]
fn image_size(img: &image::DynamicImage) -> (size: (u32, u32))
    ensures
        image_rows(*img).len() == size.1,
        forall|y: int| 0 <= y < size.1 ==> (#[trigger] image_rows(*img)[y]).len() == size.0,
{
    image::GenericImageView::dimensions(img)
}

/// Calls `GenericImageView::get_pixel`. Taken on trust: it gives the pixel in
/// column `x` of row `y`. It panics outside the image, so the position must
/// lie inside.
#[verifier::external_body]
fn pixel_at(img: &image::DynamicImage, x: u32, y: u32) -> (p: (u8, u8, u8, u8))
    requires
        y < image_rows(*img).len(),
        x < image_rows(*img)[y as int].len(),
    ensures
        p == image_rows(*img)[y as int][x as int],
{
    let px = image::GenericImageView::get_pixel(img, x, y);
    (px.0[0], px.0[1], px.0[2], px.0[3])
}

/// Why a captured region gave no color. Either is fatal to a session: a
/// region that was captured is expected to decode.
#[derive(Clone, Copy, Debug, PartialEq, Eq, Structural)]
pub enum SampleError {
    /// The bytes are not an image that can be decoded.
    Undecodable,
    /// The image decoded, but holds no pixel.
    EmptyImage,
}

/// The color of the top left pixel of an image given by its rows: its red,
/// green and blue, without the alpha.
pub open spec fn origin_color(rows: Seq<Seq<(u8, u8, u8, u8)>>) -> Result<Color, SampleError> {
    if rows.len() > 0 && rows[0].len() > 0 {
        Ok(Color { r: rows[0][0].0, g: rows[0][0].1, b: rows[0][0].2 })
    } else {
        Err(SampleError::EmptyImage)
    }
}

/// The color that a captured region holds, by what its bytes decode to.
pub open spec fn sampled(decoding: Option<Seq<Seq<(u8, u8, u8, u8)>>>) -> Result<
    Color,
    SampleError,
> {
    match decoding {
        Some(rows) => origin_color(rows),
        None => Err(SampleError::Undecodable),
    }
}

/// Reads the color of the pixel at the top left of a decoded image. An image
/// without pixels gives `EmptyImage`.
pub fn color_at_origin(img: &image::DynamicImage) -> (r: Result<Color, SampleError>)
    ensures
        r == origin_color(image_rows(*img)),
{
    let size = image_size(img);
    if size.0 == 0 || size.1 == 0 {
        Err(SampleError::EmptyImage)
    } else {
        let p = pixel_at(img, 0, 0);
        Ok(Color { r: p.0, g: p.1, b: p.2 })
    }
}

/// Decodes a captured region and reads the color of its top left pixel.
/// Bytes that do not decode give `Undecodable`.
pub fn color_of_capture(capture: &[u8]) -> (r: Result<Color, SampleError>)
    ensures
        r == sampled(decoded(capture@)),
{
    match decode_image(capture) {
        Ok(img) => color_at_origin(&img),
        Err(_) => Err(SampleError::Undecodable),
    }
}

} // verus!
