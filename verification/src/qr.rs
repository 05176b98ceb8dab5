//! QR codes as PNG images, for the login and face-verification prompts.

use image::{ImageError, Luma};
use qrcode::types::QrError;
use qrcode::QrCode;
use vstd::prelude::*;
use vstd::utf8::encode_utf8;

verus! {

#[verifier::external_type_specification]
#[verifier::external_body]
pub struct ExQrError(QrError);

#[verifier::external_type_specification]
#[verifier::external_body]
pub struct ExImageError(ImageError);

/// The image `qrcode` renders for `data` with 8-bit gray pixels, the default
/// module size and quiet zone: width, height and row-major pixel bytes; `None`
/// when the bytes do not fit in a QR code at the medium error-correction level.
pub uninterp spec fn qr_gray_image(data: Seq<u8>) -> Option<(u32, u32, Seq<u8>)>;

/// `QrCode::new` on the bytes of `text`, then `Renderer::build` on
/// `QrCode::render` with 8-bit gray pixels. Trusted: it fails exactly when
/// the bytes do not fit, and otherwise returns the image `qr_gray_image`
/// names; the renderer draws a square of whole modules, 8 pixels each, with
/// a quiet zone around them, so the side is above zero, and the image buffer
/// holds one byte per pixel.
#[verifier::external_body]
fn qr_gray_image_of(text: &str) -> (image: Result<(u32, u32, Vec<u8>), QrError>)
    ensures
        image is Ok <==> qr_gray_image(encode_utf8(text@)) is Some,
        image matches Ok((width, height, pixels)) ==> {
            &&& qr_gray_image(encode_utf8(text@)) == Some((width, height, pixels@))
            &&& 0 < width
            &&& width == height
            &&& pixels@.len() == width as int * height as int
        },
{
    let image = QrCode::new(text)?.render::<Luma<u8>>().build();
    Ok((image.width(), image.height(), image.into_raw()))
}

/// The PNG file the `image` crate writes for a `width` by `height` image of
/// 8-bit gray `pixels`.
pub uninterp spec fn png_gray_encoding(width: u32, height: u32, pixels: Seq<u8>) -> Seq<u8>;

/// `image::write_buffer_with_format` in PNG format into memory. Trusted: the
/// encoder panics unless the buffer holds one byte per pixel, which the
/// precondition rules out; it fails only on a zero width or height (writing
/// into a `Vec` cannot fail), and the bytes it writes are what
/// `png_gray_encoding` names for the same image.
#[verifier::external_body]
fn png_gray(width: u32, height: u32, pixels: &[u8]) -> (png: Result<Vec<u8>, ImageError>)
    requires
        pixels@.len() == width as int * height as int,
    ensures
        0 < width && 0 < height ==> png is Ok,
        png matches Ok(bytes) ==> bytes@ == png_gray_encoding(width, height, pixels@),
{
    let mut bytes = Vec::new();
    image::write_buffer_with_format(
        &mut std::io::Cursor::new(&mut bytes),
        pixels,
        width,
        height,
        image::ExtendedColorType::L8,
        image::ImageFormat::Png,
    )?;
    Ok(bytes)
}

/// The PNG file of the QR code for `data`, or `None` when the bytes do not
/// fit in a QR code.
pub open spec fn qr_png(data: Seq<u8>) -> Option<Seq<u8>> {
    match qr_gray_image(data) {
        Some((width, height, pixels)) => Some(png_gray_encoding(width, height, pixels)),
        None => None,
    }
}

/// Why a QR image could not be made.
#[derive(Debug)]
pub enum QrImageError {
    /// The text does not fit in a QR code.
    Encode(QrError),
    /// The PNG encoder failed.
    Image(ImageError),
}

/// A PNG image of the QR code for `text`: the code rendered in 8-bit gray
/// and encoded as PNG. It fails, with `Encode`, exactly when the text does
/// not fit in a QR code.
pub fn encode_qr(text: &str) -> (png: Result<Vec<u8>, QrImageError>)
    ensures
        match qr_png(encode_utf8(text@)) {
            Some(bytes) => png matches Ok(b) && b@ == bytes,
            None => png matches Err(QrImageError::Encode(_)),
        },
{
    let (width, height, pixels) = match qr_gray_image_of(text) {
        Ok(image) => image,
        Err(error) => return Err(QrImageError::Encode(error)),
    };
    match png_gray(width, height, pixels.as_slice()) {
        Ok(bytes) => Ok(bytes),
        Err(error) => Err(QrImageError::Image(error)),
    }
}

} // verus!
