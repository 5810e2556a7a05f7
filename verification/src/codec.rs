//! Codecs of outside crates that the sampler relies on: base64 for text,
//! PNG and JPEG for images. Their contracts are taken on trust.

use vstd::prelude::*;

verus! {

/// The error with which `base64` refuses a text.
#[verifier::external_type_specification]
#[verifier::external_body]
pub struct ExDecodeError(base64::DecodeError);

/// The error with which `image` refuses to read or to write an image.
#[verifier::external_type_specification]
#[verifier::external_body]
pub struct ExImageError(image::ImageError);

/// The text that the standard base64 engine writes for some bytes.
pub uninterp spec fn base64_of(bytes: Seq<u8>) -> Seq<char>;

/// The bytes that the standard base64 engine reads from a text, if it
/// accepts the text.
pub uninterp spec fn base64_decoded(text: Seq<char>) -> Option<Seq<u8>>;

/// Whether the base64 text of an input of this length, padding included,
/// has a length that fits the machine's word.
pub open spec fn fits_base64(len: nat) -> bool {
    len / 3 * 4 + 4 <= usize::MAX
}

/// `Engine::encode` of `base64::engine::general_purpose::STANDARD`: the text
/// depends on the bytes alone and is what [`base64_of`] names. The engine
/// panics where the length of the text does not fit the machine's word,
/// which the precondition leaves out.
#[verifier::external_body]
pub(crate) fn encode_base64(bytes: &[u8]) -> (text: String)
    requires
        fits_base64(bytes@.len()),
    ensures
        text@ == base64_of(bytes@),
{
    base64::Engine::encode(&base64::engine::general_purpose::STANDARD, bytes)
}

/// `Engine::decode` of `base64::engine::general_purpose::STANDARD`: whether
/// the text is accepted, and the bytes it stands for, depend on the text
/// alone and are what [`base64_decoded`] names.
#[verifier::external_body]
pub(crate) fn decode_base64(text: &str) -> (r: Result<Vec<u8>, base64::DecodeError>)
    ensures
        match r {
            Ok(bytes) => base64_decoded(text@) == Some(bytes@),
            Err(_) => base64_decoded(text@) is None,
        },
{
    base64::Engine::decode(&base64::engine::general_purpose::STANDARD, text)
}

/// The words of a `base64::DecodeError`, as its `Display` writes them.
/// Nothing is claimed of them.
#[verifier::external_body]
pub(crate) fn decode_error_text(e: &base64::DecodeError) -> (text: String) {
    e.to_string()
}

/// The JPEG image that the `image` crate writes for pixels of red, green,
/// blue and alpha, one byte each, row by row, if it writes one.
pub uninterp spec fn jpeg_of(width: nat, height: nat, rgba: Seq<u8>) -> Option<Seq<u8>>;

/// Whether `image::load_from_memory` reads some bytes as an image.
pub uninterp spec fn is_image(bytes: Seq<u8>) -> bool;

/// The PNG image that `DynamicImage::write_to` writes for the image that
/// some bytes are read as, if it writes one.
pub uninterp spec fn png_of(bytes: Seq<u8>) -> Option<Seq<u8>>;

/// Whether some bytes cover an image of a size, with four bytes for each
/// pixel: the bytes of one row are a number that fits the machine's word,
/// and there are bytes for every row.
pub open spec fn covers(width: nat, height: nat, len: nat) -> bool {
    4 * width <= usize::MAX && 4 * width * height <= len
}

/// `DynamicImage::write_to` with `ImageFormat::Jpeg`, into a buffer in
/// memory, on the image that `ImageBuffer::from_raw` makes of the size and
/// the bytes. `from_raw` multiplies four by the width and then by the
/// height, in the machine's word, and makes the image where neither product
/// overflows and the bytes are at least as many: that is the precondition,
/// without which the wrapper would panic. What is written, or that the
/// encoder refuses, depends on the size and the bytes alone and is what
/// [`jpeg_of`] names.
#[verifier::external_body]
pub(crate) fn encode_jpeg(width: u32, height: u32, rgba: Vec<u8>) -> (r: Result<
    Vec<u8>,
    image::ImageError,
>)
    requires
        covers(width as nat, height as nat, rgba@.len()),
    ensures
        match r {
            Ok(jpeg) => jpeg_of(width as nat, height as nat, rgba@) == Some(jpeg@),
            Err(_) => jpeg_of(width as nat, height as nat, rgba@) is None,
        },
{
    let img = image::DynamicImage::ImageRgba8(
        image::RgbaImage::from_raw(width, height, rgba).unwrap(),
    );
    let mut buffer = Vec::new();
    let written = img.write_to(&mut std::io::Cursor::new(&mut buffer), image::ImageFormat::Jpeg);
    written.map(|_| buffer)
}

/// `image::load_from_memory`, and on the image it reads `DynamicImage::write_to`
/// with `ImageFormat::Png`, into a buffer in memory. The outer error is the
/// reader's, the inner one the writer's. Whether the bytes are read as an
/// image is what [`is_image`] names; what is then written, or that the
/// encoder refuses, is what [`png_of`] names. Both depend on the bytes alone.
#[verifier::external_body]
pub(crate) fn reencode_png(bytes: &[u8]) -> (r: Result<
    Result<Vec<u8>, image::ImageError>,
    image::ImageError,
>)
    ensures
        match r {
            Err(_) => !is_image(bytes@),
            Ok(Err(_)) => is_image(bytes@) && png_of(bytes@) is None,
            Ok(Ok(png)) => is_image(bytes@) && png_of(bytes@) == Some(png@),
        },
{
    match image::load_from_memory(bytes) {
        Ok(img) => {
            let mut buffer = Vec::new();
            let written =
                img.write_to(&mut std::io::Cursor::new(&mut buffer), image::ImageFormat::Png);
            Ok(written.map(|_| buffer))
        },
        Err(e) => Err(e),
    }
}

/// The words of an `image::ImageError`, as its `Display` writes them.
/// Nothing is claimed of them.
#[verifier::external_body]
pub(crate) fn image_error_text(e: &image::ImageError) -> (text: String) {
    e.to_string()
}

} // verus!
