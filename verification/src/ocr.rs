//! Preparing a sample for the reading of its text.

use vstd::prelude::*;
use vstd::string::StringExecFns;
use crate::codec::{
    base64_decoded, decode_base64, decode_error_text, image_error_text, is_image, png_of,
    reencode_png,
};

verus! {

/// What the report begins with when the sample is no base64.
pub const DECODE_FAILURE: &'static str = "Chyba při dekódování base64: ";

/// What the report begins with when the sample is no image.
pub const LOAD_FAILURE: &'static str = "Chyba při načítání obrazu: ";

/// What the report begins with when the image cannot be written as PNG.
pub const CONVERT_FAILURE: &'static str = "Chyba při konverzi obrazu: ";

fn report(head: &str, detail: String) -> (message: String)
    ensures
        message@ == head@ + detail@,
        head@.is_prefix_of(message@),
{
    let mut message = head.to_string();
    message.append(detail.as_str());
    assert(message@.subrange(0, head@.len() as int) =~= head@);
    message
}

/// The PNG image that a sample stands for: the sample is base64, its bytes
/// are read as an image, and the image is written as PNG.
pub open spec fn png_of_sample(sample: Seq<char>) -> Option<Seq<u8>> {
    match base64_decoded(sample) {
        Some(bytes) => if is_image(bytes) {
            png_of(bytes)
        } else {
            None
        },
        None => None,
    }
}

/// Turns a sample, an image in base64, into the PNG image that the text is
/// read from. Succeeds exactly where [`png_of_sample`] gives an image, and
/// returns that image. Fails where the sample is no base64, with a report
/// that begins with [`DECODE_FAILURE`]; where its bytes are no image, with
/// one that begins with [`LOAD_FAILURE`]; and where the image cannot be
/// written as PNG, with one that begins with [`CONVERT_FAILURE`].
pub fn prepare_for_ocr(screenshot_base64: &str) -> (r: Result<Vec<u8>, String>)
    ensures
        match png_of_sample(screenshot_base64@) {
            Some(png) => r is Ok && r->Ok_0@ == png,
            None => r is Err,
        },
        r is Err ==> (match base64_decoded(screenshot_base64@) {
            None => DECODE_FAILURE@.is_prefix_of(r->Err_0@),
            Some(bytes) => if is_image(bytes) {
                CONVERT_FAILURE@.is_prefix_of(r->Err_0@)
            } else {
                LOAD_FAILURE@.is_prefix_of(r->Err_0@)
            },
        }),
{
    let image_data = match decode_base64(screenshot_base64) {
        Ok(bytes) => bytes,
        Err(e) => {
            return Err(report(DECODE_FAILURE, decode_error_text(&e)));
        },
    };
    match reencode_png(image_data.as_slice()) {
        Ok(Ok(png)) => Ok(png),
        Ok(Err(e)) => Err(report(CONVERT_FAILURE, image_error_text(&e))),
        Err(e) => Err(report(LOAD_FAILURE, image_error_text(&e))),
    }
}

} // verus!
