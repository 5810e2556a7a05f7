//! Choosing the monitor to sample, and encoding what was captured.

use vstd::prelude::*;
use vstd::string::StringExecFns;
use crate::codec::{
    base64_of, covers, encode_base64, encode_jpeg, fits_base64, image_error_text, jpeg_of,
};

verus! {

/// What the report of a failed encoding begins with.
pub const ENCODE_FAILURE: &'static str = "Failed to encode image: ";

/// The whole report of a capture whose bytes do not cover its size.
pub const SHORT_BUFFER: &'static str = "Failed to encode image: the bytes do not cover the size";

/// The whole report of an image whose text would not fit the machine.
pub const LONG_IMAGE: &'static str = "Failed to encode image: the image is too long for base64";

/// Chooses the monitor to sample among monitors given by whether each is
/// the primary one: the first primary monitor, or the first monitor where
/// none is primary, or none where there is no monitor.
pub fn pick_monitor(primary: &[bool]) -> (r: Option<usize>)
    ensures
        primary@.len() == 0 <==> r is None,
        r is Some ==> r->0 < primary@.len() && forall|j: int| 0 <= j < r->0 ==> !primary@[j],
        r is Some ==> primary@[r->0 as int] || (r->0 == 0 && forall|j: int|
            0 <= j < primary@.len() ==> !primary@[j]),
{
    if primary.len() == 0 {
        return None;
    }
    let mut i: usize = 0;
    while i < primary.len()
        invariant
            i <= primary.len(),
            forall|j: int| 0 <= j < i ==> !primary@[j],
        decreases primary.len() - i,
    {
        if primary[i] {
            return Some(i);
        }
        i = i + 1;
    }
    Some(0)
}

/// Whether a capture can be encoded: its bytes cover its size, the encoder
/// writes a JPEG image for it, and the length of that image's base64 text
/// fits the machine's word.
pub open spec fn encodable(width: nat, height: nat, rgba: Seq<u8>) -> bool {
    covers(width, height, rgba.len()) && jpeg_of(width, height, rgba) is Some && fits_base64(
        jpeg_of(width, height, rgba)->0.len(),
    )
}

/// Encodes a capture, given as its size and its pixels of red, green, blue
/// and alpha, as a JPEG image in base64. Succeeds exactly on a capture that
/// is [`encodable`]. Where the bytes do not cover the size the report is
/// [`SHORT_BUFFER`]; where the text would not fit it is [`LONG_IMAGE`];
/// where the encoder refuses, the report is its words after
/// [`ENCODE_FAILURE`].
pub fn encode_capture(width: u32, height: u32, rgba: Vec<u8>) -> (r: Result<String, String>)
    ensures
        r is Ok <==> encodable(width as nat, height as nat, rgba@),
        r is Ok ==> r->Ok_0@ == base64_of(jpeg_of(width as nat, height as nat, rgba@)->0),
        !covers(width as nat, height as nat, rgba@.len()) ==> r is Err && r->Err_0@
            == SHORT_BUFFER@,
        covers(width as nat, height as nat, rgba@.len()) && jpeg_of(
            width as nat,
            height as nat,
            rgba@,
        ) is Some
            && !fits_base64(jpeg_of(width as nat, height as nat, rgba@)->0.len()) ==> r is Err
            && r->Err_0@ == LONG_IMAGE@,
        r is Err ==> ENCODE_FAILURE@.is_prefix_of(r->Err_0@),
{
    proof {
        reveal_strlit("Failed to encode image: ");
        reveal_strlit("Failed to encode image: the bytes do not cover the size");
        reveal_strlit("Failed to encode image: the image is too long for base64");
        assert(ENCODE_FAILURE@ =~= SHORT_BUFFER@.subrange(0, ENCODE_FAILURE@.len() as int));
        assert(ENCODE_FAILURE@ =~= LONG_IMAGE@.subrange(0, ENCODE_FAILURE@.len() as int));
    }
    assert(4 * (width as int) * (height as int) <= 4 * 0xffff_ffff * 0xffff_ffff) by (nonlinear_arith)
        requires
            0 <= width <= 0xffff_ffff,
            0 <= height <= 0xffff_ffff,
    ;
    assert(4 * (width as int) <= 4 * 0xffff_ffff);
    let needed: u128 = 4 * (width as u128) * (height as u128);
    if 4 * (width as u128) > usize::MAX as u128 || needed > rgba.len() as u128 {
        return Err(SHORT_BUFFER.to_string());
    }
    match encode_jpeg(width, height, rgba) {
        Ok(jpeg) => {
            if jpeg.len() / 3 > (usize::MAX - 4) / 4 {
                return Err(LONG_IMAGE.to_string());
            }
            Ok(encode_base64(jpeg.as_slice()))
        },
        Err(e) => {
            let mut message = ENCODE_FAILURE.to_string();
            let ghost head = message@;
            message.append(image_error_text(&e).as_str());
            assert(message@.subrange(0, head.len() as int) =~= head);
            Err(message)
        },
    }
}

} // verus!
