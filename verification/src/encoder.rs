//! Encoding of one assembled frame: what is asked of the encoder, and what
//! is made of its answers.

use vstd::prelude::*;
use vstd::string::StringExecFns;
use openh264::encoder::Encoder;
use openh264::formats::YUVBuffer;
use crate::codec::{encode_buffer, error_detail};
use crate::error::EncodeError;
use crate::layout::{luma_len, rejection};

verus! {

/// Whether the encoder's frame storage takes `len` bytes as a frame of the
/// geometry: both sides even, three times the pixel count within `usize`,
/// and the length one and a half times the pixel count.
pub open spec fn storable(len: nat, width: u32, height: u32) -> bool {
    &&& width % 2 == 0
    &&& height % 2 == 0
    &&& 3 * luma_len(width, height) <= usize::MAX
    &&& len == (3 * luma_len(width, height)) / 2
}

/// Why the encoder's frame storage does not take `len` bytes as a frame of
/// the geometry, in the encoder's words; `None` where it does.
pub open spec fn storage_refusal_text(len: nat, width: u32, height: u32) -> Option<Seq<char>> {
    if width % 2 != 0 {
        Some("width needs to be a multiple of 2"@)
    } else if height % 2 != 0 {
        Some("height needs to be a multiple of 2"@)
    } else if !storable(len, width, height) {
        Some("YUV buffer needs to be properly sized"@)
    } else {
        None
    }
}

/// What holds of the result for a frame of `len` bytes that has reached the
/// encoder, whatever the encoder answered. There is no success with a
/// frame that its storage does not take; a failure is the encoder's, at
/// construction or at encoding; and where the storage does not take the
/// frame, a failure at encoding carries the storage's reason.
pub open spec fn encoder_answer(
    r: Result<Vec<u8>, EncodeError>,
    len: nat,
    width: u32,
    height: u32,
) -> bool {
    match r {
        Ok(_) => storable(len, width, height),
        Err(EncodeError::EncoderInitFailure { .. }) => true,
        Err(EncodeError::EncodeFailure { detail }) => !storable(len, width, height)
            ==> storage_refusal_text(len, width, height) == Some(detail@),
        Err(_) => false,
    }
}

/// An answer of the encoder is a bitstream or one of the encoder's two
/// failures: a frame that has reached the encoder is never turned down for
/// its geometry or for the size of its buffer.
pub proof fn lemma_answer_is_no_rejection(
    r: Result<Vec<u8>, EncodeError>,
    len: nat,
    width: u32,
    height: u32,
)
    requires
        encoder_answer(r, len, width, height),
    ensures
        r is Ok || (r matches Err(e) && (e is EncoderInitFailure || e is EncodeFailure)),
        !(r matches Err(e) && (e is GeometryTooSmall || e is BufferSizeMismatch)),
{
}

/// A frame that passed validation and has even sides is one and a half
/// times its luma plane, so the encoder's frame storage takes it unless
/// its size goes beyond the machine's.
pub proof fn lemma_valid_even_frame_storable(len: nat, width: u32, height: u32)
    requires
        rejection(len, width, height) is None,
        width % 2 == 0,
        height % 2 == 0,
        3 * luma_len(width, height) <= usize::MAX,
    ensures
        storable(len, width, height),
{
    let a = (width / 2) as int;
    let b = (height / 2) as int;
    assert((width as int) * (height as int) == 4 * (a * b)) by (nonlinear_arith)
        requires
            width == 2 * a,
            height == 2 * b,
    ;
}

/// Tells whether the encoder's frame storage takes `len` bytes as a frame
/// of the geometry, and if not, why.
pub fn storage_refusal(len: usize, width: u32, height: u32) -> (refusal: Option<String>)
    ensures
        refusal is None <==> storable(len as nat, width, height),
        refusal is None <==> storage_refusal_text(len as nat, width, height) is None,
        refusal matches Some(detail) ==> storage_refusal_text(len as nat, width, height) == Some(
            detail@,
        ),
{
    if width % 2 != 0 {
        return Some(String::from_str("width needs to be a multiple of 2"));
    }
    if height % 2 != 0 {
        return Some(String::from_str("height needs to be a multiple of 2"));
    }
    assert((width as nat) * (height as nat) <= 0xFFFF_FFFF * 0xFFFF_FFFF) by (nonlinear_arith)
        requires
            width <= 0xFFFF_FFFF,
            height <= 0xFFFF_FFFF,
    ;
    let pixels: u128 = (width as u128) * (height as u128);
    if 3 * pixels > usize::MAX as u128 || len as u128 != (3 * pixels) / 2 {
        return Some(String::from_str("YUV buffer needs to be properly sized"));
    }
    None
}

/// What the caller gets once the encoder has answered: the bitstream as it
/// came, untouched, or the encoder's detail as an `EncodeFailure`.
pub fn conclude(outcome: Result<Vec<u8>, String>) -> (r: Result<Vec<u8>, EncodeError>)
    ensures
        outcome matches Ok(bits) ==> r == Ok::<Vec<u8>, EncodeError>(bits),
        outcome matches Err(detail) ==> r == Err::<Vec<u8>, EncodeError>(
            EncodeError::EncodeFailure { detail },
        ),
{
    match outcome {
        Ok(bits) => Ok(bits),
        Err(detail) => Err(EncodeError::EncodeFailure { detail }),
    }
}

/// Encodes an assembled frame with a fresh encoder in its default
/// configuration.
///
/// The encoder is constructed first. A frame that its storage does not
/// take is then turned down as an `EncodeFailure` with the reason. Any
/// other frame is handed over, and the encoder's answer is returned
/// through [`conclude`]: there is no success without a storable frame, and
/// no failure but of these two kinds.
pub fn encode_frame(frame: Vec<u8>, width: u32, height: u32) -> (r: Result<Vec<u8>, EncodeError>)
    ensures
        encoder_answer(r, frame@.len(), width, height),
{
    let mut encoder = match Encoder::new() {
        Ok(encoder) => encoder,
        Err(e) => {
            return Err(EncodeError::EncoderInitFailure { detail: error_detail(&e) });
        },
    };
    if let Some(detail) = storage_refusal(frame.len(), width, height) {
        return Err(EncodeError::EncodeFailure { detail });
    }
    proof {
        assert((width as usize) * (height as usize) == luma_len(width, height)) by (nonlinear_arith)
            requires
                3 * luma_len(width, height) <= usize::MAX,
                luma_len(width, height) == (width as nat) * (height as nat),
        ;
    }
    let buffer = YUVBuffer::from_vec(frame, width as usize, height as usize);
    let outcome = match encode_buffer(&mut encoder, &buffer) {
        Ok(bits) => Ok(bits),
        Err(e) => Err(error_detail(&e)),
    };
    conclude(outcome)
}

} // verus!
