//! The OpenH264 encoder, as far as this library uses it. What stands here
//! is taken on trust from the `openh264` crate; nothing of it is proved.

use vstd::prelude::*;
use openh264::encoder::Encoder;
use openh264::formats::YUVBuffer;

verus! {

/// `openh264::encoder::Encoder`, an encoder session. Nothing is known of
/// what it holds.
#[verifier::external_type_specification]
#[verifier::external_body]
pub struct ExEncoder(openh264::encoder::Encoder);

/// `openh264::formats::YUVBuffer`, a frame in the encoder's own storage.
/// Nothing is known of what it holds.
#[verifier::external_type_specification]
#[verifier::external_body]
pub struct ExYuvBuffer(openh264::formats::YUVBuffer);

/// `openh264::Error`, the encoder's error. Nothing is known of what it
/// holds.
#[verifier::external_type_specification]
#[verifier::external_body]
pub struct ExEncoderError(openh264::Error);

/// `Encoder::new` makes an encoder with the default configuration. Nothing
/// is claimed of whether it succeeds.
pub assume_specification[ openh264::encoder::Encoder::new ]() -> (r: Result<
    Encoder,
    openh264::Error,
>)
;

/// `YUVBuffer::from_vec` takes over a frame's bytes. It asserts that both
/// dimensions are even and that the vector's length is
/// `(3 * (width * height)) / 2`, which it computes in `usize`: the inputs
/// on which an assertion fails or the product overflows are left out.
/// Nothing is claimed of the buffer.
pub assume_specification[ openh264::formats::YUVBuffer::from_vec ](
    yuv: Vec<u8>,
    width: usize,
    height: usize,
) -> (buffer: YUVBuffer)
    requires
        width % 2 == 0,
        height % 2 == 0,
        3 * (width * height) <= usize::MAX,
        yuv@.len() == (3 * (width * height)) / 2,
;

/// `Encoder::encode` on a `YUVBuffer`, and `EncodedBitStream::to_vec` on
/// what it returns, which copies the NAL units out in their order. Nothing
/// is claimed of the outcome: whether the frame is taken, and what the
/// bitstream holds, is the encoder's affair.
#[verifier::external_body]
pub(crate) fn encode_buffer(encoder: &mut Encoder, frame: &YUVBuffer) -> (r: Result<
    Vec<u8>,
    openh264::Error,
>) {
    match encoder.encode(frame) {
        Ok(bits) => Ok(bits.to_vec()),
        Err(e) => Err(e),
    }
}

/// The `Debug` rendering of an `openh264::Error`. Nothing is claimed of
/// the text.
#[verifier::external_body]
pub(crate) fn error_detail(e: &openh264::Error) -> (detail: String) {
    format!("{e:?}")
}

} // verus!
