//! Validation and plane layout of raw planar YUV420 frames, and their
//! encoding into H.264 access units, one frame a call.

use vstd::prelude::*;
use crate::encoder::{encode_frame, encoder_answer};
use crate::error::EncodeError;
use crate::layout::{assemble_frame, frame_len, geometry_ok, lemma_planes_tile_frame};

pub mod codec;
pub mod decimal;
pub mod encoder;
pub mod error;
pub mod layout;

verus! {

/// Adds one hundred to `input`.
pub fn plus_100(input: u32) -> (sum: u32)
    requires
        input + 100 <= u32::MAX,
    ensures
        sum == input + 100,
{
    input + 100
}

/// Encodes one raw planar YUV420 frame into one H.264 access unit.
///
/// The geometry is checked first, then the buffer's length, which must be
/// exact. The planes are then copied in the order luma, first chroma,
/// second chroma into a frame of the encoder's own, and encoded with a
/// fresh encoder in its default configuration. The bitstream is returned
/// as the encoder gave it.
///
/// A frame that passes both checks is never turned down for its geometry
/// or its size: it is encoded, or the encoder's failure is reported. A
/// frame with an odd side passes the checks and is then refused by the
/// encoder's frame storage.
pub fn yuv_to_h264(buf: &[u8], width: u32, height: u32) -> (r: Result<Vec<u8>, EncodeError>)
    ensures
        !geometry_ok(width, height) ==> r == Err::<Vec<u8>, EncodeError>(
            EncodeError::GeometryTooSmall { width, height },
        ),
        geometry_ok(width, height) && buf@.len() != frame_len(width, height) ==> r == Err::<
            Vec<u8>,
            EncodeError,
        >(
            EncodeError::BufferSizeMismatch {
                expected: frame_len(width, height) as u128,
                actual: buf@.len() as usize,
                width,
                height,
            },
        ),
        geometry_ok(width, height) && buf@.len() == frame_len(width, height) ==> encoder_answer(
            r,
            buf@.len(),
            width,
            height,
        ),
{
    match assemble_frame(buf, width, height) {
        Ok(frame) => {
            proof {
                lemma_planes_tile_frame(buf@, width, height);
            }
            encode_frame(frame, width, height)
        },
        Err(e) => Err(e),
    }
}

} // verus!
