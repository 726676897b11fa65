//! The memory layout of a planar YUV420 frame: a full-resolution luma
//! plane followed by two chroma planes of a quarter of its size, with no
//! header and no padding.

use vstd::prelude::*;
use vstd::slice::slice_subrange;
use crate::error::EncodeError;

verus! {

/// The smallest width and height that can be encoded: one macroblock.
pub const MIN_DIMENSION: u32 = 16;

/// Whether both dimensions reach the minimum.
pub open spec fn geometry_ok(width: u32, height: u32) -> bool {
    width >= MIN_DIMENSION && height >= MIN_DIMENSION
}

/// The number of bytes of the luma plane.
pub open spec fn luma_len(width: u32, height: u32) -> nat {
    (width as nat) * (height as nat)
}

/// The number of bytes of each chroma plane; a remainder is dropped.
pub open spec fn chroma_len(width: u32, height: u32) -> nat {
    luma_len(width, height) / 4
}

/// The number of bytes of a whole frame.
pub open spec fn frame_len(width: u32, height: u32) -> nat {
    luma_len(width, height) + 2 * chroma_len(width, height)
}

/// The reason for which a buffer of `len` bytes is turned down for the
/// geometry, if there is one. The geometry is judged first.
pub open spec fn rejection(len: nat, width: u32, height: u32) -> Option<EncodeError> {
    if !geometry_ok(width, height) {
        Some(EncodeError::GeometryTooSmall { width, height })
    } else if len != frame_len(width, height) {
        Some(
            EncodeError::BufferSizeMismatch {
                expected: frame_len(width, height) as u128,
                actual: len as usize,
                width,
                height,
            },
        )
    } else {
        None
    }
}

/// The luma plane of a frame of the geometry.
pub open spec fn y_plane(buf: Seq<u8>, width: u32, height: u32) -> Seq<u8> {
    buf.subrange(0, luma_len(width, height) as int)
}

/// The first chroma plane of a frame of the geometry.
pub open spec fn u_plane(buf: Seq<u8>, width: u32, height: u32) -> Seq<u8> {
    let y = luma_len(width, height) as int;
    let uv = chroma_len(width, height) as int;
    buf.subrange(y, y + uv)
}

/// The second chroma plane of a frame of the geometry.
pub open spec fn v_plane(buf: Seq<u8>, width: u32, height: u32) -> Seq<u8> {
    let y = luma_len(width, height) as int;
    let uv = chroma_len(width, height) as int;
    buf.subrange(y + uv, y + 2 * uv)
}

/// The frame that is handed to the encoder: the three planes, one after
/// the other.
pub open spec fn assembled(buf: Seq<u8>, width: u32, height: u32) -> Seq<u8> {
    y_plane(buf, width, height) + u_plane(buf, width, height) + v_plane(buf, width, height)
}

/// The three planes of a frame, borrowed from the caller's buffer.
pub struct Planes<'a> {
    pub y: &'a [u8],
    pub u: &'a [u8],
    pub v: &'a [u8],
}

/// The luma plane is bounded by the square of the largest dimension, so
/// the byte counts of a frame fit in 128 bits with room to spare.
proof fn lemma_luma_bound(width: u32, height: u32)
    ensures
        luma_len(width, height) <= 0xFFFF_FFFF * 0xFFFF_FFFF,
{
    assert((width as nat) * (height as nat) <= 0xFFFF_FFFF * 0xFFFF_FFFF) by (nonlinear_arith)
        requires
            width <= 0xFFFF_FFFF,
            height <= 0xFFFF_FFFF,
    ;
}

/// The number of bytes that a frame of the geometry must have.
pub fn expected_frame_len(width: u32, height: u32) -> (total: u128)
    ensures
        total == frame_len(width, height),
{
    proof {
        lemma_luma_bound(width, height);
    }
    let y_size: u128 = (width as u128) * (height as u128);
    let uv_size: u128 = y_size / 4;
    y_size + uv_size + uv_size
}

/// Checks the geometry and the buffer's length, and cuts the buffer into
/// its three planes. The geometry is checked first, and a buffer is
/// accepted only at the exact length.
pub fn split_planes<'a>(buf: &'a [u8], width: u32, height: u32) -> (r: Result<
    Planes<'a>,
    EncodeError,
>)
    ensures
        r is Ok <==> rejection(buf@.len(), width, height) is None,
        r matches Err(e) ==> rejection(buf@.len(), width, height) == Some(e),
        r matches Ok(planes) ==> planes.y@ == y_plane(buf@, width, height),
        r matches Ok(planes) ==> planes.u@ == u_plane(buf@, width, height),
        r matches Ok(planes) ==> planes.v@ == v_plane(buf@, width, height),
{
    if width < MIN_DIMENSION || height < MIN_DIMENSION {
        return Err(EncodeError::GeometryTooSmall { width, height });
    }
    let expected = expected_frame_len(width, height);
    let actual = buf.len();
    if actual as u128 != expected {
        return Err(EncodeError::BufferSizeMismatch { expected, actual, width, height });
    }
    proof {
        lemma_luma_bound(width, height);
    }
    let y_size: usize = ((width as u128) * (height as u128)) as usize;
    let uv_size: usize = y_size / 4;
    Ok(
        Planes {
            y: slice_subrange(buf, 0, y_size),
            u: slice_subrange(buf, y_size, y_size + uv_size),
            v: slice_subrange(buf, y_size + uv_size, y_size + 2 * uv_size),
        },
    )
}

impl<'a> Planes<'a> {
    /// The planes laid out one after the other in a buffer of their own:
    /// luma, then the first chroma plane, then the second.
    pub fn assemble(&self) -> (frame: Vec<u8>)
        ensures
            frame@ == self.y@ + self.u@ + self.v@,
    {
        let mut frame: Vec<u8> = Vec::new();
        frame.extend_from_slice(self.y);
        frame.extend_from_slice(self.u);
        frame.extend_from_slice(self.v);
        assert(frame@ =~= self.y@ + self.u@ + self.v@);
        frame
    }
}

/// Validates a frame and copies its planes, in the order luma, first
/// chroma, second chroma, into a buffer of its own for the encoder.
pub fn assemble_frame(buf: &[u8], width: u32, height: u32) -> (r: Result<Vec<u8>, EncodeError>)
    ensures
        r is Ok <==> rejection(buf@.len(), width, height) is None,
        r matches Err(e) ==> rejection(buf@.len(), width, height) == Some(e),
        r matches Ok(frame) ==> frame@ == assembled(buf@, width, height),
{
    match split_planes(buf, width, height) {
        Ok(planes) => Ok(planes.assemble()),
        Err(e) => Err(e),
    }
}

/// In a buffer of the exact length the three planes have the sizes that
/// the geometry gives, and together they are the whole buffer: nothing is
/// left out, repeated or moved.
pub proof fn lemma_planes_tile_frame(buf: Seq<u8>, width: u32, height: u32)
    requires
        buf.len() == frame_len(width, height),
    ensures
        y_plane(buf, width, height).len() == luma_len(width, height),
        u_plane(buf, width, height).len() == chroma_len(width, height),
        v_plane(buf, width, height).len() == chroma_len(width, height),
        assembled(buf, width, height) == buf,
{
    assert(assembled(buf, width, height) =~= buf);
}

/// Whatever the buffer, a geometry with a side below the minimum is turned
/// down for its size: the buffer's length plays no part.
pub proof fn lemma_small_geometry_rejected(len: nat, width: u32, height: u32)
    requires
        width < MIN_DIMENSION || height < MIN_DIMENSION,
    ensures
        rejection(len, width, height) == Some(EncodeError::GeometryTooSmall { width, height }),
{
}

/// With a valid geometry, a buffer that is one byte short or one byte long
/// is turned down, and the error carries the expected and the actual
/// count.
pub proof fn lemma_off_by_one_rejected(len: usize, width: u32, height: u32)
    requires
        geometry_ok(width, height),
        len == frame_len(width, height) + 1 || len + 1 == frame_len(width, height),
    ensures
        rejection(len as nat, width, height) == Some(
            EncodeError::BufferSizeMismatch {
                expected: frame_len(width, height) as u128,
                actual: len,
                width,
                height,
            },
        ),
        frame_len(width, height) as u128 == frame_len(width, height),
{
    lemma_luma_bound(width, height);
}

/// With a valid geometry, a buffer of the exact length is accepted.
pub proof fn lemma_exact_frame_accepted(len: nat, width: u32, height: u32)
    requires
        geometry_ok(width, height),
        len == frame_len(width, height),
    ensures
        rejection(len, width, height) is None,
{
}

/// Validation is idempotent: the frame assembled from an accepted buffer
/// is accepted for the same geometry, and assembles to itself.
pub proof fn lemma_validation_idempotent(buf: Seq<u8>, width: u32, height: u32)
    requires
        rejection(buf.len(), width, height) is None,
    ensures
        rejection(assembled(buf, width, height).len(), width, height) is None,
        assembled(assembled(buf, width, height), width, height) == assembled(buf, width, height),
{
    lemma_planes_tile_frame(buf, width, height);
}

} // verus!
