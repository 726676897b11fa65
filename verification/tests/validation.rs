use yuv_h264::error::EncodeError;
use yuv_h264::layout::{assemble_frame, expected_frame_len, split_planes, MIN_DIMENSION};
use yuv_h264::yuv_to_h264;

fn sentinel_frame() -> Vec<u8> {
    let mut buf = vec![0x11u8; 256];
    buf.extend(vec![0x22u8; 64]);
    buf.extend(vec![0x33u8; 64]);
    buf
}

#[test]
fn minimum_dimension_is_one_macroblock() {
    assert_eq!(MIN_DIMENSION, 16);
}

#[test]
fn expected_len_of_minimum_frame() {
    assert_eq!(expected_frame_len(16, 16), 384);
}

#[test]
fn expected_len_of_common_frames() {
    assert_eq!(expected_frame_len(640, 480), 460_800);
    assert_eq!(expected_frame_len(1920, 1080), 3_110_400);
}

#[test]
fn expected_len_drops_the_chroma_remainder() {
    // 17 * 17 = 289 luma bytes, 289 / 4 = 72 bytes for each chroma plane.
    assert_eq!(expected_frame_len(17, 17), 289 + 72 + 72);
    // 18 * 17 = 306 luma bytes, 306 / 4 = 76.
    assert_eq!(expected_frame_len(18, 17), 306 + 76 + 76);
}

#[test]
fn expected_len_of_largest_geometry_does_not_wrap() {
    let total = expected_frame_len(u32::MAX, u32::MAX);
    assert_eq!(total, 27_670_116_097_679_425_537u128);
    assert!(total > u64::MAX as u128);
}

#[test]
fn narrow_frame_is_too_small() {
    let buf = vec![0u8; 384];
    assert_eq!(
        yuv_to_h264(&buf, 15, 16),
        Err(EncodeError::GeometryTooSmall { width: 15, height: 16 })
    );
}

#[test]
fn low_frame_is_too_small() {
    let buf = vec![0u8; 384];
    assert_eq!(
        yuv_to_h264(&buf, 16, 15),
        Err(EncodeError::GeometryTooSmall { width: 16, height: 15 })
    );
}

#[test]
fn zero_geometry_is_too_small() {
    assert_eq!(
        yuv_to_h264(&[], 0, 0),
        Err(EncodeError::GeometryTooSmall { width: 0, height: 0 })
    );
}

#[test]
fn geometry_is_judged_before_the_buffer() {
    // 15 * 16 = 240, 240 / 4 = 60: a buffer of the exact length for 15x16.
    let exact = vec![0u8; 240 + 60 + 60];
    let wrong = vec![0u8; 7];
    let expected = Err(EncodeError::GeometryTooSmall { width: 15, height: 16 });
    assert_eq!(yuv_to_h264(&exact, 15, 16), expected);
    assert_eq!(yuv_to_h264(&wrong, 15, 16), expected);
    assert_eq!(yuv_to_h264(&[], 15, 16), expected);
}

#[test]
fn one_byte_short_is_a_size_mismatch() {
    let buf = vec![0u8; 383];
    assert_eq!(
        yuv_to_h264(&buf, 16, 16),
        Err(EncodeError::BufferSizeMismatch { expected: 384, actual: 383, width: 16, height: 16 })
    );
}

#[test]
fn one_byte_long_is_a_size_mismatch() {
    let buf = vec![0u8; 385];
    assert_eq!(
        yuv_to_h264(&buf, 16, 16),
        Err(EncodeError::BufferSizeMismatch { expected: 384, actual: 385, width: 16, height: 16 })
    );
}

#[test]
fn empty_buffer_is_a_size_mismatch() {
    assert_eq!(
        yuv_to_h264(&[], 640, 480),
        Err(EncodeError::BufferSizeMismatch {
            expected: 460_800,
            actual: 0,
            width: 640,
            height: 480
        })
    );
}

#[test]
fn size_mismatch_for_largest_geometry_reports_the_full_count() {
    assert_eq!(
        yuv_to_h264(&[1, 2, 3], u32::MAX, u32::MAX),
        Err(EncodeError::BufferSizeMismatch {
            expected: 27_670_116_097_679_425_537u128,
            actual: 3,
            width: u32::MAX,
            height: u32::MAX
        })
    );
}

#[test]
fn size_mismatch_message_states_both_counts_and_the_geometry() {
    let buf = vec![0u8; 383];
    let err = yuv_to_h264(&buf, 16, 16).unwrap_err();
    let text = err.message();
    assert_eq!(text, "Invalid buffer size for 16x16 YUV420 frame: expected 384, got 383 bytes");
    assert!(text.contains("expected 384, got 383"));
}

#[test]
fn too_small_message_states_the_geometry() {
    let err = EncodeError::GeometryTooSmall { width: 15, height: 16 };
    assert_eq!(
        err.message(),
        "Frame size 15x16 is too small. OpenH264 requires minimum 16x16 frame size for proper H.264 encoding"
    );
}

#[test]
fn encoder_failure_messages_embed_the_detail() {
    let init = EncodeError::EncoderInitFailure { detail: String::from("no encoder") };
    assert_eq!(init.message(), "Failed to create H264 encoder: no encoder");
    let encode = EncodeError::EncodeFailure { detail: String::from("code 4") };
    assert_eq!(encode.message(), "Failed to encode YUV to H264: code 4");
    let bare = EncodeError::EncodeFailure { detail: String::new() };
    assert_eq!(bare.message(), "Failed to encode YUV to H264: ");
}

#[test]
fn planes_are_cut_in_order_with_exact_sizes() {
    let buf = sentinel_frame();
    let planes = split_planes(&buf, 16, 16).unwrap();
    assert_eq!(planes.y.len(), 256);
    assert_eq!(planes.u.len(), 64);
    assert_eq!(planes.v.len(), 64);
    assert!(planes.y.iter().all(|b| *b == 0x11));
    assert!(planes.u.iter().all(|b| *b == 0x22));
    assert!(planes.v.iter().all(|b| *b == 0x33));
}

#[test]
fn planes_of_an_odd_geometry_drop_the_remainder() {
    let mut buf = vec![1u8; 289];
    buf.extend(vec![2u8; 72]);
    buf.extend(vec![3u8; 72]);
    let planes = split_planes(&buf, 17, 17).unwrap();
    assert_eq!(planes.y, &[1u8; 289][..]);
    assert_eq!(planes.u, &[2u8; 72][..]);
    assert_eq!(planes.v, &[3u8; 72][..]);
}

#[test]
fn split_planes_rejects_as_the_whole_call_does() {
    let buf = vec![0u8; 383];
    assert_eq!(
        split_planes(&buf, 16, 16).err(),
        Some(EncodeError::BufferSizeMismatch {
            expected: 384,
            actual: 383,
            width: 16,
            height: 16
        })
    );
    assert_eq!(
        split_planes(&buf, 16, 3).err(),
        Some(EncodeError::GeometryTooSmall { width: 16, height: 3 })
    );
}

#[test]
fn assembled_frame_keeps_plane_order() {
    let buf = sentinel_frame();
    let frame = assemble_frame(&buf, 16, 16).unwrap();
    assert_eq!(frame.len(), 384);
    assert!(frame[..256].iter().all(|b| *b == 0x11));
    assert!(frame[256..320].iter().all(|b| *b == 0x22));
    assert!(frame[320..].iter().all(|b| *b == 0x33));
    assert_eq!(frame, buf);
}

#[test]
fn assemble_concatenates_luma_then_chroma() {
    let buf: Vec<u8> = (0..384u32).map(|i| (i % 251) as u8).collect();
    let planes = split_planes(&buf, 16, 16).unwrap();
    let frame = planes.assemble();
    let mut expected = planes.y.to_vec();
    expected.extend_from_slice(planes.u);
    expected.extend_from_slice(planes.v);
    assert_eq!(frame, expected);
    assert_eq!(frame, buf);
}

#[test]
fn validation_of_an_assembled_frame_gives_the_same_frame() {
    let buf = sentinel_frame();
    let once = assemble_frame(&buf, 16, 16).unwrap();
    let twice = assemble_frame(&once, 16, 16).unwrap();
    assert_eq!(once, twice);
}

#[test]
fn assemble_frame_rejects_wrong_sizes() {
    let buf = vec![0u8; 385];
    assert_eq!(
        assemble_frame(&buf, 16, 16),
        Err(EncodeError::BufferSizeMismatch { expected: 384, actual: 385, width: 16, height: 16 })
    );
    assert_eq!(
        assemble_frame(&buf, 8, 8),
        Err(EncodeError::GeometryTooSmall { width: 8, height: 8 })
    );
}
