//! The ways in which encoding a frame can fail.

use vstd::prelude::*;
use vstd::string::StringExecFns;
use crate::decimal::{decimal, push_decimal};

verus! {

/// Why a frame was not encoded.
#[derive(Debug, PartialEq, Eq)]
pub enum EncodeError {
    /// The width or the height is below one macroblock.
    GeometryTooSmall { width: u32, height: u32 },
    /// The buffer does not hold exactly the three planes of the geometry.
    BufferSizeMismatch { expected: u128, actual: usize, width: u32, height: u32 },
    /// The encoder could not be constructed.
    EncoderInitFailure { detail: String },
    /// The encoder rejected the assembled frame.
    EncodeFailure { detail: String },
}

/// The text of the message that describes `e`.
pub open spec fn message_text(e: EncodeError) -> Seq<char> {
    match e {
        EncodeError::GeometryTooSmall { width, height } => {
            "Frame size "@ + decimal(width as nat) + "x"@ + decimal(height as nat)
                + " is too small. OpenH264 requires minimum 16x16 frame size for proper H.264 encoding"@
        },
        EncodeError::BufferSizeMismatch { expected, actual, width, height } => {
            "Invalid buffer size for "@ + decimal(width as nat) + "x"@ + decimal(height as nat)
                + " YUV420 frame: expected "@ + decimal(expected as nat) + ", got "@ + decimal(
                actual as nat,
            ) + " bytes"@
        },
        EncodeError::EncoderInitFailure { detail } => {
            "Failed to create H264 encoder: "@ + detail@
        },
        EncodeError::EncodeFailure { detail } => "Failed to encode YUV to H264: "@ + detail@,
    }
}

impl EncodeError {
    /// A description of the failure for the caller: the geometry and, for a
    /// size mismatch, the expected and the actual byte counts; for a failure
    /// of the encoder, the encoder's own detail.
    pub fn message(&self) -> (text: String)
        ensures
            text@ == message_text(*self),
    {
        let mut text = String::new();
        match self {
            EncodeError::GeometryTooSmall { width, height } => {
                text.append("Frame size ");
                push_decimal(&mut text, *width as u128);
                text.append("x");
                push_decimal(&mut text, *height as u128);
                text.append(" is too small. OpenH264 requires minimum 16x16 frame size for proper H.264 encoding");
            },
            EncodeError::BufferSizeMismatch { expected, actual, width, height } => {
                text.append("Invalid buffer size for ");
                push_decimal(&mut text, *width as u128);
                text.append("x");
                push_decimal(&mut text, *height as u128);
                text.append(" YUV420 frame: expected ");
                push_decimal(&mut text, *expected);
                text.append(", got ");
                push_decimal(&mut text, *actual as u128);
                text.append(" bytes");
            },
            EncodeError::EncoderInitFailure { detail } => {
                text.append("Failed to create H264 encoder: ");
                text.append(detail.as_str());
            },
            EncodeError::EncodeFailure { detail } => {
                text.append("Failed to encode YUV to H264: ");
                text.append(detail.as_str());
            },
        }
        assert(text@ =~= message_text(*self));
        text
    }
}

} // verus!
