//! Typed failures: validation failures diagnosed before any encoding work,
//! and encoding failures tagged by the stage that raised them.

use vstd::prelude::*;
use vstd::string::StringExecFns;
use crate::numfmt::{dec_rep, push_decimal};

verus! {

/// A request was rejected before any frame was processed; each variant names
/// the first constraint (in checking order) that the request breaks.
#[derive(Clone, Copy, Debug, PartialEq, Eq, Structural)]
pub enum ValidationError {
    /// The quality hint lies outside `[1, 30]`.
    QualityOutOfRange,
    /// The frame rate is zero or above 60.
    FpsOutOfRange,
    /// The width or the height is zero.
    ZeroDimension,
    /// The frame count is zero.
    ZeroFrames,
    /// The flat pixel buffer does not hold `width * height * 4 * frames`
    /// bytes; both the expected and the actual byte counts are reported.
    LengthMismatch { expected: u128, actual: usize },
}

/// A stage of the frame pipeline failed after validation passed. The carried
/// detail is the encoding engine's own description of the failure.
#[derive(Clone, Debug, PartialEq, Eq)]
pub enum EncodingError {
    /// The encoding session could not be opened or its loop mode set.
    Initialization { detail: String },
    /// The frame with this zero-based index could not be compressed or
    /// written; all work for earlier frames is discarded.
    FrameWrite { index: usize, detail: String },
    /// The session could not be closed and serialized.
    Finalization { detail: String },
}

/// Every failure one encoding call can surface.
#[derive(Clone, Debug, PartialEq, Eq)]
pub enum GifError {
    Validation(ValidationError),
    Encoding(EncodingError),
}

impl ValidationError {
    /// The human-readable description of this failure. A length mismatch
    /// states both the expected and the actual byte counts in decimal.
    pub open spec fn spec_message(self) -> Seq<char> {
        match self {
            ValidationError::QualityOutOfRange => "Quality must be between 1 and 30"@,
            ValidationError::FpsOutOfRange => "FPS must be between 1 and 60"@,
            ValidationError::ZeroDimension => "Width and height must be greater than 0"@,
            ValidationError::ZeroFrames => "Number of frames must be greater than 0"@,
            ValidationError::LengthMismatch { expected, actual } => "Invalid frames data length: expected "@
                + dec_rep(expected as nat) + ", got "@ + dec_rep(actual as nat),
        }
    }

    /// Renders the description of this failure.
    pub fn message(&self) -> (s: String)
        ensures
            s@ == self.spec_message(),
    {
        match self {
            ValidationError::QualityOutOfRange => {
                String::from_str("Quality must be between 1 and 30")
            },
            ValidationError::FpsOutOfRange => String::from_str("FPS must be between 1 and 60"),
            ValidationError::ZeroDimension => {
                String::from_str("Width and height must be greater than 0")
            },
            ValidationError::ZeroFrames => {
                String::from_str("Number of frames must be greater than 0")
            },
            ValidationError::LengthMismatch { expected, actual } => {
                let mut s = String::from_str("Invalid frames data length: expected ");
                push_decimal(&mut s, *expected);
                s.append(", got ");
                push_decimal(&mut s, *actual as u128);
                assert(s@ =~= self.spec_message());
                s
            },
        }
    }
}

impl EncodingError {
    /// The human-readable description of this failure: the stage, the frame
    /// index where one frame failed, and the engine's own detail.
    pub open spec fn spec_message(self) -> Seq<char> {
        match self {
            EncodingError::Initialization { detail } => "Failed to create encoder: "@ + detail@,
            EncodingError::FrameWrite { index, detail } => "Frame "@ + dec_rep(index as nat)
                + " write failed: "@ + detail@,
            EncodingError::Finalization { detail } => "Failed to finalize GIF encoder: "@
                + detail@,
        }
    }

    /// Renders the description of this failure.
    pub fn message(&self) -> (s: String)
        ensures
            s@ == self.spec_message(),
    {
        match self {
            EncodingError::Initialization { detail } => {
                let mut s = String::from_str("Failed to create encoder: ");
                s.append(detail.as_str());
                assert(s@ =~= self.spec_message());
                s
            },
            EncodingError::FrameWrite { index, detail } => {
                let mut s = String::from_str("Frame ");
                push_decimal(&mut s, *index as u128);
                s.append(" write failed: ");
                s.append(detail.as_str());
                assert(s@ =~= self.spec_message());
                s
            },
            EncodingError::Finalization { detail } => {
                let mut s = String::from_str("Failed to finalize GIF encoder: ");
                s.append(detail.as_str());
                assert(s@ =~= self.spec_message());
                s
            },
        }
    }
}

impl GifError {
    /// The human-readable description of this failure.
    pub open spec fn spec_message(self) -> Seq<char> {
        match self {
            GifError::Validation(v) => v.spec_message(),
            GifError::Encoding(e) => e.spec_message(),
        }
    }

    /// Renders the description of this failure.
    pub fn message(&self) -> (s: String)
        ensures
            s@ == self.spec_message(),
    {
        match self {
            GifError::Validation(v) => v.message(),
            GifError::Encoding(e) => e.message(),
        }
    }
}

} // verus!
