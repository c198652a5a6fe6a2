//! The animation request: the flat RGBA buffer with its geometry and timing
//! parameters, the validator, and the per-frame raster slicing.

use vstd::prelude::*;
use crate::errors::ValidationError;

verus! {

/// One self-contained encoding request: a flat pixel buffer holding
/// `frame_count` frames of `width * height` RGBA pixels (4 bytes each,
/// row-major, frame-major), a frame rate, and a quality hint for the
/// encoding engine (1 = highest fidelity, 30 = fastest).
pub struct AnimationRequest {
    pub frames_data: Vec<u8>,
    pub width: u16,
    pub height: u16,
    pub num_frames: usize,
    pub fps: u16,
    pub quality: i32,
}

/// The byte count of one frame's raster: `width * height * 4`.
pub open spec fn frame_size(width: u16, height: u16) -> int {
    width as int * height as int * 4
}

/// The byte count the flat buffer must have: one raster per frame.
pub open spec fn expected_len(width: u16, height: u16, num_frames: usize) -> int {
    frame_size(width, height) * num_frames as int
}

/// The raster of the frame with index `i`: the `i`-th `frame_size` slice of
/// the flat buffer.
pub open spec fn frame_slice(data: Seq<u8>, width: u16, height: u16, i: int) -> Seq<u8> {
    data.subrange(i * frame_size(width, height), (i + 1) * frame_size(width, height))
}

impl AnimationRequest {
    /// The first constraint this request breaks, checked in a fixed order:
    /// quality, frame rate, dimensions, frame count, buffer length. `Ok`
    /// exactly when the request satisfies every invariant.
    pub open spec fn spec_validate(self) -> Result<(), ValidationError> {
        if self.quality < 1 || self.quality > 30 {
            Err(ValidationError::QualityOutOfRange)
        } else if self.fps == 0 || self.fps > 60 {
            Err(ValidationError::FpsOutOfRange)
        } else if self.width == 0 || self.height == 0 {
            Err(ValidationError::ZeroDimension)
        } else if self.num_frames == 0 {
            Err(ValidationError::ZeroFrames)
        } else if self.frames_data@.len() != expected_len(self.width, self.height, self.num_frames) {
            Err(
                ValidationError::LengthMismatch {
                    expected: expected_len(self.width, self.height, self.num_frames) as u128,
                    actual: self.frames_data@.len() as usize,
                },
            )
        } else {
            Ok(())
        }
    }

    /// A request on which the pipeline is owed an attempt at every frame.
    pub open spec fn is_valid(self) -> bool {
        self.spec_validate() is Ok
    }

    /// Checks every invariant of the request before any buffer slicing,
    /// and diagnoses exactly the first constraint that fails.
    pub fn validate(&self) -> (r: Result<(), ValidationError>)
        ensures
            r == self.spec_validate(),
            r is Ok <==> self.is_valid(),
    {
        if self.quality < 1 || self.quality > 30 {
            return Err(ValidationError::QualityOutOfRange);
        }
        if self.fps == 0 || self.fps > 60 {
            return Err(ValidationError::FpsOutOfRange);
        }
        if self.width == 0 || self.height == 0 {
            return Err(ValidationError::ZeroDimension);
        }
        if self.num_frames == 0 {
            return Err(ValidationError::ZeroFrames);
        }
        proof {
            lemma_expected_len_fits(self.width, self.height, self.num_frames);
        }
        let expected: u128 = (self.width as u128) * (self.height as u128) * 4
            * (self.num_frames as u128);
        if (self.frames_data.len() as u128) != expected {
            return Err(
                ValidationError::LengthMismatch { expected, actual: self.frames_data.len() },
            );
        }
        Ok(())
    }

    /// The byte count of one frame of this request. Callable once the
    /// request is known valid, so that the product fits the machine word:
    /// the buffer, which a machine word measures, holds `num_frames` (at
    /// least one) such rasters.
    pub fn exec_frame_size(&self) -> (n: usize)
        requires
            self.is_valid(),
        ensures
            n as int == frame_size(self.width, self.height),
    {
        // An exec read of the length pins the buffer below `usize::MAX`,
        // which bounds the cast at the end.
        let _buf_len: usize = self.frames_data.len();
        proof {
            lemma_expected_len_fits(self.width, self.height, self.num_frames);
            lemma_frame_size_le_buffer(
                self.width,
                self.height,
                self.num_frames,
                self.frames_data@.len() as int,
            );
        }
        let wide: u64 = (self.width as u64) * (self.height as u64) * 4;
        wide as usize
    }

    /// Copies the raster of the frame with index `index` out of the flat
    /// buffer: the encoding engine wants a scratch buffer it may mutate.
    pub fn raster(&self, index: usize) -> (out: Vec<u8>)
        requires
            self.is_valid(),
            index < self.num_frames,
        ensures
            out@ == frame_slice(self.frames_data@, self.width, self.height, index as int),
            out@.len() == frame_size(self.width, self.height),
    {
        let fsize = self.exec_frame_size();
        // An exec read of the length pins the buffer below `usize::MAX`,
        // which bounds the offset arithmetic in the loop.
        let _buf_len: usize = self.frames_data.len();
        proof {
            lemma_slice_in_bounds(
                self.width,
                self.height,
                self.num_frames,
                self.frames_data@.len() as int,
                index as int,
            );
        }
        let start: usize = index * fsize;
        let mut out: Vec<u8> = Vec::new();
        let mut j: usize = 0;
        while j < fsize
            invariant
                j <= fsize,
                start + fsize <= self.frames_data@.len(),
                self.frames_data@.len() <= usize::MAX,
                out@ =~= self.frames_data@.subrange(start as int, start as int + j as int),
            decreases fsize - j,
        {
            out.push(self.frames_data[start + j]);
            j += 1;
        }
        assert(out@ =~= frame_slice(self.frames_data@, self.width, self.height, index as int));
        out
    }
}

/// A request is valid exactly when every invariant holds at once: the
/// quality hint in `[1, 30]`, the frame rate in `[1, 60]`, positive
/// dimensions and frame count, and a flat buffer of exactly
/// `width * height * 4 * num_frames` bytes.
pub proof fn lemma_valid_characterization(req: AnimationRequest)
    ensures
        req.is_valid() <==> (1 <= req.quality <= 30 && 1 <= req.fps <= 60 && req.width > 0
            && req.height > 0 && req.num_frames > 0 && req.frames_data@.len() == expected_len(
            req.width,
            req.height,
            req.num_frames,
        )),
{
}

/// The expected buffer length never overflows 128 bits: the factors are
/// bounded by the 16-bit dimensions and the machine-word frame count.
proof fn lemma_expected_len_fits(width: u16, height: u16, num_frames: usize)
    ensures
        0 <= frame_size(width, height) <= 0x4_0000_0000,
        0 <= expected_len(width, height, num_frames),
        expected_len(width, height, num_frames) < u128::MAX,
        width as int * height as int * 4 * num_frames as int == expected_len(
            width,
            height,
            num_frames,
        ),
{
    assert(0 <= (width as int) * (height as int) * 4 && (width as int) * (height as int) * 4
        <= 0x4_0000_0000 && (width as int) * (height as int) * 4 * (num_frames as int)
        < u128::MAX && 0 <= (width as int) * (height as int) * 4 * (num_frames as int) && (
    width as int) * (height as int) * 4 * (num_frames as int) == ((width as int) * (height as int)
        * 4) * (num_frames as int)) by (nonlinear_arith)
        requires
            width <= u16::MAX && height <= u16::MAX && num_frames <= u64::MAX,
    ;
}

/// In a valid request one raster is no longer than the whole buffer, so its
/// size fits the machine word that measures the buffer.
proof fn lemma_frame_size_le_buffer(width: u16, height: u16, num_frames: usize, len: int)
    requires
        num_frames >= 1,
        len == expected_len(width, height, num_frames),
    ensures
        0 <= frame_size(width, height) <= len,
{
    assert(frame_size(width, height) * 1 <= frame_size(width, height) * num_frames as int && 0
        <= frame_size(width, height)) by (nonlinear_arith)
        requires
            num_frames >= 1,
    ;
}

/// The raster of each in-range frame lies inside the buffer of a valid
/// request.
proof fn lemma_slice_in_bounds(width: u16, height: u16, num_frames: usize, len: int, i: int)
    requires
        0 <= i < num_frames,
        len == expected_len(width, height, num_frames),
    ensures
        0 <= i * frame_size(width, height),
        i * frame_size(width, height) + frame_size(width, height) <= len,
        (i + 1) * frame_size(width, height) == i * frame_size(width, height) + frame_size(
            width,
            height,
        ),
{
    assert(0 <= i * frame_size(width, height) && (i + 1) * frame_size(width, height) <= frame_size(
        width,
        height,
    ) * num_frames as int && (i + 1) * frame_size(width, height) == i * frame_size(width, height)
        + frame_size(width, height)) by (nonlinear_arith)
        requires
            0 <= i < num_frames,
    ;
}

} // verus!
