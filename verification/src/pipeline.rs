//! The frame pipeline: validation, delay derivation, ordered per-frame
//! submission to the encoding engine, and finalization.

use vstd::prelude::*;
use crate::codec::{gif_stream, session_dims, session_frames, FrameSubmission, GifSession};
use crate::errors::{EncodingError, GifError, ValidationError};
use crate::request::{frame_slice, AnimationRequest};
use crate::timing::{delay_centis, spec_delay};

verus! {

/// The frame submissions one valid request makes, in input order: the `i`-th
/// submission carries the `i`-th raster of the flat buffer, the request's
/// uniform delay, and its quality hint.
pub open spec fn submitted_frames(
    data: Seq<u8>,
    width: u16,
    height: u16,
    num_frames: usize,
    fps: u16,
    quality: i32,
) -> Seq<FrameSubmission> {
    Seq::new(
        num_frames as nat,
        |i: int| (frame_slice(data, width, height, i), spec_delay(fps) as u16, quality),
    )
}

/// The container stream a request encodes to: the engine's output for this
/// geometry and this ordered sequence of submissions.
pub open spec fn encoded_stream(
    data: Seq<u8>,
    width: u16,
    height: u16,
    num_frames: usize,
    fps: u16,
    quality: i32,
) -> Seq<u8> {
    gif_stream(width, height, submitted_frames(data, width, height, num_frames, fps, quality))
}

/// An encoding-stage failure is well formed for a request of `num_frames`
/// frames: a per-frame failure names an in-range frame index.
pub open spec fn encoding_stage_wf(e: EncodingError, num_frames: usize) -> bool {
    match e {
        EncodingError::FrameWrite { index, .. } => index < num_frames,
        _ => true,
    }
}

/// Decides what one frame submission outcome means for the whole call: a
/// success lets the pipeline continue, and a failure at the frame with this
/// zero-based index aborts the call, tagged with exactly that index and the
/// engine's description.
pub fn frame_outcome(index: usize, outcome: Result<(), String>) -> (r: Result<(), GifError>)
    ensures
        outcome is Ok <==> r is Ok,
        outcome matches Err(detail) ==> r == Err::<(), GifError>(
            GifError::Encoding(EncodingError::FrameWrite { index, detail }),
        ),
{
    match outcome {
        Ok(()) => Ok(()),
        Err(detail) => Err(GifError::Encoding(EncodingError::FrameWrite { index, detail })),
    }
}

impl AnimationRequest {
    /// Runs the whole pipeline on this request: validate, derive the delay,
    /// open the session, submit every raster in input order, finalize.
    ///
    /// An invalid request fails with exactly the validator's diagnosis
    /// before any encoding work; a valid one succeeds and yields the
    /// engine's stream for this request's submissions. The stage-tagged
    /// encoding failures — initialization, one frame (by index),
    /// finalization — remain in the error model for the call's shape, and
    /// partial output is never returned.
    pub fn encode(self) -> (r: Result<Vec<u8>, GifError>)
        ensures
            self.is_valid() ==> r is Ok,
            self.spec_validate() matches Err(v) ==> r == Err::<Vec<u8>, GifError>(
                GifError::Validation(v),
            ),
            r matches Err(GifError::Validation(v)) ==> self.spec_validate() == Err::<
                (),
                ValidationError,
            >(v),
            r matches Ok(bytes) ==> self.is_valid() && bytes@ == encoded_stream(
                self.frames_data@,
                self.width,
                self.height,
                self.num_frames,
                self.fps,
                self.quality,
            ),
            r matches Err(GifError::Encoding(e)) ==> self.is_valid() && encoding_stage_wf(
                e,
                self.num_frames,
            ),
    {
        match self.validate() {
            Err(v) => {
                return Err(GifError::Validation(v));
            },
            Ok(()) => {},
        }
        let delay = delay_centis(self.fps);
        let mut session = match GifSession::open(self.width, self.height) {
            Ok(s) => s,
            Err(detail) => {
                return Err(GifError::Encoding(EncodingError::Initialization { detail }));
            },
        };
        let ghost subs = submitted_frames(
            self.frames_data@,
            self.width,
            self.height,
            self.num_frames,
            self.fps,
            self.quality,
        );
        assert(session_frames(session) =~= subs.subrange(0, 0));
        let mut i: usize = 0;
        while i < self.num_frames
            invariant
                i <= self.num_frames,
                self.is_valid(),
                delay as int == spec_delay(self.fps),
                session_dims(session) == (self.width, self.height),
                session_frames(session) == subs.subrange(0, i as int),
                subs == submitted_frames(
                    self.frames_data@,
                    self.width,
                    self.height,
                    self.num_frames,
                    self.fps,
                    self.quality,
                ),
            decreases self.num_frames - i,
        {
            let raster = self.raster(i);
            let outcome = session.submit_frame(self.width, self.height, raster, self.quality, delay);
            match frame_outcome(i, outcome) {
                Ok(()) => {},
                Err(e) => {
                    return Err(e);
                },
            }
            proof {
                assert(subs.subrange(0, i + 1) =~= subs.subrange(0, i as int).push(subs[i as int]));
            }
            i += 1;
        }
        assert(session_frames(session) =~= subs);
        match session.close() {
            Ok(bytes) => Ok(bytes),
            Err(detail) => Err(GifError::Encoding(EncodingError::Finalization { detail })),
        }
    }
}

/// The request the flat call boundary assembles from its arguments.
pub open spec fn request_of(
    frames_data: Vec<u8>,
    width: u16,
    height: u16,
    num_frames: usize,
    fps: u16,
    quality: i32,
) -> AnimationRequest {
    AnimationRequest { frames_data, width, height, num_frames, fps, quality }
}

/// Encodes a flat RGBA buffer of `num_frames` frames of `width * height`
/// pixels into a complete animated GIF stream that loops forever, with a
/// uniform per-frame delay derived from `fps` and the engine's quality hint
/// `quality`. The call boundary of the library: same contract as
/// [`AnimationRequest::encode`] on the assembled request.
pub fn encode_gif(
    frames_data: Vec<u8>,
    width: u16,
    height: u16,
    num_frames: usize,
    fps: u16,
    quality: i32,
) -> (r: Result<Vec<u8>, GifError>)
    ensures
        (request_of(frames_data, width, height, num_frames, fps, quality)).is_valid() ==> r is Ok,
        (request_of(frames_data, width, height, num_frames, fps, quality)).spec_validate() matches Err(v)
            ==> r == Err::<Vec<u8>, GifError>(GifError::Validation(v)),
        r matches Err(GifError::Validation(v)) ==> (request_of(
            frames_data,
            width,
            height,
            num_frames,
            fps,
            quality,
        )).spec_validate() == Err::<(), ValidationError>(v),
        r matches Ok(bytes) ==> (request_of(
            frames_data,
            width,
            height,
            num_frames,
            fps,
            quality,
        )).is_valid() && bytes@ == encoded_stream(
            frames_data@,
            width,
            height,
            num_frames,
            fps,
            quality,
        ),
        r matches Err(GifError::Encoding(e)) ==> (request_of(
            frames_data,
            width,
            height,
            num_frames,
            fps,
            quality,
        )).is_valid() && encoding_stage_wf(e, num_frames),
{
    let req = AnimationRequest { frames_data, width, height, num_frames, fps, quality };
    req.encode()
}

/// One byte of the fixed diagnostic animation: two 10 by 10 frames, the
/// first solid red and the second solid blue, both fully opaque.
pub open spec fn smoke_pixel_byte(i: int) -> u8 {
    if i < 400 {
        if i % 4 == 0 || i % 4 == 3 {
            255
        } else {
            0
        }
    } else {
        if i % 4 == 2 || i % 4 == 3 {
            255
        } else {
            0
        }
    }
}

/// The flat buffer of the fixed diagnostic animation.
pub open spec fn smoke_frames_data() -> Seq<u8> {
    Seq::new(800, |i: int| smoke_pixel_byte(i))
}

/// Synthesizes a fixed two-frame, 10 by 10, red-then-blue animation at
/// quality 10 and 2 frames per second and runs it through the whole
/// pipeline: a smoke test that exercises every stage without external input.
/// It succeeds, and its bytes are the stream of exactly that request — the
/// same stream `encode_gif` yields on the same buffer and parameters.
pub fn test_encode_simple() -> (r: Result<Vec<u8>, GifError>)
    ensures
        r is Ok,
        r matches Ok(bytes) ==> bytes@ == encoded_stream(smoke_frames_data(), 10, 10, 2, 2, 10),
{
    let mut data: Vec<u8> = Vec::new();
    let mut i: usize = 0;
    while i < 800
        invariant
            i <= 800,
            data@.len() == i,
            forall|j: int| 0 <= j < i ==> data@[j] == smoke_pixel_byte(j),
        decreases 800 - i,
    {
        let m = i % 4;
        let b: u8 = if i < 400 {
            if m == 0 || m == 3 {
                255
            } else {
                0
            }
        } else {
            if m == 2 || m == 3 {
                255
            } else {
                0
            }
        };
        data.push(b);
        i += 1;
    }
    assert(data@ =~= smoke_frames_data());
    proof {
        assert((request_of(data, 10, 10, 2, 2, 10)).spec_validate() is Ok);
    }
    encode_gif(data, 10, 10, 2, 2, 10)
}

/// Encoding is deterministic: two requests that agree on the buffer contents
/// and on every parameter encode to one and the same container stream, so
/// encoding the same request twice yields outputs that decode identically.
pub proof fn lemma_encode_deterministic(a: AnimationRequest, b: AnimationRequest)
    requires
        a.frames_data@ == b.frames_data@,
        a.width == b.width,
        a.height == b.height,
        a.num_frames == b.num_frames,
        a.fps == b.fps,
        a.quality == b.quality,
    ensures
        encoded_stream(a.frames_data@, a.width, a.height, a.num_frames, a.fps, a.quality)
            == encoded_stream(b.frames_data@, b.width, b.height, b.num_frames, b.fps, b.quality),
{
}

/// Frame order is preserved: one submission is made per frame, and the
/// submission with index `i` carries exactly the `i`-th raster of the flat
/// buffer, in input order, with the request's uniform delay and its quality
/// hint unchanged.
pub proof fn lemma_frame_order(
    data: Seq<u8>,
    width: u16,
    height: u16,
    num_frames: usize,
    fps: u16,
    quality: i32,
    i: int,
)
    requires
        0 <= i < num_frames,
    ensures
        submitted_frames(data, width, height, num_frames, fps, quality).len() == num_frames,
        submitted_frames(data, width, height, num_frames, fps, quality)[i] == (
            frame_slice(data, width, height, i),
            spec_delay(fps) as u16,
            quality,
        ),
{
}

} // verus!
