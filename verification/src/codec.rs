//! The external encoding engine, consumed as a capability.
//!
//! The `gif` crate performs the palette quantization and LZW compression and
//! owns the container session. Its `Encoder` is generic over an I/O trait the
//! verifier has no declaration for, so this module holds the session in an
//! opaque struct, models its state by two named observations (its dimensions
//! and the sequence of frame submissions it has taken), and wraps the three
//! operations the pipeline uses. Every session this library opens writes into
//! an in-memory `Vec<u8>` and is created looping forever with no global
//! palette, so the finished byte stream is a deterministic function of the
//! dimensions and the submissions, which `gif_stream` names.

use vstd::prelude::*;

verus! {

/// An open container-encoding session of the `gif` crate, writing into an
/// in-memory byte buffer. Opaque to the verifier: the names below are the
/// only view of it.
#[verifier::external_body]
pub struct GifSession {
    inner: gif::Encoder<Vec<u8>>,
}

/// One frame submission: the RGBA raster handed to the engine, the delay in
/// centiseconds tagged onto the frame, and the quality hint (the engine's
/// `speed`, 1 to 30).
pub type FrameSubmission = (Seq<u8>, u16, i32);

/// The width and height an encoding session was opened with.
pub uninterp spec fn session_dims(s: GifSession) -> (u16, u16);

/// The frame submissions an encoding session has taken so far, in order.
pub uninterp spec fn session_frames(s: GifSession) -> Seq<FrameSubmission>;

/// The finished container byte stream for a session of the given dimensions
/// that looped forever, had no global palette, and took exactly these
/// submissions in this order. The engine is deterministic (its palette
/// selection and compression depend only on the rasters), so the stream is a
/// function of these arguments alone.
pub uninterp spec fn gif_stream(width: u16, height: u16, frames: Seq<FrameSubmission>) -> Seq<u8>;

impl GifSession {
    /// Opens an in-memory encoding session: no global palette, loop count
    /// set to infinite before any frame. Relies on `gif::Encoder::new`
    /// (writes the header and screen descriptor) and
    /// `gif::Encoder::set_repeat` with `gif::Repeat::Infinite` (writes the
    /// looping extension). Both succeed here: their only failure paths are
    /// I/O errors, which a `Vec<u8>` writer never raises, and an oversized
    /// global palette, and none is given. The error arm stays for the
    /// call's shape; allocation exhaustion is left aside, as everywhere.
    #[verifier::external_body]
    pub(crate) fn open(width: u16, height: u16) -> (r: Result<GifSession, String>)
        ensures
            r is Ok,
            r matches Ok(s) ==> session_dims(s) == (width, height) && session_frames(s)
                == Seq::<FrameSubmission>::empty(),
    {
        match gif::Encoder::new(Vec::new(), width, height, &[]) {
            Ok(mut enc) => match enc.set_repeat(gif::Repeat::Infinite) {
                Ok(()) => Ok(GifSession { inner: enc }),
                Err(e) => Err(format!("{}", e)),
            },
            Err(e) => Err(format!("{}", e)),
        }
    }

    /// Submits one RGBA raster: the engine quantizes it to a palette (at
    /// most 256 colors), compresses it, tags it with `delay` centiseconds,
    /// and appends it to the container. Relies on
    /// `gif::Frame::from_rgba_speed` (which demands exactly
    /// `width * height * 4` bytes and a speed in `[1, 30]`, and is
    /// deterministic in them) and on `gif::Encoder::write_frame`. The
    /// submission succeeds: a frame built by `from_rgba_speed` carries a
    /// palette of at most 256 colors and a buffer of exactly
    /// `width * height` indices, so `write_frame`'s format checks pass, and
    /// its remaining failure paths are I/O errors, which a `Vec<u8>` writer
    /// never raises. The error arm stays for the call's shape; allocation
    /// exhaustion is left aside, as everywhere.
    #[verifier::external_body]
    pub(crate) fn submit_frame(
        &mut self,
        width: u16,
        height: u16,
        raster: Vec<u8>,
        speed: i32,
        delay: u16,
    ) -> (r: Result<(), String>)
        requires
            raster@.len() == width as int * height as int * 4,
            1 <= speed <= 30,
            session_dims(*old(self)) == (width, height),
        ensures
            r is Ok,
            session_dims(*final(self)) == session_dims(*old(self)),
            r is Ok ==> session_frames(*final(self)) == session_frames(*old(self)).push(
                (raster@, delay, speed),
            ),
    {
        let mut scratch = raster;
        let mut frame = gif::Frame::from_rgba_speed(width, height, &mut scratch, speed);
        frame.delay = delay;
        self.inner.write_frame(&frame).map_err(|e| format!("{}", e))
    }

    /// Closes the session: the engine writes the trailer and hands over the
    /// finished byte stream. Relies on `gif::Encoder::into_inner`, which
    /// succeeds here: writing the trailer into a `Vec<u8>` cannot fail, and
    /// the writer is present in every session (only `into_inner` takes it,
    /// consuming the session). The error arm stays for the call's shape.
    #[verifier::external_body]
    pub(crate) fn close(self) -> (r: Result<Vec<u8>, String>)
        ensures
            r is Ok,
            r matches Ok(bytes) ==> bytes@ == gif_stream(
                session_dims(self).0,
                session_dims(self).1,
                session_frames(self),
            ),
    {
        self.inner.into_inner().map_err(|e| format!("{}", e))
    }
}

} // verus!
