//! Derivation of the uniform inter-frame delay, in hundredths of a second.

use vstd::prelude::*;

verus! {

/// The nearest integer to `100 / fps`, halves rounded away from zero.
/// For positive `fps` this is `floor((200 + fps) / (2 * fps))`.
pub open spec fn rounded_centis(fps: u16) -> int {
    (200 + fps as int) / (2 * fps as int)
}

/// The delay written into every frame of one animation: the rounded quotient,
/// clamped to a floor of two centiseconds (a 50 frames-per-second cap).
/// The clamp is applied after the rounding, never before.
pub open spec fn spec_delay(fps: u16) -> int {
    if rounded_centis(fps) < 2 {
        2
    } else {
        rounded_centis(fps)
    }
}

/// Computes the per-frame delay in centiseconds for a requested frame rate.
pub fn delay_centis(fps: u16) -> (d: u16)
    requires
        1 <= fps <= 60,
    ensures
        d as int == spec_delay(fps),
        2 <= d <= 100,
{
    let raw: u16 = (200 + fps) / (2 * fps);
    proof {
        lemma_delay_bounds(fps);
    }
    if raw < 2 {
        2
    } else {
        raw
    }
}

/// `rounded_centis` really is the rounding of `100 / fps`: writing `d` for
/// it, `200 - fps < 2 * d * fps <= 200 + fps`, that is, `d` lies within half
/// a centisecond of the exact quotient, and an exact half rounds up (for a
/// positive quotient, up is away from zero).
pub proof fn lemma_rounding_characterization(fps: u16, d: int)
    requires
        1 <= fps <= 60,
        d == rounded_centis(fps),
    ensures
        200 - fps < 2 * d * fps <= 200 + fps,
{
    assert(200 - fps < 2 * ((200 + fps as int) / (2 * fps as int)) * fps <= 200 + fps)
        by (nonlinear_arith)
        requires
            1 <= fps <= 60,
    ;
}

/// For every frame rate the validator accepts, the rounded quotient already
/// lies in `[2, 100]`, so the floor of two centiseconds never alters the
/// delay: `spec_delay` equals the unclamped rounding on the whole accepted
/// range.
pub proof fn lemma_delay_bounds(fps: u16)
    requires
        1 <= fps <= 60,
    ensures
        2 <= rounded_centis(fps) <= 100,
        spec_delay(fps) == rounded_centis(fps),
{
    assert(2 <= (200 + fps as int) / (2 * fps as int) <= 100) by (nonlinear_arith)
        requires
            1 <= fps <= 60,
    ;
}

} // verus!
