//! Frame stepping for sprite animations.
use vstd::prelude::*;

verus! {

/// `a - b`, saturating at 0.
pub open spec fn usize_sat_sub(a: usize, b: usize) -> usize {
    if a >= b { (a - b) as usize } else { 0 }
}

/// The frame shown after `frame_index` once its time is up: the next frame, and
/// past the last frame either the first one again (looping) or the last one.
pub fn next_frame_index(frame_index: usize, frame_count: usize, looping: bool) -> (r: usize)
    requires
        frame_index < usize::MAX,
    ensures
        r == (if frame_index + 1 >= frame_count {
            if looping {
                0
            } else {
                usize_sat_sub(frame_count, 1)
            }
        } else {
            (frame_index + 1) as usize
        }),
        frame_count > 0 ==> r < frame_count,
{
    let next = frame_index + 1;
    if next >= frame_count {
        if looping {
            0
        } else {
            frame_count.saturating_sub(1)
        }
    } else {
        next
    }
}

/// A one-shot animation is finished once it shows its last frame; a looping one never is.
pub fn is_finished_at(frame_index: usize, frame_count: usize, looping: bool) -> (r: bool)
    ensures
        r == (!looping && frame_index >= usize_sat_sub(frame_count, 1)),
{
    !looping && frame_index >= frame_count.saturating_sub(1)
}

} // verus!
