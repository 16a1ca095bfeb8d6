use vstd::prelude::*;

use crate::wavetable::WavetableInstance;

verus! {

/// Frames played from a saved state before it is restored again.
pub const ROLLBACK_FRAMES: usize = 60;

/// The rollback decision after each produced frame. Past `limit` frames the
/// voice goes back to the saved copy and the count restarts; otherwise the
/// saved copy is refreshed from the voice. Returns the new frame count.
pub fn after_frame(
    voice: &mut WavetableInstance,
    saved: &mut WavetableInstance,
    frame_count: usize,
    limit: usize,
) -> (r: usize)
    requires
        frame_count <= limit,
        limit < usize::MAX,
    ensures
        r <= limit,
        frame_count + 1 > limit ==> r == 0 && *final(voice) == *old(saved) && *final(saved)
            == *old(saved),
        frame_count + 1 <= limit ==> r == frame_count + 1 && *final(voice) == *old(voice)
            && *final(saved) == *old(voice),
{
    let count = frame_count + 1;
    if count > limit {
        *voice = saved.duplicate();
        0
    } else {
        *saved = voice.duplicate();
        count
    }
}

} // verus!
