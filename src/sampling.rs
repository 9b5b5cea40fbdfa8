//! The sampling cadence: which frames of a stream are run through the detector.
use vstd::prelude::*;

verus! {

/// The cadence for a stream whose frame rate, rounded to the nearest integer,
/// is `rounded_fps`: that rate, but never less than one frame.
pub open spec fn cadence(rounded_fps: int) -> int {
    if rounded_fps < 1 {
        1
    } else {
        rounded_fps
    }
}

/// Frame `index` is processed on cadence `interval`.
pub open spec fn selected(index: int, interval: int) -> bool {
    index % interval == 0
}

/// The sampling interval, in frames, for a stream whose frame rate rounds to
/// `rounded_fps`; clamped to at least one.
pub fn sampling_interval(rounded_fps: u64) -> (r: u64)
    ensures
        r == cadence(rounded_fps as int),
        r >= 1,
{
    if rounded_fps < 1 {
        1
    } else {
        rounded_fps
    }
}

/// Whether frame `index` falls on the sampling cadence `interval`.
pub fn is_sampled(index: u64, interval: u64) -> (r: bool)
    requires
        interval >= 1,
    ensures
        r == selected(index as int, interval as int),
{
    index % interval == 0
}

/// For every frame rate of at least one frame per second, exactly the frames
/// whose index is a multiple of that rate are selected, and the first frame
/// is selected whatever the rate.
pub proof fn sampling_selects_multiples(rounded_fps: u64, index: u64)
    ensures
        rounded_fps >= 1 ==> (selected(index as int, cadence(rounded_fps as int)) <==> index
            % rounded_fps == 0),
        selected(0, cadence(rounded_fps as int)),
{
}

} // verus!
