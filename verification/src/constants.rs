use vstd::prelude::*;

verus! {

/// Frames per second that the loop is paced to.
pub const FPS: i8 = 120;

/// Nanoseconds in one second.
pub const NANOS_PER_SECOND: u64 = 1_000_000_000;

/// Whole nanoseconds that one frame may take: a second divided by `FPS`.
pub const FRAME_NANOS: u64 = 8_333_333;

/// Packed colour that a malformed colour string stands for: white.
pub const DEFAULT_COLOR: u32 = 0xFF_FF_FF;

/// The frame duration is the second divided by the frame rate, rounded down.
pub proof fn lemma_frame_nanos()
    ensures
        FPS > 0,
        FRAME_NANOS == NANOS_PER_SECOND as int / FPS as int,
{
    assert(1_000_000_000int / 120 == 8_333_333) by (nonlinear_arith);
}

} // verus!
