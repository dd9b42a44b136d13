use vstd::prelude::*;
use crate::constants::FRAME_NANOS;

verus! {

/// What the caller that drives the loop has to do next. The loop itself
/// holds no display and no clock: the caller performs each step and reports
/// how it went.
#[derive(Clone, Copy, Debug, PartialEq, Eq, Structural)]
pub enum LoopStep {
    /// Ask the display whether it is still open and whether the exit key is
    /// held down.
    Poll,
    /// Start the frame's clock, read the held keys, let the engine draw the
    /// frame, and hand its buffer to the display.
    DrawFrame,
    /// Sleep for this many nanoseconds.
    Sleep { nanos: u64 },
    /// Leave the loop: the display was closed or the exit key was pressed.
    Finished,
    /// Leave the loop with the error of the display.
    Failed,
}

/// How the step that was due went.
#[derive(Clone, Copy, Debug, PartialEq, Eq, Structural)]
pub enum LoopEvent {
    /// The display was polled.
    Polled { open: bool, exit_key_down: bool },
    /// The frame was drawn and handed to the display, which took it or not;
    /// so much time has passed since the frame's clock was started.
    Presented { ok: bool, elapsed_nanos: u64 },
    /// The sleep is over.
    Slept,
}

/// Time left of a frame of which `elapsed_nanos` are used up; nothing, if
/// the frame took longer than it may.
pub open spec fn pacing_nanos(elapsed_nanos: u64) -> u64 {
    if elapsed_nanos >= FRAME_NANOS {
        0
    } else {
        (FRAME_NANOS - elapsed_nanos) as u64
    }
}

/// The step that follows `step` once `event` is reported. An event that does
/// not answer the step that was due changes nothing, and nothing follows
/// `Finished` or `Failed`.
pub open spec fn next_step(step: LoopStep, event: LoopEvent) -> LoopStep {
    match (step, event) {
        (LoopStep::Poll, LoopEvent::Polled { open, exit_key_down }) => {
            if open && !exit_key_down {
                LoopStep::DrawFrame
            } else {
                LoopStep::Finished
            }
        },
        (LoopStep::DrawFrame, LoopEvent::Presented { ok, elapsed_nanos }) => {
            if ok {
                LoopStep::Sleep { nanos: pacing_nanos(elapsed_nanos) }
            } else {
                LoopStep::Failed
            }
        },
        (LoopStep::Sleep { nanos }, LoopEvent::Slept) => LoopStep::Poll,
        _ => step,
    }
}

impl LoopStep {
    /// The first step of a run: poll the display.
    pub fn start() -> (step: LoopStep)
        ensures
            step == LoopStep::Poll,
    {
        LoopStep::Poll
    }

    /// Whether the loop has been left.
    pub fn is_over(&self) -> (over: bool)
        ensures
            over <==> (*self == LoopStep::Finished || *self == LoopStep::Failed),
    {
        match self {
            LoopStep::Finished => true,
            LoopStep::Failed => true,
            _ => false,
        }
    }

    /// The step that is due after this one, given how this one went.
    pub fn advance(self, event: LoopEvent) -> (step: LoopStep)
        ensures
            step == next_step(self, event),
    {
        match self {
            LoopStep::Poll => match event {
                LoopEvent::Polled { open, exit_key_down } => {
                    if open && !exit_key_down {
                        LoopStep::DrawFrame
                    } else {
                        LoopStep::Finished
                    }
                },
                _ => self,
            },
            LoopStep::DrawFrame => match event {
                LoopEvent::Presented { ok, elapsed_nanos } => {
                    if ok {
                        LoopStep::Sleep { nanos: frame_sleep_nanos(elapsed_nanos) }
                    } else {
                        LoopStep::Failed
                    }
                },
                _ => self,
            },
            LoopStep::Sleep { nanos } => match event {
                LoopEvent::Slept => LoopStep::Poll,
                _ => self,
            },
            LoopStep::Finished => self,
            LoopStep::Failed => self,
        }
    }
}

/// How long to sleep at the end of a frame that has taken `elapsed_nanos`,
/// so that frames start one frame duration apart.
pub fn frame_sleep_nanos(elapsed_nanos: u64) -> (nanos: u64)
    ensures
        nanos == pacing_nanos(elapsed_nanos),
{
    if elapsed_nanos >= FRAME_NANOS {
        0
    } else {
        FRAME_NANOS - elapsed_nanos
    }
}

/// A frame and its sleep together last one frame duration, unless the frame
/// alone took longer; the sleep is never longer than a frame.
pub proof fn lemma_pacing_fills_frame(elapsed_nanos: u64)
    ensures
        pacing_nanos(elapsed_nanos) <= FRAME_NANOS,
        elapsed_nanos <= FRAME_NANOS ==> elapsed_nanos + pacing_nanos(elapsed_nanos)
            == FRAME_NANOS,
        elapsed_nanos > FRAME_NANOS ==> pacing_nanos(elapsed_nanos) == 0,
{
}

/// Whether the event is a poll that found the display closed or the exit
/// key held down.
pub open spec fn asks_to_stop(event: LoopEvent) -> bool {
    match event {
        LoopEvent::Polled { open, exit_key_down } => !open || exit_key_down,
        _ => false,
    }
}

/// Whether the event is a frame that the display did not take.
pub open spec fn is_refusal(event: LoopEvent) -> bool {
    match event {
        LoopEvent::Presented { ok, .. } => !ok,
        _ => false,
    }
}

/// The loop is left only from a poll that finds the display closed or the
/// exit key down, or from a frame that the display did not take; once left,
/// it stays left.
pub proof fn lemma_loop_exits(step: LoopStep, event: LoopEvent)
    ensures
        next_step(step, event) == LoopStep::Finished <==> step == LoopStep::Finished || (step
            == LoopStep::Poll && asks_to_stop(event)),
        next_step(step, event) == LoopStep::Failed <==> step == LoopStep::Failed || (step
            == LoopStep::DrawFrame && is_refusal(event)),
{
}

} // verus!
