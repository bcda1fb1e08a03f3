//! Control of the capture loop.
//!
//! Each round the loop reads the clock and gives up once the recording time
//! limit has passed; otherwise it drains every full batch from the sample
//! ring (resampling it and feeding its frames to the detector) and returns the
//! speech segment as soon as one is complete; when no full batch is left it
//! looks at the stop flag, and if capture goes on it sleeps briefly and starts
//! the next round. When the loop stops without a complete segment, whatever
//! the detector collected is the result, and nothing collected is an error.
//!
//! The reading of the clock, the ring, the resampling and the sleep are done
//! by the caller; [`CaptureLoop::advance`] decides, from what each action
//! reported, the next action.

use vstd::prelude::*;

verus! {

/// Longest recording, in nanoseconds (30 s).
pub const MAX_RECORDING_NANOS: u64 = 30_000_000_000;

/// What the capture loop asks its caller to do.
#[derive(Debug, Clone, Copy, PartialEq, Eq)]
pub enum CaptureAction {
    /// Report the time elapsed since capture started.
    ReadClock,
    /// Move samples from the ring into the batch; report whether it is full.
    FillBatch,
    /// Resample the full batch, feed its frames to the detector, clear the
    /// batch; report whether a speech segment was completed.
    ProcessBatch,
    /// Report whether capture is still running.
    CheckRunning,
    /// Sleep briefly.
    Sleep,
    /// Return the completed speech segment.
    ReturnSegment,
    /// Stop; the result is what the detector collected.
    Stop,
}

/// What the last action reported.
#[derive(Debug, Clone, Copy, PartialEq, Eq)]
pub enum CaptureEvent {
    /// Nanoseconds elapsed since capture started.
    Clock(u64),
    /// Whether the batch is full.
    Batch(bool),
    /// Whether a speech segment was completed.
    Processed(bool),
    /// Whether capture is still running.
    Running(bool),
    /// The sleep is over.
    Slept,
}

/// Where the capture loop stands: the action it last asked for.
#[derive(Debug, Clone, Copy, PartialEq, Eq)]
pub enum CaptureLoop {
    ReadingClock,
    FillingBatch,
    ProcessingBatch,
    CheckingRunning,
    Sleeping,
    Returned,
    Stopped,
}

/// The action that a state asks for.
pub open spec fn action_of(s: CaptureLoop) -> CaptureAction {
    match s {
        CaptureLoop::ReadingClock => CaptureAction::ReadClock,
        CaptureLoop::FillingBatch => CaptureAction::FillBatch,
        CaptureLoop::ProcessingBatch => CaptureAction::ProcessBatch,
        CaptureLoop::CheckingRunning => CaptureAction::CheckRunning,
        CaptureLoop::Sleeping => CaptureAction::Sleep,
        CaptureLoop::Returned => CaptureAction::ReturnSegment,
        CaptureLoop::Stopped => CaptureAction::Stop,
    }
}

/// The next state after event `e` in state `s`. An event that does not
/// answer the action asked for leaves the state as it is.
pub open spec fn capture_next(s: CaptureLoop, e: CaptureEvent) -> CaptureLoop {
    match (s, e) {
        (CaptureLoop::ReadingClock, CaptureEvent::Clock(elapsed)) => if elapsed > MAX_RECORDING_NANOS {
            CaptureLoop::Stopped
        } else {
            CaptureLoop::FillingBatch
        },
        (CaptureLoop::FillingBatch, CaptureEvent::Batch(full)) => if full {
            CaptureLoop::ProcessingBatch
        } else {
            CaptureLoop::CheckingRunning
        },
        (CaptureLoop::ProcessingBatch, CaptureEvent::Processed(complete)) => if complete {
            CaptureLoop::Returned
        } else {
            CaptureLoop::FillingBatch
        },
        (CaptureLoop::CheckingRunning, CaptureEvent::Running(running)) => if running {
            CaptureLoop::Sleeping
        } else {
            CaptureLoop::Stopped
        },
        (CaptureLoop::Sleeping, CaptureEvent::Slept) => CaptureLoop::ReadingClock,
        _ => s,
    }
}

impl CaptureLoop {
    /// A capture loop at its start: the first action is to read the clock.
    pub fn start() -> (r: (CaptureLoop, CaptureAction))
        ensures
            r.0 == CaptureLoop::ReadingClock,
            r.1 == action_of(r.0),
    {
        (CaptureLoop::ReadingClock, CaptureAction::ReadClock)
    }

    /// Takes what the last action reported and returns the next state and
    /// the action it asks for.
    pub fn advance(self, event: CaptureEvent) -> (r: (CaptureLoop, CaptureAction))
        ensures
            r.0 == capture_next(self, event),
            r.1 == action_of(r.0),
    {
        let next = match (self, event) {
            (CaptureLoop::ReadingClock, CaptureEvent::Clock(elapsed)) => {
                if elapsed > MAX_RECORDING_NANOS {
                    CaptureLoop::Stopped
                } else {
                    CaptureLoop::FillingBatch
                }
            },
            (CaptureLoop::FillingBatch, CaptureEvent::Batch(full)) => {
                if full {
                    CaptureLoop::ProcessingBatch
                } else {
                    CaptureLoop::CheckingRunning
                }
            },
            (CaptureLoop::ProcessingBatch, CaptureEvent::Processed(complete)) => {
                if complete {
                    CaptureLoop::Returned
                } else {
                    CaptureLoop::FillingBatch
                }
            },
            (CaptureLoop::CheckingRunning, CaptureEvent::Running(running)) => {
                if running {
                    CaptureLoop::Sleeping
                } else {
                    CaptureLoop::Stopped
                }
            },
            (CaptureLoop::Sleeping, CaptureEvent::Slept) => CaptureLoop::ReadingClock,
            _ => self,
        };
        let action = match next {
            CaptureLoop::ReadingClock => CaptureAction::ReadClock,
            CaptureLoop::FillingBatch => CaptureAction::FillBatch,
            CaptureLoop::ProcessingBatch => CaptureAction::ProcessBatch,
            CaptureLoop::CheckingRunning => CaptureAction::CheckRunning,
            CaptureLoop::Sleeping => CaptureAction::Sleep,
            CaptureLoop::Returned => CaptureAction::ReturnSegment,
            CaptureLoop::Stopped => CaptureAction::Stop,
        };
        (next, action)
    }
}

/// The capture loop stops only when the time limit has passed or capture was
/// stopped, and returns a segment only when one was completed.
pub proof fn lemma_capture_ends_for_a_reason(s: CaptureLoop, e: CaptureEvent)
    ensures
        capture_next(s, e) == CaptureLoop::Stopped ==> s == CaptureLoop::Stopped
            || (s == CaptureLoop::ReadingClock && (e matches CaptureEvent::Clock(t) && t > MAX_RECORDING_NANOS))
            || (s == CaptureLoop::CheckingRunning && e == CaptureEvent::Running(false)),
        capture_next(s, e) == CaptureLoop::Returned ==> s == CaptureLoop::Returned
            || (s == CaptureLoop::ProcessingBatch && e == CaptureEvent::Processed(true)),
{
}

/// The stop flag is looked at only once the ring holds no full batch: the
/// loop turns to it only from filling a batch that did not fill up.
pub proof fn lemma_drains_before_checking_stop(s: CaptureLoop, e: CaptureEvent)
    ensures
        capture_next(s, e) == CaptureLoop::CheckingRunning ==> s == CaptureLoop::CheckingRunning
            || (s == CaptureLoop::FillingBatch && e == CaptureEvent::Batch(false)),
{
}

/// Within the time limit the clock never stops the loop.
pub proof fn lemma_in_time_goes_on(elapsed: u64)
    requires
        elapsed <= MAX_RECORDING_NANOS,
    ensures
        capture_next(CaptureLoop::ReadingClock, CaptureEvent::Clock(elapsed)) == CaptureLoop::FillingBatch,
{
}

/// Past the time limit the clock always stops the loop, however late it is read.
pub proof fn lemma_past_time_stops(elapsed: u64)
    requires
        elapsed > MAX_RECORDING_NANOS,
    ensures
        capture_next(CaptureLoop::ReadingClock, CaptureEvent::Clock(elapsed)) == CaptureLoop::Stopped,
        action_of(capture_next(CaptureLoop::ReadingClock, CaptureEvent::Clock(elapsed)))
            == CaptureAction::Stop,
{
}

/// Why capture produced no speech.
#[derive(Debug, Clone, Copy, PartialEq, Eq)]
pub enum CaptureError {
    /// No speech was detected.
    NoSpeech,
}

/// The result of a capture that stopped: the collected samples, or
/// [`CaptureError::NoSpeech`] when nothing was collected.
pub fn capture_result<S>(samples: Vec<S>) -> (r: Result<Vec<S>, CaptureError>)
    ensures
        samples@.len() == 0 ==> r == Err::<Vec<S>, CaptureError>(CaptureError::NoSpeech),
        samples@.len() > 0 ==> r == Ok::<Vec<S>, CaptureError>(samples),
{
    if samples.len() == 0 {
        Err(CaptureError::NoSpeech)
    } else {
        Ok(samples)
    }
}

} // verus!
