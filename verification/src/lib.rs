//! Verified core of a voice-input assistant: the voice-activity state machine,
//! the sample ring shared with the capture callback, frame and channel layout,
//! the caret text window, and the clipboard-injection protocol.

mod clock;
pub mod capture;
pub mod caret;
pub mod frames;
pub mod injector;
pub mod ring;
pub mod vad;

pub use clock::Instant;
pub use vad::{
    SegmentOutcome, SileroVad, VadView, CHUNK_SIZE, MAX_RECORDING_SECONDS, TARGET_CHANNELS, TARGET_SAMPLE_RATE,
    VAD_SILENCE_FRAMES_THRESHOLD, VAD_SPEECH_FRAMES_THRESHOLD,
};
