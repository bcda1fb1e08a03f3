# voxlink

Core of a voice-input assistant, verified with Verus.

- `src/vad.rs` — voice-activity detection as a state machine over classified
  frames: onset after consecutive voice frames, end after consecutive silent
  frames, sample collection, and what becomes of a finished segment.
- `src/ring.rs` — the sample ring (of the `ringbuf` crate) between the capture
  callback and the processing loop; the oldest sample is dropped when it is full.
- `src/frames.rs` — channel de-interleaving, fixed-size framing, zero-crossing
  counting, batch sizing.
- `src/capture.rs` — control of the capture loop (time limit, draining the
  ring before the stop flag, returning a segment) and the no-speech result.
- `src/caret.rs` — the text window around the caret.
- `src/injector.rs` — the clipboard-injection protocol as a step function from
  the outcome of the last action to the next action.
- `app/` — the desktop program: audio I/O (cpal), resampling (rubato),
  floating-point frame classification, clipboard and keyboard access, and the
  Tauri shell.
