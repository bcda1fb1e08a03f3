use voxlink::vad::{
    SegmentOutcome, SileroVad, CHUNK_SIZE, VAD_SILENCE_FRAMES_THRESHOLD,
    VAD_SPEECH_FRAMES_THRESHOLD,
};

fn sine_frame() -> Vec<f32> {
    let mut voice = vec![0.0f32; CHUNK_SIZE];
    for i in 0..CHUNK_SIZE {
        voice[i] = (i as f32 * 0.1).sin() * 0.5;
    }
    voice
}

#[test]
fn test_silero_vad() {
    let mut vad = SileroVad::<f32>::new();

    let silence = vec![0.0f32; CHUNK_SIZE];
    for _ in 0..10 {
        let active = vad.process_frame(&silence, false);
        assert!(!active, "silent frames must not activate the detector");
    }

    let voice = sine_frame();
    for _ in 0..VAD_SPEECH_FRAMES_THRESHOLD {
        vad.process_frame(&voice, true);
    }
    assert!(vad.is_speech_active(), "voice frames must activate the detector");
}

#[test]
fn onset_needs_three_consecutive_voice_frames() {
    let mut vad = SileroVad::<f32>::new();
    let voice = sine_frame();
    let silence = vec![0.0f32; CHUNK_SIZE];
    assert!(!vad.process_frame(&voice, true));
    assert!(!vad.process_frame(&voice, true));
    assert!(!vad.process_frame(&silence, false));
    assert!(!vad.process_frame(&voice, true));
    assert!(!vad.process_frame(&voice, true));
    assert!(vad.speech_start_time().is_none());
    assert!(vad.process_frame(&voice, true));
    assert!(vad.speech_start_time().is_some());
    assert_eq!(vad.get_samples().len(), CHUNK_SIZE);
}

#[test]
fn speech_ends_after_fifteen_silent_frames() {
    let mut vad = SileroVad::<f32>::new();
    let voice = sine_frame();
    let silence = vec![0.0f32; CHUNK_SIZE];
    for _ in 0..3 {
        vad.process_frame(&voice, true);
    }
    for _ in 0..(VAD_SILENCE_FRAMES_THRESHOLD - 1) {
        assert!(vad.process_frame(&silence, false));
    }
    assert!(vad.speech_end_time().is_none());
    assert!(!vad.process_frame(&silence, false));
    assert!(vad.speech_end_time().is_some());
    // The voice frame that started speech and every silent frame are kept.
    assert_eq!(vad.get_samples().len(), CHUNK_SIZE * (1 + VAD_SILENCE_FRAMES_THRESHOLD));
    // Silence after the end collects nothing.
    assert!(!vad.process_frame(&silence, false));
    assert_eq!(vad.get_samples().len(), CHUNK_SIZE * (1 + VAD_SILENCE_FRAMES_THRESHOLD));
}

#[test]
fn samples_are_kept_in_order() {
    let mut vad = SileroVad::<u32>::new();
    vad.process_frame(&[1, 2], true);
    vad.process_frame(&[3, 4], true);
    vad.process_frame(&[5, 6], true);
    vad.process_frame(&[7], false);
    vad.process_frame(&[8, 9], true);
    assert_eq!(vad.get_samples(), &[5, 6, 7, 8, 9]);
}

#[test]
fn empty_frames_change_nothing() {
    let mut vad = SileroVad::<u32>::new();
    vad.process_frame(&[1], true);
    vad.process_frame(&[1], true);
    assert!(!vad.process_frame(&[], true));
    assert!(!vad.process_frame(&[], false));
    assert!(vad.process_frame(&[1], true));
}

#[test]
fn reset_forgets_everything() {
    let mut vad = SileroVad::<u32>::new();
    for _ in 0..4 {
        vad.process_frame(&[1, 2, 3], true);
    }
    assert!(vad.is_speech_active());
    vad.reset();
    assert!(!vad.is_speech_active());
    assert!(vad.get_samples().is_empty());
    assert!(vad.speech_start_time().is_none());
    assert!(vad.speech_end_time().is_none());
    assert!(!vad.process_frame(&[1], true));
    assert!(!vad.process_frame(&[1], true));
    assert!(vad.process_frame(&[1], true));
}

fn finished_segment() -> SileroVad<u32> {
    let mut vad = SileroVad::<u32>::new();
    for _ in 0..3 {
        vad.process_frame(&[7], true);
    }
    for _ in 0..VAD_SILENCE_FRAMES_THRESHOLD {
        vad.process_frame(&[0], false);
    }
    assert!(!vad.is_speech_active());
    vad
}

#[test]
fn settle_keeps_long_segments() {
    let mut vad = finished_segment();
    assert_eq!(vad.settle_segment(true), SegmentOutcome::Complete);
    assert_eq!(vad.get_samples().len(), 1 + VAD_SILENCE_FRAMES_THRESHOLD);
}

#[test]
fn settle_discards_short_segments() {
    let mut vad = finished_segment();
    assert_eq!(vad.settle_segment(false), SegmentOutcome::Discarded);
    assert!(vad.get_samples().is_empty());
    assert!(vad.speech_start_time().is_none());
}

#[test]
fn settle_keeps_listening_during_speech_or_before_it() {
    let mut vad = SileroVad::<u32>::new();
    assert_eq!(vad.settle_segment(true), SegmentOutcome::Listening);
    for _ in 0..3 {
        vad.process_frame(&[7], true);
    }
    assert_eq!(vad.settle_segment(false), SegmentOutcome::Listening);
    assert_eq!(vad.get_samples(), &[7]);
}

#[test]
fn onset_clears_the_previous_end_time() {
    let mut vad = SileroVad::<u32>::new();
    for _ in 0..3 {
        vad.process_frame(&[1], true);
    }
    for _ in 0..VAD_SILENCE_FRAMES_THRESHOLD {
        vad.process_frame(&[0], false);
    }
    assert!(vad.speech_end_time().is_some());
    for _ in 0..3 {
        vad.process_frame(&[1], true);
    }
    assert!(vad.is_speech_active());
    assert!(vad.speech_start_time().is_some());
    assert!(vad.speech_end_time().is_none());
}

#[test]
fn activity_follows_the_trailing_runs() {
    let mut vad = SileroVad::<u32>::new();
    let pattern = [true, true, false, true, true, true];
    let mut results = Vec::new();
    for v in pattern {
        results.push(vad.process_frame(&[1], v));
    }
    assert_eq!(results, vec![false, false, false, false, false, true]);
    for _ in 0..14 {
        assert!(vad.process_frame(&[0], false));
    }
    assert!(vad.process_frame(&[1], true));
    for _ in 0..14 {
        assert!(vad.process_frame(&[0], false));
    }
    assert!(!vad.process_frame(&[0], false));
}

#[test]
fn timestamps_are_the_given_instants() {
    let mut vad = SileroVad::<u32>::new();
    let t0 = std::time::Instant::now();
    let t1 = t0 + std::time::Duration::from_millis(700);
    vad.process_frame_at(&[1], true, t0);
    vad.process_frame_at(&[1], true, t0);
    vad.process_frame_at(&[1], true, t0);
    assert_eq!(vad.speech_start_time(), Some(t0));
    for _ in 0..VAD_SILENCE_FRAMES_THRESHOLD {
        vad.process_frame_at(&[0], false, t1);
    }
    assert_eq!(vad.speech_end_time(), Some(t1));
    assert_eq!(vad.speech_start_time(), Some(t0));
}
