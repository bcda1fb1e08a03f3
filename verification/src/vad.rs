//! Voice-activity detection as a state machine over classified frames.
//!
//! Whether a single frame sounds like voice is decided from its signal energy,
//! zero-crossing rate and spectral flatness; that classification is made on
//! floating-point samples by the caller and handed in as a `bool`. This module
//! holds what follows from it: the run-length counters, the activation and
//! deactivation rule, the timestamps of onset and end, and the collected samples.

use vstd::prelude::*;

use crate::clock::{clock_now, Instant};

verus! {

/// Target sample rate of the speech pipeline (Hz).
pub const TARGET_SAMPLE_RATE: usize = 16000;

/// Target channel count of the speech pipeline.
pub const TARGET_CHANNELS: usize = 1;

/// Samples per analysed frame (40 ms at the target rate).
pub const CHUNK_SIZE: usize = 640;

/// Consecutive voice frames needed before speech counts as started.
pub const VAD_SPEECH_FRAMES_THRESHOLD: usize = 3;

/// Consecutive silent frames that end an active speech segment.
pub const VAD_SILENCE_FRAMES_THRESHOLD: usize = 15;

/// Longest recording, in whole seconds.
pub const MAX_RECORDING_SECONDS: usize = 30;

/// Abstract state of a [`SileroVad`].
pub struct VadView<S> {
    /// Length of the current run of voice frames.
    pub speech_frames: nat,
    /// Length of the current run of silent frames.
    pub silence_frames: nat,
    /// Whether a speech segment is in progress.
    pub active: bool,
    /// Whether an onset time has been recorded.
    pub started: bool,
    /// Whether an end time has been recorded.
    pub ended: bool,
    /// Samples collected so far.
    pub samples: Seq<S>,
    /// How many frames the collected samples came from.
    pub collected_frames: nat,
}

impl<S> VadView<S> {
    /// The state of a fresh (or freshly reset) detector.
    pub open spec fn initial() -> VadView<S> {
        VadView {
            speech_frames: 0,
            silence_frames: 0,
            active: false,
            started: false,
            ended: false,
            samples: Seq::empty(),
            collected_frames: 0,
        }
    }

    /// What every reachable state satisfies: at most one of the two runs is
    /// in progress, an inactive detector's voice run is below the speech
    /// threshold and an active one's silence run below the silence threshold,
    /// samples exist only after an onset, every collected frame added at
    /// least one sample, an active segment holds its onset frame and its
    /// trailing silent frames, an end time is recorded exactly when a segment
    /// has begun and is over, and an ended segment holds at least its onset
    /// frame and the silent frames that ended it.
    pub open spec fn wf(self) -> bool {
        &&& (self.speech_frames == 0 || self.silence_frames == 0)
        &&& (self.active ==> self.started)
        &&& (!self.active ==> self.speech_frames < VAD_SPEECH_FRAMES_THRESHOLD)
        &&& (self.active ==> self.silence_frames < VAD_SILENCE_FRAMES_THRESHOLD)
        &&& (self.samples.len() > 0 ==> self.started)
        &&& (self.ended <==> (self.started && !self.active))
        &&& self.samples.len() >= self.collected_frames
        &&& (self.collected_frames > 0 ==> self.started)
        &&& (self.active ==> self.collected_frames >= self.silence_frames + 1)
        &&& (self.ended ==> self.collected_frames >= VAD_SILENCE_FRAMES_THRESHOLD + 1)
    }
}

/// One frame of the detector: `frame` is the frame's samples and `is_voice`
/// the classification of the frame.
pub open spec fn vad_step<S>(v: VadView<S>, frame: Seq<S>, is_voice: bool) -> VadView<S> {
    if frame.len() == 0 {
        v
    } else if is_voice {
        let count = v.speech_frames + 1;
        let begins = !v.active && count >= VAD_SPEECH_FRAMES_THRESHOLD;
        let active = v.active || begins;
        VadView {
            speech_frames: count,
            silence_frames: 0,
            active,
            started: v.started || begins,
            ended: if begins { false } else { v.ended },
            samples: if active { v.samples + frame } else { v.samples },
            collected_frames: if active { v.collected_frames + 1 } else { v.collected_frames },
        }
    } else {
        let count = v.silence_frames + 1;
        let finishes = v.active && count >= VAD_SILENCE_FRAMES_THRESHOLD;
        VadView {
            speech_frames: 0,
            silence_frames: count,
            active: v.active && !finishes,
            started: v.started,
            ended: v.ended || finishes,
            samples: if v.active { v.samples + frame } else { v.samples },
            collected_frames: if v.active { v.collected_frames + 1 } else { v.collected_frames },
        }
    }
}

/// Feeds the frames in order, `voice[i]` classifying `frames[i]`.
pub open spec fn vad_feed<S>(v: VadView<S>, frames: Seq<Seq<S>>, voice: Seq<bool>) -> VadView<S>
    decreases frames.len(),
{
    if frames.len() == 0 || voice.len() == 0 {
        v
    } else {
        vad_feed(vad_step(v, frames[0], voice[0]), frames.drop_first(), voice.drop_first())
    }
}

/// Every frame keeps a well-formed detector well-formed.
pub proof fn lemma_step_keeps_wf<S>(v: VadView<S>, frame: Seq<S>, is_voice: bool)
    requires
        v.wf(),
    ensures
        vad_step(v, frame, is_voice).wf(),
{
}

/// Speech onset: after `k` consecutive non-empty voice frames the voice run
/// has grown by `k`, and speech is active exactly when it already was or the
/// run has reached the speech threshold.
pub proof fn lemma_voice_run<S>(v: VadView<S>, frames: Seq<Seq<S>>, voice: Seq<bool>)
    requires
        v.wf(),
        frames.len() == voice.len(),
        forall|i: int| 0 <= i < frames.len() ==> #[trigger] frames[i].len() > 0,
        forall|i: int| 0 <= i < voice.len() ==> #[trigger] voice[i],
    ensures
        vad_feed(v, frames, voice).speech_frames == v.speech_frames + frames.len(),
        vad_feed(v, frames, voice).active == (v.active || v.speech_frames + frames.len()
            >= VAD_SPEECH_FRAMES_THRESHOLD),
    decreases frames.len(),
{
    if frames.len() > 0 {
        assert(frames[0].len() > 0);
        assert(voice[0]);
        let w = vad_step(v, frames[0], voice[0]);
        let rest = frames.drop_first();
        let rest_voice = voice.drop_first();
        assert forall|i: int| 0 <= i < rest.len() implies #[trigger] rest[i].len() > 0 by {
            assert(rest[i] == frames[i + 1]);
        }
        assert forall|i: int| 0 <= i < rest_voice.len() implies #[trigger] rest_voice[i] by {
            assert(rest_voice[i] == voice[i + 1]);
        }
        lemma_voice_run(w, rest, rest_voice);
    }
}

/// Speech end: after `k` consecutive non-empty silent frames the silence run
/// has grown by `k`, and speech is still active exactly when it was and the
/// run is still below the silence threshold. An inactive detector collects
/// nothing from silence.
pub proof fn lemma_silence_run<S>(v: VadView<S>, frames: Seq<Seq<S>>, voice: Seq<bool>)
    requires
        v.wf(),
        frames.len() == voice.len(),
        forall|i: int| 0 <= i < frames.len() ==> #[trigger] frames[i].len() > 0,
        forall|i: int| 0 <= i < voice.len() ==> !#[trigger] voice[i],
    ensures
        vad_feed(v, frames, voice).silence_frames == v.silence_frames + frames.len(),
        vad_feed(v, frames, voice).active == (v.active && v.silence_frames + frames.len()
            < VAD_SILENCE_FRAMES_THRESHOLD),
        !v.active ==> vad_feed(v, frames, voice).samples == v.samples,
    decreases frames.len(),
{
    if frames.len() > 0 {
        assert(frames[0].len() > 0);
        assert(!voice[0]);
        let w = vad_step(v, frames[0], voice[0]);
        let rest = frames.drop_first();
        let rest_voice = voice.drop_first();
        assert forall|i: int| 0 <= i < rest.len() implies #[trigger] rest[i].len() > 0 by {
            assert(rest[i] == frames[i + 1]);
        }
        assert forall|i: int| 0 <= i < rest_voice.len() implies !#[trigger] rest_voice[i] by {
            assert(rest_voice[i] == voice[i + 1]);
        }
        lemma_silence_run(w, rest, rest_voice);
    }
}

/// Samples are collected only during speech: a frame is appended exactly when
/// speech was active before it or begins with it, and nothing else changes
/// the collected samples.
pub proof fn lemma_samples_follow_speech<S>(v: VadView<S>, frame: Seq<S>, is_voice: bool)
    ensures
        vad_step(v, frame, is_voice).samples == (if frame.len() > 0 && (v.active
            || vad_step(v, frame, is_voice).active) {
            v.samples + frame
        } else {
            v.samples
        }),
{
}

/// Length of the run of `b` at the end of `flags`.
pub open spec fn trailing_run(flags: Seq<bool>, b: bool) -> nat
    decreases flags.len(),
{
    if flags.len() == 0 || flags.last() != b {
        0
    } else {
        trailing_run(flags.drop_last(), b) + 1
    }
}

/// Whether every frame in `frames` is non-empty.
pub open spec fn all_non_empty<S>(frames: Seq<Seq<S>>) -> bool {
    forall|i: int| 0 <= i < frames.len() ==> #[trigger] frames[i].len() > 0
}

/// Feeding one more frame after a sequence of frames is one more step.
proof fn lemma_feed_push<S>(v: VadView<S>, frames: Seq<Seq<S>>, voice: Seq<bool>, frame: Seq<S>, is_voice: bool)
    requires
        frames.len() == voice.len(),
    ensures
        vad_feed(v, frames.push(frame), voice.push(is_voice)) == vad_step(vad_feed(v, frames, voice), frame, is_voice),
    decreases frames.len(),
{
    if frames.len() == 0 {
        assert(frames.push(frame).drop_first() =~= Seq::<Seq<S>>::empty());
        assert(voice.push(is_voice).drop_first() =~= Seq::<bool>::empty());
        assert(frames.push(frame)[0] == frame);
        assert(voice.push(is_voice)[0] == is_voice);
        assert(vad_feed(vad_step(v, frame, is_voice), Seq::<Seq<S>>::empty(), Seq::<bool>::empty()) == vad_step(v, frame, is_voice));
    } else {
        assert(frames.push(frame)[0] == frames[0]);
        assert(voice.push(is_voice)[0] == voice[0]);
        assert(frames.push(frame).drop_first() =~= frames.drop_first().push(frame));
        assert(voice.push(is_voice).drop_first() =~= voice.drop_first().push(is_voice));
        lemma_feed_push(vad_step(v, frames[0], voice[0]), frames.drop_first(), voice.drop_first(), frame, is_voice);
    }
}

/// Since a reset, the detector's voice run and silence run are exactly the
/// trailing runs of voice frames and of silent frames among the non-empty
/// frames fed to it.
pub proof fn lemma_runs_since_reset<S>(frames: Seq<Seq<S>>, voice: Seq<bool>)
    requires
        frames.len() == voice.len(),
        all_non_empty(frames),
    ensures
        vad_feed(VadView::<S>::initial(), frames, voice).speech_frames == trailing_run(voice, true),
        vad_feed(VadView::<S>::initial(), frames, voice).silence_frames == trailing_run(voice, false),
        vad_feed(VadView::<S>::initial(), frames, voice).wf(),
    decreases frames.len(),
{
    if frames.len() > 0 {
        let f = frames.drop_last();
        let c = voice.drop_last();
        assert(frames =~= f.push(frames.last()));
        assert(voice =~= c.push(voice.last()));
        assert(frames[frames.len() - 1].len() > 0);
        assert forall|i: int| 0 <= i < f.len() implies #[trigger] f[i].len() > 0 by {
            assert(f[i] == frames[i]);
        }
        lemma_runs_since_reset(f, c);
        lemma_feed_push(VadView::<S>::initial(), f, c, frames.last(), voice.last());
    }
}

/// Whether the last `n` flags are all `b` (and there are at least `n`).
pub open spec fn ends_with_run(flags: Seq<bool>, b: bool, n: nat) -> bool {
    &&& n <= flags.len()
    &&& forall|j: int| flags.len() - n <= j < flags.len() ==> #[trigger] flags[j] == b
}

/// A trailing run is at least `n` long exactly when the last `n` flags agree.
pub proof fn lemma_trailing_run_at_least(flags: Seq<bool>, b: bool, n: nat)
    ensures
        (trailing_run(flags, b) >= n) == ends_with_run(flags, b, n),
    decreases flags.len(),
{
    if n == 0 {
    } else if flags.len() == 0 {
    } else if flags.last() != b {
        if ends_with_run(flags, b, n) {
            assert(flags[flags.len() - 1] == b);
        }
    } else {
        let d = flags.drop_last();
        lemma_trailing_run_at_least(d, b, (n - 1) as nat);
        if ends_with_run(flags, b, n) {
            assert forall|j: int| d.len() - (n - 1) <= j < d.len() implies #[trigger] d[j] == b by {
                assert(d[j] == flags[j]);
            }
        }
        if trailing_run(flags, b) >= n {
            assert forall|j: int| flags.len() - n <= j < flags.len() implies #[trigger] flags[j] == b by {
                if j < flags.len() - 1 {
                    assert(d[j] == flags[j]);
                }
            }
        }
    }
}

/// What the detector reports after the `k`-th non-empty frame since a reset:
/// when speech was not active before it, whether the last three frames (this
/// one included) were all voice; when speech was active, whether the last
/// fifteen frames were not all silent.
pub proof fn lemma_activity_from_history<S>(frames: Seq<Seq<S>>, voice: Seq<bool>)
    requires
        frames.len() == voice.len(),
        frames.len() >= 1,
        all_non_empty(frames),
    ensures
        ({
            let was = vad_feed(VadView::<S>::initial(), frames.drop_last(), voice.drop_last()).active;
            let now = vad_feed(VadView::<S>::initial(), frames, voice).active;
            now == if !was {
                ends_with_run(voice, true, VAD_SPEECH_FRAMES_THRESHOLD as nat)
            } else {
                !ends_with_run(voice, false, VAD_SILENCE_FRAMES_THRESHOLD as nat)
            }
        }),
{
    let f = frames.drop_last();
    let c = voice.drop_last();
    assert(frames =~= f.push(frames.last()));
    assert(voice =~= c.push(voice.last()));
    assert(frames[frames.len() - 1].len() > 0);
    assert forall|i: int| 0 <= i < f.len() implies #[trigger] f[i].len() > 0 by {
        assert(f[i] == frames[i]);
    }
    lemma_runs_since_reset(f, c);
    lemma_feed_push(VadView::<S>::initial(), f, c, frames.last(), voice.last());
    lemma_trailing_run_at_least(voice, true, VAD_SPEECH_FRAMES_THRESHOLD as nat);
    lemma_trailing_run_at_least(voice, false, VAD_SILENCE_FRAMES_THRESHOLD as nat);
    assert(voice.drop_last() == c);
}

/// What the capture loop does with the detector after a frame.
#[derive(Debug, Clone, Copy, PartialEq, Eq)]
pub enum SegmentOutcome {
    /// No finished speech segment yet: keep listening.
    Listening,
    /// A speech segment long enough to keep has finished: its samples are the result.
    Complete,
    /// A speech segment finished but was too short: it was discarded.
    Discarded,
}

/// Voice-activity detector over frames whose voice/silence classification is given.
pub struct SileroVad<S> {
    speech_frame_count: usize,
    silence_frame_count: usize,
    is_speech_active: bool,
    speech_start_time: Option<Instant>,
    speech_end_time: Option<Instant>,
    speech_samples: Vec<S>,
    collected_frames: Ghost<nat>,
}

impl<S> View for SileroVad<S> {
    type V = VadView<S>;

    closed spec fn view(&self) -> VadView<S> {
        VadView {
            speech_frames: self.speech_frame_count as nat,
            silence_frames: self.silence_frame_count as nat,
            active: self.is_speech_active,
            started: self.speech_start_time is Some,
            ended: self.speech_end_time is Some,
            samples: self.speech_samples@,
            collected_frames: self.collected_frames@,
        }
    }
}

/// Appends `frame` to `samples`.
fn append_frame<S: Copy>(samples: &mut Vec<S>, frame: &[S])
    ensures
        final(samples)@ == old(samples)@ + frame@,
{
    let ghost start = samples@;
    let mut i: usize = 0;
    while i < frame.len()
        invariant
            i <= frame@.len(),
            samples@ == start + frame@.subrange(0, i as int),
        decreases frame@.len() - i,
    {
        samples.push(frame[i]);
        i = i + 1;
        assert(samples@ == start + frame@.subrange(0, i as int));
    }
    assert(frame@.subrange(0, frame@.len() as int) == frame@);
}

impl<S> SileroVad<S> {
    /// Every detector is well-formed.
    #[verifier::type_invariant]
    spec fn vad_inv(self) -> bool {
        self@.wf()
    }

    /// Recorded onset time of the latest speech segment.
    pub closed spec fn start_time(&self) -> Option<Instant> {
        self.speech_start_time
    }

    /// Recorded end time of the latest finished speech segment.
    pub closed spec fn end_time(&self) -> Option<Instant> {
        self.speech_end_time
    }

    /// A detector with no history.
    pub fn new() -> (vad: Self)
        ensures
            vad@ == VadView::<S>::initial(),
            vad@.wf(),
    {
        SileroVad {
            speech_frame_count: 0,
            silence_frame_count: 0,
            is_speech_active: false,
            speech_start_time: None,
            speech_end_time: None,
            speech_samples: Vec::with_capacity(TARGET_SAMPLE_RATE * MAX_RECORDING_SECONDS),
            collected_frames: Ghost(0),
        }
    }

    /// A detector with no history and no reserved sample storage.
    fn blank() -> (vad: Self)
        ensures
            vad@ == VadView::<S>::initial(),
    {
        SileroVad {
            speech_frame_count: 0,
            silence_frame_count: 0,
            is_speech_active: false,
            speech_start_time: None,
            speech_end_time: None,
            speech_samples: Vec::new(),
            collected_frames: Ghost(0),
        }
    }

    /// Feeds one frame, classified as voice or silence by `is_voice`, and
    /// returns whether speech is active afterwards, reading the clock for the
    /// onset and end times. See [`SileroVad::process_frame_at`], which this
    /// calls with the clock reading; the reading depends on the clock, so of
    /// the timestamps only their presence is stated here.
    pub fn process_frame(&mut self, frame: &[S], is_voice: bool) -> (active: bool)
        where S: Copy
        requires
            frame@.len() > 0 && is_voice ==> old(self)@.speech_frames < usize::MAX,
            frame@.len() > 0 && !is_voice ==> old(self)@.silence_frames < usize::MAX,
        ensures
            final(self)@ == vad_step(old(self)@, frame@, is_voice),
            final(self)@.wf(),
            active == final(self)@.active,
            final(self)@.samples == (if old(self)@.active || active {
                old(self)@.samples + frame@
            } else {
                old(self)@.samples
            }),
            active && !old(self)@.active ==> final(self).start_time() is Some && final(self).end_time() is None,
            !(active && !old(self)@.active) ==> final(self).start_time() == old(self).start_time(),
            old(self)@.active && !active ==> final(self).end_time() is Some,
            !(active && !old(self)@.active) && !(old(self)@.active && !active) ==> final(self).end_time()
                == old(self).end_time(),
    {
        let now = clock_now();
        self.process_frame_at(frame, is_voice, now)
    }

    /// Feeds one frame, classified as voice or silence by `is_voice`, at the
    /// time `now`, and returns whether speech is active afterwards. An empty
    /// frame changes nothing. When speech starts, `now` becomes the onset time
    /// and the end time of any earlier segment is cleared; when it stops,
    /// `now` becomes the end time; otherwise both are kept. The frame is
    /// appended to the samples exactly when speech is active before or after it.
    pub fn process_frame_at(&mut self, frame: &[S], is_voice: bool, now: Instant) -> (active: bool)
        where S: Copy
        requires
            frame@.len() > 0 && is_voice ==> old(self)@.speech_frames < usize::MAX,
            frame@.len() > 0 && !is_voice ==> old(self)@.silence_frames < usize::MAX,
        ensures
            final(self)@ == vad_step(old(self)@, frame@, is_voice),
            final(self)@.wf(),
            active == final(self)@.active,
            final(self)@.samples == (if old(self)@.active || active {
                old(self)@.samples + frame@
            } else {
                old(self)@.samples
            }),
            active && !old(self)@.active ==> final(self).start_time() == Some(now)
                && final(self).end_time() is None,
            !(active && !old(self)@.active) ==> final(self).start_time() == old(self).start_time(),
            old(self)@.active && !active ==> final(self).end_time() == Some(now),
            !(active && !old(self)@.active) && !(old(self)@.active && !active) ==> final(self).end_time()
                == old(self).end_time(),
    {
        proof {
            use_type_invariant(&*self);
        }
        if frame.len() == 0 {
            return self.is_speech_active;
        }
        let mut taken = Self::blank();
        std::mem::swap(&mut taken, self);
        let SileroVad {
            speech_frame_count: mut speech,
            silence_frame_count: mut silence,
            is_speech_active: mut active,
            speech_start_time: mut start,
            speech_end_time: mut end,
            speech_samples: mut samples,
            collected_frames: Ghost(collected),
        } = taken;
        let ghost mut collected = collected;
        if is_voice {
            speech = speech + 1;
            silence = 0;
            if !active {
                if speech >= VAD_SPEECH_FRAMES_THRESHOLD {
                    active = true;
                    start = Some(now);
                    end = None;
                }
            }
            if active {
                append_frame(&mut samples, frame);
                proof {
                    collected = collected + 1;
                }
            }
        } else {
            silence = silence + 1;
            speech = 0;
            if active {
                append_frame(&mut samples, frame);
                proof {
                    collected = collected + 1;
                }
                if silence >= VAD_SILENCE_FRAMES_THRESHOLD {
                    active = false;
                    end = Some(now);
                }
            }
        }
        *self = SileroVad {
            speech_frame_count: speech,
            silence_frame_count: silence,
            is_speech_active: active,
            speech_start_time: start,
            speech_end_time: end,
            speech_samples: samples,
            collected_frames: Ghost(collected),
        };
        active
    }

    /// Whether a speech segment is in progress.
    pub fn is_speech_active(&self) -> (active: bool)
        ensures
            active == self@.active,
    {
        self.is_speech_active
    }

    /// Length of the current run of voice frames.
    pub fn speech_frame_count(&self) -> (n: usize)
        ensures
            n == self@.speech_frames,
    {
        self.speech_frame_count
    }

    /// Length of the current run of silent frames.
    pub fn silence_frame_count(&self) -> (n: usize)
        ensures
            n == self@.silence_frames,
    {
        self.silence_frame_count
    }

    /// The samples collected so far.
    pub fn get_samples(&self) -> (samples: &[S])
        ensures
            samples@ == self@.samples,
    {
        self.speech_samples.as_slice()
    }

    /// Onset time of the latest speech segment, if any.
    pub fn speech_start_time(&self) -> (t: Option<Instant>)
        ensures
            t == self.start_time(),
            t is Some <==> self@.started,
    {
        match &self.speech_start_time {
            Some(t) => Some(*t),
            None => None,
        }
    }

    /// End time of the latest finished speech segment, if any.
    pub fn speech_end_time(&self) -> (t: Option<Instant>)
        ensures
            t == self.end_time(),
            t is Some <==> self@.ended,
    {
        match &self.speech_end_time {
            Some(t) => Some(*t),
            None => None,
        }
    }

    /// Decides what becomes of a finished speech segment. A segment has
    /// finished when speech is not active and samples were collected; it is
    /// kept when `long_enough` (its duration reached the minimum recording
    /// time), and otherwise discarded by resetting the detector. A kept
    /// segment holds at least its onset frame and the silent frames that
    /// ended it.
    pub fn settle_segment(&mut self, long_enough: bool) -> (outcome: SegmentOutcome)
        ensures
            final(self)@.wf(),
            (old(self)@.active || old(self)@.samples.len() == 0) ==> outcome == SegmentOutcome::Listening
                && final(self)@ == old(self)@,
            !old(self)@.active && old(self)@.samples.len() > 0 && long_enough ==> outcome
                == SegmentOutcome::Complete && final(self)@ == old(self)@,
            !old(self)@.active && old(self)@.samples.len() > 0 && !long_enough ==> outcome
                == SegmentOutcome::Discarded && final(self)@ == VadView::<S>::initial(),
            outcome == SegmentOutcome::Complete ==> final(self)@.ended && final(self)@.collected_frames
                >= VAD_SILENCE_FRAMES_THRESHOLD + 1,
    {
        proof {
            use_type_invariant(&*self);
        }
        if self.is_speech_active || self.speech_samples.len() == 0 {
            SegmentOutcome::Listening
        } else if long_enough {
            SegmentOutcome::Complete
        } else {
            self.reset();
            SegmentOutcome::Discarded
        }
    }

    /// Forgets all history, counters, timestamps and samples.
    pub fn reset(&mut self)
        ensures
            final(self)@ == VadView::<S>::initial(),
            final(self)@.wf(),
    {
        proof {
            use_type_invariant(&*self);
        }
        let mut taken = Self::blank();
        std::mem::swap(&mut taken, self);
        let SileroVad { speech_samples: mut samples, .. } = taken;
        samples.clear();
        *self = SileroVad {
            speech_frame_count: 0,
            silence_frame_count: 0,
            is_speech_active: false,
            speech_start_time: None,
            speech_end_time: None,
            speech_samples: samples,
            collected_frames: Ghost(0),
        };
    }
}

} // verus!
