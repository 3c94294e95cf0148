//! The segmenter: turns a continuous stream of PCM samples into discrete
//! utterance-length segments.
//!
//! Two interchangeable algorithms are provided.  [`VadSegmenter`] follows an
//! external speech-probability score over fixed-size analysis frames with a
//! hysteresis state machine (pre-speech ring buffer, trailing-silence
//! timeout, force-flush ceiling).  [`ChunkSegmenter`] cuts the stream into
//! fixed-duration chunks and keeps only those whose energy clears a silence
//! floor.  [`Segmenter`] holds both behind the configured mode.
//!
//! A zero-length segment is the reserved sentinel: it is emitted exactly
//! once, at the end of every flush, and means the stage has drained.

use vstd::prelude::*;

use crate::config::{
    CHUNK_MIN_FLUSH_SAMPLES, VAD_FRAME_SIZE, VAD_MAX_SPEECH_SAMPLES, VAD_MIN_SPEECH_SAMPLES,
    VAD_POST_SPEECH_SAMPLES, VAD_PRE_SPEECH_SAMPLES,
};

verus! {

/// Commands the coordinator sends to the segmentation stage.
#[derive(Debug)]
pub enum VadCommand {
    Flush,
    ReloadModel,
    ReloadConfig,
}

/// Where the voice-activity state machine currently stands.
#[derive(Debug, Clone, Copy, PartialEq, Eq, Structural)]
pub enum VadState {
    Silence,
    Speech,
}

/// The view of a bounded ring buffer after appending `frame`: the last
/// `cap` samples of `ring + frame`, oldest evicted first.
pub open spec fn ring_append(ring: Seq<i16>, frame: Seq<i16>, cap: int) -> Seq<i16> {
    let total = ring + frame;
    if total.len() <= cap {
        total
    } else {
        total.skip(total.len() - cap)
    }
}

proof fn lemma_ring_append_step(ring: Seq<i16>, frame: Seq<i16>, cap: int, i: int)
    requires
        0 < cap,
        0 <= i < frame.len(),
        ring.len() <= cap,
    ensures
        ring_append(ring, frame.take(i), cap).len() < cap ==> ring_append(
            ring,
            frame.take(i + 1),
            cap,
        ) =~= ring_append(ring, frame.take(i), cap).push(frame[i]),
        ring_append(ring, frame.take(i), cap).len() >= cap ==> ring_append(
            ring,
            frame.take(i + 1),
            cap,
        ) =~= ring_append(ring, frame.take(i), cap).skip(1).push(frame[i]),
{
    assert(frame.take(i + 1) =~= frame.take(i).push(frame[i]));
}

/// Emission policy shared by every voice-activity exit path: a segment
/// shorter than the minimum-speech floor is discarded as noise, and the
/// accumulation buffer is cleared either way.
pub fn send_speech(speech_buffer: &mut Vec<i16>) -> (segment: Option<Vec<i16>>)
    ensures
        final(speech_buffer)@.len() == 0,
        (segment is Some) <==> old(speech_buffer)@.len() >= VAD_MIN_SPEECH_SAMPLES,
        segment matches Some(s) ==> s@ == old(speech_buffer)@,
{
    if speech_buffer.len() < VAD_MIN_SPEECH_SAMPLES {
        speech_buffer.clear();
        None
    } else {
        let mut taken: Vec<i16> = Vec::new();
        core::mem::swap(speech_buffer, &mut taken);
        Some(taken)
    }
}

/// Voice-activity segmentation state.
///
/// Incoming samples are buffered in `pending` and re-chunked into analysis
/// frames of [`VAD_FRAME_SIZE`] samples; each frame is scored outside this
/// crate and handed to [`VadSegmenter::process_frame`] together with its
/// speech/silence verdict.
pub struct VadSegmenter {
    /// Samples awaiting re-chunking into analysis frames.
    pub pending: Vec<i16>,
    /// Speech or silence.
    pub state: VadState,
    /// Ring buffer of the most recent silence, seeded into a new utterance.
    pub pre_speech: Vec<i16>,
    /// The utterance being accumulated; meaningful only in `Speech`.
    pub speech_buffer: Vec<i16>,
    /// Trailing silence seen since the last speech frame, in samples.
    pub silence_count: usize,
}

impl VadSegmenter {
    /// Invariant kept by every method.
    pub open spec fn wf(self) -> bool {
        &&& self.pre_speech@.len() <= VAD_PRE_SPEECH_SAMPLES
        &&& self.silence_count < VAD_POST_SPEECH_SAMPLES
        &&& self.speech_buffer@.len() < VAD_MAX_SPEECH_SAMPLES
        &&& (self.state is Silence ==> self.speech_buffer@.len() == 0 && self.silence_count == 0)
        &&& (self.state is Speech ==> self.pre_speech@.len() == 0)
    }

    /// A segmenter with no buffered audio, listening for an onset.
    pub open spec fn is_reset(self) -> bool {
        &&& self.pending@.len() == 0
        &&& self.state is Silence
        &&& self.pre_speech@.len() == 0
        &&& self.speech_buffer@.len() == 0
        &&& self.silence_count == 0
    }

    pub fn new() -> (s: Self)
        ensures
            s.wf(),
            s.is_reset(),
    {
        VadSegmenter {
            pending: Vec::new(),
            state: VadState::Silence,
            pre_speech: Vec::new(),
            speech_buffer: Vec::new(),
            silence_count: 0,
        }
    }

    /// Buffer raw capture samples until full analysis frames are available.
    pub fn push_samples(&mut self, samples: &Vec<i16>)
        requires
            old(self).wf(),
        ensures
            final(self).wf(),
            final(self).pending@ == old(self).pending@ + samples@,
            final(self).state == old(self).state,
            final(self).pre_speech@ == old(self).pre_speech@,
            final(self).speech_buffer@ == old(self).speech_buffer@,
            final(self).silence_count == old(self).silence_count,
    {
        let n = samples.len();
        let mut i: usize = 0;
        while i < n
            invariant
                n == samples@.len(),
                0 <= i <= n,
                self.pending@ == old(self).pending@ + samples@.take(i as int),
                self.state == old(self).state,
                self.pre_speech@ == old(self).pre_speech@,
                self.speech_buffer@ == old(self).speech_buffer@,
                self.silence_count == old(self).silence_count,
            decreases n - i,
        {
            self.pending.push(samples[i]);
            proof {
                assert(samples@.take(i + 1) =~= samples@.take(i as int).push(samples@[i as int]));
                assert(self.pending@ =~= old(self).pending@ + samples@.take(i + 1));
            }
            i = i + 1;
        }
        proof {
            assert(samples@.take(n as int) =~= samples@);
        }
    }

    /// Take the next full analysis frame out of the pending buffer, if one
    /// is available.
    pub fn pop_frame(&mut self) -> (frame: Option<Vec<i16>>)
        requires
            old(self).wf(),
        ensures
            final(self).wf(),
            (frame is Some) <==> old(self).pending@.len() >= VAD_FRAME_SIZE,
            frame matches Some(f) ==> {
                &&& f@ == old(self).pending@.take(VAD_FRAME_SIZE as int)
                &&& final(self).pending@ == old(self).pending@.skip(VAD_FRAME_SIZE as int)
            },
            frame is None ==> final(self).pending@ == old(self).pending@,
            final(self).state == old(self).state,
            final(self).pre_speech@ == old(self).pre_speech@,
            final(self).speech_buffer@ == old(self).speech_buffer@,
            final(self).silence_count == old(self).silence_count,
    {
        if self.pending.len() >= VAD_FRAME_SIZE {
            let mut tail = self.pending.split_off(VAD_FRAME_SIZE);
            core::mem::swap(&mut self.pending, &mut tail);
            Some(tail)
        } else {
            None
        }
    }
}

/// What one scored analysis frame produced: at most one completed segment,
/// and whether the scoring model's own state should be reset (it is, each
/// time an utterance ends on trailing silence, so that hysteresis does not
/// leak across utterances).
pub struct FrameOutcome {
    pub segment: Option<Vec<i16>>,
    pub reset_model: bool,
}

impl VadSegmenter {
    /// Advance the speech/silence state machine by one scored analysis
    /// frame, emitting a segment when an utterance completes.
    ///
    /// In `Silence`, every frame is remembered in the pre-speech ring; a
    /// speech verdict seeds the utterance with the ring contents followed
    /// by the frame itself.  In `Speech`, every frame is accumulated;
    /// reaching the force-flush ceiling emits immediately and stays in
    /// `Speech`, while enough trailing silence emits through the
    /// minimum-length policy and returns to `Silence`.
    pub fn process_frame(&mut self, frame: &Vec<i16>, is_speech: bool) -> (out: FrameOutcome)
        requires
            old(self).wf(),
            frame@.len() == VAD_FRAME_SIZE,
        ensures
            final(self).wf(),
            final(self).pending@ == old(self).pending@,
            // Silence, frame scored silent: keep padding, stay silent.
            (old(self).state is Silence && !is_speech) ==> {
                &&& final(self).state is Silence
                &&& final(self).pre_speech@ == ring_append(
                    old(self).pre_speech@,
                    frame@,
                    VAD_PRE_SPEECH_SAMPLES as int,
                )
                &&& final(self).speech_buffer@.len() == 0
                &&& final(self).silence_count == 0
                &&& out.segment is None
                &&& !out.reset_model
            },
            // Onset: the utterance opens with the full ring contents, in
            // order, immediately followed by the triggering frame.
            (old(self).state is Silence && is_speech) ==> {
                &&& final(self).state is Speech
                &&& final(self).speech_buffer@ == ring_append(
                    old(self).pre_speech@,
                    frame@,
                    VAD_PRE_SPEECH_SAMPLES as int,
                ) + frame@
                &&& final(self).pre_speech@.len() == 0
                &&& final(self).silence_count == 0
                &&& out.segment is None
                &&& !out.reset_model
            },
            // Ceiling reached: force-emit exactly the accumulated samples,
            // without waiting for silence, and remain in `Speech`.
            (old(self).state is Speech && old(self).speech_buffer@.len() + frame@.len()
                >= VAD_MAX_SPEECH_SAMPLES) ==> {
                &&& final(self).state is Speech
                &&& out.segment matches Some(s) && s@ == old(self).speech_buffer@ + frame@
                &&& final(self).speech_buffer@.len() == 0
                &&& final(self).silence_count == 0
                &&& !out.reset_model
            },
            // Trailing silence passed the post-speech threshold: the
            // utterance is over; emit it through the minimum-length policy
            // and reset the scoring model.
            (old(self).state is Speech && old(self).speech_buffer@.len() + frame@.len()
                < VAD_MAX_SPEECH_SAMPLES && !is_speech && old(self).silence_count + VAD_FRAME_SIZE
                >= VAD_POST_SPEECH_SAMPLES) ==> {
                &&& final(self).state is Silence
                &&& ((out.segment is Some) <==> old(self).speech_buffer@.len() + frame@.len()
                    >= VAD_MIN_SPEECH_SAMPLES)
                &&& (out.segment matches Some(s) ==> s@ == old(self).speech_buffer@ + frame@)
                &&& final(self).speech_buffer@.len() == 0
                &&& final(self).silence_count == 0
                &&& out.reset_model
            },
            // Mid-utterance: keep accumulating.
            (old(self).state is Speech && old(self).speech_buffer@.len() + frame@.len()
                < VAD_MAX_SPEECH_SAMPLES && (is_speech || old(self).silence_count + VAD_FRAME_SIZE
                < VAD_POST_SPEECH_SAMPLES)) ==> {
                &&& final(self).state is Speech
                &&& final(self).speech_buffer@ == old(self).speech_buffer@ + frame@
                &&& final(self).silence_count == (if is_speech {
                    0
                } else {
                    old(self).silence_count + VAD_FRAME_SIZE
                })
                &&& out.segment is None
                &&& !out.reset_model
            },
    {
        match self.state {
            VadState::Silence => {
                ring_push(&mut self.pre_speech, frame, VAD_PRE_SPEECH_SAMPLES);
                if is_speech {
                    self.speech_buffer.clear();
                    core::mem::swap(&mut self.speech_buffer, &mut self.pre_speech);
                    append_samples(&mut self.speech_buffer, frame);
                    self.silence_count = 0;
                    self.state = VadState::Speech;
                }
                FrameOutcome { segment: None, reset_model: false }
            },
            VadState::Speech => {
                append_samples(&mut self.speech_buffer, frame);
                if is_speech {
                    self.silence_count = 0;
                } else {
                    self.silence_count = self.silence_count + VAD_FRAME_SIZE;
                }
                if self.speech_buffer.len() >= VAD_MAX_SPEECH_SAMPLES {
                    let segment = send_speech(&mut self.speech_buffer);
                    self.silence_count = 0;
                    FrameOutcome { segment, reset_model: false }
                } else if self.silence_count >= VAD_POST_SPEECH_SAMPLES {
                    let segment = send_speech(&mut self.speech_buffer);
                    self.silence_count = 0;
                    self.state = VadState::Silence;
                    FrameOutcome { segment, reset_model: true }
                } else {
                    FrameOutcome { segment: None, reset_model: false }
                }
            },
        }
    }

    /// Flush at session stop: emit any in-progress utterance through the
    /// minimum-length policy, reset all segmentation state, and conclude
    /// with exactly one sentinel (the empty segment).
    pub fn flush(&mut self) -> (out: Vec<Vec<i16>>)
        requires
            old(self).wf(),
        ensures
            final(self).wf(),
            final(self).is_reset(),
            old(self).speech_buffer@.len() >= VAD_MIN_SPEECH_SAMPLES ==> {
                &&& out@.len() == 2
                &&& out@[0]@ == old(self).speech_buffer@
                &&& out@[1]@.len() == 0
            },
            old(self).speech_buffer@.len() < VAD_MIN_SPEECH_SAMPLES ==> {
                &&& out@.len() == 1
                &&& out@[0]@.len() == 0
            },
    {
        let segment = send_speech(&mut self.speech_buffer);
        self.pending.clear();
        self.pre_speech.clear();
        self.silence_count = 0;
        self.state = VadState::Silence;
        let mut out: Vec<Vec<i16>> = Vec::new();
        match segment {
            Some(s) => out.push(s),
            None => (),
        }
        out.push(Vec::new());
        out
    }
}

/// Sum of squared sample values: the energy of a span of audio.
pub open spec fn sum_squares(s: Seq<i16>) -> int
    decreases s.len(),
{
    if s.len() == 0 {
        0
    } else {
        sum_squares(s.drop_last()) + s.last() * s.last()
    }
}

/// A span of audio counts as silence when its RMS level is below 1% of
/// full scale, i.e. `sqrt(energy / len) < 32767 / 100`, compared here
/// without division or roots.
pub open spec fn is_silent(s: Seq<i16>) -> bool {
    sum_squares(s) * 10000 < s.len() * 32767 * 32767
}

proof fn lemma_sum_squares_bounds(s: Seq<i16>)
    ensures
        0 <= sum_squares(s) <= s.len() * 32768 * 32768,
    decreases s.len(),
{
    if s.len() > 0 {
        lemma_sum_squares_bounds(s.drop_last());
        assert(0 <= s.last() * s.last() <= 32768 * 32768) by (nonlinear_arith)
            requires
                -32768 <= s.last() <= 32767,
        ;
        assert((s.len() - 1) * 32768 * 32768 + 32768 * 32768 == s.len() * 32768 * 32768)
            by (nonlinear_arith);
    }
}

proof fn lemma_sum_squares_take_step(s: Seq<i16>, i: int)
    requires
        0 <= i < s.len(),
    ensures
        sum_squares(s.take(i + 1)) == sum_squares(s.take(i)) + s[i] * s[i],
{
    assert(s.take(i + 1).drop_last() =~= s.take(i));
    assert(s.take(i + 1).last() == s[i]);
}

/// Decide [`is_silent`] for a span of audio.
pub fn measure_silent(s: &Vec<i16>) -> (r: bool)
    ensures
        r == is_silent(s@),
{
    let n = s.len();
    let mut energy: u128 = 0;
    let mut i: usize = 0;
    while i < n
        invariant
            n == s@.len(),
            0 <= i <= n,
            energy == sum_squares(s@.take(i as int)),
            energy <= (i as int) * 32768 * 32768,
        decreases n - i,
    {
        proof {
            lemma_sum_squares_take_step(s@, i as int);
            assert(0 <= (s@[i as int] as int) * (s@[i as int] as int) <= 32768 * 32768)
                by (nonlinear_arith)
                requires
                    -32768 <= s@[i as int] <= 32767,
            ;
            assert((i as int) * 32768 * 32768 + 32768 * 32768 == (i + 1) * 32768 * 32768)
                by (nonlinear_arith);
            assert((i + 1) * 32768 * 32768 <= 0x1_0000_0000_0000_0000i128 * 32768 * 32768)
                by (nonlinear_arith)
                requires
                    i + 1 <= 0x1_0000_0000_0000_0000i128,
            ;
        }
        let sample = s[i];
        let sq: i64 = (sample as i64) * (sample as i64);
        energy = energy + (sq as u128);
        i = i + 1;
    }
    proof {
        assert(s@.take(n as int) =~= s@);
        lemma_sum_squares_bounds(s@);
        assert(sum_squares(s@) * 10000 <= ((n as int) * 32768 * 32768) * 10000)
            by (nonlinear_arith)
            requires
                0 <= sum_squares(s@) <= (n as int) * 32768 * 32768,
        ;
        assert(((n as int) * 32768 * 32768) * 10000 < 0x1_0000_0000_0000_0000i128 * 32768 * 32768
            * 10000) by (nonlinear_arith)
            requires
                (n as int) < 0x1_0000_0000_0000_0000i128,
        ;
        assert((n as int) * 32767 * 32767 <= (n as int) * 32768 * 32768) by (nonlinear_arith)
            requires
                0 <= n as int,
        ;
    }
    let lhs: u128 = energy * 10000;
    let rhs: u128 = (n as u128) * 32767 * 32767;
    lhs < rhs
}

/// The views of a sequence of segments.
pub open spec fn seg_views(segs: Seq<Vec<i16>>) -> Seq<Seq<i16>> {
    segs.map(|i: int, v: Vec<i16>| v@)
}

proof fn lemma_seg_views_push(segs: Seq<Vec<i16>>, v: Vec<i16>)
    ensures
        seg_views(segs.push(v)) =~= seg_views(segs).push(v@),
{
}

/// The chunks a fixed-chunk segmenter emits from `total`: consecutive
/// spans of `n` samples, front first, with silent ones dropped.
pub open spec fn chunk_emits(total: Seq<i16>, n: int) -> Seq<Seq<i16>>
    decreases total.len(),
    when n >= 1
{
    if total.len() < n {
        Seq::empty()
    } else if is_silent(total.take(n)) {
        chunk_emits(total.skip(n), n)
    } else {
        seq![total.take(n)] + chunk_emits(total.skip(n), n)
    }
}

/// What remains buffered after cutting every full chunk of `n` samples.
pub open spec fn chunk_rest(total: Seq<i16>, n: int) -> Seq<i16>
    decreases total.len(),
    when n >= 1
{
    if total.len() < n {
        total
    } else {
        chunk_rest(total.skip(n), n)
    }
}

/// Fixed-chunk segmentation state: raw samples accumulate until one
/// configured chunk length is reached, and each full chunk is kept or
/// dropped by its RMS energy alone.
pub struct ChunkSegmenter {
    /// Samples not yet forming a full chunk.
    pub buffer: Vec<i16>,
    /// Configured chunk length in samples; at least one.
    pub chunk_samples: usize,
}

impl ChunkSegmenter {
    /// Invariant kept by every method.
    pub open spec fn wf(self) -> bool {
        &&& 1 <= self.chunk_samples
        &&& self.buffer@.len() < self.chunk_samples
    }

    pub fn new(chunk_samples: usize) -> (s: Self)
        requires
            chunk_samples >= 1,
        ensures
            s.wf(),
            s.buffer@.len() == 0,
            s.chunk_samples == chunk_samples,
    {
        ChunkSegmenter { buffer: Vec::new(), chunk_samples }
    }

    /// Consume one capture buffer: cut off every full chunk, keep those at
    /// or above the silence threshold unchanged in sample content, and
    /// drop the rest.
    pub fn consume(&mut self, samples: &Vec<i16>) -> (emitted: Vec<Vec<i16>>)
        requires
            old(self).wf(),
        ensures
            final(self).wf(),
            final(self).chunk_samples == old(self).chunk_samples,
            seg_views(emitted@) == chunk_emits(
                old(self).buffer@ + samples@,
                old(self).chunk_samples as int,
            ),
            final(self).buffer@ == chunk_rest(
                old(self).buffer@ + samples@,
                old(self).chunk_samples as int,
            ),
    {
        append_samples(&mut self.buffer, samples);
        let ghost total = old(self).buffer@ + samples@;
        let ghost n_spec = old(self).chunk_samples as int;
        let mut emitted: Vec<Vec<i16>> = Vec::new();
        proof {
            assert(seg_views(emitted@) =~= Seq::<Seq<i16>>::empty());
        }
        while self.buffer.len() >= self.chunk_samples
            invariant
                self.chunk_samples == old(self).chunk_samples,
                1 <= self.chunk_samples,
                n_spec == self.chunk_samples as int,
                chunk_emits(total, n_spec) == seg_views(emitted@) + chunk_emits(
                    self.buffer@,
                    n_spec,
                ),
                chunk_rest(total, n_spec) == chunk_rest(self.buffer@, n_spec),
            decreases self.buffer@.len(),
        {
            let ghost buf0 = self.buffer@;
            let mut chunk = self.buffer.split_off(self.chunk_samples);
            core::mem::swap(&mut self.buffer, &mut chunk);
            proof {
                assert(chunk@ =~= buf0.take(n_spec));
                assert(self.buffer@ =~= buf0.skip(n_spec));
            }
            if !measure_silent(&chunk) {
                proof {
                    lemma_seg_views_push(emitted@, chunk);
                    assert(seg_views(emitted@).push(chunk@) + chunk_emits(self.buffer@, n_spec)
                        =~= seg_views(emitted@) + (seq![chunk@] + chunk_emits(
                        self.buffer@,
                        n_spec,
                    )));
                }
                emitted.push(chunk);
            }
        }
        proof {
            assert(seg_views(emitted@) + Seq::<Seq<i16>>::empty() =~= seg_views(emitted@));
        }
        emitted
    }

    /// Flush at session stop: a remaining partial chunk is emitted only if
    /// it is long enough to be useful and clears the energy threshold;
    /// then exactly one sentinel concludes the drain.
    pub fn flush(&mut self) -> (out: Vec<Vec<i16>>)
        requires
            old(self).wf(),
        ensures
            final(self).wf(),
            final(self).chunk_samples == old(self).chunk_samples,
            final(self).buffer@.len() == 0,
            (old(self).buffer@.len() >= CHUNK_MIN_FLUSH_SAMPLES && !is_silent(
                old(self).buffer@,
            )) ==> {
                &&& out@.len() == 2
                &&& out@[0]@ == old(self).buffer@
                &&& out@[1]@.len() == 0
            },
            (old(self).buffer@.len() < CHUNK_MIN_FLUSH_SAMPLES || is_silent(
                old(self).buffer@,
            )) ==> {
                &&& out@.len() == 1
                &&& out@[0]@.len() == 0
            },
    {
        let mut out: Vec<Vec<i16>> = Vec::new();
        if self.buffer.len() >= CHUNK_MIN_FLUSH_SAMPLES {
            if !measure_silent(&self.buffer) {
                let mut segment: Vec<i16> = Vec::new();
                core::mem::swap(&mut self.buffer, &mut segment);
                out.push(segment);
            } else {
                self.buffer.clear();
            }
        } else {
            self.buffer.clear();
        }
        out.push(Vec::new());
        out
    }
}

impl VadSegmenter {
    /// Drop all buffered audio and return to listening for an onset.
    pub fn reset(&mut self)
        ensures
            final(self).wf(),
            final(self).is_reset(),
    {
        self.pending.clear();
        self.pre_speech.clear();
        self.speech_buffer.clear();
        self.silence_count = 0;
        self.state = VadState::Silence;
    }
}

/// Both segmentation algorithms behind the configured mode.
///
/// The capture loop feeds whichever side `use_vad` selects; flushing and
/// reconfiguration act on the whole.
pub struct Segmenter {
    /// Voice-activity mode when true, fixed-chunk mode otherwise.
    pub use_vad: bool,
    pub vad: VadSegmenter,
    pub chunk: ChunkSegmenter,
}

impl Segmenter {
    pub open spec fn wf(self) -> bool {
        &&& self.vad.wf()
        &&& self.chunk.wf()
    }

    pub fn new(use_vad: bool, chunk_samples: usize) -> (s: Self)
        requires
            chunk_samples >= 1,
        ensures
            s.wf(),
            s.use_vad == use_vad,
            s.vad.is_reset(),
            s.chunk.buffer@.len() == 0,
            s.chunk.chunk_samples == chunk_samples,
    {
        Segmenter { use_vad, vad: VadSegmenter::new(), chunk: ChunkSegmenter::new(chunk_samples) }
    }

    /// Take a reloaded configuration into account.  Identical values are a
    /// no-op: an in-progress utterance is not disturbed.  A changed mode
    /// or chunk length resets all segmentation state before taking effect.
    pub fn reconfigure(&mut self, new_use_vad: bool, new_chunk_samples: usize) -> (changed: bool)
        requires
            old(self).wf(),
            new_chunk_samples >= 1,
        ensures
            final(self).wf(),
            changed == (new_use_vad != old(self).use_vad || new_chunk_samples
                != old(self).chunk.chunk_samples),
            !changed ==> *final(self) == *old(self),
            changed ==> {
                &&& final(self).use_vad == new_use_vad
                &&& final(self).chunk.chunk_samples == new_chunk_samples
                &&& final(self).vad.is_reset()
                &&& final(self).chunk.buffer@.len() == 0
            },
    {
        if new_use_vad == self.use_vad && new_chunk_samples == self.chunk.chunk_samples {
            false
        } else {
            self.use_vad = new_use_vad;
            self.vad.reset();
            self.chunk = ChunkSegmenter::new(new_chunk_samples);
            true
        }
    }

    /// Flush at session stop, whatever the mode and state: emit at most
    /// one final segment, reset all segmentation state, and conclude with
    /// exactly one sentinel.
    pub fn flush(&mut self) -> (out: Vec<Vec<i16>>)
        requires
            old(self).wf(),
        ensures
            final(self).wf(),
            final(self).use_vad == old(self).use_vad,
            final(self).chunk.chunk_samples == old(self).chunk.chunk_samples,
            final(self).vad.is_reset(),
            final(self).chunk.buffer@.len() == 0,
            // Zero or one real segment, then exactly one sentinel.
            1 <= out@.len() <= 2,
            out@[out@.len() - 1]@.len() == 0,
            forall|i: int| 0 <= i < out@.len() - 1 ==> out@[i]@.len() > 0,
            // Which audio the real segment holds, and when it is owed.
            old(self).use_vad ==> ((out@.len() == 2) <==> old(self).vad.speech_buffer@.len()
                >= VAD_MIN_SPEECH_SAMPLES),
            old(self).use_vad && out@.len() == 2 ==> out@[0]@ == old(self).vad.speech_buffer@,
            !old(self).use_vad ==> ((out@.len() == 2) <==> (old(self).chunk.buffer@.len()
                >= CHUNK_MIN_FLUSH_SAMPLES && !is_silent(old(self).chunk.buffer@))),
            !old(self).use_vad && out@.len() == 2 ==> out@[0]@ == old(self).chunk.buffer@,
    {
        if self.use_vad {
            let out = self.vad.flush();
            self.chunk.buffer.clear();
            out
        } else {
            let out = self.chunk.flush();
            self.vad.reset();
            out
        }
    }
}

/// Append every sample of `frame` to `buffer`.
fn append_samples(buffer: &mut Vec<i16>, frame: &Vec<i16>)
    ensures
        final(buffer)@ == old(buffer)@ + frame@,
{
    let n = frame.len();
    let mut i: usize = 0;
    while i < n
        invariant
            n == frame@.len(),
            0 <= i <= n,
            buffer@ == old(buffer)@ + frame@.take(i as int),
        decreases n - i,
    {
        buffer.push(frame[i]);
        proof {
            assert(frame@.take(i + 1) =~= frame@.take(i as int).push(frame@[i as int]));
            assert(buffer@ =~= old(buffer)@ + frame@.take(i + 1));
        }
        i = i + 1;
    }
    proof {
        assert(frame@.take(n as int) =~= frame@);
    }
}

/// Append `frame` to a bounded ring buffer, evicting the oldest samples
/// once the capacity is reached.
fn ring_push(ring: &mut Vec<i16>, frame: &Vec<i16>, cap: usize)
    requires
        old(ring)@.len() <= cap,
        0 < cap,
    ensures
        final(ring)@ == ring_append(old(ring)@, frame@, cap as int),
        final(ring)@.len() <= cap,
{
    let n = frame.len();
    let mut i: usize = 0;
    while i < n
        invariant
            n == frame@.len(),
            0 <= i <= n,
            0 < cap,
            ring@ == ring_append(old(ring)@, frame@.take(i as int), cap as int),
            ring@.len() <= cap,
            old(ring)@.len() <= cap,
        decreases n - i,
    {
        proof {
            lemma_ring_append_step(old(ring)@, frame@, cap as int, i as int);
        }
        if ring.len() >= cap {
            ring.remove(0);
        }
        ring.push(frame[i]);
        i = i + 1;
    }
    proof {
        assert(frame@.take(n as int) =~= frame@);
    }
}

} // verus!
