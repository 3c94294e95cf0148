use voice_to_text::config::{
    CHUNK_MIN_FLUSH_SAMPLES, VAD_FRAME_SIZE, VAD_MAX_SPEECH_SAMPLES, VAD_MIN_SPEECH_SAMPLES,
    VAD_POST_SPEECH_SAMPLES, VAD_PRE_SPEECH_SAMPLES,
};
use voice_to_text::vad::{ChunkSegmenter, Segmenter, VadSegmenter, VadState};

fn frame(value: i16) -> Vec<i16> {
    vec![value; VAD_FRAME_SIZE]
}

#[test]
fn minimum_length_discard_clears_accumulator() {
    // A buffer one sample short of the floor is discarded and cleared.
    let mut buf = vec![7i16; VAD_MIN_SPEECH_SAMPLES - 1];
    let out = voice_to_text::vad::send_speech(&mut buf);
    assert!(out.is_none());
    assert_eq!(buf.len(), 0);

    // At the floor it is emitted whole, and the accumulator still clears.
    let mut buf = vec![7i16; VAD_MIN_SPEECH_SAMPLES];
    let out = voice_to_text::vad::send_speech(&mut buf);
    let seg = out.expect("segment at the minimum length must be emitted");
    assert_eq!(seg.len(), VAD_MIN_SPEECH_SAMPLES);
    assert!(seg.iter().all(|&s| s == 7));
    assert_eq!(buf.len(), 0);
}

#[test]
fn pre_speech_recovery_seeds_ring_then_frame() {
    let mut seg = VadSegmenter::new();
    // 19 silent frames of value 5: 4864 samples, so the ring holds the
    // most recent 4800 (all fives).
    for _ in 0..19 {
        let out = seg.process_frame(&frame(5), false);
        assert!(out.segment.is_none());
    }
    assert!(matches!(seg.state, VadState::Silence));

    // The triggering frame enters the ring (evicting 256 fives) and is
    // then appended again: ring contents in order, then the frame.
    let out = seg.process_frame(&frame(9), true);
    assert!(out.segment.is_none());
    assert!(matches!(seg.state, VadState::Speech));
    assert_eq!(seg.speech_buffer.len(), VAD_PRE_SPEECH_SAMPLES + VAD_FRAME_SIZE);
    let fives = VAD_PRE_SPEECH_SAMPLES - VAD_FRAME_SIZE;
    assert!(seg.speech_buffer[..fives].iter().all(|&s| s == 5));
    assert!(seg.speech_buffer[fives..].iter().all(|&s| s == 9));
    assert_eq!(seg.pre_speech.len(), 0);
}

#[test]
fn force_flush_at_ceiling_stays_in_speech() {
    let mut seg = VadSegmenter::new();
    let mut emitted = None;
    let mut frames = 0usize;
    while emitted.is_none() {
        let out = seg.process_frame(&frame(3), true);
        frames += 1;
        if let Some(s) = out.segment {
            assert!(!out.reset_model);
            emitted = Some(s);
        }
        assert!(frames < 2000, "ceiling never reached");
    }
    let seg_out = emitted.unwrap();
    // Emitted exactly when the accumulation first reaches the ceiling.
    assert!(seg_out.len() >= VAD_MAX_SPEECH_SAMPLES);
    assert!(seg_out.len() < VAD_MAX_SPEECH_SAMPLES + VAD_FRAME_SIZE);
    // Still in speech, accumulating afresh.
    assert!(matches!(seg.state, VadState::Speech));
    assert_eq!(seg.speech_buffer.len(), 0);
    assert_eq!(seg.silence_count, 0);
}

#[test]
fn flush_empty_vad_segmenter_emits_only_sentinel() {
    let mut seg = Segmenter::new(true, 48000);
    let out = seg.flush();
    assert_eq!(out.len(), 1);
    assert!(out[0].is_empty());
}

#[test]
fn flush_mid_speech_emits_segment_then_sentinel() {
    let mut seg = Segmenter::new(true, 48000);
    seg.vad.process_frame(&frame(4), true);
    for _ in 0..65 {
        seg.vad.process_frame(&frame(4), true);
    }
    assert!(seg.vad.speech_buffer.len() >= VAD_MIN_SPEECH_SAMPLES);
    let expected = seg.vad.speech_buffer.clone();
    let out = seg.flush();
    assert_eq!(out.len(), 2);
    assert_eq!(out[0], expected);
    assert!(out[1].is_empty());
    assert!(matches!(seg.vad.state, VadState::Silence));
    assert_eq!(seg.vad.speech_buffer.len(), 0);
}

#[test]
fn flush_short_speech_discards_but_still_sends_sentinel() {
    let mut seg = Segmenter::new(true, 48000);
    seg.vad.process_frame(&frame(4), true);
    assert!(seg.vad.speech_buffer.len() < VAD_MIN_SPEECH_SAMPLES);
    let out = seg.flush();
    assert_eq!(out.len(), 1);
    assert!(out[0].is_empty());
}

#[test]
fn flush_mid_chunk_emits_loud_remainder_then_sentinel() {
    let mut seg = Segmenter::new(false, 48000);
    let loud = vec![1000i16; 10000];
    let emitted = seg.chunk.consume(&loud);
    assert!(emitted.is_empty());
    let out = seg.flush();
    assert_eq!(out.len(), 2);
    assert_eq!(out[0], loud);
    assert!(out[1].is_empty());
    assert_eq!(seg.chunk.buffer.len(), 0);

    // A remainder below the flush floor is dropped; only the sentinel.
    let mut seg = Segmenter::new(false, 48000);
    seg.chunk.consume(&vec![1000i16; CHUNK_MIN_FLUSH_SAMPLES - 1]);
    let out = seg.flush();
    assert_eq!(out.len(), 1);
    assert!(out[0].is_empty());

    // A silent remainder is dropped too.
    let mut seg = Segmenter::new(false, 48000);
    seg.chunk.consume(&vec![0i16; 10000]);
    let out = seg.flush();
    assert_eq!(out.len(), 1);
    assert!(out[0].is_empty());
}

#[test]
fn chunk_silence_filtering() {
    let mut seg = ChunkSegmenter::new(100);

    // A silent chunk is never enqueued.
    let emitted = seg.consume(&vec![0i16; 100]);
    assert!(emitted.is_empty());
    assert_eq!(seg.buffer.len(), 0);

    // A loud chunk passes unchanged in sample content.
    let loud: Vec<i16> = (0..100).map(|i| 500 + i as i16).collect();
    let emitted = seg.consume(&loud);
    assert_eq!(emitted.len(), 1);
    assert_eq!(emitted[0], loud);

    // RMS threshold is 1% of full scale: 327 is just below, 328 above.
    let emitted = seg.consume(&vec![327i16; 100]);
    assert!(emitted.is_empty());
    let emitted = seg.consume(&vec![328i16; 100]);
    assert_eq!(emitted.len(), 1);

    // Bursty arrival: several chunks at once, remainder buffered.
    let emitted = seg.consume(&vec![400i16; 250]);
    assert_eq!(emitted.len(), 2);
    assert_eq!(seg.buffer.len(), 50);
}

#[test]
fn idempotent_reconfiguration_is_a_no_op() {
    let mut seg = Segmenter::new(true, 48000);
    // An utterance in progress...
    seg.vad.process_frame(&frame(4), true);
    let buffered = seg.vad.speech_buffer.len();
    assert!(buffered > 0);

    // ...survives a reload with identical values.
    let changed = seg.reconfigure(true, 48000);
    assert!(!changed);
    assert_eq!(seg.vad.speech_buffer.len(), buffered);
    assert!(matches!(seg.vad.state, VadState::Speech));

    // A changed chunk length resets everything.
    let changed = seg.reconfigure(true, 32000);
    assert!(changed);
    assert_eq!(seg.vad.speech_buffer.len(), 0);
    assert!(matches!(seg.vad.state, VadState::Silence));

    // So does a mode switch.
    let mut seg = Segmenter::new(false, 48000);
    seg.chunk.consume(&vec![900i16; 10]);
    assert_eq!(seg.chunk.buffer.len(), 10);
    let changed = seg.reconfigure(true, 48000);
    assert!(changed);
    assert_eq!(seg.chunk.buffer.len(), 0);
    assert!(seg.use_vad);
}

#[test]
fn vad_scenario_fifty_silence_eighty_speech_forty_silence() {
    assert_eq!(VAD_PRE_SPEECH_SAMPLES, 4800);
    assert_eq!(VAD_POST_SPEECH_SAMPLES, 9600);
    assert_eq!(VAD_MIN_SPEECH_SAMPLES, 16000);
    assert_eq!(VAD_FRAME_SIZE, 256);

    let mut seg = VadSegmenter::new();
    let mut segments: Vec<(usize, Vec<i16>, bool)> = Vec::new();
    let mut step = 0usize;
    let mut feed = |seg: &mut VadSegmenter,
                    segments: &mut Vec<(usize, Vec<i16>, bool)>,
                    step: &mut usize,
                    f: Vec<i16>,
                    speech: bool| {
        let out = seg.process_frame(&f, speech);
        if let Some(s) = out.segment {
            segments.push((*step, s, out.reset_model));
        }
        *step += 1;
    };

    for _ in 0..50 {
        feed(&mut seg, &mut segments, &mut step, frame(0), false);
    }
    for _ in 0..80 {
        feed(&mut seg, &mut segments, &mut step, frame(1000), true);
    }
    for _ in 0..40 {
        feed(&mut seg, &mut segments, &mut step, frame(0), false);
    }

    // Exactly one utterance, ended by the 38th trailing-silence frame
    // (the first on which trailing silence reaches 9600 samples).
    assert_eq!(segments.len(), 1);
    let (at, ref segment, reset) = segments[0];
    assert_eq!(at, 50 + 80 + 38 - 1);
    assert!(reset);

    // 4800 samples of pre-speech padding, 80 speech frames, and the
    // trailing silence that ended the utterance; above the 16000 floor.
    assert_eq!(segment.len(), 4800 + 80 * 256 + 38 * 256);
    assert!(segment.len() >= VAD_MIN_SPEECH_SAMPLES);
    // The triggering frame first enters the ring (evicting 256 samples of
    // silence) and is then appended, so the recovered padding is 4544
    // samples of silence followed by the speech span.
    assert!(segment[..4544].iter().all(|&s| s == 0));
    assert!(segment[4544..4544 + 81 * 256].iter().all(|&s| s == 1000));
    assert!(segment[4544 + 81 * 256..].iter().all(|&s| s == 0));
    assert!(matches!(seg.state, VadState::Silence));
}

#[test]
fn pop_frame_rechunks_pending_samples() {
    let mut seg = VadSegmenter::new();
    seg.push_samples(&(0..300).map(|i| i as i16).collect());
    let f = seg.pop_frame().expect("one full frame is available");
    assert_eq!(f.len(), VAD_FRAME_SIZE);
    assert_eq!(f[0], 0);
    assert_eq!(f[255], 255);
    assert!(seg.pop_frame().is_none());
    assert_eq!(seg.pending.len(), 44);
}
