use whispering::recorder::artifact::sample_data_len;
use whispering::recorder::gating::{
    is_speech, GatedRecorder, RecorderAction, DEFAULT_SILENCE_TIMEOUT_MS, TICKS_PER_MS,
};

const CHUNK: usize = 512;
/// The bit patterns of 0.5, 0.9 and 0.1.
const HALF: u32 = 0x3f00_0000;
const SPEECH: u32 = 0x3f66_6666;
const SILENCE: u32 = 0x3dcc_cccd;
/// One chunk of 512 samples at 16 kHz lasts 32 ms.
const CHUNK_TICKS: u64 = 32 * 1_000_000;

struct Run {
    opened: Vec<(usize, String)>,
    closed: Vec<(usize, String, u64)>,
}

/// Feeds the probability of each chunk to the recorder, chunk `i` (from 1)
/// at `i * 32 ms`, opening every writer that the recorder asks for.
fn run(recorder: &mut GatedRecorder, probabilities: &[f32]) -> Run {
    let mut out = Run { opened: Vec::new(), closed: Vec::new() };
    let mut i: usize = 0;
    while i < probabilities.len() {
        let number: usize = i + 1;
        let now: u64 = (number as u64) * CHUNK_TICKS;
        match recorder.observe(probabilities[i].to_bits(), now) {
            RecorderAction::OpenWriter => {
                let path = format!("rec_{}.wav", number);
                assert!(recorder.writer_opened(path.clone()));
                out.opened.push((number, path));
            }
            RecorderAction::CloseWriter { path, samples } => {
                out.closed.push((number, path, samples));
            }
            RecorderAction::Hold => {}
        }
        if recorder.is_capturing() {
            recorder.samples_appended(CHUNK);
        }
        i += 1;
    }
    out
}

fn levels(blocks: &[(f32, usize)]) -> Vec<f32> {
    let mut out: Vec<f32> = Vec::new();
    for (p, count) in blocks {
        let mut k: usize = 0;
        while k < *count {
            out.push(*p);
            k += 1;
        }
    }
    out
}

#[test]
fn default_timeout_is_800_ms() {
    assert_eq!(DEFAULT_SILENCE_TIMEOUT_MS, 800);
    assert_eq!(TICKS_PER_MS, 1_000_000);
    let mut recorder = GatedRecorder::new(HALF, None);
    assert!(matches!(recorder.observe(SPEECH, 0), RecorderAction::OpenWriter));
    assert!(recorder.writer_opened(String::from("a.wav")));
    // 799.999999 ms of silence: still recording.
    assert!(matches!(recorder.observe(SILENCE, 800 * TICKS_PER_MS - 1), RecorderAction::Hold));
    assert!(recorder.is_capturing());
    // 800 ms: the timeout has run out.
    assert!(matches!(recorder.observe(SILENCE, 800 * TICKS_PER_MS), RecorderAction::CloseWriter { .. }));
    assert!(!recorder.is_capturing());
}

#[test]
fn new_recorder_is_idle_and_running() {
    let recorder = GatedRecorder::new(HALF, Some(250));
    assert!(!recorder.is_capturing());
    assert_eq!(recorder.written(), 0);
    let state = recorder.state();
    assert!(state.is_running);
    assert!(!state.is_speaking);
    assert_eq!(state.current_file, None);
}

#[test]
fn silence_alone_opens_nothing() {
    let mut recorder = GatedRecorder::new(HALF, Some(800));
    let out = run(&mut recorder, &levels(&[(0.1, 200)]));
    assert!(out.opened.is_empty());
    assert!(out.closed.is_empty());
    assert!(!recorder.is_capturing());
    assert_eq!(recorder.state().current_file, None);
}

#[test]
fn probability_at_the_threshold_is_silence() {
    let mut recorder = GatedRecorder::new(HALF, Some(800));
    let out = run(&mut recorder, &levels(&[(0.5, 50)]));
    assert!(out.opened.is_empty());
}

#[test]
fn ten_chunks_of_speech_then_silence() {
    // threshold 0.5, timeout 800 ms, 0.9 for chunks 1 to 10, then 0.1.
    let mut recorder = GatedRecorder::new(HALF, Some(800));
    let out = run(&mut recorder, &levels(&[(0.9, 10), (0.1, 60)]));
    assert_eq!(out.opened, vec![(1, String::from("rec_1.wav"))]);
    // Last speech at chunk 10; 25 chunks of 32 ms make 800 ms: chunk 35 closes.
    assert_eq!(out.closed.len(), 1);
    let (at, path, samples) = out.closed[0].clone();
    assert_eq!(at, 35);
    assert_eq!(path, "rec_1.wav");
    // Chunks 1 to 34: the ten of speech and 24 of trailing silence.
    assert_eq!(samples, 10 * 512 + 24 * 512);
    assert_eq!(samples, 17408);
    assert_eq!(sample_data_len(samples), 69632);
    assert!(!recorder.is_capturing());
}

#[test]
fn one_utterance_gives_one_recording() {
    let mut recorder = GatedRecorder::new(HALF, Some(100));
    // 100 ms is over at the fourth silent chunk (128 ms).
    let out = run(&mut recorder, &levels(&[(0.0, 7), (1.0, 5), (0.0, 30)]));
    assert_eq!(out.opened, vec![(8, String::from("rec_8.wav"))]);
    assert_eq!(out.closed, vec![(16, String::from("rec_8.wav"), 8 * 512)]);
    assert_eq!(sample_data_len(8 * 512), 4 * 8 * 512);
}

#[test]
fn long_gap_gives_two_recordings() {
    let mut recorder = GatedRecorder::new(HALF, Some(100));
    let out = run(
        &mut recorder,
        &levels(&[(0.0, 2), (0.8, 3), (0.2, 10), (0.8, 4), (0.2, 10)]),
    );
    assert_eq!(
        out.opened,
        vec![(3, String::from("rec_3.wav")), (16, String::from("rec_16.wav"))]
    );
    assert_eq!(
        out.closed,
        vec![
            (9, String::from("rec_3.wav"), 6 * 512),
            (23, String::from("rec_16.wav"), 7 * 512),
        ]
    );
}

#[test]
fn short_gap_gives_one_recording() {
    let mut recorder = GatedRecorder::new(HALF, Some(100));
    // Three silent chunks are 96 ms: below the timeout.
    let out = run(
        &mut recorder,
        &levels(&[(0.0, 2), (0.8, 3), (0.2, 3), (0.8, 4), (0.2, 10)]),
    );
    assert_eq!(out.opened, vec![(3, String::from("rec_3.wav"))]);
    assert_eq!(out.closed, vec![(16, String::from("rec_3.wav"), 13 * 512)]);
}

#[test]
fn continuous_speech_is_one_file() {
    let mut recorder = GatedRecorder::new(HALF, Some(800));
    let out = run(&mut recorder, &levels(&[(0.9, 500)]));
    assert_eq!(out.opened.len(), 1);
    assert!(out.closed.is_empty());
    assert!(recorder.is_capturing());
    assert_eq!(recorder.written(), 500 * 512);
    let state = recorder.state();
    assert!(state.is_running);
    assert!(state.is_speaking);
    assert_eq!(state.current_file, Some(String::from("rec_1.wav")));
}

#[test]
fn zero_timeout_never_records() {
    let mut recorder = GatedRecorder::new(HALF, Some(0));
    let out = run(&mut recorder, &levels(&[(0.9, 20)]));
    assert!(out.opened.is_empty());
    assert!(out.closed.is_empty());
}

#[test]
fn writer_that_does_not_open_leaves_the_recorder_idle() {
    let mut recorder = GatedRecorder::new(HALF, Some(800));
    assert!(matches!(recorder.observe(SPEECH, 10), RecorderAction::OpenWriter));
    // The caller could not create the file and reports nothing.
    assert!(!recorder.is_capturing());
    assert!(!recorder.state().is_speaking);
    recorder.samples_appended(512);
    assert_eq!(recorder.written(), 0);
    // The next chunk asks again.
    assert!(matches!(recorder.observe(SILENCE, 20), RecorderAction::OpenWriter));
    assert!(recorder.writer_opened(String::from("late.wav")));
    assert!(recorder.is_capturing());
}

#[test]
fn second_writer_is_refused() {
    let mut recorder = GatedRecorder::new(HALF, Some(800));
    assert!(matches!(recorder.observe(SPEECH, 0), RecorderAction::OpenWriter));
    assert!(recorder.writer_opened(String::from("first.wav")));
    recorder.samples_appended(512);
    assert!(!recorder.writer_opened(String::from("second.wav")));
    assert_eq!(recorder.state().current_file, Some(String::from("first.wav")));
    assert_eq!(recorder.written(), 512);
}

#[test]
fn closing_hands_out_path_and_sample_count() {
    let mut recorder = GatedRecorder::new(HALF, Some(1));
    assert!(matches!(recorder.observe(SPEECH, 0), RecorderAction::OpenWriter));
    assert!(recorder.writer_opened(String::from("x.wav")));
    recorder.samples_appended(512);
    recorder.samples_appended(100);
    match recorder.observe(SILENCE, TICKS_PER_MS) {
        RecorderAction::CloseWriter { path, samples } => {
            assert_eq!(path, "x.wav");
            assert_eq!(samples, 612);
        }
        other => panic!("expected a close, got {:?}", other),
    }
    assert_eq!(recorder.written(), 0);
    let state = recorder.state();
    assert!(state.is_running);
    assert!(!state.is_speaking);
    assert_eq!(state.current_file, None);
}

#[test]
fn clock_that_runs_backwards_counts_as_no_time_passed() {
    let mut recorder = GatedRecorder::new(HALF, Some(10));
    assert!(matches!(recorder.observe(SPEECH, 1_000_000_000), RecorderAction::OpenWriter));
    assert!(recorder.writer_opened(String::from("x.wav")));
    assert!(matches!(recorder.observe(SILENCE, 5), RecorderAction::Hold));
    assert!(recorder.is_capturing());
}

#[test]
fn sample_count_stops_at_the_largest_number() {
    let mut recorder = GatedRecorder::new(HALF, Some(10));
    assert!(matches!(recorder.observe(SPEECH, 0), RecorderAction::OpenWriter));
    assert!(recorder.writer_opened(String::from("x.wav")));
    let mut i: u32 = 0;
    while i < 3 {
        recorder.samples_appended(usize::MAX);
        i += 1;
    }
    let each: u64 = usize::MAX as u64;
    assert_eq!(recorder.written(), each.saturating_mul(3));
}

#[test]
fn largest_timeout_fits_the_clock() {
    let mut recorder = GatedRecorder::new(HALF, Some(u32::MAX));
    assert!(matches!(recorder.observe(SPEECH, 0), RecorderAction::OpenWriter));
    assert!(recorder.writer_opened(String::from("x.wav")));
    let limit: u64 = (u32::MAX as u64) * TICKS_PER_MS;
    assert!(matches!(recorder.observe(SILENCE, limit - 1), RecorderAction::Hold));
    assert!(matches!(recorder.observe(SILENCE, limit), RecorderAction::CloseWriter { .. }));
}

#[test]
fn bit_patterns_of_the_test_levels() {
    assert_eq!(HALF, 0.5f32.to_bits());
    assert_eq!(SPEECH, 0.9f32.to_bits());
    assert_eq!(SILENCE, 0.1f32.to_bits());
}

#[test]
fn speech_is_probability_above_threshold() {
    assert!(is_speech(0.9f32.to_bits(), 0.5f32.to_bits()));
    assert!(!is_speech(0.1f32.to_bits(), 0.5f32.to_bits()));
    assert!(!is_speech(0.5f32.to_bits(), 0.5f32.to_bits()));
    assert!(is_speech(0.500_000_1f32.to_bits(), 0.5f32.to_bits()));
    assert!(!is_speech(0.0f32.to_bits(), (-0.0f32).to_bits()));
    assert!(!is_speech((-0.0f32).to_bits(), 0.0f32.to_bits()));
    assert!(!is_speech(f32::NAN.to_bits(), 0.5f32.to_bits()));
    assert!(!is_speech(0.9f32.to_bits(), f32::NAN.to_bits()));
}

#[test]
fn comparison_of_bit_patterns_is_comparison_of_numbers() {
    let mut values: Vec<f32> = vec![
        0.0,
        -0.0,
        f32::MIN_POSITIVE,
        -f32::MIN_POSITIVE,
        1.0e-45,
        -1.0e-45,
        0.1,
        0.25,
        0.5,
        0.75,
        0.9,
        1.0,
        -0.5,
        -1.0,
        2.0,
        -2.0,
        f32::MAX,
        f32::MIN,
        f32::INFINITY,
        f32::NEG_INFINITY,
        f32::NAN,
        -f32::NAN,
        f32::EPSILON,
    ];
    // A spread of further patterns, of every sign and exponent.
    let mut bits: u32 = 1;
    let mut k: u32 = 0;
    while k < 400 {
        values.push(f32::from_bits(bits));
        bits = bits.wrapping_mul(1_664_525).wrapping_add(1_013_904_223);
        k += 1;
    }
    for a in &values {
        for b in &values {
            assert_eq!(
                is_speech(a.to_bits(), b.to_bits()),
                a > b,
                "{:?} > {:?}",
                a,
                b
            );
        }
    }
}

#[test]
fn neighbouring_patterns_compare_as_numbers() {
    let starts: [u32; 8] = [
        0x0000_0000,
        0x007f_fff0,
        0x3eff_fff0,
        0x7f7f_fff0,
        0x7f80_0000,
        0x8000_0000,
        0xbf00_0000,
        0xff7f_fff0,
    ];
    for start in starts {
        let mut i: u32 = 0;
        while i < 32 {
            let a: u32 = start.wrapping_add(i);
            let mut j: u32 = 0;
            while j < 32 {
                let b: u32 = start.wrapping_add(j);
                assert_eq!(is_speech(a, b), f32::from_bits(a) > f32::from_bits(b));
                j += 1;
            }
            i += 1;
        }
    }
}

#[test]
fn finishing_hands_out_the_open_file() {
    let idle = GatedRecorder::new(HALF, None);
    assert_eq!(idle.finish(), None);

    let mut recorder = GatedRecorder::new(HALF, None);
    assert!(matches!(recorder.observe(SPEECH, 0), RecorderAction::OpenWriter));
    assert!(recorder.writer_opened(String::from("open.wav")));
    recorder.samples_appended(512);
    recorder.samples_appended(512);
    assert_eq!(recorder.finish(), Some((String::from("open.wav"), 1024)));
}

#[test]
fn record_chunk_observes_opens_and_appends() {
    let mut by_steps = GatedRecorder::new(HALF, Some(100));
    let mut at_once = GatedRecorder::new(HALF, Some(100));
    let levels: [u32; 12] = [
        SILENCE, SPEECH, SPEECH, SILENCE, SILENCE, SILENCE, SILENCE, SILENCE, SPEECH, SILENCE,
        SILENCE, SILENCE,
    ];
    let mut opened: u32 = 0;
    let mut closed: Vec<(String, u64)> = Vec::new();
    let mut i: usize = 0;
    while i < levels.len() {
        let now: u64 = (i as u64 + 1) * CHUNK_TICKS;
        let path = format!("rec_{}.wav", i + 1);

        let action = by_steps.observe(levels[i], now);
        if let RecorderAction::OpenWriter = &action {
            assert!(by_steps.writer_opened(path.clone()));
        }
        by_steps.samples_appended(CHUNK);

        let same = at_once.record_chunk(levels[i], now, path, CHUNK);
        match (&action, &same) {
            (RecorderAction::Hold, RecorderAction::Hold) => {}
            (RecorderAction::OpenWriter, RecorderAction::OpenWriter) => opened += 1,
            (
                RecorderAction::CloseWriter { path: a, samples: m },
                RecorderAction::CloseWriter { path: b, samples: n },
            ) => {
                assert_eq!(a, b);
                assert_eq!(m, n);
                closed.push((a.clone(), *m));
            }
            other => panic!("the two ways differ: {:?}", other),
        }
        assert_eq!(by_steps.is_capturing(), at_once.is_capturing());
        assert_eq!(by_steps.written(), at_once.written());
        assert_eq!(by_steps.state().current_file, at_once.state().current_file);
        i += 1;
    }
    assert_eq!(opened, 2);
    // Speech at chunks 2 and 3; 100 ms are over at chunk 7 (128 ms later).
    assert_eq!(closed, vec![(String::from("rec_2.wav"), 5 * 512)]);
    // Speech again at chunk 9; the run ends 96 ms later, with the file open.
    assert!(at_once.is_capturing());
    assert_eq!(at_once.written(), 4 * 512);
    assert_eq!(at_once.finish(), Some((String::from("rec_9.wav"), 4 * 512)));
}
