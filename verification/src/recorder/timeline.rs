//! Whole runs of the gated recorder: what a sequence of chunks makes of it,
//! and the laws of hysteresis that follow.
//!
//! A run is told in ticks, one per chunk. Every writer that the recorder asks
//! for opens, and every chunk that belongs to a recording is appended to it.

use vstd::prelude::*;
use crate::recorder::artifact::data_bytes;
use crate::recorder::gating::{
    elapsed, exceeds, GatedRecorder, RecorderAction, RecorderActionView, RecorderView,
};

verus! {

/// One chunk as the recorder sees it.
pub struct Tick {
    /// The bit pattern of the speech probability of the chunk.
    pub probability: u32,
    /// When the chunk was seen.
    pub at: nat,
    /// The file that is opened if a recording begins with this chunk.
    pub path: Seq<char>,
}

/// A finished recording.
pub struct Artifact {
    pub path: Seq<char>,
    pub samples: nat,
}

/// What a run made of the recorder: the recorder after it, how often a
/// writer was opened, and the recordings that were finished, in order.
pub struct Outcome {
    pub recorder: RecorderView,
    pub openings: nat,
    pub artifacts: Seq<Artifact>,
}

/// The recorder after one chunk of `size` samples: the chunk is observed,
/// the writer that the recorder asks for is opened, and the chunk is
/// appended if a file is open by then.
pub open spec fn step(recorder: RecorderView, tick: Tick, size: nat) -> RecorderView {
    let seen = recorder.observed(tick.probability, tick.at);
    let ready = if recorder.decision(tick.probability, tick.at) is OpenWriter {
        seen.opened(tick.path)
    } else {
        seen
    };
    ready.appended(size)
}

impl Tick {
    /// The tick of a chunk with this probability, seen at `now`, for which
    /// `path` is the file to open.
    pub open spec fn of(probability: u32, now: u64, path: Seq<char>) -> Tick {
        Tick { probability, at: now as nat, path }
    }
}

impl GatedRecorder {
    /// Counts one chunk of `size` samples for a caller whose writers always
    /// open, such as one that records into memory: the chunk is observed, a
    /// recording that begins is written to `path`, and the chunk is counted
    /// as appended if a file is open by then. The caller does what the
    /// action says and appends the chunk where the recorder is capturing.
    pub fn record_chunk(&mut self, probability: u32, now: u64, path: String, size: usize) -> (action:
        RecorderAction)
        ensures
            final(self)@ == step(old(self)@, Tick::of(probability, now, path@), size as nat),
            action@ == old(self)@.decision(probability, now as nat),
    {
        let action = self.observe(probability, now);
        if let RecorderAction::OpenWriter = &action {
            self.writer_opened(path);
        }
        self.samples_appended(size);
        action
    }
}

/// One if the chunk opens a writer, else zero.
pub open spec fn opens(recorder: RecorderView, tick: Tick) -> nat {
    if recorder.decision(tick.probability, tick.at) is OpenWriter {
        1
    } else {
        0
    }
}

/// The recording that the chunk finishes, if it finishes one.
pub open spec fn closes(recorder: RecorderView, tick: Tick) -> Seq<Artifact> {
    match recorder.decision(tick.probability, tick.at) {
        RecorderActionView::CloseWriter { path, samples } => seq![Artifact { path, samples }],
        _ => Seq::empty(),
    }
}

/// The outcome of feeding `ticks` in order to `recorder`, each a chunk of
/// `size` samples.
pub open spec fn play(recorder: RecorderView, ticks: Seq<Tick>, size: nat) -> Outcome
    decreases ticks.len(),
{
    if ticks.len() == 0 {
        Outcome { recorder, openings: 0, artifacts: Seq::empty() }
    } else {
        let before = play(recorder, ticks.drop_last(), size);
        Outcome {
            recorder: step(before.recorder, ticks.last(), size),
            openings: before.openings + opens(before.recorder, ticks.last()),
            artifacts: before.artifacts + closes(before.recorder, ticks.last()),
        }
    }
}

/// No tick has a probability above the threshold.
pub open spec fn all_silent(ticks: Seq<Tick>, threshold: u32) -> bool {
    forall|i: int| 0 <= i < ticks.len() ==> !exceeds((#[trigger] ticks[i]).probability, threshold)
}

/// Every tick has a probability above the threshold.
pub open spec fn all_speech(ticks: Seq<Tick>, threshold: u32) -> bool {
    forall|i: int| 0 <= i < ticks.len() ==> exceeds((#[trigger] ticks[i]).probability, threshold)
}

/// Every tick is seen less than `timeout` after `last`.
pub open spec fn all_within(ticks: Seq<Tick>, last: nat, timeout: nat) -> bool {
    forall|i: int| 0 <= i < ticks.len() ==> elapsed(last, (#[trigger] ticks[i]).at) < timeout
}

/// No tick is seen before `start`.
pub open spec fn none_before(ticks: Seq<Tick>, start: nat) -> bool {
    forall|i: int| 0 <= i < ticks.len() ==> (#[trigger] ticks[i]).at >= start
}

/// Feeding `first + second` is feeding `first`, then `second` to the
/// recorder that `first` left.
pub proof fn lemma_play_concat(
    recorder: RecorderView,
    first: Seq<Tick>,
    second: Seq<Tick>,
    size: nat,
)
    ensures
        ({
            let whole = play(recorder, first + second, size);
            let head = play(recorder, first, size);
            let tail = play(head.recorder, second, size);
            &&& whole.recorder == tail.recorder
            &&& whole.openings == head.openings + tail.openings
            &&& whole.artifacts =~= head.artifacts + tail.artifacts
        }),
    decreases second.len(),
{
    if second.len() == 0 {
        assert(first + second =~= first);
    } else {
        lemma_play_concat(recorder, first, second.drop_last(), size);
        assert((first + second).drop_last() =~= first + second.drop_last());
        assert((first + second).last() == second.last());
    }
}

/// Every file is finished once. In any run, from any recorder, the writers
/// that were opened, with the one that was open before the run, are as many
/// as the recordings that were finished, with the one that is open after
/// the run: a file that was opened is finished, or it is the one still open.
pub proof fn lemma_one_artifact_per_opening(recorder: RecorderView, ticks: Seq<Tick>, size: nat)
    ensures
        ({
            let outcome = play(recorder, ticks, size);
            let open_before: nat = if recorder.is_capturing() {
                1
            } else {
                0
            };
            let open_after: nat = if outcome.recorder.is_capturing() {
                1
            } else {
                0
            };
            outcome.openings + open_before == outcome.artifacts.len() + open_after
        }),
    decreases ticks.len(),
{
    if ticks.len() > 0 {
        lemma_one_artifact_per_opening(recorder, ticks.drop_last(), size);
    }
}

/// Silence leaves an idle recorder alone, as long as no speech is recent:
/// none was heard yet, or every tick comes when the timeout has run out.
proof fn lemma_play_quiet(recorder: RecorderView, ticks: Seq<Tick>, size: nat)
    requires
        !recorder.is_capturing(),
        all_silent(ticks, recorder.threshold),
        recorder.last_speech matches Some(last) ==> forall|i: int|
            0 <= i < ticks.len() ==> elapsed(last, (#[trigger] ticks[i]).at)
                >= recorder.silence_timeout,
    ensures
        play(recorder, ticks, size).recorder == recorder,
        play(recorder, ticks, size).openings == 0,
        play(recorder, ticks, size).artifacts =~= Seq::<Artifact>::empty(),
    decreases ticks.len(),
{
    if ticks.len() > 0 {
        let front = ticks.drop_last();
        assert forall|i: int| 0 <= i < front.len() implies !exceeds(
            (#[trigger] front[i]).probability,
            recorder.threshold,
        ) by {
            assert(front[i] == ticks[i]);
        }
        if recorder.last_speech is Some {
            assert forall|i: int| 0 <= i < front.len() implies elapsed(
                recorder.last_speech->0,
                (#[trigger] front[i]).at,
            ) >= recorder.silence_timeout by {
                assert(front[i] == ticks[i]);
            }
        }
        lemma_play_quiet(recorder, front, size);
        let t = ticks.last();
        assert(t == ticks[ticks.len() - 1]);
        assert(!exceeds(t.probability, recorder.threshold));
    }
}

/// A block of speech makes the recorder capture: it opens a file with the
/// first chunk unless one is open, closes none, and appends every chunk.
proof fn lemma_play_speech(recorder: RecorderView, ticks: Seq<Tick>, size: nat)
    requires
        recorder.silence_timeout > 0,
        ticks.len() > 0,
        all_speech(ticks, recorder.threshold),
        recorder.written + ticks.len() * size <= u64::MAX,
    ensures
        play(recorder, ticks, size).recorder == (RecorderView {
            last_speech: Some(ticks.last().at),
            current_file: if recorder.is_capturing() {
                recorder.current_file
            } else {
                Some(ticks[0].path)
            },
            written: if recorder.is_capturing() {
                recorder.written + ticks.len() * size
            } else {
                ticks.len() * size
            },
            ..recorder
        }),
        play(recorder, ticks, size).openings == if recorder.is_capturing() {
            0nat
        } else {
            1nat
        },
        play(recorder, ticks, size).artifacts =~= Seq::<Artifact>::empty(),
    decreases ticks.len(),
{
    let front = ticks.drop_last();
    let t = ticks.last();
    let n = ticks.len();
    assert(t == ticks[n - 1]);
    assert(exceeds(t.probability, recorder.threshold));
    assert((n - 1) * size + size == n * size) by (nonlinear_arith);
    assert((n - 1) * size >= 0) by (nonlinear_arith)
        requires
            n >= 1,
            size >= 0,
    ;
    if front.len() == 0 {
        assert(play(recorder, front, size).recorder == recorder);
        assert(n == 1);
        assert(1 * size == size) by (nonlinear_arith);
    } else {
        assert forall|i: int| 0 <= i < front.len() implies exceeds(
            (#[trigger] front[i]).probability,
            recorder.threshold,
        ) by {
            assert(front[i] == ticks[i]);
        }
        assert(front[0] == ticks[0]);
        lemma_play_speech(recorder, front, size);
    }
}

/// Silence shorter than the timeout keeps a capturing recorder capturing: every
/// chunk is appended, nothing is opened or closed.
proof fn lemma_play_pause(recorder: RecorderView, ticks: Seq<Tick>, size: nat)
    requires
        recorder.is_capturing(),
        recorder.last_speech is Some,
        all_silent(ticks, recorder.threshold),
        all_within(ticks, recorder.last_speech->0, recorder.silence_timeout),
        recorder.written + ticks.len() * size <= u64::MAX,
    ensures
        play(recorder, ticks, size).recorder == (RecorderView {
            written: recorder.written + ticks.len() * size,
            ..recorder
        }),
        play(recorder, ticks, size).openings == 0,
        play(recorder, ticks, size).artifacts =~= Seq::<Artifact>::empty(),
    decreases ticks.len(),
{
    let n = ticks.len();
    if n == 0 {
        assert(0 * size == 0) by (nonlinear_arith);
    } else {
        let front = ticks.drop_last();
        let t = ticks.last();
        assert(t == ticks[n - 1]);
        assert(!exceeds(t.probability, recorder.threshold));
        assert(elapsed(recorder.last_speech->0, t.at) < recorder.silence_timeout);
        assert((n - 1) * size + size == n * size) by (nonlinear_arith);
        assert((n - 1) * size >= 0) by (nonlinear_arith)
            requires
                n >= 1,
                size >= 0,
        ;
        assert forall|i: int| 0 <= i < front.len() implies !exceeds(
            (#[trigger] front[i]).probability,
            recorder.threshold,
        ) by {
            assert(front[i] == ticks[i]);
        }
        assert forall|i: int| 0 <= i < front.len() implies elapsed(
            recorder.last_speech->0,
            (#[trigger] front[i]).at,
        ) < recorder.silence_timeout by {
            assert(front[i] == ticks[i]);
        }
        lemma_play_pause(recorder, front, size);
    }
}

/// A silent chunk that comes when the timeout has run out ends the
/// recording: the file is closed with what was written, and the chunk is not
/// appended.
proof fn lemma_play_closing(recorder: RecorderView, tick: Tick, size: nat)
    requires
        recorder.is_capturing(),
        recorder.last_speech is Some,
        !exceeds(tick.probability, recorder.threshold),
        elapsed(recorder.last_speech->0, tick.at) >= recorder.silence_timeout,
    ensures
        play(recorder, seq![tick], size).recorder == (RecorderView {
            current_file: None,
            written: 0,
            ..recorder
        }),
        play(recorder, seq![tick], size).openings == 0,
        play(recorder, seq![tick], size).artifacts =~= seq![
            Artifact { path: recorder.current_file->0, samples: recorder.written },
        ],
{
    let ticks = seq![tick];
    assert(ticks.drop_last() =~= Seq::<Tick>::empty());
    assert(ticks.last() == tick);
    assert(play(recorder, ticks.drop_last(), size).recorder == recorder);
}

/// The ticks of one utterance: speech, then silence shorter than the
/// timeout, then the silent chunk at which the timeout has run out.
pub open spec fn utterance(speech: Seq<Tick>, trailing: Seq<Tick>, closing: Tick) -> Seq<Tick> {
    speech + trailing + seq![closing]
}

/// Whether `speech`, `trailing` and `closing` are the parts of an utterance
/// for a recorder with this `timeout`.
pub open spec fn is_utterance(
    speech: Seq<Tick>,
    trailing: Seq<Tick>,
    closing: Tick,
    threshold: u32,
    timeout: nat,
) -> bool {
    &&& speech.len() > 0
    &&& all_speech(speech, threshold)
    &&& all_silent(trailing, threshold)
    &&& all_within(trailing, speech.last().at, timeout)
    &&& !exceeds(closing.probability, threshold)
    &&& elapsed(speech.last().at, closing.at) >= timeout
}

/// An utterance heard by an idle recorder gives one recording of all its speech
/// and trailing chunks, and leaves the recorder idle.
proof fn lemma_play_utterance(
    recorder: RecorderView,
    speech: Seq<Tick>,
    trailing: Seq<Tick>,
    closing: Tick,
    size: nat,
)
    requires
        recorder.silence_timeout > 0,
        !recorder.is_capturing(),
        recorder.written == 0,
        is_utterance(
            speech,
            trailing,
            closing,
            recorder.threshold,
            recorder.silence_timeout,
        ),
        (speech.len() + trailing.len()) * size <= u64::MAX,
    ensures
        play(recorder, utterance(speech, trailing, closing), size).recorder == (RecorderView {
            last_speech: Some(speech.last().at),
            ..recorder
        }),
        play(recorder, utterance(speech, trailing, closing), size).openings == 1,
        play(recorder, utterance(speech, trailing, closing), size).artifacts =~= seq![
            Artifact {
                path: speech[0].path,
                samples: (speech.len() + trailing.len()) * size,
            },
        ],
{
    let a = speech.len();
    let b = trailing.len();
    assert((a + b) * size == a * size + b * size) by (nonlinear_arith);
    assert(b * size >= 0) by (nonlinear_arith)
        requires
            b >= 0,
            size >= 0,
    ;
    lemma_play_speech(recorder, speech, size);
    let heard = play(recorder, speech, size).recorder;
    lemma_play_pause(heard, trailing, size);
    let paused = play(heard, trailing, size).recorder;
    lemma_play_closing(paused, closing, size);
    lemma_play_concat(recorder, speech, trailing, size);
    lemma_play_concat(recorder, speech + trailing, seq![closing], size);
}

/// Silence after a recording ended leaves the recorder idle, on a clock that
/// does not run backwards.
proof fn lemma_play_aftermath(recorder: RecorderView, closing_at: nat, ticks: Seq<Tick>, size: nat)
    requires
        recorder.silence_timeout > 0,
        !recorder.is_capturing(),
        recorder.last_speech is Some,
        elapsed(recorder.last_speech->0, closing_at) >= recorder.silence_timeout,
        all_silent(ticks, recorder.threshold),
        none_before(ticks, closing_at),
    ensures
        play(recorder, ticks, size).recorder == recorder,
        play(recorder, ticks, size).openings == 0,
        play(recorder, ticks, size).artifacts =~= Seq::<Artifact>::empty(),
{
    assert forall|i: int| 0 <= i < ticks.len() implies elapsed(
        recorder.last_speech->0,
        (#[trigger] ticks[i]).at,
    ) >= recorder.silence_timeout by {
        assert(ticks[i].at >= closing_at);
    }
    lemma_play_quiet(recorder, ticks, size);
}

/// Without speech there is no file: a new recorder that hears nothing above
/// its threshold opens no writer, finishes no recording and stays as it was.
pub proof fn lemma_silence_opens_nothing(
    threshold: u32,
    timeout: nat,
    size: nat,
    ticks: Seq<Tick>,
)
    requires
        all_silent(ticks, threshold),
    ensures
        play(RecorderView::idle(threshold, timeout), ticks, size).recorder == RecorderView::idle(
            threshold,
            timeout,
        ),
        play(RecorderView::idle(threshold, timeout), ticks, size).openings == 0,
        play(RecorderView::idle(threshold, timeout), ticks, size).artifacts.len() == 0,
{
    lemma_play_quiet(RecorderView::idle(threshold, timeout), ticks, size);
}

/// Speech that goes on is one file: a new recorder that hears speech in
/// every chunk opens one writer, with the first chunk, appends every chunk
/// to it, and finishes nothing while the speech lasts.
pub proof fn lemma_continuous_speech_one_file(
    threshold: u32,
    timeout: nat,
    size: nat,
    ticks: Seq<Tick>,
)
    requires
        timeout > 0,
        ticks.len() > 0,
        all_speech(ticks, threshold),
        ticks.len() * size <= u64::MAX,
    ensures
        play(RecorderView::idle(threshold, timeout), ticks, size).openings == 1,
        play(RecorderView::idle(threshold, timeout), ticks, size).artifacts.len() == 0,
        play(RecorderView::idle(threshold, timeout), ticks, size).recorder == (RecorderView {
            last_speech: Some(ticks.last().at),
            current_file: Some(ticks[0].path),
            written: ticks.len() * size,
            ..RecorderView::idle(threshold, timeout)
        }),
{
    lemma_play_speech(RecorderView::idle(threshold, timeout), ticks, size);
}

/// One utterance gives one recording. A new recorder hears silence, then an
/// utterance, then silence that goes on: it opens exactly one file, with the
/// first chunk of speech, and finishes exactly one recording, which holds
/// every chunk from the first of speech to the last before the timeout ran
/// out. Its sample data is four bytes for each of those samples.
pub proof fn lemma_single_utterance(
    threshold: u32,
    timeout: nat,
    size: nat,
    quiet: Seq<Tick>,
    speech: Seq<Tick>,
    trailing: Seq<Tick>,
    closing: Tick,
    rest: Seq<Tick>,
)
    requires
        timeout > 0,
        all_silent(quiet, threshold),
        is_utterance(speech, trailing, closing, threshold, timeout),
        all_silent(rest, threshold),
        none_before(rest, closing.at),
        (speech.len() + trailing.len()) * size <= u64::MAX,
    ensures
        ({
            let ticks = quiet + utterance(speech, trailing, closing) + rest;
            let outcome = play(RecorderView::idle(threshold, timeout), ticks, size);
            &&& outcome.openings == 1
            &&& outcome.artifacts =~= seq![
                Artifact {
                    path: speech[0].path,
                    samples: (speech.len() + trailing.len()) * size,
                },
            ]
            &&& data_bytes(outcome.artifacts[0].samples) == 4 * ((speech.len() + trailing.len())
                * size)
            &&& !outcome.recorder.is_capturing()
        }),
{
    let idle = RecorderView::idle(threshold, timeout);
    let spoken = utterance(speech, trailing, closing);
    lemma_play_quiet(idle, quiet, size);
    lemma_play_utterance(idle, speech, trailing, closing, size);
    let after = play(idle, spoken, size).recorder;
    lemma_play_aftermath(after, closing.at, rest, size);
    lemma_play_concat(idle, quiet, spoken, size);
    lemma_play_concat(idle, quiet + spoken, rest, size);
}

/// Two utterances that silence longer than the timeout parts give two
/// recordings: each opens its own file and holds its own chunks, and the
/// silent chunks between them belong to neither.
pub proof fn lemma_long_gap_two_recordings(
    threshold: u32,
    timeout: nat,
    size: nat,
    quiet: Seq<Tick>,
    speech1: Seq<Tick>,
    trailing1: Seq<Tick>,
    closing1: Tick,
    gap: Seq<Tick>,
    speech2: Seq<Tick>,
    trailing2: Seq<Tick>,
    closing2: Tick,
    rest: Seq<Tick>,
)
    requires
        timeout > 0,
        all_silent(quiet, threshold),
        is_utterance(speech1, trailing1, closing1, threshold, timeout),
        all_silent(gap, threshold),
        none_before(gap, closing1.at),
        is_utterance(speech2, trailing2, closing2, threshold, timeout),
        all_silent(rest, threshold),
        none_before(rest, closing2.at),
        (speech1.len() + trailing1.len()) * size <= u64::MAX,
        (speech2.len() + trailing2.len()) * size <= u64::MAX,
    ensures
        ({
            let ticks = quiet + utterance(speech1, trailing1, closing1) + gap + utterance(
                speech2,
                trailing2,
                closing2,
            ) + rest;
            let outcome = play(RecorderView::idle(threshold, timeout), ticks, size);
            &&& outcome.openings == 2
            &&& outcome.artifacts =~= seq![
                Artifact {
                    path: speech1[0].path,
                    samples: (speech1.len() + trailing1.len()) * size,
                },
                Artifact {
                    path: speech2[0].path,
                    samples: (speech2.len() + trailing2.len()) * size,
                },
            ]
            &&& !outcome.recorder.is_capturing()
        }),
{
    let idle = RecorderView::idle(threshold, timeout);
    let first = utterance(speech1, trailing1, closing1);
    let second = utterance(speech2, trailing2, closing2);
    lemma_play_quiet(idle, quiet, size);
    lemma_play_utterance(idle, speech1, trailing1, closing1, size);
    let between = play(idle, first, size).recorder;
    lemma_play_aftermath(between, closing1.at, gap, size);
    lemma_play_utterance(between, speech2, trailing2, closing2, size);
    let after = play(between, second, size).recorder;
    lemma_play_aftermath(after, closing2.at, rest, size);
    lemma_play_concat(idle, quiet, first, size);
    lemma_play_concat(idle, quiet + first, gap, size);
    lemma_play_concat(idle, quiet + first + gap, second, size);
    lemma_play_concat(idle, quiet + first + gap + second, rest, size);
}

/// Hysteresis: two blocks of speech that silence shorter than the timeout
/// parts give one recording. The file opened with the first chunk of speech
/// stays open through the pause and holds every chunk up to the last before
/// the timeout ran out.
pub proof fn lemma_short_gap_one_recording(
    threshold: u32,
    timeout: nat,
    size: nat,
    quiet: Seq<Tick>,
    speech1: Seq<Tick>,
    pause: Seq<Tick>,
    speech2: Seq<Tick>,
    trailing: Seq<Tick>,
    closing: Tick,
    rest: Seq<Tick>,
)
    requires
        timeout > 0,
        all_silent(quiet, threshold),
        speech1.len() > 0,
        all_speech(speech1, threshold),
        all_silent(pause, threshold),
        all_within(pause, speech1.last().at, timeout),
        is_utterance(speech2, trailing, closing, threshold, timeout),
        all_silent(rest, threshold),
        none_before(rest, closing.at),
        (speech1.len() + pause.len() + speech2.len() + trailing.len()) * size <= u64::MAX,
    ensures
        ({
            let ticks = quiet + speech1 + pause + utterance(speech2, trailing, closing) + rest;
            let outcome = play(RecorderView::idle(threshold, timeout), ticks, size);
            &&& outcome.openings == 1
            &&& outcome.artifacts =~= seq![
                Artifact {
                    path: speech1[0].path,
                    samples: (speech1.len() + pause.len() + speech2.len() + trailing.len())
                        * size,
                },
            ]
            &&& !outcome.recorder.is_capturing()
        }),
{
    let idle = RecorderView::idle(threshold, timeout);
    let a = speech1.len();
    let b = pause.len();
    let c = speech2.len();
    let d = trailing.len();
    assert((a + b + c + d) * size == a * size + b * size + c * size + d * size)
        by (nonlinear_arith);
    assert(a * size >= 0 && b * size >= 0 && c * size >= 0 && d * size >= 0)
        by (nonlinear_arith)
        requires
            a >= 0,
            b >= 0,
            c >= 0,
            d >= 0,
            size >= 0,
    ;
    lemma_play_quiet(idle, quiet, size);
    lemma_play_speech(idle, speech1, size);
    let g1 = play(idle, speech1, size).recorder;
    lemma_play_pause(g1, pause, size);
    let g2 = play(g1, pause, size).recorder;
    lemma_play_speech(g2, speech2, size);
    let g3 = play(g2, speech2, size).recorder;
    lemma_play_pause(g3, trailing, size);
    let g4 = play(g3, trailing, size).recorder;
    lemma_play_closing(g4, closing, size);
    let g5 = play(g4, seq![closing], size).recorder;
    lemma_play_aftermath(g5, closing.at, rest, size);
    let spoken = utterance(speech2, trailing, closing);
    lemma_play_concat(g2, speech2, trailing, size);
    lemma_play_concat(g2, speech2 + trailing, seq![closing], size);
    lemma_play_concat(idle, quiet, speech1, size);
    lemma_play_concat(idle, quiet + speech1, pause, size);
    lemma_play_concat(idle, quiet + speech1 + pause, spoken, size);
    lemma_play_concat(idle, quiet + speech1 + pause + spoken, rest, size);
}

} // verus!
