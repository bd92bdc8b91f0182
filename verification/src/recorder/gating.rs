//! The gated recorder: the state machine that turns the speech probability
//! of each chunk into the opening and closing of recording files.
//!
//! Probabilities and the threshold are 32-bit floating-point numbers, held
//! here by their bit patterns and compared as such numbers compare.
//!
//! The recorder owns no writer. [`GatedRecorder::observe`] says what the
//! caller has to do with its writer; the caller reports a writer that it
//! opened with [`GatedRecorder::writer_opened`] and the samples that it wrote
//! with [`GatedRecorder::samples_appended`].

use vstd::prelude::*;
use crate::recorder::vad::{VadState, VadStateView};

verus! {

/// Silence that ends a recording when the session names no other, in milliseconds.
pub const DEFAULT_SILENCE_TIMEOUT_MS: u32 = 800;

/// Clock ticks in one millisecond: the recorder's clock counts nanoseconds.
pub const TICKS_PER_MS: u64 = 1_000_000;

/// Whether the bit pattern `bits` is no number.
pub open spec fn is_nan(bits: u32) -> bool {
    (bits & 0x7f80_0000) == 0x7f80_0000 && (bits & 0x007f_ffff) != 0
}

/// Whether the sign bit of `bits` is set.
pub open spec fn is_negative(bits: u32) -> bool {
    (bits & 0x8000_0000) != 0
}

/// The bit pattern `bits` without its sign bit. Among numbers of one sign,
/// the larger pattern is the number farther from zero.
pub open spec fn magnitude(bits: u32) -> u32 {
    bits & 0x7fff_ffff
}

/// Whether the floating-point number with the bit pattern `probability` is
/// greater than the one with the bit pattern `threshold`. Nothing is greater
/// or less than what is no number, and the two zeros are equal.
pub open spec fn exceeds(probability: u32, threshold: u32) -> bool {
    !is_nan(probability) && !is_nan(threshold) && if is_negative(probability) {
        is_negative(threshold) && magnitude(probability) < magnitude(threshold)
    } else if is_negative(threshold) {
        magnitude(probability) > 0 || magnitude(threshold) > 0
    } else {
        magnitude(probability) > magnitude(threshold)
    }
}

/// Whether a chunk with this speech probability is speech for a session
/// with this threshold: whether the probability is greater. Both are given
/// by the bit patterns of 32-bit floating-point numbers.
pub fn is_speech(probability: u32, threshold: u32) -> (speech: bool)
    ensures
        speech == exceeds(probability, threshold),
{
    let probability_is_nan = (probability & 0x7f80_0000) == 0x7f80_0000 && (probability
        & 0x007f_ffff) != 0;
    let threshold_is_nan = (threshold & 0x7f80_0000) == 0x7f80_0000 && (threshold & 0x007f_ffff)
        != 0;
    if probability_is_nan || threshold_is_nan {
        false
    } else if (probability & 0x8000_0000) != 0 {
        (threshold & 0x8000_0000) != 0 && (probability & 0x7fff_ffff) < (threshold & 0x7fff_ffff)
    } else if (threshold & 0x8000_0000) != 0 {
        (probability & 0x7fff_ffff) > 0 || (threshold & 0x7fff_ffff) > 0
    } else {
        (probability & 0x7fff_ffff) > (threshold & 0x7fff_ffff)
    }
}

/// The time from `last` to `now` on a clock that never runs backwards; zero
/// where `now` lies before `last`.
pub open spec fn elapsed(last: nat, now: nat) -> nat {
    if now >= last {
        (now - last) as nat
    } else {
        0
    }
}

/// Whether a chunk seen at `now` belongs to a recording: speech was heard,
/// and less than `timeout` ago.
pub open spec fn should_record(last_speech: Option<nat>, now: nat, timeout: nat) -> bool {
    match last_speech {
        Some(last) => elapsed(last, now) < timeout,
        None => false,
    }
}

/// What the caller does with its writer after a chunk was observed.
#[derive(Debug)]
pub enum RecorderAction {
    /// Nothing is opened or closed.
    Hold,
    /// Speech began: open a writer for a new file and report it with
    /// [`GatedRecorder::writer_opened`]. A writer that cannot be opened is
    /// not reported, and the recorder stays idle.
    OpenWriter,
    /// The silence timeout ran out: finalize the writer of `path`, which
    /// holds `samples` samples, and publish the file.
    CloseWriter { path: String, samples: u64 },
}

/// The mathematical value of a [`RecorderAction`].
pub enum RecorderActionView {
    Hold,
    OpenWriter,
    CloseWriter { path: Seq<char>, samples: nat },
}

impl View for RecorderAction {
    type V = RecorderActionView;

    open spec fn view(&self) -> RecorderActionView {
        match self {
            RecorderAction::Hold => RecorderActionView::Hold,
            RecorderAction::OpenWriter => RecorderActionView::OpenWriter,
            RecorderAction::CloseWriter { path, samples } => RecorderActionView::CloseWriter {
                path: path@,
                samples: *samples as nat,
            },
        }
    }
}

/// The mathematical value of a [`GatedRecorder`].
pub struct RecorderView {
    /// The bit pattern of the probability above which a chunk is speech.
    pub threshold: u32,
    /// Silence that ends a recording, in clock ticks.
    pub silence_timeout: nat,
    /// When the last chunk classified as speech was seen.
    pub last_speech: Option<nat>,
    /// The file being written; `Some` exactly while the recorder is capturing.
    pub current_file: Option<Seq<char>>,
    /// Samples appended to the file being written.
    pub written: nat,
}

impl RecorderView {
    /// The recorder of a new session: idle, nothing heard yet.
    pub open spec fn idle(threshold: u32, silence_timeout: nat) -> RecorderView {
        RecorderView {
            threshold,
            silence_timeout,
            last_speech: None,
            current_file: None,
            written: 0,
        }
    }

    /// Whether a file is being written.
    pub open spec fn is_capturing(self) -> bool {
        self.current_file is Some
    }

    /// Whether a chunk with this probability is speech.
    pub open spec fn hears(self, probability: u32) -> bool {
        exceeds(probability, self.threshold)
    }

    /// The time of the last speech once a chunk seen at `now` is counted.
    pub open spec fn heard(self, probability: u32, now: nat) -> Option<nat> {
        if self.hears(probability) {
            Some(now)
        } else {
            self.last_speech
        }
    }

    /// Whether the chunk seen at `now` belongs to a recording.
    pub open spec fn records(self, probability: u32, now: nat) -> bool {
        should_record(self.heard(probability, now), now, self.silence_timeout)
    }

    /// What a chunk seen at `now` asks of the caller.
    pub open spec fn decision(self, probability: u32, now: nat) -> RecorderActionView {
        if self.records(probability, now) && self.current_file is None {
            RecorderActionView::OpenWriter
        } else if !self.records(probability, now) && self.current_file is Some {
            RecorderActionView::CloseWriter { path: self.current_file->0, samples: self.written }
        } else {
            RecorderActionView::Hold
        }
    }

    /// The recorder after a chunk seen at `now`: the speech time is updated,
    /// and a recording whose silence timeout ran out is over.
    pub open spec fn observed(self, probability: u32, now: nat) -> RecorderView {
        if !self.records(probability, now) && self.current_file is Some {
            RecorderView {
                last_speech: self.heard(probability, now),
                current_file: None,
                written: 0,
                ..self
            }
        } else {
            RecorderView { last_speech: self.heard(probability, now), ..self }
        }
    }

    /// The recorder after the caller opened a writer for `path`. A recorder
    /// that is capturing keeps its file.
    pub open spec fn opened(self, path: Seq<char>) -> RecorderView {
        if self.current_file is Some {
            self
        } else {
            RecorderView { current_file: Some(path), written: 0, ..self }
        }
    }

    /// The recorder after `count` samples went to the writer. The count
    /// stops at `u64::MAX`; an idle recorder has no file to count for.
    pub open spec fn appended(self, count: nat) -> RecorderView {
        if self.current_file is None {
            self
        } else if self.written + count <= u64::MAX {
            RecorderView { written: self.written + count, ..self }
        } else {
            RecorderView { written: u64::MAX as nat, ..self }
        }
    }
}

/// The gated recorder of one session.
#[derive(Debug)]
pub struct GatedRecorder {
    threshold: u32,
    silence_timeout: u64,
    last_speech: Option<u64>,
    current_file: Option<String>,
    written: u64,
}

impl View for GatedRecorder {
    type V = RecorderView;

    closed spec fn view(&self) -> RecorderView {
        RecorderView {
            threshold: self.threshold,
            silence_timeout: self.silence_timeout as nat,
            last_speech: match self.last_speech {
                Some(t) => Some(t as nat),
                None => None,
            },
            current_file: match self.current_file {
                Some(path) => Some(path@),
                None => None,
            },
            written: self.written as nat,
        }
    }
}

/// The silence timeout in clock ticks for a session configured with
/// `silence_timeout_ms`, or with the default where it names none.
pub open spec fn timeout_ticks(silence_timeout_ms: Option<u32>) -> nat {
    match silence_timeout_ms {
        Some(ms) => (ms * TICKS_PER_MS) as nat,
        None => (DEFAULT_SILENCE_TIMEOUT_MS * TICKS_PER_MS) as nat,
    }
}

impl GatedRecorder {
    /// An idle recorder that takes a chunk for speech where its probability
    /// is greater than the number with the bit pattern `threshold`, and
    /// whose recordings end after `silence_timeout_ms` milliseconds of
    /// silence (800 where `None`).
    pub fn new(threshold: u32, silence_timeout_ms: Option<u32>) -> (recorder: GatedRecorder)
        ensures
            recorder@ == RecorderView::idle(threshold, timeout_ticks(silence_timeout_ms)),
    {
        let ms: u32 = match silence_timeout_ms {
            Some(ms) => ms,
            None => DEFAULT_SILENCE_TIMEOUT_MS,
        };
        GatedRecorder {
            threshold,
            silence_timeout: (ms as u64) * TICKS_PER_MS,
            last_speech: None,
            current_file: None,
            written: 0,
        }
    }

    /// Whether a file is being written.
    pub fn is_capturing(&self) -> (capturing: bool)
        ensures
            capturing == self@.is_capturing(),
    {
        self.current_file.is_some()
    }

    /// The number of samples that were appended to the file being written.
    pub fn written(&self) -> (count: u64)
        ensures
            count as nat == self@.written,
    {
        self.written
    }

    /// The state of the session that this recorder belongs to, as callers
    /// see it: running, and speaking with a file exactly while capturing.
    pub fn state(&self) -> (state: VadState)
        ensures
            state@ == VadStateView::of_recorder(self@),
            state@.wf(),
    {
        match &self.current_file {
            Some(path) => VadState {
                is_running: true,
                is_speaking: true,
                current_file: Some(path.clone()),
            },
            None => VadState { is_running: true, is_speaking: false, current_file: None },
        }
    }

    /// Counts one chunk, which the classifier gave the speech probability
    /// with the bit pattern `probability` and which was seen at `now`
    /// (nanoseconds on a monotonic clock), and says what becomes of the
    /// writer. A recording that ends leaves the recorder idle at once; one
    /// that begins makes the recorder capture only when the caller reports
    /// the writer.
    pub fn observe(&mut self, probability: u32, now: u64) -> (action: RecorderAction)
        ensures
            final(self)@ == old(self)@.observed(probability, now as nat),
            action@ == old(self)@.decision(probability, now as nat),
    {
        if is_speech(probability, self.threshold) {
            self.last_speech = Some(now);
        }
        let recording = match self.last_speech {
            Some(last) => {
                let gap: u64 = if now >= last {
                    now - last
                } else {
                    0
                };
                gap < self.silence_timeout
            },
            None => false,
        };
        if recording && self.current_file.is_none() {
            RecorderAction::OpenWriter
        } else if !recording && self.current_file.is_some() {
            let path = self.current_file.take().unwrap();
            let samples = self.written;
            self.written = 0;
            RecorderAction::CloseWriter { path, samples }
        } else {
            RecorderAction::Hold
        }
    }

    /// Ends the recorder with its session. The file that was being written,
    /// if there was one, is handed out with its sample count, for the caller
    /// to finalize.
    pub fn finish(self) -> (unfinished: Option<(String, u64)>)
        ensures
            match unfinished {
                Some((path, samples)) => self@.current_file == Some(path@) && samples
                    == self@.written,
                None => self@.current_file is None,
            },
    {
        match self.current_file {
            Some(path) => Some((path, self.written)),
            None => None,
        }
    }

    /// Records that the caller opened a writer for `path`: the recorder is
    /// capturing from now on. Returns `false`, and changes nothing, where the
    /// recorder already has a file: the caller then discards the new writer.
    pub fn writer_opened(&mut self, path: String) -> (accepted: bool)
        ensures
            accepted == !old(self)@.is_capturing(),
            final(self)@ == old(self)@.opened(path@),
    {
        if self.current_file.is_some() {
            false
        } else {
            self.current_file = Some(path);
            self.written = 0;
            true
        }
    }

    /// Records that `count` samples were appended to the file being written.
    pub fn samples_appended(&mut self, count: usize)
        ensures
            final(self)@ == old(self)@.appended(count as nat),
    {
        if self.current_file.is_some() {
            self.written = self.written.saturating_add(count as u64);
        }
    }
}

} // verus!
