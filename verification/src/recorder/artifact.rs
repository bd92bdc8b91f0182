//! The recording file: its name and the format of its samples.

use vstd::prelude::*;
use vstd::string::StringExecFns;
use crate::text::{decimal, lemma_decimal_value, push_decimal};

verus! {

/// The bytes that one sample takes in a recording file.
pub const BYTES_PER_SAMPLE: u64 = 4;

/// The format of a recording file.
#[derive(Debug, Clone, Copy, PartialEq, Eq, Structural)]
pub struct WavFormat {
    pub channels: u16,
    pub sample_rate: u32,
    pub bits_per_sample: u16,
    /// Whether the samples are floating-point numbers; else integers.
    pub float_samples: bool,
}

/// The bytes of sample data in a recording of `samples` samples: one channel
/// of 32-bit samples.
pub open spec fn data_bytes(samples: nat) -> nat {
    BYTES_PER_SAMPLE as nat * samples
}

/// The name of the directory, below the application's data directory, that
/// holds the recordings.
pub open spec fn recordings_dir_text() -> Seq<char> {
    "recordings"@
}

/// The name of the recording that begins at `timestamp_ms`.
pub open spec fn recording_name_text(timestamp_ms: nat) -> Seq<char> {
    "vad_"@ + decimal(timestamp_ms) + "_0.wav"@
}

/// Recordings that begin at different times have different names.
pub proof fn lemma_recording_names_differ(first_ms: nat, second_ms: nat)
    requires
        first_ms != second_ms,
    ensures
        recording_name_text(first_ms) != recording_name_text(second_ms),
{
    let first = recording_name_text(first_ms);
    let second = recording_name_text(second_ms);
    if first == second {
        let head = "vad_"@;
        let tail = "_0.wav"@;
        let a = decimal(first_ms);
        let b = decimal(second_ms);
        assert(first.len() == head.len() + a.len() + tail.len());
        assert(second.len() == head.len() + b.len() + tail.len());
        assert(a =~= first.subrange(head.len() as int, (head.len() + a.len()) as int));
        assert(b =~= second.subrange(head.len() as int, (head.len() + b.len()) as int));
        lemma_decimal_value(first_ms);
        lemma_decimal_value(second_ms);
    }
}

/// The name of the directory, below the application's data directory, that
/// holds the recordings.
pub fn recordings_dir_name() -> (name: &'static str)
    ensures
        name@ == recordings_dir_text(),
{
    "recordings"
}

/// The file name of the recording that begins at `timestamp_ms`,
/// milliseconds since the epoch of the wall clock: `vad_`, the timestamp in
/// decimal, and `_0.wav`.
pub fn recording_file_name(timestamp_ms: u128) -> (name: String)
    ensures
        name@ == recording_name_text(timestamp_ms as nat),
{
    let mut name = String::from_str("vad_");
    push_decimal(&mut name, timestamp_ms);
    name.append("_0.wav");
    name
}

/// The format of the recordings of a session that samples at `sample_rate`:
/// one channel of 32-bit floating-point samples at that rate.
pub fn wav_format(sample_rate: u32) -> (format: WavFormat)
    ensures
        format == (WavFormat {
            channels: 1,
            sample_rate,
            bits_per_sample: 32,
            float_samples: true,
        }),
{
    WavFormat { channels: 1, sample_rate, bits_per_sample: 32, float_samples: true }
}

/// The bytes of sample data in a recording of `samples` samples.
pub fn sample_data_len(samples: u64) -> (bytes: u128)
    ensures
        bytes == data_bytes(samples as nat),
{
    let each: u128 = BYTES_PER_SAMPLE as u128;
    assert(each * samples == 4 * samples) by (nonlinear_arith)
        requires
            each == 4,
    ;
    each * (samples as u128)
}

} // verus!
