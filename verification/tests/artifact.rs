use whispering::recorder::artifact::{
    recording_file_name, recordings_dir_name, sample_data_len, wav_format, WavFormat,
    BYTES_PER_SAMPLE,
};

#[test]
fn recordings_live_in_recordings() {
    assert_eq!(recordings_dir_name(), "recordings");
}

#[test]
fn file_name_holds_the_timestamp() {
    assert_eq!(recording_file_name(1_700_000_000_123), "vad_1700000000123_0.wav");
    assert_eq!(recording_file_name(0), "vad_0_0.wav");
    assert_eq!(recording_file_name(7), "vad_7_0.wav");
    assert_eq!(recording_file_name(10), "vad_10_0.wav");
    assert_eq!(recording_file_name(1009), "vad_1009_0.wav");
}

#[test]
fn file_name_of_the_largest_timestamp() {
    assert_eq!(
        recording_file_name(u128::MAX),
        "vad_340282366920938463463374607431768211455_0.wav"
    );
    assert_eq!(recording_file_name(u128::MAX), format!("vad_{}_{}.wav", u128::MAX, 0));
}

#[test]
fn file_names_agree_with_formatting() {
    let mut t: u128 = 1;
    let mut k: u32 = 0;
    while k < 120 {
        assert_eq!(recording_file_name(t), format!("vad_{}_{}.wav", t, 0));
        assert_eq!(recording_file_name(t - 1), format!("vad_{}_{}.wav", t - 1, 0));
        t = t * 2 + (k as u128 % 3);
        k += 1;
    }
}

#[test]
fn recordings_are_mono_32_bit_float() {
    assert_eq!(
        wav_format(16000),
        WavFormat { channels: 1, sample_rate: 16000, bits_per_sample: 32, float_samples: true }
    );
    assert_eq!(wav_format(48000).sample_rate, 48000);
    assert_eq!(wav_format(0).channels, 1);
}

#[test]
fn four_bytes_for_each_sample() {
    assert_eq!(BYTES_PER_SAMPLE, 4);
    assert_eq!(sample_data_len(0), 0);
    assert_eq!(sample_data_len(1), 4);
    assert_eq!(sample_data_len(512), 2048);
    assert_eq!(sample_data_len(16000), 64000);
    assert_eq!(sample_data_len(u64::MAX), 4 * (u64::MAX as u128));
}

#[test]
fn different_timestamps_give_different_names() {
    let stamps: [u128; 8] = [0, 1, 9, 10, 11, 100, 1_700_000_000_123, 1_700_000_000_124];
    for a in stamps {
        for b in stamps {
            assert_eq!(recording_file_name(a) == recording_file_name(b), a == b);
        }
    }
}
