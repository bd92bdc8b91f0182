use std::io::Cursor;

use whispering::recorder::artifact::{sample_data_len, wav_format};
use whispering::recorder::chunker::{FrameBuffer, CHUNK_SIZE};
use whispering::recorder::gating::{GatedRecorder, RecorderAction};

fn spec_of(sample_rate: u32) -> hound::WavSpec {
    let format = wav_format(sample_rate);
    hound::WavSpec {
        channels: format.channels,
        sample_rate: format.sample_rate,
        bits_per_sample: format.bits_per_sample,
        sample_format: if format.float_samples {
            hound::SampleFormat::Float
        } else {
            hound::SampleFormat::Int
        },
    }
}

#[test]
fn format_is_one_that_the_writer_takes() {
    let mut bytes: Vec<u8> = Vec::new();
    let writer = hound::WavWriter::new(Cursor::new(&mut bytes), spec_of(16000));
    assert!(writer.is_ok());
    writer.unwrap().finalize().unwrap();
    let reader = hound::WavReader::new(Cursor::new(&bytes)).unwrap();
    assert_eq!(reader.spec().channels, 1);
    assert_eq!(reader.spec().sample_rate, 16000);
    assert_eq!(reader.spec().bits_per_sample, 32);
    assert_eq!(reader.spec().sample_format, hound::SampleFormat::Float);
    assert_eq!(reader.len(), 0);
}

#[test]
fn recorded_file_holds_four_bytes_for_each_counted_sample() {
    // 16 kHz, chunks of 512 samples: 32 ms each. Speech in chunks 1 to 10,
    // silence after; the timeout is 800 ms.
    let threshold: f32 = 0.5;
    let mut recorder = GatedRecorder::new(threshold.to_bits(), Some(800));
    let mut buffer: FrameBuffer<f32> = FrameBuffer::new(CHUNK_SIZE).unwrap();

    let mut empty_file: Vec<u8> = Vec::new();
    hound::WavWriter::new(Cursor::new(&mut empty_file), spec_of(16000))
        .unwrap()
        .finalize()
        .unwrap();
    let header_len: usize = empty_file.len();

    let mut file: Vec<u8> = Vec::new();
    let mut written: Vec<f32> = Vec::new();
    let mut closed: Option<u64> = None;
    {
        let mut writer: Option<hound::WavWriter<Cursor<&mut Vec<u8>>>> = None;
        let mut target = Some(&mut file);
        let mut chunk_number: u64 = 0;
        // Callbacks of 480 samples, as a device with 30 ms buffers gives them.
        let mut callback: u32 = 0;
        while callback < 64 {
            let mut data: Vec<f32> = Vec::new();
            let mut k: u32 = 0;
            while k < 480 {
                data.push(((callback * 480 + k) as f32) / 65536.0);
                k += 1;
            }
            buffer.extend(&data);
            while let Some(chunk) = buffer.next_chunk() {
                chunk_number += 1;
                let probability: f32 = if chunk_number <= 10 { 0.9 } else { 0.1 };
                let now: u64 = chunk_number * 32_000_000;
                match recorder.observe(probability.to_bits(), now) {
                    RecorderAction::OpenWriter => {
                        let place = target.take().unwrap();
                        writer = Some(
                            hound::WavWriter::new(Cursor::new(place), spec_of(16000)).unwrap(),
                        );
                        assert!(recorder.writer_opened(String::from("memory.wav")));
                    }
                    RecorderAction::CloseWriter { path, samples } => {
                        assert_eq!(path, "memory.wav");
                        writer.take().unwrap().finalize().unwrap();
                        closed = Some(samples);
                    }
                    RecorderAction::Hold => {}
                }
                if recorder.is_capturing() {
                    let open = writer.as_mut().unwrap();
                    for sample in &chunk {
                        open.write_sample(*sample).unwrap();
                        written.push(*sample);
                    }
                    recorder.samples_appended(chunk.len());
                }
            }
            callback += 1;
        }
    }

    // Chunks 1 to 34 belong to the recording: ten of speech, 24 of silence.
    let samples: u64 = closed.unwrap();
    assert_eq!(samples, 34 * 512);
    assert_eq!(written.len() as u64, samples);
    assert_eq!(file.len() as u128, header_len as u128 + sample_data_len(samples));

    let mut reader = hound::WavReader::new(Cursor::new(&file)).unwrap();
    assert_eq!(reader.len() as u64, samples);
    assert_eq!(reader.spec().sample_rate, 16000);
    let read: Vec<f32> = reader.samples::<f32>().map(|s| s.unwrap()).collect();
    assert_eq!(read.len(), written.len());
    let mut i: usize = 0;
    while i < read.len() {
        assert_eq!(read[i].to_bits(), written[i].to_bits());
        // The samples are those of the stream, in order, from its start.
        assert_eq!(read[i].to_bits(), ((i as f32) / 65536.0).to_bits());
        i += 1;
    }
}
