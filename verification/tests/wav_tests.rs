use audioscan::wav::decode_wav;
use audioscan::wav::WavError;

/// Builds the bytes of a minimal mono-capable WAV container by hand.
fn wav_bytes(channels: u16, rate: u32, bits: u16, format: u16, data: &[u8]) -> Vec<u8> {
    let mut b: Vec<u8> = Vec::new();
    b.extend_from_slice(b"RIFF");
    let riff_size = 36 + data.len() as u32;
    b.extend_from_slice(&riff_size.to_le_bytes());
    b.extend_from_slice(b"WAVE");
    b.extend_from_slice(b"fmt ");
    b.extend_from_slice(&16u32.to_le_bytes());
    b.extend_from_slice(&format.to_le_bytes());
    b.extend_from_slice(&channels.to_le_bytes());
    b.extend_from_slice(&rate.to_le_bytes());
    let byte_rate = rate * channels as u32 * (bits as u32 / 8);
    b.extend_from_slice(&byte_rate.to_le_bytes());
    let block_align = channels * (bits / 8);
    b.extend_from_slice(&block_align.to_le_bytes());
    b.extend_from_slice(&bits.to_le_bytes());
    b.extend_from_slice(b"data");
    b.extend_from_slice(&(data.len() as u32).to_le_bytes());
    b.extend_from_slice(data);
    b
}

fn pcm_data(samples: &[i16]) -> Vec<u8> {
    let mut d: Vec<u8> = Vec::new();
    for s in samples {
        d.extend_from_slice(&s.to_le_bytes());
    }
    d
}

#[test]
fn decode_valid_mono() {
    let samples: Vec<i16> = vec![0, 1000, -1000, 32767, -32768, 123];
    let b = wav_bytes(1, 16000, 16, 1, &pcm_data(&samples));
    let sig = decode_wav(&b).unwrap();
    assert_eq!(sig.sample_rate, 16000);
    assert_eq!(sig.samples, samples);
}

#[test]
fn decode_stereo_reads_interleaved_flat() {
    let samples: Vec<i16> = vec![10, -10, 20, -20];
    let b = wav_bytes(2, 44100, 16, 1, &pcm_data(&samples));
    let sig = decode_wav(&b).unwrap();
    assert_eq!(sig.sample_rate, 44100);
    assert_eq!(sig.samples, samples);
}

#[test]
fn decode_rejects_garbage() {
    let b: Vec<u8> = vec![1, 2, 3, 4, 5, 6, 7, 8, 9, 10, 11, 12, 13];
    assert_eq!(decode_wav(&b), Err(WavError::NotRiffWave));
    let short: Vec<u8> = b"RIFF".to_vec();
    assert_eq!(decode_wav(&short), Err(WavError::NotRiffWave));
}

#[test]
fn decode_rejects_missing_data_chunk() {
    let full = wav_bytes(1, 8000, 16, 1, &[]);
    // Cut the container off right before the data chunk header.
    let b = full[..36].to_vec();
    assert_eq!(decode_wav(&b), Err(WavError::MissingData));
}

#[test]
fn decode_rejects_data_before_format() {
    let mut b: Vec<u8> = Vec::new();
    b.extend_from_slice(b"RIFF");
    b.extend_from_slice(&8u32.to_le_bytes());
    b.extend_from_slice(b"WAVE");
    b.extend_from_slice(b"data");
    b.extend_from_slice(&0u32.to_le_bytes());
    assert_eq!(decode_wav(&b), Err(WavError::MissingFormat));
}

#[test]
fn decode_rejects_short_format_chunk() {
    let full = wav_bytes(1, 8000, 16, 1, &pcm_data(&[1, 2]));
    let mut b: Vec<u8> = Vec::new();
    b.extend_from_slice(&full[..16]);
    // Declare the format chunk two bytes short and drop its last two bytes.
    b.extend_from_slice(&14u32.to_le_bytes());
    b.extend_from_slice(&full[20..34]);
    b.extend_from_slice(&full[36..]);
    assert_eq!(decode_wav(&b), Err(WavError::TruncatedFormat));
}

#[test]
fn decode_rejects_float_encoding() {
    let b = wav_bytes(1, 8000, 16, 3, &pcm_data(&[1, 2]));
    assert_eq!(decode_wav(&b), Err(WavError::UnsupportedEncoding));
}

#[test]
fn decode_rejects_eight_bit_samples() {
    let b = wav_bytes(1, 8000, 8, 1, &[1, 2, 3, 4]);
    assert_eq!(decode_wav(&b), Err(WavError::UnsupportedEncoding));
}

#[test]
fn decode_rejects_zero_sample_rate() {
    let b = wav_bytes(1, 0, 16, 1, &pcm_data(&[1, 2]));
    assert_eq!(decode_wav(&b), Err(WavError::ZeroSampleRate));
}

#[test]
fn decode_half_sample_is_silence() {
    // Five data bytes: two complete samples and one half-present one.
    let b = wav_bytes(1, 8000, 16, 1, &[0x01, 0x02, 0x03, 0x04, 0x05]);
    let sig = decode_wav(&b).unwrap();
    assert_eq!(sig.samples, vec![0x0201, 0x0403, 0]);
}

#[test]
fn decode_clamps_overlong_data_declaration() {
    let mut b = wav_bytes(1, 8000, 16, 1, &pcm_data(&[7, -7]));
    // Declare far more data than the buffer holds.
    let at = b.len() - 8;
    b[at..at + 4].copy_from_slice(&1000u32.to_le_bytes());
    let sig = decode_wav(&b).unwrap();
    assert_eq!(sig.samples, vec![7, -7]);
}

#[test]
fn decode_skips_unknown_chunks_with_padding() {
    let mut b: Vec<u8> = Vec::new();
    let full = wav_bytes(1, 22050, 16, 1, &pcm_data(&[5, -5]));
    b.extend_from_slice(&full[..36]);
    // An unknown chunk with an odd body, padded to even length.
    b.extend_from_slice(b"LIST");
    b.extend_from_slice(&3u32.to_le_bytes());
    b.extend_from_slice(&[9, 9, 9, 0]);
    b.extend_from_slice(&full[36..]);
    let sig = decode_wav(&b).unwrap();
    assert_eq!(sig.sample_rate, 22050);
    assert_eq!(sig.samples, vec![5, -5]);
}

#[test]
fn decode_matches_reference_writer() {
    let spec = hound::WavSpec {
        channels: 1,
        sample_rate: 44100,
        bits_per_sample: 16,
        sample_format: hound::SampleFormat::Int,
    };
    let samples: Vec<i16> = (0..200).map(|i| (i * 131 - 13000) as i16).collect();
    let mut cursor = std::io::Cursor::new(Vec::new());
    {
        let mut writer = hound::WavWriter::new(&mut cursor, spec).unwrap();
        for s in &samples {
            writer.write_sample(*s).unwrap();
        }
        writer.finalize().unwrap();
    }
    let bytes = cursor.into_inner();
    let sig = decode_wav(&bytes).unwrap();
    assert_eq!(sig.sample_rate, 44100);
    assert_eq!(sig.samples, samples);
}
