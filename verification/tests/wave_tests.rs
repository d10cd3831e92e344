use speech_relay::track::AudioTrack;
use speech_relay::wave::{decode, DecodeError};

fn chunk(tag: &[u8; 4], body: &[u8]) -> Vec<u8> {
    let mut out = Vec::new();
    out.extend_from_slice(tag);
    out.extend_from_slice(&(body.len() as u32).to_le_bytes());
    out.extend_from_slice(body);
    if body.len() % 2 == 1 {
        out.push(0);
    }
    out
}

fn format_body(encoding: u16, channels: u16, rate: u32, frame: u16, bits: u16) -> Vec<u8> {
    let mut out = Vec::new();
    out.extend_from_slice(&encoding.to_le_bytes());
    out.extend_from_slice(&channels.to_le_bytes());
    out.extend_from_slice(&rate.to_le_bytes());
    out.extend_from_slice(&(rate * frame as u32).to_le_bytes());
    out.extend_from_slice(&frame.to_le_bytes());
    out.extend_from_slice(&bits.to_le_bytes());
    out
}

fn container(chunks: &[Vec<u8>]) -> Vec<u8> {
    let mut body = Vec::new();
    body.extend_from_slice(b"WAVE");
    for c in chunks {
        body.extend_from_slice(c);
    }
    let mut out = Vec::new();
    out.extend_from_slice(b"RIFF");
    out.extend_from_slice(&(body.len() as u32).to_le_bytes());
    out.extend_from_slice(&body);
    out
}

fn sample_bytes(samples: &[i16]) -> Vec<u8> {
    let mut out = Vec::new();
    for s in samples {
        out.extend_from_slice(&s.to_le_bytes());
    }
    out
}

fn mono(samples: &[i16]) -> Vec<u8> {
    container(&[
        chunk(b"fmt ", &format_body(1, 1, 24000, 2, 16)),
        chunk(b"data", &sample_bytes(samples)),
    ])
}

#[test]
fn decodes_a_plain_mono_waveform() {
    let bytes = mono(&[0, 1, -1, 32767, -32768, 258]);
    assert_eq!(bytes.len(), 44 + 12);
    assert_eq!(
        decode(&bytes),
        Ok(AudioTrack {
            sample_rate: 24000,
            channels: 1,
            samples: vec![0, 1, -1, 32767, -32768, 258],
        })
    );
}

#[test]
fn decodes_exact_bytes_written_by_hand() {
    let bytes: Vec<u8> = vec![
        0x52, 0x49, 0x46, 0x46, 40, 0, 0, 0, 0x57, 0x41, 0x56, 0x45, // RIFF, 40, WAVE
        0x66, 0x6d, 0x74, 0x20, 16, 0, 0, 0, // fmt, 16
        1, 0, 1, 0, 0x80, 0x3e, 0, 0, 0, 0x7d, 0, 0, 2, 0, 16, 0, // PCM, mono, 16000 Hz
        0x64, 0x61, 0x74, 0x61, 4, 0, 0, 0, // data, 4
        0x34, 0x12, 0xff, 0xff,
    ];
    assert_eq!(
        decode(&bytes),
        Ok(AudioTrack { sample_rate: 16000, channels: 1, samples: vec![0x1234, -1] })
    );
}

#[test]
fn decodes_stereo_frames_interleaved() {
    let bytes = container(&[
        chunk(b"fmt ", &format_body(1, 2, 48000, 4, 16)),
        chunk(b"data", &sample_bytes(&[10, -10, 20, -20])),
    ]);
    assert_eq!(
        decode(&bytes),
        Ok(AudioTrack { sample_rate: 48000, channels: 2, samples: vec![10, -10, 20, -20] })
    );
}

#[test]
fn decodes_an_empty_data_chunk() {
    assert_eq!(
        decode(&mono(&[])),
        Ok(AudioTrack { sample_rate: 24000, channels: 1, samples: vec![] })
    );
}

#[test]
fn passes_over_other_chunks_and_their_padding() {
    let bytes = container(&[
        chunk(b"LIST", b"abc"),
        chunk(b"fmt ", &format_body(1, 1, 8000, 2, 16)),
        chunk(b"fact", &[1, 2, 3, 4, 5]),
        chunk(b"data", &sample_bytes(&[7, 8])),
        chunk(b"data", &sample_bytes(&[9])),
    ]);
    assert_eq!(
        decode(&bytes),
        Ok(AudioTrack { sample_rate: 8000, channels: 1, samples: vec![7, 8] })
    );
}

#[test]
fn data_chunk_may_come_before_the_format() {
    let bytes = container(&[
        chunk(b"data", &sample_bytes(&[5])),
        chunk(b"fmt ", &format_body(1, 1, 8000, 2, 16)),
    ]);
    assert_eq!(
        decode(&bytes),
        Ok(AudioTrack { sample_rate: 8000, channels: 1, samples: vec![5] })
    );
}

#[test]
fn bytes_behind_the_declared_end_are_ignored() {
    let mut bytes = mono(&[3, 4]);
    bytes.extend_from_slice(b"datajunkjunk");
    assert_eq!(
        decode(&bytes),
        Ok(AudioTrack { sample_rate: 24000, channels: 1, samples: vec![3, 4] })
    );
}

#[test]
fn longer_format_chunk_is_accepted() {
    let mut body = format_body(1, 1, 24000, 2, 16);
    body.extend_from_slice(&[0, 0]);
    let bytes = container(&[chunk(b"fmt ", &body), chunk(b"data", &sample_bytes(&[1]))]);
    assert_eq!(
        decode(&bytes),
        Ok(AudioTrack { sample_rate: 24000, channels: 1, samples: vec![1] })
    );
}

#[test]
fn too_short_buffers_are_rejected() {
    assert_eq!(decode(&[]), Err(DecodeError::TooShort));
    assert_eq!(decode(b"RIFF"), Err(DecodeError::TooShort));
    assert_eq!(decode(&mono(&[1])[..11]), Err(DecodeError::TooShort));
}

#[test]
fn wrong_magic_is_rejected() {
    let mut bytes = mono(&[1]);
    bytes[0] = b'X';
    assert_eq!(decode(&bytes), Err(DecodeError::NotRiff));
    let mut bytes = mono(&[1]);
    bytes[3] = b'X';
    assert_eq!(decode(&bytes), Err(DecodeError::NotRiff));
}

#[test]
fn wrong_form_type_is_rejected() {
    let mut bytes = mono(&[1]);
    bytes[8..12].copy_from_slice(b"AVI ");
    assert_eq!(decode(&bytes), Err(DecodeError::NotWave));
}

#[test]
fn every_truncation_is_rejected() {
    let bytes = mono(&[1, 2, 3, 4]);
    for keep in 0..bytes.len() {
        let expected = if keep < 12 { DecodeError::TooShort } else { DecodeError::Truncated };
        assert_eq!(decode(&bytes[..keep]), Err(expected), "cut at {}", keep);
    }
    assert!(decode(&bytes).is_ok());
}

#[test]
fn missing_format_chunk_is_rejected() {
    let bytes = container(&[chunk(b"data", &sample_bytes(&[1]))]);
    assert_eq!(decode(&bytes), Err(DecodeError::MissingFormat));
    assert_eq!(decode(&container(&[])), Err(DecodeError::MissingFormat));
}

#[test]
fn declared_size_below_the_form_type_is_rejected() {
    let mut bytes = mono(&[1]);
    bytes[4..8].copy_from_slice(&0u32.to_le_bytes());
    assert_eq!(decode(&bytes), Err(DecodeError::MissingFormat));
}

#[test]
fn short_format_chunk_is_rejected() {
    let bytes = container(&[
        chunk(b"fmt ", &format_body(1, 1, 24000, 2, 16)[..14]),
        chunk(b"data", &sample_bytes(&[1])),
    ]);
    assert_eq!(decode(&bytes), Err(DecodeError::MalformedFormat));
}

#[test]
fn format_chunk_past_the_end_is_rejected() {
    let mut bytes = container(&[chunk(b"fmt ", &format_body(1, 1, 24000, 2, 16))]);
    bytes[16..20].copy_from_slice(&17u32.to_le_bytes());
    assert_eq!(decode(&bytes), Err(DecodeError::MalformedFormat));
}

#[test]
fn other_encodings_are_rejected() {
    let bytes = container(&[
        chunk(b"fmt ", &format_body(3, 1, 24000, 2, 16)),
        chunk(b"data", &sample_bytes(&[1])),
    ]);
    assert_eq!(decode(&bytes), Err(DecodeError::UnsupportedEncoding));
}

#[test]
fn other_channel_counts_are_rejected() {
    for channels in [0u16, 3, 6] {
        let bytes = container(&[
            chunk(b"fmt ", &format_body(1, channels, 24000, 2 * channels, 16)),
            chunk(b"data", &[]),
        ]);
        assert_eq!(decode(&bytes), Err(DecodeError::UnsupportedChannels));
    }
}

#[test]
fn zero_sample_rate_is_rejected() {
    let bytes = container(&[
        chunk(b"fmt ", &format_body(1, 1, 0, 2, 16)),
        chunk(b"data", &sample_bytes(&[1])),
    ]);
    assert_eq!(decode(&bytes), Err(DecodeError::InvalidSampleRate));
}

#[test]
fn other_sample_widths_are_rejected() {
    for bits in [8u16, 24, 32] {
        let bytes = container(&[
            chunk(b"fmt ", &format_body(1, 1, 24000, bits / 8, bits)),
            chunk(b"data", &[]),
        ]);
        assert_eq!(decode(&bytes), Err(DecodeError::UnsupportedSampleWidth));
    }
}

#[test]
fn wrong_frame_size_is_rejected() {
    let bytes = container(&[
        chunk(b"fmt ", &format_body(1, 2, 24000, 2, 16)),
        chunk(b"data", &sample_bytes(&[1, 2])),
    ]);
    assert_eq!(decode(&bytes), Err(DecodeError::InconsistentLayout));
}

#[test]
fn missing_data_chunk_is_rejected() {
    let bytes = container(&[chunk(b"fmt ", &format_body(1, 1, 24000, 2, 16))]);
    assert_eq!(decode(&bytes), Err(DecodeError::MissingData));
}

#[test]
fn data_chunk_past_the_end_is_rejected() {
    let mut bytes = mono(&[1, 2]);
    bytes[40..44].copy_from_slice(&6u32.to_le_bytes());
    assert_eq!(decode(&bytes), Err(DecodeError::TruncatedData));
}

#[test]
fn partial_frames_are_rejected() {
    let bytes = container(&[
        chunk(b"fmt ", &format_body(1, 2, 24000, 4, 16)),
        chunk(b"data", &sample_bytes(&[1, 2, 3])),
    ]);
    assert_eq!(decode(&bytes), Err(DecodeError::PartialFrame));
    let bytes = container(&[
        chunk(b"fmt ", &format_body(1, 1, 24000, 2, 16)),
        chunk(b"data", &[1, 2, 3]),
    ]);
    assert_eq!(decode(&bytes), Err(DecodeError::PartialFrame));
}

#[test]
fn chunk_that_overruns_hides_what_follows() {
    let mut bytes = container(&[
        chunk(b"fmt ", &format_body(1, 1, 24000, 2, 16)),
        chunk(b"junk", &[0, 0]),
        chunk(b"data", &sample_bytes(&[1])),
    ]);
    bytes[40..44].copy_from_slice(&1000u32.to_le_bytes());
    assert_eq!(decode(&bytes), Err(DecodeError::MissingData));
}
