use hotkey_dictation::{convert_i16, convert_u16, CaptureError, EncoderHandle, SampleSpec};

fn mono_16k() -> SampleSpec {
    SampleSpec { channels: 1, sample_rate: 16000 }
}

fn le_u16(bytes: &[u8], at: usize) -> u16 {
    u16::from_le_bytes([bytes[at], bytes[at + 1]])
}

fn le_u32(bytes: &[u8], at: usize) -> u32 {
    u32::from_le_bytes([bytes[at], bytes[at + 1], bytes[at + 2], bytes[at + 3]])
}

#[test]
fn unsigned_samples_shift_to_signed() {
    assert_eq!(convert_u16(0), -32768);
    assert_eq!(convert_u16(32768), 0);
    assert_eq!(convert_u16(65535), 32767);
    assert_eq!(convert_u16(40000), 7232);
}

#[test]
fn signed_samples_pass_through() {
    assert_eq!(convert_i16(-5), -5);
    assert_eq!(convert_i16(i16::MAX), i16::MAX);
}

#[test]
fn appended_samples_keep_count_and_order() {
    let mut handle = EncoderHandle::new(mono_16k()).unwrap();
    handle.append_u16(&[0, 65535, 32768]).unwrap();
    handle.append_i16(&[7, -7]).unwrap();
    handle.append_u16(&[]).unwrap();
    assert_eq!(handle.samples(), &[-32768, 32767, 0, 7, -7]);
    assert_eq!(handle.sample_count(), 5);
}

#[test]
fn invalid_spec_is_refused() {
    let zero_channels = SampleSpec { channels: 0, sample_rate: 16000 };
    assert_eq!(EncoderHandle::new(zero_channels).err(), Some(CaptureError::StreamBuildFailed));
    let zero_rate = SampleSpec { channels: 1, sample_rate: 0 };
    assert_eq!(EncoderHandle::new(zero_rate).err(), Some(CaptureError::StreamBuildFailed));
    let too_fast = SampleSpec { channels: 2, sample_rate: u32::MAX };
    assert_eq!(EncoderHandle::new(too_fast).err(), Some(CaptureError::StreamBuildFailed));
}

#[test]
fn empty_session_is_header_only() {
    let handle = EncoderHandle::new(mono_16k()).unwrap();
    let artifact = handle.finalize().unwrap();
    assert_eq!(artifact.sample_count, 0);
    assert_eq!(artifact.byte_len, 44);
    assert_eq!(artifact.bytes.len(), 44);
    assert_eq!(le_u32(&artifact.bytes, 4), 36);
    assert_eq!(le_u32(&artifact.bytes, 40), 0);
    assert!(artifact.is_empty());
}

#[test]
fn finalized_length_is_header_plus_two_bytes_per_sample() {
    let mut handle = EncoderHandle::new(mono_16k()).unwrap();
    let block: Vec<i16> = (0..100).map(|i| i as i16 * 3 - 150).collect();
    handle.append_i16(&block).unwrap();
    let artifact = handle.finalize().unwrap();
    assert_eq!(artifact.sample_count, 100);
    assert_eq!(artifact.byte_len, 44 + 200);
    assert_eq!(artifact.bytes.len(), 44 + 200);
    assert_eq!(&artifact.bytes[0..4], b"RIFF");
    assert_eq!(&artifact.bytes[8..12], b"WAVE");
    assert_eq!(le_u32(&artifact.bytes, 4), 36 + 200);
    assert_eq!(&artifact.bytes[12..16], b"fmt ");
    assert_eq!(le_u32(&artifact.bytes, 16), 16);
    assert_eq!(le_u16(&artifact.bytes, 20), 1);
    assert_eq!(le_u16(&artifact.bytes, 22), 1);
    assert_eq!(le_u32(&artifact.bytes, 24), 16000);
    assert_eq!(le_u32(&artifact.bytes, 28), 32000);
    assert_eq!(le_u16(&artifact.bytes, 32), 2);
    assert_eq!(le_u16(&artifact.bytes, 34), 16);
    assert_eq!(&artifact.bytes[36..40], b"data");
    assert_eq!(le_u32(&artifact.bytes, 40), 200);
    assert_eq!(i16::from_le_bytes([artifact.bytes[44], artifact.bytes[45]]), -150);
    assert_eq!(i16::from_le_bytes([artifact.bytes[242], artifact.bytes[243]]), 147);
}

#[test]
fn stereo_header_is_plain_pcm() {
    let mut handle = EncoderHandle::new(SampleSpec { channels: 2, sample_rate: 44100 }).unwrap();
    handle.append_i16(&[1, 2, 3, 4]).unwrap();
    let artifact = handle.finalize().unwrap();
    assert_eq!(artifact.byte_len, 52);
    assert_eq!(artifact.bytes.len(), 52);
    assert_eq!(le_u16(&artifact.bytes, 22), 2);
    assert_eq!(le_u32(&artifact.bytes, 28), 44100 * 4);
    assert_eq!(le_u16(&artifact.bytes, 32), 4);
    assert_eq!(le_u32(&artifact.bytes, 40), 8);
    assert_eq!(le_u16(&artifact.bytes, 50), 4);
}

#[test]
fn many_channels_use_the_extensible_header() {
    let mut handle = EncoderHandle::new(SampleSpec { channels: 4, sample_rate: 48000 }).unwrap();
    handle.append_i16(&[1, 2, 3, 4, 5, 6, 7, 8]).unwrap();
    let artifact = handle.finalize().unwrap();
    assert_eq!(artifact.byte_len, 68 + 16);
    assert_eq!(artifact.bytes.len(), 68 + 16);
    assert_eq!(le_u32(&artifact.bytes, 4), 60 + 16);
    assert_eq!(le_u32(&artifact.bytes, 16), 40);
    assert_eq!(le_u16(&artifact.bytes, 20), 0xfffe);
    assert_eq!(le_u16(&artifact.bytes, 22), 4);
    assert_eq!(le_u32(&artifact.bytes, 24), 48000);
    assert_eq!(le_u32(&artifact.bytes, 40), 0xf);
    assert_eq!(&artifact.bytes[60..64], b"data");
    assert_eq!(le_u32(&artifact.bytes, 64), 16);
    assert_eq!(le_u16(&artifact.bytes, 68), 1);
}

#[test]
fn partial_frame_fails_to_finalize() {
    let mut handle = EncoderHandle::new(SampleSpec { channels: 2, sample_rate: 8000 }).unwrap();
    handle.append_i16(&[1, 2, 3]).unwrap();
    assert_eq!(handle.finalize().err(), Some(CaptureError::UnfinishedFrame));
}

#[test]
fn negative_samples_are_twos_complement_little_endian() {
    let mut handle = EncoderHandle::new(mono_16k()).unwrap();
    handle.append_i16(&[-1, -32768, 258]).unwrap();
    let artifact = handle.finalize().unwrap();
    assert_eq!(&artifact.bytes[44..], &[0xff, 0xff, 0x00, 0x80, 0x02, 0x01]);
}
