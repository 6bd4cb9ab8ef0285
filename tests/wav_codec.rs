use assidenter::wav::{decode_wav_header, encode_wav, WavHeader, WAV_HEADER_LEN};

fn u32_at(b: &[u8], i: usize) -> u32 {
    u32::from_le_bytes([b[i], b[i + 1], b[i + 2], b[i + 3]])
}

#[test]
fn encode_wav_writes_canonical_header() {
    let bytes = encode_wav(&[1, -1, 256], 16000);
    assert_eq!(bytes.len(), 44 + 6);
    assert_eq!(&bytes[0..4], b"RIFF");
    assert_eq!(u32_at(&bytes, 4), 42);
    assert_eq!(&bytes[8..12], b"WAVE");
    assert_eq!(&bytes[12..16], b"fmt ");
    assert_eq!(u32_at(&bytes, 16), 16);
    assert_eq!(&bytes[20..24], &[1, 0, 1, 0]);
    assert_eq!(u32_at(&bytes, 24), 16000);
    assert_eq!(u32_at(&bytes, 28), 32000);
    assert_eq!(&bytes[32..36], &[2, 0, 16, 0]);
    assert_eq!(&bytes[36..40], b"data");
    assert_eq!(u32_at(&bytes, 40), 6);
    assert_eq!(&bytes[44..], &[1, 0, 0xff, 0xff, 0, 1]);
}

#[test]
fn header_round_trip_recovers_format() {
    let samples: Vec<i16> = (0..100).map(|i| (i * 37 - 1000) as i16).collect();
    let bytes = encode_wav(&samples, 22050);
    assert_eq!(
        decode_wav_header(&bytes),
        Some(WavHeader { sample_rate: 22050, channels: 1, bits_per_sample: 16, data_len: 200 })
    );
    assert_eq!(u32_at(&bytes, 4) as usize, bytes.len() - 8);
}

#[test]
fn empty_buffer_is_header_only() {
    let bytes = encode_wav(&[], 44100);
    assert_eq!(bytes.len(), WAV_HEADER_LEN);
    assert_eq!(u32_at(&bytes, 40), 0);
    assert_eq!(u32_at(&bytes, 4), 36);
    assert_eq!(decode_wav_header(&bytes).map(|h| h.data_len), Some(0));
}

#[test]
fn decode_rejects_non_wav_bytes() {
    assert_eq!(decode_wav_header(&[0u8; 10]), None);
    let mut bytes = encode_wav(&[5, 6], 8000);
    bytes[8] = b'X';
    assert_eq!(decode_wav_header(&bytes), None);
}
