use yada_core::wav::encode_wav_pcm16_mono;

fn u32_at(b: &[u8], i: usize) -> u32 {
    u32::from_le_bytes([b[i], b[i + 1], b[i + 2], b[i + 3]])
}

fn u16_at(b: &[u8], i: usize) -> u16 {
    u16::from_le_bytes([b[i], b[i + 1]])
}

#[test]
fn empty_recording_header() {
    let w = encode_wav_pcm16_mono(&[], 16000);
    assert_eq!(w.len(), 44);
    assert_eq!(&w[0..4], b"RIFF");
    assert_eq!(u32_at(&w, 4), 36);
    assert_eq!(&w[8..12], b"WAVE");
    assert_eq!(&w[12..16], b"fmt ");
    assert_eq!(u32_at(&w, 16), 16);
    assert_eq!(u16_at(&w, 20), 1);
    assert_eq!(u16_at(&w, 22), 1);
    assert_eq!(u32_at(&w, 24), 16000);
    assert_eq!(u32_at(&w, 28), 32000);
    assert_eq!(u16_at(&w, 32), 2);
    assert_eq!(u16_at(&w, 34), 16);
    assert_eq!(&w[36..40], b"data");
    assert_eq!(u32_at(&w, 40), 0);
}

#[test]
fn four_samples_length_and_byte_rate() {
    let w = encode_wav_pcm16_mono(&[100, -100, 32767, -32768], 8000);
    assert_eq!(w.len(), 44 + 8);
    assert_eq!(u32_at(&w, 28), 16000);
    assert_eq!(u32_at(&w, 24), 8000);
    assert_eq!(u32_at(&w, 40), 8);
    assert_eq!(u32_at(&w, 4), 44);
    assert_eq!(&w[44..], &[100, 0, 156, 255, 255, 127, 0, 128]);
}

#[test]
fn byte_rate_saturates() {
    let w = encode_wav_pcm16_mono(&[1], u32::MAX);
    assert_eq!(u32_at(&w, 24), u32::MAX);
    assert_eq!(u32_at(&w, 28), u32::MAX);
}
