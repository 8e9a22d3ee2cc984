use vstd::prelude::*;

verus! {

/// The two little-endian bytes of a 16-bit word.
pub open spec fn le_u16(x: u16) -> Seq<u8> {
    seq![(x % 256) as u8, (x / 256) as u8]
}

/// The four little-endian bytes of a 32-bit word.
pub open spec fn le_u32(x: u32) -> Seq<u8> {
    seq![
        (x % 256) as u8,
        ((x / 256) % 256) as u8,
        ((x / 65536) % 256) as u8,
        (x / 16777216) as u8,
    ]
}

/// The two's-complement bit pattern of a signed sample.
pub open spec fn sample_bits(s: i16) -> u16 {
    if s >= 0 {
        s as u16
    } else {
        (s + 65536) as u16
    }
}

/// A 32-bit product that stops at `u32::MAX` instead of wrapping.
pub open spec fn saturate_u32(x: int) -> u32 {
    if x > u32::MAX {
        u32::MAX
    } else {
        x as u32
    }
}

/// The byte-rate field of a mono 16-bit stream.
pub open spec fn byte_rate_of(sample_rate_hz: u32) -> u32 {
    saturate_u32(2 * sample_rate_hz)
}

/// The largest number of samples whose byte count the 32-bit RIFF size field can hold.
pub const MAX_WAV_SAMPLES: usize = 2147483629;

/// The 44-byte RIFF/WAVE header of a PCM, mono, 16-bit stream of `n` samples.
pub open spec fn wav_header(n: nat, sample_rate_hz: u32) -> Seq<u8> {
    seq![82u8, 73, 70, 70] + le_u32((36 + 2 * n) as u32) + seq![87u8, 65, 86, 69]
        + seq![102u8, 109, 116, 32] + le_u32(16) + le_u16(1) + le_u16(1) + le_u32(
        sample_rate_hz,
    ) + le_u32(byte_rate_of(sample_rate_hz)) + le_u16(2) + le_u16(16) + seq![
        100u8,
        97,
        116,
        97,
    ] + le_u32((2 * n) as u32)
}

/// The samples, each as two little-endian bytes, in order.
pub open spec fn pcm_bytes(samples: Seq<i16>) -> Seq<u8>
    decreases samples.len(),
{
    if samples.len() == 0 {
        Seq::empty()
    } else {
        pcm_bytes(samples.drop_last()) + le_u16(sample_bits(samples.last()))
    }
}

/// The whole container: header, then sample data.
pub open spec fn wav_bytes(samples: Seq<i16>, sample_rate_hz: u32) -> Seq<u8> {
    wav_header(samples.len(), sample_rate_hz) + pcm_bytes(samples)
}

pub proof fn lemma_pcm_bytes_len(samples: Seq<i16>)
    ensures
        pcm_bytes(samples).len() == 2 * samples.len(),
    decreases samples.len(),
{
    if samples.len() > 0 {
        lemma_pcm_bytes_len(samples.drop_last());
    }
}

fn push_u16_le(out: &mut Vec<u8>, x: u16)
    ensures
        final(out)@ == old(out)@ + le_u16(x),
{
    out.push((x % 256) as u8);
    out.push((x / 256) as u8);
    assert(final(out)@ =~= old(out)@ + le_u16(x));
}

fn push_u32_le(out: &mut Vec<u8>, x: u32)
    ensures
        final(out)@ == old(out)@ + le_u32(x),
{
    out.push((x % 256) as u8);
    out.push(((x / 256) % 256) as u8);
    out.push(((x / 65536) % 256) as u8);
    out.push((x / 16777216) as u8);
    assert(final(out)@ =~= old(out)@ + le_u32(x));
}

fn push_tag(out: &mut Vec<u8>, a: u8, b: u8, c: u8, d: u8)
    ensures
        final(out)@ == old(out)@ + seq![a, b, c, d],
{
    out.push(a);
    out.push(b);
    out.push(c);
    out.push(d);
    assert(final(out)@ =~= old(out)@ + seq![a, b, c, d]);
}

/// Encodes mono 16-bit samples as a RIFF/WAVE container: format tag 1, one
/// channel, the given sample rate, byte rate `2 * rate` (saturating), block
/// align 2, 16 bits per sample, then the samples little-endian.
pub fn encode_wav_pcm16_mono(samples: &[i16], sample_rate_hz: u32) -> (r: Vec<u8>)
    requires
        samples@.len() <= MAX_WAV_SAMPLES,
    ensures
        r@ == wav_bytes(samples@, sample_rate_hz),
        r@.len() == 44 + 2 * samples@.len(),
{
    let n: usize = samples.len();
    let data_len_bytes: u32 = (n as u32) * 2;
    let riff_len_minus_8: u32 = 36 + data_len_bytes;
    let byte_rate: u32 = if sample_rate_hz > 2147483647 {
        u32::MAX
    } else {
        sample_rate_hz * 2
    };
    let mut out: Vec<u8> = Vec::new();
    push_tag(&mut out, 82, 73, 70, 70);
    push_u32_le(&mut out, riff_len_minus_8);
    push_tag(&mut out, 87, 65, 86, 69);
    push_tag(&mut out, 102, 109, 116, 32);
    push_u32_le(&mut out, 16);
    push_u16_le(&mut out, 1);
    push_u16_le(&mut out, 1);
    push_u32_le(&mut out, sample_rate_hz);
    push_u32_le(&mut out, byte_rate);
    push_u16_le(&mut out, 2);
    push_u16_le(&mut out, 16);
    push_tag(&mut out, 100, 97, 116, 97);
    push_u32_le(&mut out, data_len_bytes);
    assert(out@ =~= wav_header(n as nat, sample_rate_hz));
    let ghost header = out@;
    let mut i: usize = 0;
    while i < n
        invariant
            0 <= i <= n,
            n == samples@.len(),
            header == wav_header(n as nat, sample_rate_hz),
            out@ == header + pcm_bytes(samples@.subrange(0, i as int)),
        decreases n - i,
    {
        let s: i16 = samples[i];
        let bits: u16 = if s >= 0 {
            s as u16
        } else {
            (s as i32 + 65536) as u16
        };
        push_u16_le(&mut out, bits);
        proof {
            let pre = samples@.subrange(0, i as int);
            let post = samples@.subrange(0, i + 1);
            assert(post.drop_last() =~= pre);
            assert(post.last() == s);
            assert(out@ =~= header + pcm_bytes(post));
        }
        i = i + 1;
    }
    proof {
        assert(samples@.subrange(0, n as int) =~= samples@);
        lemma_pcm_bytes_len(samples@);
    }
    out
}

} // verus!
