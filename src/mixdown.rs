use vstd::prelude::*;

verus! {

/// Channel count as used for framing: a count of zero is taken as one.
pub open spec fn frame_width(channels: u16) -> nat {
    if channels == 0 {
        1
    } else {
        channels as nat
    }
}

/// Division of a signed value that rounds toward zero, as integer and
/// float-to-integer casts do.
pub open spec fn div_toward_zero(a: int, b: int) -> int {
    if a >= 0 {
        a / b
    } else {
        -((-a) / b)
    }
}

pub open spec fn clamp(x: int, lo: int, hi: int) -> int {
    if x < lo {
        lo
    } else if x > hi {
        hi
    } else {
        x
    }
}

/// Sum of the `n` signed samples starting at `start`.
pub open spec fn sum_i16(data: Seq<i16>, start: int, n: nat) -> int
    decreases n,
{
    if n == 0 {
        0
    } else {
        sum_i16(data, start, (n - 1) as nat) + data[start + n - 1] as int
    }
}

/// Sum of the `n` unsigned samples starting at `start`.
pub open spec fn sum_u16(data: Seq<u16>, start: int, n: nat) -> int
    decreases n,
{
    if n == 0 {
        0
    } else {
        sum_u16(data, start, (n - 1) as nat) + data[start + n - 1] as int
    }
}

/// Mono value of a signed frame: the channel average, rounded toward zero and
/// clamped to the 16-bit signed range.
pub open spec fn mono_of_i16_frame(sum: int, width: nat) -> i16 {
    clamp(div_toward_zero(sum, width as int), -32768, 32767) as i16
}

/// Mono value of an unsigned frame. Each sample `s` maps to `2 * s / 65535 - 1`
/// in `[-1, 1]`; the average of those, clamped to `[-1, 1]` and scaled by 32767,
/// is `(2 * sum - 65535 * width) * 32767 / (65535 * width)`, rounded toward zero.
pub open spec fn mono_of_u16_frame(sum: int, width: nat) -> i16 {
    clamp(
        div_toward_zero((2 * sum - 65535 * width) * 32767, 65535 * (width as int)),
        -32767,
        32767,
    ) as i16
}

/// The mono stream of interleaved signed samples: one value per whole frame;
/// a trailing partial frame is dropped. A single channel passes through.
pub open spec fn mix_i16(data: Seq<i16>, channels: u16) -> Seq<i16> {
    let w = frame_width(channels);
    Seq::new(data.len() / w, |f: int| mono_of_i16_frame(sum_i16(data, f * w, w), w))
}

/// The mono stream of interleaved unsigned samples, one value per whole frame.
pub open spec fn mix_u16(data: Seq<u16>, channels: u16) -> Seq<i16> {
    let w = frame_width(channels);
    Seq::new(data.len() / w, |f: int| mono_of_u16_frame(sum_u16(data, f * w, w), w))
}

proof fn lemma_frame_in_bounds(f: int, w: int, k: int, frames: int, len: int)
    requires
        0 <= f < frames,
        0 <= k < w,
        frames == len / w,
        w >= 1,
    ensures
        0 <= f * w + k < len,
        0 <= f * w,
{
    assert(0 <= f * w) by (nonlinear_arith)
        requires
            0 <= f,
            w >= 1,
    ;
    assert(f * w + k < len) by (nonlinear_arith)
        requires
            0 <= f < frames,
            0 <= k < w,
            frames == len / w,
            w >= 1,
    ;
}

/// Appends to `buf` the mono form of a block of interleaved signed 16-bit
/// samples with `channels` channels.
pub fn push_interleaved_i16_mono(buf: &mut Vec<i16>, data: &[i16], channels: u16)
    ensures
        final(buf)@ == old(buf)@ + mix_i16(data@, channels),
{
    let w: usize = if channels == 0 {
        1
    } else {
        channels as usize
    };
    let len: usize = data.len();
    let frames: usize = len / w;
    let ghost w_n: nat = frame_width(channels);
    let mut f: usize = 0;
    while f < frames
        invariant
            w == w_n,
            w_n == frame_width(channels),
            1 <= w <= 65535,
            len == data@.len(),
            frames == data@.len() / w_n,
            0 <= f <= frames,
            buf@ == old(buf)@ + mix_i16(data@, channels).subrange(0, f as int),
        decreases frames - f,
    {
        let mut acc: i64 = 0;
        let mut k: usize = 0;
        proof {
            lemma_frame_in_bounds(f as int, w as int, 0, frames as int, data@.len() as int);
        }
        let start: usize = f * w;
        while k < w
            invariant
                1 <= w <= 65535,
                len == data@.len(),
                frames == data@.len() / (w as nat),
                0 <= f < frames,
                start == f * w,
                0 <= k <= w,
                acc == sum_i16(data@, start as int, k as nat),
                -32768 * k <= acc <= 32767 * k,
            decreases w - k,
        {
            proof {
                lemma_frame_in_bounds(f as int, w as int, k as int, frames as int, data@.len() as int);
            }
            acc = acc + data[start + k] as i64;
            k = k + 1;
        }
        let wi: i64 = w as i64;
        let avg: i64 = if acc >= 0 {
            acc / wi
        } else {
            -((-acc) / wi)
        };
        let v: i16 = if avg < -32768 {
            -32768
        } else if avg > 32767 {
            32767
        } else {
            avg as i16
        };
        buf.push(v);
        proof {
            assert(v == mix_i16(data@, channels)[f as int]);
            assert(buf@ =~= old(buf)@ + mix_i16(data@, channels).subrange(0, f + 1));
        }
        f = f + 1;
    }
    proof {
        assert(mix_i16(data@, channels).subrange(0, frames as int) =~= mix_i16(data@, channels));
    }
}

/// Appends to `buf` the mono form of a block of interleaved unsigned 16-bit
/// samples with `channels` channels, computed exactly in integers.
pub fn push_interleaved_u16_mono(buf: &mut Vec<i16>, data: &[u16], channels: u16)
    ensures
        final(buf)@ == old(buf)@ + mix_u16(data@, channels),
{
    let w: usize = if channels == 0 {
        1
    } else {
        channels as usize
    };
    let len: usize = data.len();
    let frames: usize = len / w;
    let ghost w_n: nat = frame_width(channels);
    let mut f: usize = 0;
    while f < frames
        invariant
            w == w_n,
            w_n == frame_width(channels),
            1 <= w <= 65535,
            len == data@.len(),
            frames == data@.len() / w_n,
            0 <= f <= frames,
            buf@ == old(buf)@ + mix_u16(data@, channels).subrange(0, f as int),
        decreases frames - f,
    {
        let mut acc: i64 = 0;
        let mut k: usize = 0;
        proof {
            lemma_frame_in_bounds(f as int, w as int, 0, frames as int, data@.len() as int);
        }
        let start: usize = f * w;
        while k < w
            invariant
                1 <= w <= 65535,
                len == data@.len(),
                frames == data@.len() / (w as nat),
                0 <= f < frames,
                start == f * w,
                0 <= k <= w,
                acc == sum_u16(data@, start as int, k as nat),
                0 <= acc <= 65535 * k,
            decreases w - k,
        {
            proof {
                lemma_frame_in_bounds(f as int, w as int, k as int, frames as int, data@.len() as int);
            }
            acc = acc + data[start + k] as i64;
            k = k + 1;
        }
        let wi: i64 = w as i64;
        let den: i64 = 65535 * wi;
        let centered: i64 = 2 * acc - den;
        assert(-den <= centered <= den);
        assert(-den * 32767 <= centered * 32767 <= den * 32767) by (nonlinear_arith)
            requires
                -den <= centered <= den,
        ;
        let num: i64 = centered * 32767;
        let q: i64 = if num >= 0 {
            num / den
        } else {
            -((-num) / den)
        };
        let v: i16 = if q < -32767 {
            -32767
        } else if q > 32767 {
            32767
        } else {
            q as i16
        };
        buf.push(v);
        proof {
            assert(v == mix_u16(data@, channels)[f as int]);
            assert(buf@ =~= old(buf)@ + mix_u16(data@, channels).subrange(0, f + 1));
        }
        f = f + 1;
    }
    proof {
        assert(mix_u16(data@, channels).subrange(0, frames as int) =~= mix_u16(data@, channels));
    }
}

} // verus!
