//! System-audio capture for screen sharing: the integer and byte-level parts.
//!
//! Captured frames are downmixed to mono `f32` samples, resampled to the
//! frontend's rate and streamed as little-endian bytes. The floating-point
//! work (downmix, normalisation, Catmull-Rom resampling) runs in the
//! application; this module decides the rates, reads the device's sample
//! format, decodes raw PCM integers and serialises sample bit patterns.

use vstd::prelude::*;
use crate::text::{contains_substring, contains_text};

verus! {

/// Sample rate the frontend expects when it asks for none in range.
pub const TARGET_SAMPLE_RATE: u32 = 48_000;

/// The output rate for a requested one: kept when within 8 kHz..=192 kHz,
/// otherwise 48 kHz.
pub open spec fn output_rate_for(requested: u32) -> u32 {
    if 8000 <= requested <= 192_000 {
        requested
    } else {
        TARGET_SAMPLE_RATE
    }
}

pub fn output_rate(requested: u32) -> (r: u32)
    ensures
        r == output_rate_for(requested),
        8000 <= r <= 192_000,
{
    if 8000 <= requested && requested <= 192_000 {
        requested
    } else {
        TARGET_SAMPLE_RATE
    }
}

/// The resampler's output rate: 48 kHz when asked for 0.
pub fn resampler_rate(to_rate: u32) -> (r: u32)
    ensures
        r == (if to_rate == 0 { TARGET_SAMPLE_RATE } else { to_rate }),
{
    if to_rate == 0 {
        TARGET_SAMPLE_RATE
    } else {
        to_rate
    }
}

/// How one captured sample is encoded.
#[derive(Clone, Copy, PartialEq, Eq, Debug, Structural)]
pub enum SampleRepr {
    /// Signed 16-bit PCM.
    I16,
    /// Signed 24-bit PCM, packed in 3 bytes.
    I24,
    /// Signed 32-bit integer PCM.
    I32,
    /// 32-bit IEEE float.
    F32,
    /// Any other format: drained and dropped (silence).
    Unsupported,
}

/// The PCM representation for a sample width in bits.
pub open spec fn pcm_of(bits: usize) -> SampleRepr {
    if bits == 16 {
        SampleRepr::I16
    } else if bits == 24 {
        SampleRepr::I24
    } else if bits == 32 {
        SampleRepr::I32
    } else {
        SampleRepr::Unsupported
    }
}

pub fn pcm_repr(bits: usize) -> (r: SampleRepr)
    ensures
        r == pcm_of(bits),
{
    match bits {
        16 => SampleRepr::I16,
        24 => SampleRepr::I24,
        32 => SampleRepr::I32,
        _ => SampleRepr::Unsupported,
    }
}

pub const WAVE_FORMAT_PCM: u16 = 1;
pub const WAVE_FORMAT_IEEE_FLOAT: u16 = 3;
pub const WAVE_FORMAT_EXTENSIBLE: u16 = 0xFFFE;
/// First dword of the PCM sub-format GUID of an extensible format.
pub const SUBTYPE_PCM: u32 = 1;
/// First dword of the IEEE-float sub-format GUID of an extensible format.
pub const SUBTYPE_IEEE_FLOAT: u32 = 3;

/// The fields of a device mix format that decide how samples are read.
pub struct MixFormat {
    pub format_tag: u16,
    pub channels: u16,
    pub bits_per_sample: u16,
    /// First dword of the sub-format GUID; read only for an extensible format.
    pub sub_format: u32,
}

/// The representation a mix format describes.
pub open spec fn repr_of(f: MixFormat) -> SampleRepr {
    let bits = f.bits_per_sample as usize;
    if f.format_tag == WAVE_FORMAT_PCM {
        pcm_of(bits)
    } else if f.format_tag == WAVE_FORMAT_IEEE_FLOAT {
        if bits == 32 { SampleRepr::F32 } else { SampleRepr::Unsupported }
    } else if f.format_tag == WAVE_FORMAT_EXTENSIBLE {
        if f.sub_format == SUBTYPE_IEEE_FLOAT {
            if bits == 32 { SampleRepr::F32 } else { SampleRepr::Unsupported }
        } else if f.sub_format == SUBTYPE_PCM {
            pcm_of(bits)
        } else {
            SampleRepr::Unsupported
        }
    } else {
        SampleRepr::Unsupported
    }
}

/// The sample representation and channel count of a mix format (`None`: the
/// device gave no format).
pub fn decode_format(format: Option<&MixFormat>) -> (r: (SampleRepr, usize))
    ensures
        match format {
            Some(f) => r == (repr_of(*f), f.channels as usize),
            None => r == (SampleRepr::Unsupported, 0usize),
        },
{
    let f = match format {
        Some(f) => f,
        None => return (SampleRepr::Unsupported, 0),
    };
    let channels = f.channels as usize;
    let bits = f.bits_per_sample as usize;
    let repr = if f.format_tag == WAVE_FORMAT_PCM {
        pcm_repr(bits)
    } else if f.format_tag == WAVE_FORMAT_IEEE_FLOAT {
        if bits == 32 { SampleRepr::F32 } else { SampleRepr::Unsupported }
    } else if f.format_tag == WAVE_FORMAT_EXTENSIBLE {
        if f.sub_format == SUBTYPE_IEEE_FLOAT {
            if bits == 32 { SampleRepr::F32 } else { SampleRepr::Unsupported }
        } else if f.sub_format == SUBTYPE_PCM {
            pcm_repr(bits)
        } else {
            SampleRepr::Unsupported
        }
    } else {
        SampleRepr::Unsupported
    };
    (repr, channels)
}

/// Bytes per sample for a sample width in bits (rounded up).
pub fn bytes_per_sample(bits: u16) -> (r: usize)
    ensures
        r == (bits as nat + 7) / 8,
{
    ((bits as usize) + 7) / 8
}

// ----- little-endian sample encoding ------------------------------------------

/// The little-endian bytes of 32-bit words, one word after another.
pub open spec fn le_bytes(words: Seq<u32>) -> Seq<u8>
    decreases words.len(),
{
    if words.len() == 0 {
        Seq::empty()
    } else {
        le_bytes(words.drop_last()) + seq![
            (words.last() % 256) as u8,
            ((words.last() / 256) % 256) as u8,
            ((words.last() / 65536) % 256) as u8,
            (words.last() / 16777216) as u8,
        ]
    }
}

/// The little-endian 32-bit word at byte `off`.
pub open spec fn le_word(b: Seq<u8>, off: int) -> u32 {
    (b[off] as nat + b[off + 1] as nat * 256 + b[off + 2] as nat * 65536 + b[off + 3] as nat * 16777216) as u32
}

/// Serialises samples, given as the bit patterns of their `f32` values, into
/// little-endian bytes (`samples_to_bytes`: `f32::to_le_bytes` writes the
/// little-endian bytes of `f32::to_bits`).
pub fn samples_to_bytes(bits: &[u32]) -> (r: Vec<u8>)
    ensures
        r@ == le_bytes(bits@),
{
    let mut out: Vec<u8> = Vec::new();
    let n = bits.len();
    let mut i: usize = 0;
    assert(bits@.take(0) =~= Seq::<u32>::empty());
    while i < n
        invariant
            n == bits@.len(),
            i <= n,
            out@ == le_bytes(bits@.take(i as int)),
        decreases n - i,
    {
        let w = bits[i];
        out.push((w % 256) as u8);
        out.push(((w / 256) % 256) as u8);
        out.push(((w / 65536) % 256) as u8);
        out.push((w / 16777216) as u8);
        assert(bits@.take(i + 1).drop_last() =~= bits@.take(i as int));
        assert(out@ =~= le_bytes(bits@.take(i + 1)));
        i = i + 1;
    }
    assert(bits@.take(n as int) =~= bits@);
    out
}

/// A sample read back from `samples_to_bytes` output is the word written.
pub proof fn sample_bytes_round_trip(words: Seq<u32>, i: int)
    requires
        0 <= i < words.len(),
    ensures
        le_bytes(words).len() == 4 * words.len(),
        le_word(le_bytes(words), 4 * i) == words[i],
    decreases words.len(),
{
    let n = words.len();
    lemma_le_bytes_len(words);
    if i < n - 1 {
        sample_bytes_round_trip(words.drop_last(), i);
        let pre = le_bytes(words.drop_last());
        assert(le_bytes(words).subrange(0, pre.len() as int) =~= pre);
        assert(le_bytes(words)[4 * i] == pre[4 * i]);
        assert(le_bytes(words)[4 * i + 1] == pre[4 * i + 1]);
        assert(le_bytes(words)[4 * i + 2] == pre[4 * i + 2]);
        assert(le_bytes(words)[4 * i + 3] == pre[4 * i + 3]);
    } else {
        lemma_le_bytes_len(words.drop_last());
        let w = words.last();
        assert(w == (w % 256) + ((w / 256) % 256) * 256 + ((w / 65536) % 256) * 65536 + (w / 16777216)
            * 16777216) by (nonlinear_arith);
    }
}

proof fn lemma_le_bytes_len(words: Seq<u32>)
    ensures
        le_bytes(words).len() == 4 * words.len(),
    decreases words.len(),
{
    if words.len() > 0 {
        lemma_le_bytes_len(words.drop_last());
    }
}

// ----- raw PCM integers ---------------------------------------------------------

/// The integer value of one sample at byte `off`: a signed little-endian
/// 16/24/32-bit value (24-bit values sign-extended), or the bit pattern of an
/// `f32` for float samples.
pub open spec fn sample_at(b: Seq<u8>, off: int, repr: SampleRepr) -> int {
    match repr {
        SampleRepr::I16 => {
            let u = b[off] as int + b[off + 1] as int * 256;
            if u >= 32768 { u - 65536 } else { u }
        },
        SampleRepr::I24 => {
            let u = b[off] as int + b[off + 1] as int * 256 + b[off + 2] as int * 65536;
            if u >= 8388608 { u - 16777216 } else { u }
        },
        SampleRepr::I32 => {
            let u = le_word(b, off) as int;
            if u >= 2147483648 { u - 4294967296 } else { u }
        },
        SampleRepr::F32 => le_word(b, off) as int,
        SampleRepr::Unsupported => 0,
    }
}

/// The width in bytes that a representation reads.
pub open spec fn repr_width(repr: SampleRepr) -> nat {
    match repr {
        SampleRepr::I16 => 2,
        SampleRepr::I24 => 3,
        SampleRepr::I32 => 4,
        SampleRepr::F32 => 4,
        SampleRepr::Unsupported => 0,
    }
}

fn read_sample(b: &[u8], off: usize, repr: SampleRepr) -> (r: i64)
    requires
        off + repr_width(repr) <= b@.len(),
    ensures
        r as int == sample_at(b@, off as int, repr),
{
    match repr {
        SampleRepr::I16 => {
            let u = (b[off] as i64) + (b[off + 1] as i64) * 256;
            if u >= 32768 { u - 65536 } else { u }
        },
        SampleRepr::I24 => {
            let u = (b[off] as i64) + (b[off + 1] as i64) * 256 + (b[off + 2] as i64) * 65536;
            if u >= 8388608 { u - 16777216 } else { u }
        },
        SampleRepr::I32 => {
            let u = (b[off] as i64) + (b[off + 1] as i64) * 256 + (b[off + 2] as i64) * 65536 + (b[off
                + 3] as i64) * 16777216;
            if u >= 2147483648 { u - 4294967296 } else { u }
        },
        SampleRepr::F32 => {
            (b[off] as i64) + (b[off + 1] as i64) * 256 + (b[off + 2] as i64) * 65536 + (b[off + 3] as i64)
                * 16777216
        },
        SampleRepr::Unsupported => 0,
    }
}

/// The samples of the first `k` whole frames of a packet, channel by channel.
pub open spec fn pcm_samples(b: Seq<u8>, repr: SampleRepr, channels: nat, bps: nat, k: nat) -> Seq<int>
    decreases k,
{
    if k == 0 {
        Seq::empty()
    } else {
        pcm_samples(b, repr, channels, bps, (k - 1) as nat) + Seq::new(
            channels,
            |c: int| sample_at(b, ((k - 1) * channels * bps + c * bps) as int, repr),
        )
    }
}

/// The decoded samples lie frame after frame, channel after channel: sample
/// `c` of frame `f` is the value at byte `f * channels * bps + c * bps`, and
/// `k` frames give `k * channels` samples.
pub proof fn pcm_frames_are_interleaved(b: Seq<u8>, repr: SampleRepr, channels: nat, bps: nat, k: nat)
    ensures
        pcm_samples(b, repr, channels, bps, k).len() == k * channels,
        forall|f: int, c: int|
            0 <= f < k && 0 <= c < channels ==> #[trigger] pcm_samples(b, repr, channels, bps, k)[f * channels
                + c] == sample_at(b, f * channels * bps + c * bps, repr),
    decreases k,
{
    if k == 0 {
        assert(k * channels == 0) by (nonlinear_arith)
            requires
                k == 0,
        ;
    } else {
        let j = (k - 1) as nat;
        pcm_frames_are_interleaved(b, repr, channels, bps, j);
        let prev = pcm_samples(b, repr, channels, bps, j);
        let last = Seq::new(channels, |c: int| sample_at(b, ((k - 1) * channels * bps + c * bps) as int, repr));
        assert(pcm_samples(b, repr, channels, bps, k) == prev + last);
        assert(k * channels == j * channels + channels) by (nonlinear_arith)
            requires
                j == k - 1,
        ;
        assert forall|f: int, c: int| 0 <= f < k && 0 <= c < channels implies #[trigger] pcm_samples(
            b,
            repr,
            channels,
            bps,
            k,
        )[f * channels + c] == sample_at(b, f * channels * bps + c * bps, repr) by {
            if f < j {
                assert(f * channels + c < j * channels) by (nonlinear_arith)
                    requires
                        f < j,
                        c < channels,
                        0 <= f,
                        0 <= c,
                ;
                assert(prev[f * channels + c] == sample_at(b, f * channels * bps + c * bps, repr));
            } else {
                assert(f == j);
                assert(f * channels + c - j * channels == c) by (nonlinear_arith)
                    requires
                        f == j,
                ;
                assert(f * channels >= 0) by (nonlinear_arith)
                    requires
                        f >= 0,
                ;
            }
        }
    }
}

/// Each integer format reads back the little-endian two's-complement encoding
/// of a value in its range: `x` written as `width` little-endian bytes (with
/// `u` the unsigned form of `x`) decodes to `x`.
pub proof fn pcm_sample_reads_little_endian(b: Seq<u8>, off: int, x: int)
    requires
        0 <= off,
        off + 4 <= b.len(),
    ensures
        -32768 <= x < 32768 && b[off] == (if x < 0 { x + 65536 } else { x }) % 256 && b[off + 1] == (if x < 0 {
            x + 65536
        } else {
            x
        }) / 256 ==> sample_at(b, off, SampleRepr::I16) == x,
        -8388608 <= x < 8388608 && b[off] == (if x < 0 { x + 16777216 } else { x }) % 256 && b[off + 1] == ((
        if x < 0 { x + 16777216 } else { x }) / 256) % 256 && b[off + 2] == (if x < 0 {
            x + 16777216
        } else {
            x
        }) / 65536 ==> sample_at(b, off, SampleRepr::I24) == x,
        -2147483648 <= x < 2147483648 && b[off] == (if x < 0 { x + 4294967296 } else { x }) % 256 && b[off + 1]
            == ((if x < 0 { x + 4294967296 } else { x }) / 256) % 256 && b[off + 2] == ((if x < 0 {
            x + 4294967296
        } else {
            x
        }) / 65536) % 256 && b[off + 3] == (if x < 0 { x + 4294967296 } else { x }) / 16777216
            ==> sample_at(b, off, SampleRepr::I32) == x,
{
    let (b0, b1, b2, b3) = (b[off] as int, b[off + 1] as int, b[off + 2] as int, b[off + 3] as int);
    let u16v = if x < 0 { x + 65536 } else { x };
    let u24v = if x < 0 { x + 16777216 } else { x };
    let u32v = if x < 0 { x + 4294967296 } else { x };
    if -32768 <= x < 32768 && b0 == u16v % 256 && b1 == u16v / 256 {
        assert(b0 + b1 * 256 == u16v) by (nonlinear_arith)
            requires
                b0 == u16v % 256,
                b1 == u16v / 256,
                0 <= u16v,
        ;
    }
    if -8388608 <= x < 8388608 && b0 == u24v % 256 && b1 == (u24v / 256) % 256 && b2 == u24v / 65536 {
        assert(b0 + b1 * 256 + b2 * 65536 == u24v) by (nonlinear_arith)
            requires
                b0 == u24v % 256,
                b1 == (u24v / 256) % 256,
                b2 == u24v / 65536,
                0 <= u24v,
        ;
    }
    if -2147483648 <= x < 2147483648 && b0 == u32v % 256 && b1 == (u32v / 256) % 256 && b2 == (u32v / 65536)
        % 256 && b3 == u32v / 16777216 {
        assert(b0 + b1 * 256 + b2 * 65536 + b3 * 16777216 == u32v) by (nonlinear_arith)
            requires
                b0 == u32v % 256,
                b1 == (u32v / 256) % 256,
                b2 == (u32v / 65536) % 256,
                b3 == u32v / 16777216,
                0 <= u32v,
        ;
        assert(0 <= u32v < 4294967296);
        assert(le_word(b, off) as int == u32v);
    }
}

/// Which integer formats are read: 16-, 24- and 32-bit PCM, and 32-bit float
/// (plain or in an extensible format); every other format is dropped.
pub proof fn mix_formats_read(f: MixFormat)
    ensures
        f.format_tag == 1 && f.bits_per_sample == 16 ==> repr_of(f) == SampleRepr::I16,
        f.format_tag == 1 && f.bits_per_sample == 24 ==> repr_of(f) == SampleRepr::I24,
        f.format_tag == 1 && f.bits_per_sample == 32 ==> repr_of(f) == SampleRepr::I32,
        f.format_tag == 1 && f.bits_per_sample != 16 && f.bits_per_sample != 24 && f.bits_per_sample != 32
            ==> repr_of(f) == SampleRepr::Unsupported,
        f.format_tag == 3 ==> repr_of(f) == (if f.bits_per_sample == 32 {
            SampleRepr::F32
        } else {
            SampleRepr::Unsupported
        }),
        f.format_tag == 0xFFFE && f.sub_format == 3 ==> repr_of(f) == (if f.bits_per_sample == 32 {
            SampleRepr::F32
        } else {
            SampleRepr::Unsupported
        }),
        f.format_tag == 0xFFFE && f.sub_format == 1 ==> repr_of(f) == repr_of(
            MixFormat { format_tag: 1, ..f },
        ),
        f.format_tag == 0xFFFE && f.sub_format != 1 && f.sub_format != 3 ==> repr_of(f)
            == SampleRepr::Unsupported,
        f.format_tag != 1 && f.format_tag != 3 && f.format_tag != 0xFFFE ==> repr_of(f)
            == SampleRepr::Unsupported,
{
}

/// A requested output rate between 8 kHz and 192 kHz is kept; any other falls
/// back to 48 kHz.
pub proof fn output_rate_is_kept_in_range(requested: u32)
    ensures
        8000 <= requested <= 192_000 ==> output_rate_for(requested) == requested,
        !(8000 <= requested <= 192_000) ==> output_rate_for(requested) == 48_000,
{
}

/// Decodes the whole frames of a captured packet (`read_frames` before the
/// downmix): each frame holds `channels` samples of `bytes_per_sample` bytes;
/// a trailing partial frame is ignored and an unsupported format yields
/// nothing.
pub fn decode_pcm(data: &[u8], repr: SampleRepr, channels: usize, bytes_per_sample: usize) -> (r: Vec<i64>)
    requires
        repr != SampleRepr::Unsupported ==> channels >= 1,
        repr != SampleRepr::Unsupported ==> bytes_per_sample >= repr_width(repr),
        repr != SampleRepr::Unsupported ==> channels * bytes_per_sample <= usize::MAX,
    ensures
        repr == SampleRepr::Unsupported ==> r@.len() == 0,
        repr != SampleRepr::Unsupported ==> r@.map_values(|x: i64| x as int) == pcm_samples(
            data@,
            repr,
            channels as nat,
            bytes_per_sample as nat,
            (data@.len() / (channels * bytes_per_sample) as nat) as nat,
        ),
{
    let mut out: Vec<i64> = Vec::new();
    if repr == SampleRepr::Unsupported {
        return out;
    }
    let len = data.len();
    let frame_bytes = channels * bytes_per_sample;
    assert(bytes_per_sample >= 1);
    assert(frame_bytes >= 1) by (nonlinear_arith)
        requires
            channels >= 1,
            bytes_per_sample >= 1,
            frame_bytes == channels * bytes_per_sample,
    ;
    let frames = len / frame_bytes;
    let mut f: usize = 0;
    while f < frames
        invariant
            frame_bytes == channels * bytes_per_sample,
            frame_bytes >= 1,
            frames == data@.len() / (frame_bytes as nat),
            len == data@.len(),
            f <= frames,
            channels >= 1,
            bytes_per_sample >= repr_width(repr),
            out@.map_values(|x: i64| x as int) == pcm_samples(
                data@,
                repr,
                channels as nat,
                bytes_per_sample as nat,
                f as nat,
            ),
        decreases frames - f,
    {
        assert((f + 1) * frame_bytes <= frames * frame_bytes) by (nonlinear_arith)
            requires
                f + 1 <= frames,
        ;
        assert(frames * frame_bytes <= data@.len()) by (nonlinear_arith)
            requires
                frames == data@.len() / (frame_bytes as nat),
                frame_bytes >= 1,
        ;
        let ghost before = out@.map_values(|x: i64| x as int);
        assert(f * frame_bytes <= (f + 1) * frame_bytes) by (nonlinear_arith);
        assert(f * frame_bytes <= usize::MAX);
        let base = f * frame_bytes;
        let mut c: usize = 0;
        while c < channels
            invariant
                frame_bytes == channels * bytes_per_sample,
                base == f * frame_bytes,
                (f + 1) * frame_bytes <= data@.len(),
                len == data@.len(),
                c <= channels,
                bytes_per_sample >= repr_width(repr),
                out@.map_values(|x: i64| x as int) == before + Seq::new(
                    c as nat,
                    |k: int| sample_at(data@, (f * channels * bytes_per_sample + k * bytes_per_sample) as int, repr),
                ),
            decreases channels - c,
        {
            assert(base + c * bytes_per_sample + bytes_per_sample <= (f + 1) * frame_bytes) by (nonlinear_arith)
                requires
                    c + 1 <= channels,
                    frame_bytes == channels * bytes_per_sample,
                    base == f * frame_bytes,
            ;
            assert(f * channels * bytes_per_sample == base) by (nonlinear_arith)
                requires
                    frame_bytes == channels * bytes_per_sample,
                    base == f * frame_bytes,
            ;
            assert(c * bytes_per_sample + bytes_per_sample <= frame_bytes) by (nonlinear_arith)
                requires
                    c + 1 <= channels,
                    frame_bytes == channels * bytes_per_sample,
            ;
            assert(base + frame_bytes == (f + 1) * frame_bytes) by (nonlinear_arith)
                requires
                    base == f * frame_bytes,
            ;

            let off = base + c * bytes_per_sample;
            let s = read_sample(data, off, repr);
            let ghost prev = out@.map_values(|x: i64| x as int);
            out.push(s);
            let ghost want = |k: int| sample_at(data@, (f * channels * bytes_per_sample + k * bytes_per_sample) as int, repr);
            assert(s as int == want(c as int));
            assert(out@.map_values(|x: i64| x as int) =~= prev.push(s as int));
            assert(Seq::new((c + 1) as nat, want) =~= Seq::new(c as nat, want).push(want(c as int)));
            assert(out@.map_values(|x: i64| x as int) =~= before + Seq::new(
                (c + 1) as nat,
                |k: int| sample_at(data@, (f * channels * bytes_per_sample + k * bytes_per_sample) as int, repr),
            ));
            c = c + 1;
        }
        assert(out@.map_values(|x: i64| x as int) =~= pcm_samples(
            data@,
            repr,
            channels as nat,
            bytes_per_sample as nat,
            (f + 1) as nat,
        ));
        f = f + 1;
    }
    out
}

// ----- choosing the capture device -----------------------------------------------

/// What `str::to_lowercase` makes of `s` (Unicode lower case).
pub uninterp spec fn lowercase(s: Seq<char>) -> Seq<char>;

/// Lower-cases a device name (`str::to_lowercase`); the mapping itself is
/// Unicode's and is left to the name.
#[verifier::external_body]
fn to_lowercase(s: &str) -> (r: String)
    ensures
        r@ == lowercase(s@),
{
    s.to_lowercase()
}

/// A device name that suggests a monitor of an output device (system audio
/// rather than a microphone).
pub open spec fn looks_like_monitor(name: Seq<char>) -> bool {
    let l = lowercase(name);
    contains_text(l, "monitor"@) || contains_text(l, "output"@) || contains_text(l, "loopback"@)
}

/// The first device whose (readable) name looks like a monitor, among the
/// first `k`.
pub open spec fn first_monitor(names: Seq<Option<String>>, k: int) -> Option<int>
    decreases k,
{
    if k <= 0 {
        None
    } else {
        match first_monitor(names, k - 1) {
            Some(i) => Some(i),
            None => match names[k - 1] {
                Some(n) => if looks_like_monitor(n@) { Some(k - 1) } else { None },
                None => None,
            },
        }
    }
}

/// The device to capture from: the first whose name looks like a monitor,
/// else the last one; none without devices.
pub open spec fn preferred_index(names: Seq<Option<String>>) -> Option<int> {
    if names.len() == 0 {
        None
    } else {
        match first_monitor(names, names.len() as int) {
            Some(i) => Some(i),
            None => Some(names.len() - 1),
        }
    }
}

fn is_monitor_name(name: &str) -> (r: bool)
    ensures
        r == looks_like_monitor(name@),
{
    let l = to_lowercase(name);
    contains_substring(l.as_str(), "monitor") || contains_substring(l.as_str(), "output")
        || contains_substring(l.as_str(), "loopback")
}

/// Picks the input device (`preferred_input_device`) from the devices' names
/// in enumeration order (`None` for a name that could not be read).
pub fn preferred_input_device(names: &[Option<String>]) -> (r: Option<usize>)
    ensures
        match r {
            Some(i) => preferred_index(names@) == Some(i as int),
            None => preferred_index(names@) is None,
        },
{
    let n = names.len();
    if n == 0 {
        return None;
    }
    let mut i: usize = 0;
    while i < n
        invariant
            n == names@.len(),
            n > 0,
            i <= n,
            first_monitor(names@, i as int) is None,
        decreases n - i,
    {
        let hit = match &names[i] {
            Some(name) => is_monitor_name(name.as_str()),
            None => false,
        };
        if hit {
            assert(first_monitor(names@, i + 1) == Some(i as int));
            proof {
                lemma_first_monitor_stable(names@, i + 1, n as int);
            }
            return Some(i);
        }
        i = i + 1;
    }
    Some(n - 1)
}

proof fn lemma_first_monitor_stable(names: Seq<Option<String>>, k: int, m: int)
    requires
        0 < k <= m,
        first_monitor(names, k) is Some,
    ensures
        first_monitor(names, m) == first_monitor(names, k),
    decreases m - k,
{
    if k < m {
        lemma_first_monitor_stable(names, k, m - 1);
    }
}

/// The first `k` names hold no readable name that, lower-cased, contains
/// "monitor", "output" or "loopback".
proof fn lemma_no_monitor_prefix(names: Seq<Option<String>>, k: int)
    requires
        0 <= k <= names.len(),
        forall|j: int|
            0 <= j < k ==> !(#[trigger] names[j] matches Some(n) && (contains_text(lowercase(n@), "monitor"@)
                || contains_text(lowercase(n@), "output"@) || contains_text(lowercase(n@), "loopback"@))),
    ensures
        first_monitor(names, k) is None,
    decreases k,
{
    if k > 0 {
        lemma_no_monitor_prefix(names, k - 1);
        assert(!(names[k - 1] matches Some(n) && looks_like_monitor(n@)));
    }
}

/// The capture device is the first device, in enumeration order, whose
/// readable name contains "monitor", "output" or "loopback" once lower-cased
/// (a monitor of an output device, or a loopback); when none does, the last
/// device; with no devices, none. Here none of the first `k` names qualifies.
pub proof fn capture_device_is_first_monitor(names: Seq<Option<String>>, k: int)
    requires
        0 <= k <= names.len(),
        forall|j: int|
            0 <= j < k ==> !(#[trigger] names[j] matches Some(n) && (contains_text(lowercase(n@), "monitor"@)
                || contains_text(lowercase(n@), "output"@) || contains_text(lowercase(n@), "loopback"@))),
    ensures
        k < names.len() && (names[k] matches Some(n) && (contains_text(lowercase(n@), "monitor"@)
            || contains_text(lowercase(n@), "output"@) || contains_text(lowercase(n@), "loopback"@)))
            ==> preferred_index(names) == Some(k),
        k == names.len() && names.len() > 0 ==> preferred_index(names) == Some(names.len() - 1),
        names.len() == 0 ==> preferred_index(names) is None,
{
    lemma_no_monitor_prefix(names, k);
    if k < names.len() && (names[k] matches Some(n) && looks_like_monitor(n@)) {
        assert(first_monitor(names, k + 1) == Some(k));
        lemma_first_monitor_stable(names, k + 1, names.len() as int);
    }
}

} // verus!
