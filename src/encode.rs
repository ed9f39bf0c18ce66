use vstd::prelude::*;

verus! {

/// Sample rate of every file this library writes, in Hz.
pub const TARGET_SR: u32 = 48000;

/// Number of samples in every frame this library writes.
pub const TARGET_SAMPLES: usize = 1024;

/// Size in bytes of the classic PCM WAV header.
pub const HEADER_LEN: usize = 44;

/// Largest value representable as a signed 24-bit sample.
pub const PCM24_MAX: i32 = 8388607;

/// Smallest value representable as a signed 24-bit sample.
pub const PCM24_MIN: i32 = -8388608;

/// Little-endian bytes of a 16-bit value.
pub open spec fn le16(v: int) -> Seq<u8> {
    seq![(v % 256) as u8, ((v / 256) % 256) as u8]
}

/// Little-endian bytes of a 32-bit value.
pub open spec fn le32(v: int) -> Seq<u8> {
    seq![
        (v % 256) as u8,
        ((v / 256) % 256) as u8,
        ((v / 65536) % 256) as u8,
        ((v / 16777216) % 256) as u8,
    ]
}

/// `x` limited to the signed 24-bit range.
pub open spec fn clamp24(x: int) -> int {
    if x > PCM24_MAX as int {
        PCM24_MAX as int
    } else if x < PCM24_MIN as int {
        PCM24_MIN as int
    } else {
        x
    }
}

/// The 24-bit two's-complement code of an in-range value.
pub open spec fn twos24(c: int) -> int {
    if c < 0 { c + 0x1000000 } else { c }
}

/// The three little-endian bytes written for one sample (after clamping).
pub open spec fn pcm24_bytes(x: int) -> Seq<u8> {
    let u = twos24(clamp24(x));
    seq![(u % 256) as u8, ((u / 256) % 256) as u8, (u / 65536) as u8]
}

/// The data chunk payload: each sample's three bytes, in order.
pub open spec fn sample_data(s: Seq<i32>) -> Seq<u8>
    decreases s.len(),
{
    if s.len() == 0 {
        seq![]
    } else {
        sample_data(s.drop_last()) + pcm24_bytes(s.last() as int)
    }
}

pub open spec fn riff_tag() -> Seq<u8> {
    seq![0x52u8, 0x49u8, 0x46u8, 0x46u8]
}

pub open spec fn wave_tag() -> Seq<u8> {
    seq![0x57u8, 0x41u8, 0x56u8, 0x45u8]
}

pub open spec fn fmt_tag() -> Seq<u8> {
    seq![0x66u8, 0x6du8, 0x74u8, 0x20u8]
}

pub open spec fn data_tag() -> Seq<u8> {
    seq![0x64u8, 0x61u8, 0x74u8, 0x61u8]
}

/// The 44-byte classic PCM header for `n` mono 24-bit samples at 48 kHz.
pub open spec fn wav_header(n: nat) -> Seq<u8> {
    let data_bytes: int = 3 * (n as int);
    riff_tag() + le32(4 + (8 + 16) + (8 + data_bytes)) + wave_tag()
        + fmt_tag() + le32(16) + le16(1) + le16(1) + le32(TARGET_SR as int)
        + le32(TARGET_SR * 3) + le16(3) + le16(24)
        + data_tag() + le32(data_bytes)
}

/// The complete classic PCM WAV image of a sample sequence.
pub open spec fn wav_bytes(s: Seq<i32>) -> Seq<u8> {
    wav_header(s.len()) + sample_data(s)
}

/// Whether an `n`-sample image, and so its RIFF size field, fits in 32 bits.
pub open spec fn fits_riff(n: nat) -> bool {
    3 * n + HEADER_LEN <= u32::MAX
}

pub proof fn lemma_sample_data_len(s: Seq<i32>)
    ensures
        sample_data(s).len() == 3 * s.len(),
    decreases s.len(),
{
    if s.len() > 0 {
        lemma_sample_data_len(s.drop_last());
    }
}

fn push_le16(buf: &mut Vec<u8>, v: u16)
    ensures
        final(buf)@ == old(buf)@ + le16(v as int),
{
    buf.push((v % 256) as u8);
    buf.push(((v / 256) % 256) as u8);
}

fn push_le32(buf: &mut Vec<u8>, v: u32)
    ensures
        final(buf)@ == old(buf)@ + le32(v as int),
{
    buf.push((v % 256) as u8);
    buf.push(((v / 256) % 256) as u8);
    buf.push(((v / 65536) % 256) as u8);
    buf.push(((v / 16777216) % 256) as u8);
}

fn push_tag(buf: &mut Vec<u8>, a: u8, b: u8, c: u8, d: u8)
    ensures
        final(buf)@ == old(buf)@ + seq![a, b, c, d],
{
    buf.push(a);
    buf.push(b);
    buf.push(c);
    buf.push(d);
}

/// Clamps a sample to the signed 24-bit range.
pub fn clamp_pcm24(x: i32) -> (r: i32)
    ensures
        r as int == clamp24(x as int),
{
    if x > PCM24_MAX {
        PCM24_MAX
    } else if x < PCM24_MIN {
        PCM24_MIN
    } else {
        x
    }
}

/// Appends the three little-endian two's-complement bytes of a clamped sample.
fn push_pcm24(buf: &mut Vec<u8>, x: i32)
    ensures
        final(buf)@ == old(buf)@ + pcm24_bytes(x as int),
{
    let c = clamp_pcm24(x);
    let u: u32 = if c < 0 { (c as i64 + 0x1000000) as u32 } else { c as u32 };
    assert(u as int == twos24(clamp24(x as int)));
    buf.push((u % 256) as u8);
    buf.push(((u / 256) % 256) as u8);
    buf.push((u / 65536) as u8);
}

/// Builds a classic PCM WAV image (RIFF, a 16-byte `fmt ` chunk with tag 1,
/// and a `data` chunk) holding `samples` as mono 24-bit audio at 48 kHz,
/// each sample clamped to the 24-bit range.
pub fn build_classic_pcm24_wav_bytes(samples: &[i32]) -> (r: Vec<u8>)
    requires
        fits_riff(samples@.len()),
    ensures
        r@ == wav_bytes(samples@),
{
    let n = samples.len();
    let data_bytes: u32 = (n * 3) as u32;
    let riff_size: u32 = 4 + (8 + 16) + (8 + data_bytes);
    let mut buf: Vec<u8> = Vec::with_capacity(HEADER_LEN + n * 3);

    push_tag(&mut buf, 0x52, 0x49, 0x46, 0x46);
    push_le32(&mut buf, riff_size);
    push_tag(&mut buf, 0x57, 0x41, 0x56, 0x45);

    push_tag(&mut buf, 0x66, 0x6d, 0x74, 0x20);
    push_le32(&mut buf, 16);

    let audio_format: u16 = 1;
    let num_channels: u16 = 1;
    let sample_rate: u32 = TARGET_SR;
    let bits_per_sample: u16 = 24;
    let block_align: u16 = num_channels * (bits_per_sample / 8);
    let byte_rate: u32 = sample_rate * block_align as u32;

    push_le16(&mut buf, audio_format);
    push_le16(&mut buf, num_channels);
    push_le32(&mut buf, sample_rate);
    push_le32(&mut buf, byte_rate);
    push_le16(&mut buf, block_align);
    push_le16(&mut buf, bits_per_sample);

    push_tag(&mut buf, 0x64, 0x61, 0x74, 0x61);
    push_le32(&mut buf, data_bytes);

    assert(buf@ =~= wav_header(samples@.len()));

    let mut i: usize = 0;
    while i < n
        invariant
            n == samples@.len(),
            i <= n,
            buf@ == wav_header(samples@.len()) + sample_data(samples@.take(i as int)),
        decreases n - i,
    {
        push_pcm24(&mut buf, samples[i]);
        assert(samples@.take(i as int + 1).drop_last() =~= samples@.take(i as int));
        assert(buf@ =~= wav_header(samples@.len()) + sample_data(samples@.take(i as int + 1)));
        i = i + 1;
    }
    assert(samples@.take(n as int) =~= samples@);
    buf
}

/// The value that three little-endian bytes hold as 24-bit two's complement.
pub open spec fn pcm24_value(b0: u8, b1: u8, b2: u8) -> int {
    let u = b0 as int + 256 * b1 as int + 65536 * b2 as int;
    if u >= 0x800000 { u - 0x1000000 } else { u }
}

/// The value read back from the bytes of the `i`-th sample of an image.
pub open spec fn read_back(b: Seq<u8>, i: int) -> int {
    let at = HEADER_LEN + 3 * i;
    pcm24_value(b[at], b[at + 1], b[at + 2])
}

/// Whether every sample lies in the signed 24-bit range.
pub open spec fn all_pcm24(s: Seq<i32>) -> bool {
    forall|i: int| 0 <= i < s.len() ==> PCM24_MIN <= #[trigger] s[i] <= PCM24_MAX
}

/// The bytes of one sample read back give the clamped sample.
pub proof fn lemma_pcm24_bytes_value(x: int)
    ensures
        ({
            let b = pcm24_bytes(x);
            pcm24_value(b[0], b[1], b[2]) == clamp24(x)
        }),
{
    let u = twos24(clamp24(x));
    assert(0 <= u < 0x1000000);
    assert(u == u % 256 + 256 * ((u / 256) % 256) + 65536 * (u / 65536)) by (nonlinear_arith)
        requires 0 <= u < 0x1000000;
}

/// Where each sample's bytes stand in the data payload.
pub proof fn lemma_sample_data_index(s: Seq<i32>, i: int, k: int)
    requires
        0 <= i < s.len(),
        0 <= k < 3,
    ensures
        sample_data(s).len() == 3 * s.len(),
        sample_data(s)[3 * i + k] == pcm24_bytes(s[i] as int)[k],
    decreases s.len(),
{
    lemma_sample_data_len(s);
    lemma_sample_data_len(s.drop_last());
    if i < s.len() - 1 {
        lemma_sample_data_index(s.drop_last(), i, k);
    }
}

/// Out-of-range samples are written as the nearest 24-bit extreme:
/// the bytes of any sample read back as that sample clamped.
pub proof fn lemma_clamped_in_output(s: Seq<i32>, i: int)
    requires
        0 <= i < s.len(),
    ensures
        read_back(wav_bytes(s), i) == clamp24(s[i] as int),
{
    lemma_sample_data_index(s, i, 0);
    lemma_sample_data_index(s, i, 1);
    lemma_sample_data_index(s, i, 2);
    lemma_pcm24_bytes_value(s[i] as int);
}

/// The fixed fields of every image: tags, `fmt ` size 16, PCM tag 1, mono,
/// and a total length of 44 bytes plus three per sample.
pub proof fn lemma_header_fields(s: Seq<i32>)
    ensures
        ({
            let b = wav_bytes(s);
            &&& b.len() == HEADER_LEN + 3 * s.len()
            &&& b.subrange(0, 4) == riff_tag()
            &&& b.subrange(8, 12) == wave_tag()
            &&& b.subrange(12, 16) == fmt_tag()
            &&& b.subrange(36, 40) == data_tag()
            &&& b.subrange(16, 20) == seq![16u8, 0u8, 0u8, 0u8]
            &&& b.subrange(20, 22) == seq![1u8, 0u8]
            &&& b.subrange(22, 24) == seq![1u8, 0u8]
        }),
{
    lemma_sample_data_len(s);
    let b = wav_bytes(s);
    let h = wav_header(s.len());
    assert(h.len() == 44);
    assert(b.subrange(0, 4) =~= riff_tag());
    assert(b.subrange(8, 12) =~= wave_tag());
    assert(b.subrange(12, 16) =~= fmt_tag());
    assert(b.subrange(36, 40) =~= data_tag());
    assert(b.subrange(16, 20) =~= seq![16u8, 0u8, 0u8, 0u8]);
    assert(b.subrange(20, 22) =~= seq![1u8, 0u8]);
    assert(b.subrange(22, 24) =~= seq![1u8, 0u8]);
}

/// Samples already in the 24-bit range are read back unchanged from the image.
pub proof fn lemma_round_trip(s: Seq<i32>)
    requires
        all_pcm24(s),
    ensures
        forall|i: int| 0 <= i < s.len() ==> #[trigger] read_back(wav_bytes(s), i) == s[i],
{
    assert forall|i: int| 0 <= i < s.len() implies #[trigger] read_back(wav_bytes(s), i) == s[i] by {
        lemma_clamped_in_output(s, i);
        assert(PCM24_MIN <= s[i] <= PCM24_MAX);
    }
}

} // verus!
