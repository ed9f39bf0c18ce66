use vstd::prelude::*;
use crate::decode::{decoded, format_mismatch, parsed_format, read_pcm24_mono, DecodeError};
use crate::encode::{
    all_pcm24, build_classic_pcm24_wav_bytes, clamp24, data_tag, fmt_tag, lemma_clamped_in_output,
    lemma_header_fields, read_back, riff_tag, wav_bytes, wave_tag, HEADER_LEN, TARGET_SAMPLES,
};

verus! {

/// `s` cut to its first `target` samples, or padded with zeros up to `target`.
pub open spec fn normalized(s: Seq<i32>, target: nat) -> Seq<i32> {
    if s.len() >= target {
        s.take(target as int)
    } else {
        s + Seq::new((target - s.len()) as nat, |_i: int| 0i32)
    }
}

/// Trims `samples` to `target` samples, or pads it with zeros to that length.
pub fn normalize_length(samples: Vec<i32>, target: usize) -> (r: Vec<i32>)
    ensures
        r@ == normalized(samples@, target as nat),
        r@.len() == target,
        forall|i: int| 0 <= i < target && i < samples@.len() ==> r@[i] == samples@[i],
        forall|i: int| samples@.len() <= i < target ==> r@[i] == 0,
{
    let mut out = samples;
    if out.len() >= target {
        out.truncate(target);
        assert(out@ =~= normalized(samples@, target as nat));
    } else {
        let start = out.len();
        while out.len() < target
            invariant
                start == samples@.len(),
                start <= out@.len() <= target,
                out@ =~= samples@ + Seq::new((out@.len() - start) as nat, |_i: int| 0i32),
            decreases target - out@.len(),
        {
            out.push(0);
        }
    }
    out
}

/// The output image for an input image: its samples normalized to the
/// target length and encoded as classic PCM WAV.
pub open spec fn converted(bytes: Seq<u8>) -> Option<Seq<u8>> {
    match decoded(bytes) {
        Some(s) => Some(wav_bytes(normalized(s, TARGET_SAMPLES as nat))),
        None => None,
    }
}

/// Decodes a 48 kHz mono 24-bit PCM WAV image and re-encodes exactly
/// `TARGET_SAMPLES` of its samples (trimmed or zero-padded) as a classic
/// PCM WAV image. Rejected inputs produce no image.
pub fn convert_wav_bytes(bytes: &[u8]) -> (r: Result<Vec<u8>, DecodeError>)
    ensures
        match r {
            Ok(out) => converted(bytes@) == Some(out@),
            Err(DecodeError::Format(m)) => converted(bytes@) is None && exists|f|
                parsed_format(bytes@) == Some(f) && format_mismatch(f) == Some(m),
            Err(DecodeError::Parse(_)) => converted(bytes@) is None && match parsed_format(bytes@) {
                Some(f) => format_mismatch(f) is None,
                None => true,
            },
        },
{
    let samples = match read_pcm24_mono(bytes) {
        Ok(s) => s,
        Err(e) => return Err(e),
    };
    let frame = normalize_length(samples, TARGET_SAMPLES);
    assert(3 * TARGET_SAMPLES + HEADER_LEN <= u32::MAX);
    Ok(build_classic_pcm24_wav_bytes(frame.as_slice()))
}

/// Every output image is a classic header followed by exactly
/// `TARGET_SAMPLES` samples: the input's samples, trimmed or zero-padded,
/// each read back as its clamped value.
pub proof fn lemma_output_frame(bytes: Seq<u8>)
    requires
        converted(bytes) is Some,
    ensures
        ({
            let out = converted(bytes)->Some_0;
            let s = decoded(bytes)->Some_0;
            &&& out.len() == HEADER_LEN + 3 * TARGET_SAMPLES
            &&& out.subrange(0, 4) == riff_tag()
            &&& out.subrange(8, 12) == wave_tag()
            &&& out.subrange(12, 16) == fmt_tag()
            &&& out.subrange(36, 40) == data_tag()
            &&& out.subrange(16, 20) == seq![16u8, 0u8, 0u8, 0u8]
            &&& out.subrange(20, 22) == seq![1u8, 0u8]
            &&& forall|i: int| 0 <= i < TARGET_SAMPLES ==> #[trigger] read_back(out, i)
                == if i < s.len() { clamp24(s[i] as int) } else { 0 }
        }),
{
    let s = decoded(bytes)->Some_0;
    let f = normalized(s, TARGET_SAMPLES as nat);
    lemma_header_fields(f);
    assert forall|i: int| 0 <= i < TARGET_SAMPLES implies #[trigger] read_back(wav_bytes(f), i)
        == if i < s.len() { clamp24(s[i] as int) } else { 0 } by {
        lemma_clamped_in_output(f, i);
        if i < s.len() {
            assert(f[i] == s[i]);
        } else {
            assert(f[i] == 0);
        }
    }
}

/// An input of exactly `TARGET_SAMPLES` in-range samples is read back
/// from its output unchanged.
pub proof fn lemma_exact_input_round_trip(bytes: Seq<u8>)
    requires
        decoded(bytes) is Some,
        decoded(bytes)->Some_0.len() == TARGET_SAMPLES,
        all_pcm24(decoded(bytes)->Some_0),
    ensures
        converted(bytes) is Some,
        forall|i: int| 0 <= i < TARGET_SAMPLES ==>
            #[trigger] read_back(converted(bytes)->Some_0, i) == decoded(bytes)->Some_0[i],
{
    lemma_output_frame(bytes);
    let s = decoded(bytes)->Some_0;
    assert forall|i: int| 0 <= i < TARGET_SAMPLES implies
        #[trigger] read_back(converted(bytes)->Some_0, i) == s[i] by {
        assert(crate::encode::PCM24_MIN <= s[i] <= crate::encode::PCM24_MAX);
    }
}

/// An input whose header is not 48 kHz, mono, integer, 24-bit yields no
/// output image at all.
pub proof fn lemma_mismatch_rejected(bytes: Seq<u8>)
    requires
        parsed_format(bytes) is Some,
        format_mismatch(parsed_format(bytes)->Some_0) is Some,
    ensures
        converted(bytes) is None,
{
}

} // verus!
