use vstd::prelude::*;
use crate::encode::TARGET_SR;

verus! {

/// hound's error type, carried opaquely inside [`DecodeError::Parse`].
#[verifier::external_type_specification]
#[verifier::external_body]
pub struct ExHoundError(hound::Error);

/// The header fields of a WAV file that decide whether it is accepted.
#[derive(Clone, Copy, Debug, PartialEq, Eq, Structural)]
pub struct WavFormat {
    pub sample_rate: u32,
    pub channels: u16,
    pub is_float: bool,
    pub bits_per_sample: u16,
}

/// How a parsed header differs from 48 kHz, mono, integer, 24-bit.
#[derive(Clone, Copy, Debug, PartialEq, Eq, Structural)]
pub enum FormatMismatch {
    SampleRate { expected: u32, actual: u32 },
    Channels(u16),
    Encoding,
    BitDepth(u16),
}

/// Why an input image was not decoded.
#[derive(Debug)]
pub enum DecodeError {
    /// The bytes are not a WAV file that hound can read.
    Parse(hound::Error),
    /// The file is a WAV file of another format.
    Format(FormatMismatch),
}

/// The header that `hound::WavReader::new` reads from `bytes`, if it accepts them.
pub uninterp spec fn parsed_format(bytes: Seq<u8>) -> Option<WavFormat>;

/// The samples, as `i32`, that a `hound::WavReader` built on `bytes` yields
/// when all of them decode.
pub uninterp spec fn parsed_samples(bytes: Seq<u8>) -> Option<Seq<i32>>;

/// The first check that `f` fails, in the order rate, channels, encoding, depth.
pub open spec fn format_mismatch(f: WavFormat) -> Option<FormatMismatch> {
    if f.sample_rate != TARGET_SR {
        Some(FormatMismatch::SampleRate { expected: TARGET_SR, actual: f.sample_rate })
    } else if f.channels != 1 {
        Some(FormatMismatch::Channels(f.channels))
    } else if f.is_float {
        Some(FormatMismatch::Encoding)
    } else if f.bits_per_sample != 24 {
        Some(FormatMismatch::BitDepth(f.bits_per_sample))
    } else {
        None
    }
}

/// The samples of `bytes` when it is an accepted 48 kHz mono 24-bit PCM file.
pub open spec fn decoded(bytes: Seq<u8>) -> Option<Seq<i32>> {
    match parsed_format(bytes) {
        Some(f) => if format_mismatch(f) is None { parsed_samples(bytes) } else { None },
        None => None,
    }
}

/// Relies on `hound::WavReader::new` and `WavReader::spec`: the header that
/// hound parses from an in-memory image, or its refusal.
#[verifier::external_body]
fn read_format(bytes: &[u8]) -> (r: Result<WavFormat, hound::Error>)
    ensures
        match r {
            Ok(f) => parsed_format(bytes@) == Some(f),
            Err(_) => parsed_format(bytes@) is None,
        },
{
    let spec = hound::WavReader::new(bytes)?.spec();
    let is_float = match spec.sample_format {
        hound::SampleFormat::Float => true,
        hound::SampleFormat::Int => false,
    };
    Ok(WavFormat {
        sample_rate: spec.sample_rate,
        channels: spec.channels,
        is_float,
        bits_per_sample: spec.bits_per_sample,
    })
}

/// Relies on `hound::WavReader::samples::<i32>`: every sample of an
/// in-memory image, sign-extended, or the first error met.
#[verifier::external_body]
fn read_samples(bytes: &[u8]) -> (r: Result<Vec<i32>, hound::Error>)
    ensures
        match r {
            Ok(v) => parsed_samples(bytes@) == Some(v@),
            Err(_) => parsed_samples(bytes@) is None,
        },
{
    let mut reader = hound::WavReader::new(bytes)?;
    reader.samples::<i32>().collect()
}

/// Checks that a header describes 48 kHz, mono, integer, 24-bit PCM.
pub fn check_format(f: &WavFormat) -> (r: Result<(), FormatMismatch>)
    ensures
        r == match format_mismatch(*f) {
            Some(m) => Err(m),
            None => Ok(()),
        },
{
    if f.sample_rate != TARGET_SR {
        Err(FormatMismatch::SampleRate { expected: TARGET_SR, actual: f.sample_rate })
    } else if f.channels != 1 {
        Err(FormatMismatch::Channels(f.channels))
    } else if f.is_float {
        Err(FormatMismatch::Encoding)
    } else if f.bits_per_sample != 24 {
        Err(FormatMismatch::BitDepth(f.bits_per_sample))
    } else {
        Ok(())
    }
}

/// Decodes the samples of a WAV image, which must be 48 kHz, mono,
/// integer PCM with 24 bits per sample; each comes back sign-extended.
pub fn read_pcm24_mono(bytes: &[u8]) -> (r: Result<Vec<i32>, DecodeError>)
    ensures
        match r {
            Ok(v) => decoded(bytes@) == Some(v@),
            Err(DecodeError::Format(m)) => exists|f: WavFormat|
                parsed_format(bytes@) == Some(f) && format_mismatch(f) == Some(m),
            Err(DecodeError::Parse(_)) => decoded(bytes@) is None && match parsed_format(bytes@) {
                Some(f) => format_mismatch(f) is None,
                None => true,
            },
        },
{
    let f = match read_format(bytes) {
        Ok(f) => f,
        Err(e) => return Err(DecodeError::Parse(e)),
    };
    match check_format(&f) {
        Ok(()) => {},
        Err(m) => return Err(DecodeError::Format(m)),
    }
    match read_samples(bytes) {
        Ok(v) => Ok(v),
        Err(e) => Err(DecodeError::Parse(e)),
    }
}

} // verus!
