use pcm24_wav::decode::{check_format, read_pcm24_mono, DecodeError, FormatMismatch, WavFormat};
use pcm24_wav::encode::{build_classic_pcm24_wav_bytes, clamp_pcm24, TARGET_SAMPLES};
use pcm24_wav::frame::{convert_wav_bytes, normalize_length};

fn le16(v: u16) -> [u8; 2] {
    v.to_le_bytes()
}

fn le32(v: u32) -> [u8; 4] {
    v.to_le_bytes()
}

/// A hand-made WAV image with the given header fields and data payload.
fn raw_wav(tag: u16, channels: u16, rate: u32, bits: u16, data: &[u8]) -> Vec<u8> {
    let block_align = channels * (bits / 8);
    let mut b = Vec::new();
    b.extend_from_slice(b"RIFF");
    b.extend_from_slice(&le32(36 + data.len() as u32));
    b.extend_from_slice(b"WAVE");
    b.extend_from_slice(b"fmt ");
    b.extend_from_slice(&le32(16));
    b.extend_from_slice(&le16(tag));
    b.extend_from_slice(&le16(channels));
    b.extend_from_slice(&le32(rate));
    b.extend_from_slice(&le32(rate * block_align as u32));
    b.extend_from_slice(&le16(block_align));
    b.extend_from_slice(&le16(bits));
    b.extend_from_slice(b"data");
    b.extend_from_slice(&le32(data.len() as u32));
    b.extend_from_slice(data);
    b
}

fn ramp(n: usize) -> Vec<i32> {
    (0..n).map(|i| (i as i32 * 7919) % 8_000_000 - 4_000_000).collect()
}

#[test]
fn round_trip_exact_length_is_identity() {
    let input = ramp(1024);
    let wav = build_classic_pcm24_wav_bytes(&input);
    let out = convert_wav_bytes(&wav).unwrap();
    assert_eq!(out, wav);
    assert_eq!(read_pcm24_mono(&out).unwrap(), input);
}

#[test]
fn long_input_is_truncated() {
    let input = ramp(2000);
    let out = convert_wav_bytes(&build_classic_pcm24_wav_bytes(&input)).unwrap();
    let back = read_pcm24_mono(&out).unwrap();
    assert_eq!(back.len(), 1024);
    assert_eq!(&back[..], &input[..1024]);
}

#[test]
fn short_input_is_zero_padded() {
    let input = ramp(500);
    let out = convert_wav_bytes(&build_classic_pcm24_wav_bytes(&input)).unwrap();
    let back = read_pcm24_mono(&out).unwrap();
    assert_eq!(back.len(), 1024);
    assert_eq!(&back[..500], &input[..]);
    assert!(back[500..].iter().all(|&x| x == 0));
}

#[test]
fn empty_input_gives_silence() {
    let out = convert_wav_bytes(&build_classic_pcm24_wav_bytes(&[])).unwrap();
    assert_eq!(read_pcm24_mono(&out).unwrap(), vec![0; 1024]);
}

#[test]
fn out_of_range_samples_are_clamped() {
    let wav = build_classic_pcm24_wav_bytes(&[10_000_000, -10_000_000, 8_388_607, -8_388_608]);
    assert_eq!(&wav[44..], &[0xff, 0xff, 0x7f, 0x00, 0x00, 0x80, 0xff, 0xff, 0x7f, 0x00, 0x00, 0x80]);
    assert_eq!(read_pcm24_mono(&wav).unwrap(), vec![8_388_607, -8_388_608, 8_388_607, -8_388_608]);
    assert_eq!(clamp_pcm24(10_000_000), 8_388_607);
    assert_eq!(clamp_pcm24(-10_000_000), -8_388_608);
    assert_eq!(clamp_pcm24(-1), -1);
}

#[test]
fn sample_bytes_are_little_endian_twos_complement() {
    let wav = build_classic_pcm24_wav_bytes(&[1, -1, 0x123456, -2]);
    assert_eq!(&wav[44..], &[1, 0, 0, 0xff, 0xff, 0xff, 0x56, 0x34, 0x12, 0xfe, 0xff, 0xff]);
}

#[test]
fn header_is_exact() {
    let out = convert_wav_bytes(&build_classic_pcm24_wav_bytes(&ramp(10))).unwrap();
    assert_eq!(out.len(), 44 + 1024 * 3);
    assert_eq!(&out[0..4], b"RIFF");
    assert_eq!(&out[4..8], &le32(4 + 24 + 8 + 3072));
    assert_eq!(&out[8..12], b"WAVE");
    assert_eq!(&out[12..16], b"fmt ");
    assert_eq!(&out[16..20], &le32(16));
    assert_eq!(&out[20..22], &le16(1));
    assert_eq!(&out[22..24], &le16(1));
    assert_eq!(&out[24..28], &le32(48_000));
    assert_eq!(&out[28..32], &le32(144_000));
    assert_eq!(&out[32..34], &le16(3));
    assert_eq!(&out[34..36], &le16(24));
    assert_eq!(&out[36..40], b"data");
    assert_eq!(&out[40..44], &le32(3072));
}

#[test]
fn header_of_empty_image() {
    let wav = build_classic_pcm24_wav_bytes(&[]);
    assert_eq!(wav.len(), 44);
    assert_eq!(&wav[4..8], &le32(36));
    assert_eq!(&wav[40..44], &le32(0));
}

#[test]
fn wrong_sample_rate_is_rejected() {
    let wav = raw_wav(1, 1, 44_100, 24, &[0; 6]);
    match convert_wav_bytes(&wav) {
        Err(DecodeError::Format(m)) => {
            assert_eq!(m, FormatMismatch::SampleRate { expected: 48_000, actual: 44_100 })
        }
        other => panic!("unexpected {:?}", other),
    }
}

#[test]
fn stereo_is_rejected() {
    let wav = raw_wav(1, 2, 48_000, 24, &[0; 12]);
    assert!(matches!(convert_wav_bytes(&wav), Err(DecodeError::Format(FormatMismatch::Channels(2)))));
}

#[test]
fn float_encoding_is_rejected() {
    let wav = raw_wav(3, 1, 48_000, 32, &[0; 8]);
    assert!(matches!(convert_wav_bytes(&wav), Err(DecodeError::Format(FormatMismatch::Encoding))));
}

#[test]
fn sixteen_bit_is_rejected() {
    let wav = raw_wav(1, 1, 48_000, 16, &[0; 4]);
    assert!(matches!(convert_wav_bytes(&wav), Err(DecodeError::Format(FormatMismatch::BitDepth(16)))));
}

#[test]
fn garbage_is_a_parse_error() {
    assert!(matches!(convert_wav_bytes(b"not a wav file at all"), Err(DecodeError::Parse(_))));
    assert!(matches!(read_pcm24_mono(&[]), Err(DecodeError::Parse(_))));
}

#[test]
fn hand_made_valid_input_decodes() {
    let wav = raw_wav(1, 1, 48_000, 24, &[1, 0, 0, 0xff, 0xff, 0xff]);
    assert_eq!(read_pcm24_mono(&wav).unwrap(), vec![1, -1]);
}

#[test]
fn format_checks_come_in_order() {
    let ok = WavFormat { sample_rate: 48_000, channels: 1, is_float: false, bits_per_sample: 24 };
    assert_eq!(check_format(&ok), Ok(()));
    let all_wrong = WavFormat { sample_rate: 8_000, channels: 2, is_float: true, bits_per_sample: 8 };
    assert_eq!(
        check_format(&all_wrong),
        Err(FormatMismatch::SampleRate { expected: 48_000, actual: 8_000 })
    );
    let float = WavFormat { is_float: true, bits_per_sample: 32, ..ok };
    assert_eq!(check_format(&float), Err(FormatMismatch::Encoding));
}

#[test]
fn normalize_trims_and_pads() {
    assert_eq!(normalize_length(vec![1, 2, 3], 5), vec![1, 2, 3, 0, 0]);
    assert_eq!(normalize_length(vec![1, 2, 3], 2), vec![1, 2]);
    assert_eq!(normalize_length(vec![1, 2, 3], 3), vec![1, 2, 3]);
    assert_eq!(normalize_length(vec![], 0), Vec::<i32>::new());
    assert_eq!(normalize_length(ramp(3000), TARGET_SAMPLES).len(), 1024);
}
