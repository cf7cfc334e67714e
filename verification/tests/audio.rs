use qxchat::screen_audio::{
    bytes_per_sample, decode_format, decode_pcm, output_rate, pcm_repr, preferred_input_device,
    resampler_rate, samples_to_bytes, MixFormat, SampleRepr, TARGET_SAMPLE_RATE,
};

#[test]
fn output_rate_sanitised() {
    assert_eq!(output_rate(44_100), 44_100);
    assert_eq!(output_rate(8_000), 8_000);
    assert_eq!(output_rate(192_000), 192_000);
    assert_eq!(output_rate(7_999), 48_000);
    assert_eq!(output_rate(0), 48_000);
    assert_eq!(output_rate(384_000), 48_000);
    assert_eq!(TARGET_SAMPLE_RATE, 48_000);
    assert_eq!(resampler_rate(0), 48_000);
    assert_eq!(resampler_rate(44_100), 44_100);
}

#[test]
fn pcm_widths() {
    assert_eq!(pcm_repr(16), SampleRepr::I16);
    assert_eq!(pcm_repr(24), SampleRepr::I24);
    assert_eq!(pcm_repr(32), SampleRepr::I32);
    assert_eq!(pcm_repr(8), SampleRepr::Unsupported);
    assert_eq!(bytes_per_sample(24), 3);
    assert_eq!(bytes_per_sample(20), 3);
}

fn fmt(tag: u16, bits: u16, sub: u32) -> MixFormat {
    MixFormat { format_tag: tag, channels: 2, bits_per_sample: bits, sub_format: sub }
}

#[test]
fn mix_formats() {
    assert_eq!(decode_format(None), (SampleRepr::Unsupported, 0));
    assert_eq!(decode_format(Some(&fmt(1, 16, 0))), (SampleRepr::I16, 2));
    assert_eq!(decode_format(Some(&fmt(3, 32, 0))), (SampleRepr::F32, 2));
    assert_eq!(decode_format(Some(&fmt(3, 64, 0))), (SampleRepr::Unsupported, 2));
    assert_eq!(decode_format(Some(&fmt(0xFFFE, 32, 3))), (SampleRepr::F32, 2));
    assert_eq!(decode_format(Some(&fmt(0xFFFE, 24, 1))), (SampleRepr::I24, 2));
    assert_eq!(decode_format(Some(&fmt(0xFFFE, 24, 9))), (SampleRepr::Unsupported, 2));
    assert_eq!(decode_format(Some(&fmt(2, 16, 0))), (SampleRepr::Unsupported, 2));
}

#[test]
fn samples_serialise_as_f32_le() {
    let samples = [0.5f32, -1.25, 0.0];
    let bits: Vec<u32> = samples.iter().map(|s| s.to_bits()).collect();
    let mut expected = Vec::new();
    for s in samples {
        expected.extend_from_slice(&s.to_le_bytes());
    }
    assert_eq!(samples_to_bytes(&bits), expected);
    assert!(samples_to_bytes(&[]).is_empty());
}

#[test]
fn pcm_decoding() {
    let i16s = [1i16, -2, i16::MAX, i16::MIN];
    let data: Vec<u8> = i16s.iter().flat_map(|v| v.to_le_bytes()).collect();
    assert_eq!(decode_pcm(&data, SampleRepr::I16, 2, 2), vec![1, -2, 32767, -32768]);
    // a trailing partial frame is ignored
    assert_eq!(decode_pcm(&data[..7], SampleRepr::I16, 2, 2), vec![1, -2]);
    let i24 = [0xFF, 0xFF, 0xFF, 0x01, 0x00, 0x00, 0x00, 0x00, 0x80];
    assert_eq!(decode_pcm(&i24, SampleRepr::I24, 1, 3), vec![-1, 1, -8_388_608]);
    let i32s: Vec<u8> = [i32::MIN, 7].iter().flat_map(|v| v.to_le_bytes()).collect();
    assert_eq!(decode_pcm(&i32s, SampleRepr::I32, 1, 4), vec![i32::MIN as i64, 7]);
    let f: Vec<u8> = 0.25f32.to_le_bytes().to_vec();
    assert_eq!(decode_pcm(&f, SampleRepr::F32, 1, 4), vec![0.25f32.to_bits() as i64]);
    assert!(decode_pcm(&f, SampleRepr::Unsupported, 1, 4).is_empty());
    // an unsupported packet is dropped whatever its layout says
    assert!(decode_pcm(&f, SampleRepr::Unsupported, 0, 0).is_empty());
}

#[test]
fn device_preference() {
    let names = |v: &[Option<&str>]| -> Vec<Option<String>> { v.iter().map(|n| n.map(|s| s.to_string())).collect() };
    assert_eq!(preferred_input_device(&[]), None);
    assert_eq!(
        preferred_input_device(&names(&[Some("Built-in Mic"), Some("Monitor of Speakers"), Some("Loopback")])),
        Some(1)
    );
    assert_eq!(preferred_input_device(&names(&[Some("Mic A"), None, Some("Mic B")])), Some(2));
    assert_eq!(preferred_input_device(&names(&[None, Some("HDMI OUTPUT")])), Some(1));
}

#[test]
fn serialised_samples_read_back() {
    let bits = vec![0u32, 1, 0x3F80_0000, u32::MAX, 0x1234_5678];
    let bytes = samples_to_bytes(&bits);
    assert_eq!(bytes.len(), 4 * bits.len());
    for (i, b) in bits.iter().enumerate() {
        let word = u32::from_le_bytes([bytes[4 * i], bytes[4 * i + 1], bytes[4 * i + 2], bytes[4 * i + 3]]);
        assert_eq!(word, *b);
    }
}
