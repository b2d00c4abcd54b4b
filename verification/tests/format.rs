use pulse_stream::error::Error;
use pulse_stream::format::{
    to_pulse_format, SampleFormat, SampleSpec, SAMPLE_FLOAT32BE, SAMPLE_FLOAT32LE, SAMPLE_S16BE,
    SAMPLE_S16LE,
};

#[test]
fn every_known_encoding_has_a_wire_format() {
    assert_eq!(to_pulse_format(SAMPLE_S16LE), SampleFormat::Signed16LE);
    assert_eq!(to_pulse_format(SAMPLE_S16BE), SampleFormat::Signed16BE);
    assert_eq!(to_pulse_format(SAMPLE_FLOAT32LE), SampleFormat::Float32LE);
    assert_eq!(to_pulse_format(SAMPLE_FLOAT32BE), SampleFormat::Float32BE);
}

#[test]
fn unknown_encodings_are_invalid() {
    assert_eq!(to_pulse_format(4), SampleFormat::Invalid);
    assert_eq!(to_pulse_format(-1), SampleFormat::Invalid);
    assert_eq!(to_pulse_format(i32::MAX), SampleFormat::Invalid);
    assert_eq!(to_pulse_format(i32::MIN), SampleFormat::Invalid);
}

#[test]
fn sample_sizes() {
    assert_eq!(SampleFormat::Signed16LE.sample_size(), 2);
    assert_eq!(SampleFormat::Signed16BE.sample_size(), 2);
    assert_eq!(SampleFormat::Float32LE.sample_size(), 4);
    assert_eq!(SampleFormat::Float32BE.sample_size(), 4);
    assert_eq!(SampleFormat::Invalid.sample_size(), 0);
    assert!(SampleFormat::Signed16BE.is_integer());
    assert!(!SampleFormat::Float32LE.is_integer());
    assert!(!SampleFormat::Invalid.is_integer());
}

#[test]
fn frame_size_is_sample_size_times_channels() {
    let stereo = SampleSpec { format: SampleFormat::Signed16LE, rate: 48000, channels: 2 };
    assert_eq!(stereo.frame_size(), 4);
    let surround = SampleSpec { format: SampleFormat::Float32LE, rate: 44100, channels: 6 };
    assert_eq!(surround.frame_size(), 24);
    let widest = SampleSpec { format: SampleFormat::Float32BE, rate: 1, channels: 255 };
    assert_eq!(widest.frame_size(), 1020);
    let none = SampleSpec { format: SampleFormat::Float32BE, rate: 1, channels: 0 };
    assert_eq!(none.frame_size(), 0);
}

#[test]
fn time_to_bytes() {
    let spec = SampleSpec { format: SampleFormat::Signed16LE, rate: 48000, channels: 2 };
    assert_eq!(spec.usec_to_bytes(0), 0);
    assert_eq!(spec.usec_to_bytes(1_000_000), 192_000);
    assert_eq!(spec.usec_to_bytes(20), 0);
    assert_eq!(spec.usec_to_bytes(21), 4);
    assert_eq!(spec.usec_to_bytes(1_500_000), 288_000);
}

#[test]
fn time_to_bytes_wraps_in_64_bits() {
    let spec = SampleSpec { format: SampleFormat::Signed16LE, rate: 48000, channels: 2 };
    let usec = u64::MAX;
    let frames = usec.wrapping_mul(48000) / 1_000_000;
    assert_eq!(spec.usec_to_bytes(usec), frames.wrapping_mul(4));
}

#[test]
fn error_codes() {
    assert_eq!(Error::Generic.code(), -1);
    assert_eq!(Error::InvalidFormat.code(), -2);
    assert_eq!(Error::NotSupported.code(), -4);
}
