use pulse_stream::channels::{layout_to_channel_map, Channel, ChannelMap, ChannelPosition};
use pulse_stream::error::Error;
use pulse_stream::format::{SampleFormat, SampleSpec};
use pulse_stream::gain::NO_GAIN;
use pulse_stream::stream::{State, Stream, SubStream, VolumeRoute};

fn sub(format: SampleFormat, rate: u32, channels: u8) -> Option<SubStream> {
    Some(SubStream { sample_spec: SampleSpec { format, rate, channels }, corked: false })
}

fn engine(output: Option<SubStream>, input: Option<SubStream>) -> Stream {
    Stream {
        output_stream: output,
        input_stream: input,
        drain_timer: false,
        shutdown: false,
        volume: NO_GAIN,
        state: State::Started,
    }
}

fn playing() -> Stream {
    engine(sub(SampleFormat::Signed16LE, 48000, 2), None)
}

fn capturing() -> Stream {
    engine(None, sub(SampleFormat::Float32LE, 44100, 1))
}

#[test]
fn position_in_frames() {
    let stm = playing();
    assert_eq!(stm.position(Some(0)), Ok(0));
    assert_eq!(stm.position(Some(1_000_000)), Ok(48000));
    assert_eq!(stm.position(Some(1_500_000)), Ok(72000));
    assert_eq!(stm.position(Some(20)), Ok(0));
    assert_eq!(stm.position(Some(21)), Ok(1));
    let cd = engine(sub(SampleFormat::Float32LE, 44100, 6), None);
    assert_eq!(cd.position(Some(2_000_000)), Ok(88200));
}

#[test]
fn position_fails_without_output_or_time() {
    assert_eq!(capturing().position(Some(1_000_000)), Err(Error::Generic));
    assert_eq!(capturing().position(None), Err(Error::Generic));
    assert_eq!(playing().position(None), Err(Error::Generic));
}

#[test]
fn latency_in_frames() {
    let stm = playing();
    assert_eq!(stm.latency(Some(0)), Ok(0));
    assert_eq!(stm.latency(Some(1_000_000)), Ok(48000));
    assert_eq!(stm.latency(Some(25_000)), Ok(1200));
    assert_eq!(stm.latency(Some(20)), Ok(0));
}

#[test]
fn latency_is_counted_in_32_bits() {
    let stm = playing();
    let usec: u64 = 100_000_000_000;
    let frames: u64 = usec * 48000 / 1_000_000;
    assert!(frames > u32::MAX as u64);
    assert_eq!(stm.latency(Some(usec)), Ok(frames as u32));
    let wide = (u64::MAX as u128) * 48000 / 1_000_000;
    assert_eq!(stm.latency(Some(u64::MAX)), Ok(wide as u32));
}

#[test]
fn latency_fails_without_output_or_answer() {
    assert_eq!(capturing().latency(Some(1000)), Err(Error::Generic));
    assert_eq!(playing().latency(None), Err(Error::Generic));
}

#[test]
fn flat_volumes_keep_the_gain_in_the_engine() {
    let mut stm = playing();
    let half = 0.5f32.to_bits();
    assert_eq!(stm.set_volume(half, true), Ok(VolumeRoute::Software));
    assert_eq!(stm.volume, half);
}

#[test]
fn other_volumes_go_to_the_server() {
    let mut stm = playing();
    assert_eq!(stm.set_volume(0.5f32.to_bits(), false), Ok(VolumeRoute::Server { channels: 2 }));
    assert_eq!(stm.volume, NO_GAIN);
    let mut wide = engine(sub(SampleFormat::Float32BE, 96000, 6), None);
    assert_eq!(wide.set_volume(1.0f32.to_bits(), false), Ok(VolumeRoute::Server { channels: 6 }));
}

#[test]
fn volume_fails_without_output() {
    let mut stm = capturing();
    assert_eq!(stm.set_volume(0.5f32.to_bits(), true), Err(Error::Generic));
    assert_eq!(stm.set_volume(0.5f32.to_bits(), false), Err(Error::Generic));
    assert_eq!(stm.volume, NO_GAIN);
}

#[test]
fn panning_needs_a_left_and_a_right() {
    let stm = playing();
    let stereo = layout_to_channel_map(&vec![Channel::Left, Channel::Right]);
    assert_eq!(stm.set_panning(&stereo), Ok(()));
    let mono = layout_to_channel_map(&vec![Channel::Mono]);
    assert_eq!(stm.set_panning(&mono), Err(Error::Generic));
    let lonely = ChannelMap { map: vec![ChannelPosition::FrontLeft, ChannelPosition::FrontCenter] };
    assert_eq!(stm.set_panning(&lonely), Err(Error::Generic));
    let empty = ChannelMap { map: Vec::new() };
    assert_eq!(stm.set_panning(&empty), Err(Error::Generic));
}

#[test]
fn panning_fails_without_output() {
    let stereo = layout_to_channel_map(&vec![Channel::Left, Channel::Right]);
    assert_eq!(capturing().set_panning(&stereo), Err(Error::Generic));
}

#[test]
fn device_names_of_both_directions() {
    let stm = engine(sub(SampleFormat::Signed16LE, 48000, 2), sub(SampleFormat::Signed16LE, 48000, 1));
    let dev = stm
        .current_device(true, Some(String::from("mic")), Some(String::from("speakers")))
        .unwrap();
    assert_eq!(dev.input_name, Some(String::from("mic")));
    assert_eq!(dev.output_name, Some(String::from("speakers")));
}

#[test]
fn device_name_of_a_missing_direction_is_left_out() {
    let dev = playing()
        .current_device(true, Some(String::from("mic")), Some(String::from("speakers")))
        .unwrap();
    assert_eq!(dev.input_name, None);
    assert_eq!(dev.output_name, Some(String::from("speakers")));
    let dev = capturing().current_device(true, Some(String::from("mic")), None).unwrap();
    assert_eq!(dev.input_name, Some(String::from("mic")));
    assert_eq!(dev.output_name, None);
}

#[test]
fn device_names_need_the_protocol() {
    let r = playing().current_device(false, None, Some(String::from("speakers")));
    assert!(matches!(r, Err(Error::NotSupported)));
    let r = playing().current_device(false, None, None);
    assert!(matches!(r, Err(Error::NotSupported)));
}

#[test]
fn a_direction_without_a_name_fails() {
    let stm = engine(sub(SampleFormat::Signed16LE, 48000, 2), sub(SampleFormat::Signed16LE, 48000, 1));
    let r = stm.current_device(true, None, Some(String::from("speakers")));
    assert!(matches!(r, Err(Error::Generic)));
    let r = stm.current_device(true, Some(String::from("mic")), None);
    assert!(matches!(r, Err(Error::Generic)));
}

#[test]
fn a_volume_that_the_server_refuses_fails() {
    let mut stm = playing();
    let route = stm.set_volume(0.5f32.to_bits(), false).unwrap();
    assert_eq!(Stream::volume_acknowledged(route, false), Err(Error::Generic));
    assert_eq!(Stream::volume_acknowledged(route, true), Ok(()));
    assert_eq!(stm.volume, NO_GAIN);
}

#[test]
fn a_volume_that_the_engine_keeps_needs_no_answer() {
    let mut stm = playing();
    let route = stm.set_volume(0.5f32.to_bits(), true).unwrap();
    assert_eq!(Stream::volume_acknowledged(route, false), Ok(()));
    assert_eq!(Stream::volume_acknowledged(route, true), Ok(()));
}

#[test]
fn a_balance_needs_both_answers() {
    assert_eq!(Stream::panning_acknowledged(true, true), Ok(()));
    assert_eq!(Stream::panning_acknowledged(false, true), Err(Error::Generic));
    assert_eq!(Stream::panning_acknowledged(true, false), Err(Error::Generic));
    assert_eq!(Stream::panning_acknowledged(false, false), Err(Error::Generic));
}

#[test]
fn a_cork_needs_the_answer_of_every_direction_in_use() {
    let duplex =
        engine(sub(SampleFormat::Signed16LE, 48000, 2), sub(SampleFormat::Signed16LE, 48000, 1));
    assert_eq!(duplex.cork_acknowledged(true, true), Ok(()));
    assert_eq!(duplex.cork_acknowledged(false, true), Err(Error::Generic));
    assert_eq!(duplex.cork_acknowledged(true, false), Err(Error::Generic));
    assert_eq!(playing().cork_acknowledged(true, false), Ok(()));
    assert_eq!(playing().cork_acknowledged(false, true), Err(Error::Generic));
    assert_eq!(capturing().cork_acknowledged(false, true), Ok(()));
    assert_eq!(capturing().cork_acknowledged(true, false), Err(Error::Generic));
}
