use pulse_stream::buffering::BufferAttr;
use pulse_stream::channels::{Channel, ChannelPosition};
use pulse_stream::error::Error;
use pulse_stream::format::{
    SampleFormat, SampleSpec, SAMPLE_FLOAT32BE, SAMPLE_FLOAT32LE, SAMPLE_S16BE, SAMPLE_S16LE,
};
use pulse_stream::gain::NO_GAIN;
use pulse_stream::setup::{
    ConnectFlags, OpenRequest, Phase, Readiness, Reply, Request, StreamParams, TimingStep,
};
use pulse_stream::stream::{Action, Direction, State, Stream, StreamState, SubStream};

fn params(format: i32, channels: u32) -> StreamParams {
    StreamParams { format, rate: 48000, channels, layout: None }
}

fn flags() -> ConnectFlags {
    ConnectFlags {
        auto_timing_update: true,
        interpolate_timing: true,
        adjust_latency: true,
        start_corked: true,
    }
}

fn ready() -> Reply {
    Reply::States { output: StreamState::Ready, input: StreamState::Ready }
}

#[test]
fn every_supported_encoding_gives_a_sample_spec() {
    let wire = [
        (SAMPLE_S16LE, SampleFormat::Signed16LE),
        (SAMPLE_S16BE, SampleFormat::Signed16BE),
        (SAMPLE_FLOAT32LE, SampleFormat::Float32LE),
        (SAMPLE_FLOAT32BE, SampleFormat::Float32BE),
    ];
    for (format, expected) in wire {
        assert_eq!(
            Stream::stream_init(&params(format, 2)),
            Ok(SampleSpec { format: expected, rate: 48000, channels: 2 })
        );
    }
}

#[test]
fn unsupported_encodings_are_refused() {
    for format in [4, 5, 100, -1, i32::MIN, i32::MAX] {
        assert_eq!(Stream::stream_init(&params(format, 2)), Err(Error::InvalidFormat));
        assert_eq!(Stream::stream_init(&params(format, 0)), Err(Error::InvalidFormat));
    }
}

#[test]
fn the_wire_takes_eight_bits_of_the_channel_count() {
    assert_eq!(
        Stream::stream_init(&params(SAMPLE_S16LE, 0)),
        Ok(SampleSpec { format: SampleFormat::Signed16LE, rate: 48000, channels: 0 })
    );
    assert_eq!(
        Stream::stream_init(&params(SAMPLE_FLOAT32BE, 256)),
        Ok(SampleSpec { format: SampleFormat::Float32BE, rate: 48000, channels: 0 })
    );
    assert_eq!(
        Stream::stream_init(&params(SAMPLE_S16LE, 258)),
        Ok(SampleSpec { format: SampleFormat::Signed16LE, rate: 48000, channels: 2 })
    );
    assert_eq!(
        Stream::stream_init(&params(SAMPLE_FLOAT32LE, 255)),
        Ok(SampleSpec { format: SampleFormat::Float32LE, rate: 48000, channels: 255 })
    );
}

#[test]
fn output_only_construction() {
    let mut setup = Stream::new(None, Some(params(SAMPLE_S16LE, 2)), 1024);
    assert_eq!(setup.phase, Phase::Start);
    let (request, actions) = setup.advance(Reply::Begin);
    assert_eq!(
        request,
        Request::Open(OpenRequest {
            direction: Direction::Output,
            sample_spec: SampleSpec { format: SampleFormat::Signed16LE, rate: 48000, channels: 2 },
            with_channel_map: false,
            buffer_attr: BufferAttr {
                maxlength: u32::MAX,
                tlength: 4096,
                prebuf: u32::MAX,
                minreq: 1024,
                fragsize: 1024,
            },
            flags: flags(),
        })
    );
    assert!(actions.is_empty());
    assert_eq!(setup.phase, Phase::Opening(Direction::Output));
    let (request, actions) = setup.advance(Reply::Opened(true));
    assert_eq!(request, Request::Poll { wait: false });
    assert!(actions.is_empty());
    let (request, _) = setup.advance(Reply::States {
        output: StreamState::Creating,
        input: StreamState::Unconnected,
    });
    assert_eq!(request, Request::Poll { wait: true });
    let (request, _) = setup.advance(ready());
    assert_eq!(request, Request::RefreshTiming(Direction::Output));
    let (request, actions) = setup.advance(Reply::Refreshed(true));
    assert_eq!(request, Request::Finish);
    assert!(actions.is_empty());
    assert_eq!(setup.phase, Phase::Done);
    let stm = setup.finish().unwrap();
    assert_eq!(
        stm,
        Stream {
            output_stream: Some(SubStream {
                sample_spec: SampleSpec {
                    format: SampleFormat::Signed16LE,
                    rate: 48000,
                    channels: 2
                },
                corked: true,
            }),
            input_stream: None,
            drain_timer: false,
            shutdown: false,
            volume: NO_GAIN,
            state: State::Error,
        }
    );
}

#[test]
fn duplex_construction_opens_output_first() {
    let mut setup =
        Stream::new(Some(params(SAMPLE_FLOAT32LE, 1)), Some(params(SAMPLE_FLOAT32LE, 2)), 480);
    let (request, _) = setup.advance(Reply::Begin);
    match request {
        Request::Open(open) => {
            assert_eq!(open.direction, Direction::Output);
            assert_eq!(open.buffer_attr.tlength, 480 * 8);
            assert_eq!(open.buffer_attr.minreq, 480 * 2);
            assert!(open.flags.start_corked);
        },
        other => panic!("unexpected request {:?}", other),
    }
    let (request, _) = setup.advance(Reply::Opened(true));
    match request {
        Request::Open(open) => {
            assert_eq!(open.direction, Direction::Input);
            assert_eq!(open.sample_spec.channels, 1);
            assert_eq!(open.buffer_attr.tlength, 480 * 4);
            assert_eq!(open.buffer_attr.fragsize, 480);
            assert_eq!(open.flags, flags());
        },
        other => panic!("unexpected request {:?}", other),
    }
    let (request, _) = setup.advance(Reply::Opened(true));
    assert_eq!(request, Request::Poll { wait: false });
    let (request, _) = setup.advance(Reply::States {
        output: StreamState::Ready,
        input: StreamState::Creating,
    });
    assert_eq!(request, Request::Poll { wait: true });
    let (request, _) = setup.advance(ready());
    assert_eq!(request, Request::RefreshTiming(Direction::Output));
    let (request, _) = setup.advance(Reply::Refreshed(true));
    assert_eq!(request, Request::RefreshTiming(Direction::Input));
    let (request, _) = setup.advance(Reply::Refreshed(true));
    assert_eq!(request, Request::Finish);
    let stm = setup.finish().unwrap();
    assert!(stm.output_stream.unwrap().corked);
    assert!(stm.input_stream.unwrap().corked);
    assert!(!stm.shutdown);
    assert_eq!(stm.volume, NO_GAIN);
}

#[test]
fn input_only_construction() {
    let mut setup = Stream::new(Some(params(SAMPLE_S16BE, 1)), None, 100);
    let (request, _) = setup.advance(Reply::Begin);
    match request {
        Request::Open(open) => assert_eq!(open.direction, Direction::Input),
        other => panic!("unexpected request {:?}", other),
    }
    let (request, _) = setup.advance(Reply::Opened(true));
    assert_eq!(request, Request::Poll { wait: false });
    let (request, _) = setup.advance(Reply::States {
        output: StreamState::Failed,
        input: StreamState::Ready,
    });
    assert_eq!(request, Request::RefreshTiming(Direction::Input));
    let (request, _) = setup.advance(Reply::Refreshed(true));
    assert_eq!(request, Request::Finish);
    let stm = setup.finish().unwrap();
    assert_eq!(stm.output_stream, None);
    assert!(stm.input_stream.is_some());
}

#[test]
fn unsupported_output_encoding_ends_the_construction() {
    let mut setup = Stream::new(Some(params(SAMPLE_S16LE, 1)), Some(params(7, 2)), 1024);
    let (request, actions) = setup.advance(Reply::Begin);
    assert_eq!(request, Request::Abort(Error::InvalidFormat));
    assert!(actions.is_empty());
    assert_eq!(setup.phase, Phase::Failed(Error::InvalidFormat));
    assert_eq!(setup.stream.output_stream, None);
    assert_eq!(setup.stream.input_stream, None);
    assert_eq!(setup.finish(), Err(Error::InvalidFormat));
}

#[test]
fn unsupported_input_encoding_tears_the_output_down() {
    let mut setup = Stream::new(Some(params(-3, 1)), Some(params(SAMPLE_S16LE, 2)), 1024);
    let (request, _) = setup.advance(Reply::Begin);
    assert!(matches!(request, Request::Open(_)));
    let (request, actions) = setup.advance(Reply::Opened(true));
    assert_eq!(request, Request::Abort(Error::InvalidFormat));
    assert_eq!(
        actions,
        vec![
            Action::Cork { direction: Direction::Output, cork: true },
            Action::Disconnect(Direction::Output),
        ]
    );
    assert_eq!(setup.stream.output_stream, None);
    assert_eq!(setup.stream.input_stream, None);
    assert_eq!(setup.finish(), Err(Error::InvalidFormat));
}

#[test]
fn a_transport_that_does_not_come_into_being_ends_the_construction() {
    let mut setup = Stream::new(None, Some(params(SAMPLE_S16LE, 2)), 1024);
    setup.advance(Reply::Begin);
    let (request, actions) = setup.advance(Reply::Opened(false));
    assert_eq!(request, Request::Abort(Error::Generic));
    assert!(actions.is_empty());
    assert_eq!(setup.finish(), Err(Error::Generic));

    let mut setup = Stream::new(Some(params(SAMPLE_S16LE, 1)), Some(params(SAMPLE_S16LE, 2)), 1024);
    setup.advance(Reply::Begin);
    setup.advance(Reply::Opened(true));
    let (request, actions) = setup.advance(Reply::Opened(false));
    assert_eq!(request, Request::Abort(Error::Generic));
    assert_eq!(
        actions,
        vec![
            Action::Cork { direction: Direction::Output, cork: true },
            Action::Disconnect(Direction::Output),
        ]
    );
    assert_eq!(setup.finish(), Err(Error::Generic));
}

#[test]
fn a_frame_without_channels_is_left_to_the_server() {
    let mut setup = Stream::new(None, Some(params(SAMPLE_S16LE, 0)), 1024);
    let (request, _) = setup.advance(Reply::Begin);
    match request {
        Request::Open(open) => {
            assert_eq!(open.sample_spec.channels, 0);
            assert_eq!(open.buffer_attr.tlength, 0);
        },
        other => panic!("unexpected request {:?}", other),
    }
    let (request, actions) = setup.advance(Reply::Opened(false));
    assert_eq!(request, Request::Abort(Error::Generic));
    assert!(actions.is_empty());
    assert_eq!(setup.finish(), Err(Error::Generic));
}

#[test]
fn a_transport_without_frames_is_torn_down() {
    let mut setup = Stream::new(Some(params(SAMPLE_S16LE, 256)), Some(params(SAMPLE_S16LE, 2)), 64);
    setup.advance(Reply::Begin);
    setup.advance(Reply::Opened(true));
    let (request, actions) = setup.advance(Reply::Opened(true));
    assert_eq!(request, Request::Abort(Error::Generic));
    assert_eq!(
        actions,
        vec![
            Action::Cork { direction: Direction::Output, cork: true },
            Action::Cork { direction: Direction::Input, cork: true },
            Action::Disconnect(Direction::Output),
            Action::Disconnect(Direction::Input),
        ]
    );
    assert_eq!(setup.stream.output_stream, None);
    assert_eq!(setup.stream.input_stream, None);
    assert_eq!(setup.finish(), Err(Error::Generic));
}

#[test]
fn a_failed_transport_ends_the_construction() {
    let mut setup = Stream::new(Some(params(SAMPLE_S16LE, 1)), Some(params(SAMPLE_S16LE, 2)), 1024);
    setup.advance(Reply::Begin);
    setup.advance(Reply::Opened(true));
    setup.advance(Reply::Opened(true));
    let (request, actions) = setup.advance(Reply::States {
        output: StreamState::Ready,
        input: StreamState::Failed,
    });
    assert_eq!(request, Request::Abort(Error::Generic));
    assert_eq!(
        actions,
        vec![
            Action::Cork { direction: Direction::Output, cork: true },
            Action::Cork { direction: Direction::Input, cork: true },
            Action::Disconnect(Direction::Output),
            Action::Disconnect(Direction::Input),
        ]
    );
    assert_eq!(setup.stream.output_stream, None);
    assert_eq!(setup.stream.input_stream, None);
    assert_eq!(setup.finish(), Err(Error::Generic));
}

#[test]
fn a_refused_timing_refresh_ends_the_construction() {
    let mut setup = Stream::new(Some(params(SAMPLE_S16LE, 1)), Some(params(SAMPLE_S16LE, 2)), 1024);
    setup.advance(Reply::Begin);
    setup.advance(Reply::Opened(true));
    setup.advance(Reply::Opened(true));
    setup.advance(ready());
    let (request, _) = setup.advance(Reply::Refreshed(false));
    assert_eq!(request, Request::Abort(Error::Generic));
    assert_eq!(setup.finish(), Err(Error::Generic));

    let mut setup = Stream::new(Some(params(SAMPLE_S16LE, 1)), Some(params(SAMPLE_S16LE, 2)), 1024);
    setup.advance(Reply::Begin);
    setup.advance(Reply::Opened(true));
    setup.advance(Reply::Opened(true));
    setup.advance(ready());
    setup.advance(Reply::Refreshed(true));
    let (request, actions) = setup.advance(Reply::Refreshed(false));
    assert_eq!(request, Request::Abort(Error::Generic));
    assert_eq!(actions.len(), 4);
    assert_eq!(setup.finish(), Err(Error::Generic));
}

#[test]
fn a_stream_without_directions_cannot_be_built() {
    let mut setup = Stream::new(None, None, 1024);
    let (request, _) = setup.advance(Reply::Begin);
    assert_eq!(request, Request::Poll { wait: false });
    let (request, actions) = setup.advance(ready());
    assert_eq!(request, Request::Abort(Error::Generic));
    assert!(actions.is_empty());
    assert_eq!(setup.finish(), Err(Error::Generic));
}

#[test]
fn channel_map_of_a_layout() {
    let output = StreamParams {
        format: SAMPLE_S16LE,
        rate: 44100,
        channels: 3,
        layout: Some(vec![Channel::Left, Channel::Right, Channel::LowFrequency]),
    };
    assert!(output.fits(1024));
    let mut setup = Stream::new(Some(params(SAMPLE_S16LE, 1)), Some(output), 1024);
    let (request, _) = setup.advance(Reply::Begin);
    match request {
        Request::Open(open) => assert!(open.with_channel_map),
        other => panic!("unexpected request {:?}", other),
    }
    let cm = setup.channel_map(Direction::Output).unwrap();
    assert_eq!(
        cm.map,
        vec![ChannelPosition::FrontLeft, ChannelPosition::FrontRight, ChannelPosition::Lfe]
    );
    assert!(setup.channel_map(Direction::Input).is_none());
    let (request, _) = setup.advance(Reply::Opened(true));
    match request {
        Request::Open(open) => assert!(!open.with_channel_map),
        other => panic!("unexpected request {:?}", other),
    }
}

#[test]
fn parameters_that_fit() {
    assert!(params(SAMPLE_S16LE, 2).fits(1024));
    assert!(params(SAMPLE_S16LE, 2).fits(u32::MAX / 4));
    assert!(!params(SAMPLE_S16LE, 2).fits(u32::MAX / 4 + 1));
    assert!(params(9, 2).fits(u32::MAX));
    let bad = StreamParams {
        format: SAMPLE_S16LE,
        rate: 44100,
        channels: 2,
        layout: Some(vec![Channel::Left, Channel::Invalid]),
    };
    assert!(!bad.fits(1));
    let long = StreamParams {
        format: SAMPLE_S16LE,
        rate: 44100,
        channels: 2,
        layout: Some(vec![Channel::Left; 33]),
    };
    assert!(!long.fits(1));
    let full = StreamParams {
        format: SAMPLE_S16LE,
        rate: 44100,
        channels: 2,
        layout: Some(vec![Channel::Left; 32]),
    };
    assert!(full.fits(1));
    assert!(full.channel_map().unwrap().channels() == 32);
    assert!(params(SAMPLE_S16LE, 2).channel_map().is_none());
}

#[test]
fn readiness_looks_at_output_first() {
    let stm = Stream {
        output_stream: Some(SubStream {
            sample_spec: SampleSpec { format: SampleFormat::Signed16LE, rate: 48000, channels: 2 },
            corked: true,
        }),
        input_stream: Some(SubStream {
            sample_spec: SampleSpec { format: SampleFormat::Signed16LE, rate: 48000, channels: 1 },
            corked: true,
        }),
        drain_timer: false,
        shutdown: false,
        volume: NO_GAIN,
        state: State::Error,
    };
    assert_eq!(stm.wait_until_ready(StreamState::Ready, StreamState::Ready), Readiness::Ready);
    assert_eq!(stm.wait_until_ready(StreamState::Creating, StreamState::Failed), Readiness::Pending);
    assert_eq!(stm.wait_until_ready(StreamState::Ready, StreamState::Failed), Readiness::Failed);
    assert_eq!(stm.wait_until_ready(StreamState::Ready, StreamState::Creating), Readiness::Pending);
    assert_eq!(stm.wait_until_ready(StreamState::Unconnected, StreamState::Ready), Readiness::Failed);
    assert_eq!(stm.wait_until_ready(StreamState::Terminated, StreamState::Creating), Readiness::Failed);
    assert_eq!(stm.wait_until_ready(StreamState::Ready, StreamState::Unconnected), Readiness::Failed);
    let playing = Stream { input_stream: None, ..stm };
    assert_eq!(playing.wait_until_ready(StreamState::Ready, StreamState::Failed), Readiness::Ready);
    assert_eq!(playing.wait_until_ready(StreamState::Creating, StreamState::Ready), Readiness::Pending);
    let none = Stream { output_stream: None, ..playing };
    assert_eq!(none.wait_until_ready(StreamState::Failed, StreamState::Failed), Readiness::Ready);
}

#[test]
fn timing_is_refreshed_direction_by_direction() {
    let sub = Some(SubStream {
        sample_spec: SampleSpec { format: SampleFormat::Signed16LE, rate: 48000, channels: 2 },
        corked: true,
    });
    let duplex = Stream {
        output_stream: sub,
        input_stream: sub,
        drain_timer: false,
        shutdown: false,
        volume: NO_GAIN,
        state: State::Error,
    };
    assert_eq!(duplex.update_timing_info(None), TimingStep::Refresh(Direction::Output));
    assert_eq!(
        duplex.update_timing_info(Some((Direction::Output, true))),
        TimingStep::Refresh(Direction::Input)
    );
    assert_eq!(duplex.update_timing_info(Some((Direction::Output, false))), TimingStep::Done(false));
    assert_eq!(duplex.update_timing_info(Some((Direction::Input, true))), TimingStep::Done(true));
    assert_eq!(duplex.update_timing_info(Some((Direction::Input, false))), TimingStep::Done(false));
    let playing = Stream { input_stream: None, ..duplex };
    assert_eq!(playing.update_timing_info(Some((Direction::Output, true))), TimingStep::Done(true));
    let capturing = Stream { output_stream: None, ..duplex };
    assert_eq!(capturing.update_timing_info(None), TimingStep::Refresh(Direction::Input));
    let none = Stream { output_stream: None, ..playing };
    assert_eq!(none.update_timing_info(None), TimingStep::Done(false));
}
