//! Construction of a stream: from the parameters of its directions to an
//! engine whose transports are connected, ready and timed.
//!
//! `Stream::new` starts a `Setup`. Each call of `advance` takes the
//! connection's reply to the last request and returns the next one, until
//! the request is `Finish` or `Abort`; `finish` then gives the engine or
//! the error. An engine is handed out only when everything succeeded.

use crate::buffering::{buffering_for, set_buffering_attribute, BufferAttr};
use crate::channels::{layout_to_channel_map, position_of, Channel, ChannelMap, CHANNELS_MAX};
use crate::error::Error;
use crate::format::{pulse_format_of, supported_format, to_pulse_format, SampleFormat, SampleSpec};
use crate::gain::NO_GAIN;
use crate::stream::{Action, Direction, State, Stream, StreamState, SubStream};
use vstd::prelude::*;

verus! {

/// What an application asks of one direction.
#[derive(Debug)]
pub struct StreamParams {
    /// The sample encoding, by its number.
    pub format: i32,
    /// Frames per second.
    pub rate: u32,
    /// Channels per frame; the wire takes the lowest eight bits of it.
    pub channels: u32,
    /// The channels of the layout in their order; `None` for an undefined
    /// layout, which leaves the channel map to the server.
    pub layout: Option<Vec<Channel>>,
}

/// How a transport is connected.
#[derive(Clone, Copy, Debug, PartialEq, Eq, Structural)]
pub struct ConnectFlags {
    pub auto_timing_update: bool,
    pub interpolate_timing: bool,
    pub adjust_latency: bool,
    pub start_corked: bool,
}

/// The request to create a direction's transport, to register the
/// engine's callbacks on it and to connect it.
#[derive(Clone, Copy, Debug, PartialEq, Eq, Structural)]
pub struct OpenRequest {
    pub direction: Direction,
    pub sample_spec: SampleSpec,
    /// Whether the transport gets the channel map of the layout, which
    /// `Setup::channel_map` returns.
    pub with_channel_map: bool,
    pub buffer_attr: BufferAttr,
    pub flags: ConnectFlags,
}

/// Whether the transports of a stream are usable.
#[derive(Clone, Copy, Debug, PartialEq, Eq, Structural)]
pub enum Readiness {
    /// A transport is in a state that is not good.
    Failed,
    /// A transport is still being set up.
    Pending,
    /// Every transport is ready.
    Ready,
}

/// What follows in the refresh of the timing information.
#[derive(Clone, Copy, Debug, PartialEq, Eq, Structural)]
pub enum TimingStep {
    /// Ask this direction's transport for its timing, and wait.
    Refresh(Direction),
    /// Nothing more to ask; the refresh as a whole succeeded or failed.
    Done(bool),
}

/// How far a construction has come.
#[derive(Clone, Copy, Debug, PartialEq, Eq, Structural)]
pub enum Phase {
    /// Nothing was asked yet.
    Start,
    /// The transport of a direction was asked for.
    Opening(Direction),
    /// The states of the transports were asked for.
    AwaitingReady,
    /// The timing of a direction was asked for.
    Refreshing(Direction),
    /// The engine is complete.
    Done,
    /// The construction failed and was undone.
    Failed(Error),
}

/// What the connection answers to a request.
#[derive(Clone, Copy, Debug, PartialEq, Eq, Structural)]
pub enum Reply {
    /// Nothing was asked yet.
    Begin,
    /// To `Open`: whether a transport came into being.
    Opened(bool),
    /// To `Poll`: the states of the transports. The state of a direction
    /// that the stream does not have is not looked at.
    States { output: StreamState, input: StreamState },
    /// To `RefreshTiming`: whether the server acknowledged.
    Refreshed(bool),
}

/// What a construction asks of the connection next.
#[derive(Clone, Copy, Debug, PartialEq, Eq, Structural)]
pub enum Request {
    /// Create, register and connect a transport.
    Open(OpenRequest),
    /// Report the states of the transports, after waiting on the event
    /// loop where `wait` is set.
    Poll { wait: bool },
    /// Refresh the timing information of a direction and wait for the
    /// acknowledgement.
    RefreshTiming(Direction),
    /// Nothing: `finish` gives the engine.
    Finish,
    /// Nothing but the teardown that was returned along: `finish` gives
    /// this error.
    Abort(Error),
}

/// A construction in progress.
#[derive(Debug)]
pub struct Setup {
    /// The engine as far as it is built.
    pub stream: Stream,
    pub input_params: Option<StreamParams>,
    pub output_params: Option<StreamParams>,
    /// The latency asked for, in frames.
    pub latency_frames: u32,
    pub phase: Phase,
}

/// Every transport is connected with these flags: it keeps its timing up
/// to date and interpolates it, lets the server adjust the latency, and is
/// paused from the start.
pub open spec fn connect_flags() -> ConnectFlags {
    ConnectFlags {
        auto_timing_update: true,
        interpolate_timing: true,
        adjust_latency: true,
        start_corked: true,
    }
}

impl StreamParams {
    /// The sample spec that these parameters ask for.
    pub open spec fn sample_spec(self) -> SampleSpec {
        SampleSpec {
            format: pulse_format_of(self.format),
            rate: self.rate,
            channels: (self.channels % 256) as u8,
        }
    }

    /// What `stream_init` makes of these parameters.
    pub open spec fn spec_stream_init(self) -> Result<SampleSpec, Error> {
        if !supported_format(self.format) {
            Err(Error::InvalidFormat)
        } else {
            Ok(self.sample_spec())
        }
    }

    /// Parameters whose layout, where one is given, has at most as many
    /// channels as a channel map holds, each of them a channel.
    pub open spec fn wf(self) -> bool {
        self.layout matches Some(order) ==> {
            &&& order@.len() <= CHANNELS_MAX
            &&& forall|i: int| 0 <= i < order@.len() ==> order@[i] != Channel::Invalid
        }
    }

    /// Whether a target length for `latency_frames` frames fits into 32
    /// bits.
    pub open spec fn latency_fits(self, latency_frames: u32) -> bool {
        latency_frames * self.sample_spec().spec_frame_size() <= u32::MAX
    }

    /// Tells whether these parameters are well formed and leave the
    /// target length for `latency_frames` frames within 32 bits.
    pub fn fits(&self, latency_frames: u32) -> (b: bool)
        ensures
            b == (self.wf() && self.latency_fits(latency_frames)),
    {
        if let Some(order) = &self.layout {
            if order.len() > CHANNELS_MAX {
                return false;
            }
            let mut i: usize = 0;
            while i < order.len()
                invariant
                    i <= order@.len(),
                    self.layout == Some(*order),
                    forall|k: int| 0 <= k < i ==> order@[k] != Channel::Invalid,
                decreases order@.len() - i,
            {
                if order[i] == Channel::Invalid {
                    assert(self.layout.unwrap()@[i as int] == Channel::Invalid);
                    return false;
                }
                i += 1;
            }
        }
        let spec = SampleSpec {
            format: to_pulse_format(self.format),
            rate: self.rate,
            channels: (self.channels % 256) as u8,
        };
        let frame_size: u64 = spec.frame_size() as u64;
        assert(latency_frames * frame_size <= 0xffff_ffff * 1020) by (nonlinear_arith)
            requires
                latency_frames <= 0xffff_ffff,
                frame_size <= 1020,
        ;
        (latency_frames as u64) * frame_size <= 0xffff_ffff
    }

    /// The channel map that goes with these parameters: that of the
    /// layout, or none for an undefined layout.
    pub fn channel_map(&self) -> (cm: Option<ChannelMap>)
        requires
            self.wf(),
        ensures
            cm is Some <==> self.layout is Some,
            cm matches Some(m) ==> m@ == self.layout.unwrap()@.map_values(
                |c: Channel| position_of(c),
            ),
    {
        match &self.layout {
            Some(order) => Some(layout_to_channel_map(order)),
            None => None,
        }
    }
}

/// Whether the parameters of a direction, where it is asked for, are well
/// formed and leave the target length within 32 bits.
pub open spec fn params_fit(params: Option<StreamParams>, latency_frames: u32) -> bool {
    params matches Some(p) ==> p.wf() && p.latency_fits(latency_frames)
}

impl Stream {
    /// An engine without directions: not shut down, without gain and
    /// drain timer, in the state `Error`.
    pub open spec fn empty() -> Stream {
        Stream {
            output_stream: None,
            input_stream: None,
            drain_timer: false,
            shutdown: false,
            volume: NO_GAIN,
            state: State::Error,
        }
    }

    /// What holds of an engine that nothing was done to since it was
    /// built: every direction is paused, nothing is shut down, no gain is
    /// set, no drain timer is armed and nothing but `Error` was reported.
    pub open spec fn fresh(self) -> bool {
        &&& self.wf()
        &&& self.output_stream matches Some(s) ==> s.corked
        &&& self.input_stream matches Some(s) ==> s.corked
        &&& !self.drain_timer
        &&& !self.shutdown
        &&& self.volume == NO_GAIN
        &&& self.state == State::Error
    }

    /// The engine with a new, paused transport for a direction.
    pub open spec fn attached(self, direction: Direction, sample_spec: SampleSpec) -> Stream {
        let sub = Some(SubStream { sample_spec, corked: true });
        match direction {
            Direction::Output => Stream { output_stream: sub, ..self },
            Direction::Input => Stream { input_stream: sub, ..self },
        }
    }

    /// Starts the construction of a stream with the given directions.
    pub fn new(
        input_stream_params: Option<StreamParams>,
        output_stream_params: Option<StreamParams>,
        latency_frames: u32,
    ) -> (setup: Setup)
        requires
            params_fit(input_stream_params, latency_frames),
            params_fit(output_stream_params, latency_frames),
        ensures
            setup.stream == Stream::empty(),
            setup.input_params == input_stream_params,
            setup.output_params == output_stream_params,
            setup.latency_frames == latency_frames,
            setup.phase == Phase::Start,
            setup.wf(),
    {
        Setup {
            stream: Stream {
                output_stream: None,
                input_stream: None,
                drain_timer: false,
                shutdown: false,
                volume: NO_GAIN,
                state: State::Error,
            },
            input_params: input_stream_params,
            output_params: output_stream_params,
            latency_frames,
            phase: Phase::Start,
        }
    }

    /// The sample spec for a direction's parameters: it succeeds for every
    /// supported encoding, and refuses every other as `InvalidFormat`.
    pub fn stream_init(stream_params: &StreamParams) -> (r: Result<SampleSpec, Error>)
        ensures
            r == stream_params.spec_stream_init(),
            r is Ok <==> supported_format(stream_params.format),
            r matches Ok(spec) ==> spec == stream_params.sample_spec(),
            r matches Err(e) ==> e == Error::InvalidFormat,
    {
        let fmt: SampleFormat = to_pulse_format(stream_params.format);
        if fmt == SampleFormat::Invalid {
            return Err(Error::InvalidFormat);
        }
        let channels: u8 = (stream_params.channels % 256) as u8;
        Ok(SampleSpec { format: fmt, rate: stream_params.rate, channels })
    }

    /// Whether the transports are usable, from their states: playback is
    /// looked at first, and capture only when playback is ready.
    pub open spec fn readiness(self, output: StreamState, input: StreamState) -> Readiness {
        if self.output_stream is Some && !output.spec_is_good() {
            Readiness::Failed
        } else if self.output_stream is Some && output != StreamState::Ready {
            Readiness::Pending
        } else if self.input_stream is Some && !input.spec_is_good() {
            Readiness::Failed
        } else if self.input_stream is Some && input != StreamState::Ready {
            Readiness::Pending
        } else {
            Readiness::Ready
        }
    }

    /// Decides from the states of the transports whether the stream is
    /// ready, has failed, or has to be waited for.
    pub fn wait_until_ready(&self, output: StreamState, input: StreamState) -> (r: Readiness)
        ensures
            r == self.readiness(output, input),
    {
        if self.output_stream.is_some() {
            if !output.is_good() {
                return Readiness::Failed;
            }
            if output != StreamState::Ready {
                return Readiness::Pending;
            }
        }
        if self.input_stream.is_some() {
            if !input.is_good() {
                return Readiness::Failed;
            }
            if input != StreamState::Ready {
                return Readiness::Pending;
            }
        }
        Readiness::Ready
    }

    /// What follows in the refresh of the timing information, after the
    /// refresh of the direction in `last` ended as told there, or at the
    /// start. Playback comes first, capture after it; the first refusal
    /// ends the refresh as failed, and so does a stream without
    /// directions.
    pub open spec fn timing_step(self, last: Option<(Direction, bool)>) -> TimingStep {
        match last {
            None => if self.output_stream is Some {
                TimingStep::Refresh(Direction::Output)
            } else if self.input_stream is Some {
                TimingStep::Refresh(Direction::Input)
            } else {
                TimingStep::Done(false)
            },
            Some((Direction::Output, ok)) => if !ok {
                TimingStep::Done(false)
            } else if self.input_stream is Some {
                TimingStep::Refresh(Direction::Input)
            } else {
                TimingStep::Done(true)
            },
            Some((Direction::Input, ok)) => TimingStep::Done(ok),
        }
    }

    /// Decides what follows in the refresh of the timing information.
    pub fn update_timing_info(&self, last: Option<(Direction, bool)>) -> (step: TimingStep)
        ensures
            step == self.timing_step(last),
    {
        match last {
            None => {
                if self.output_stream.is_some() {
                    TimingStep::Refresh(Direction::Output)
                } else if self.input_stream.is_some() {
                    TimingStep::Refresh(Direction::Input)
                } else {
                    TimingStep::Done(false)
                }
            },
            Some((Direction::Output, ok)) => {
                if !ok {
                    TimingStep::Done(false)
                } else if self.input_stream.is_some() {
                    TimingStep::Refresh(Direction::Input)
                } else {
                    TimingStep::Done(true)
                }
            },
            Some((Direction::Input, ok)) => TimingStep::Done(ok),
        }
    }
}

impl Setup {
    /// The parameters of a direction.
    pub open spec fn params(self, direction: Direction) -> Option<StreamParams> {
        match direction {
            Direction::Output => self.output_params,
            Direction::Input => self.input_params,
        }
    }

    /// What holds of a construction at any moment: the parameters fit, and
    /// nothing was done to the engine but to give it directions.
    pub open spec fn pristine(self) -> bool {
        &&& params_fit(self.input_params, self.latency_frames)
        &&& params_fit(self.output_params, self.latency_frames)
        &&& !self.stream.drain_timer
        &&& !self.stream.shutdown
        &&& self.stream.volume == NO_GAIN
        &&& self.stream.state == State::Error
    }

    /// What holds of the engine under construction: it is as fresh as when
    /// it was made, and a direction that it has is one that was asked for,
    /// with the sample spec asked for.
    pub open spec fn built(self) -> bool {
        &&& params_fit(self.input_params, self.latency_frames)
        &&& params_fit(self.output_params, self.latency_frames)
        &&& self.stream.fresh()
        &&& forall|d: Direction| #[trigger]
            self.stream.slot(d) matches Some(s) ==> (self.params(d) matches Some(p)
                && p.spec_stream_init() == Ok::<SampleSpec, Error>(s.sample_spec))
    }

    /// Whether the engine has playback if playback was asked for.
    pub open spec fn output_settled(self) -> bool {
        self.output_params is Some ==> self.stream.output_stream is Some
    }

    /// Whether the engine has every direction that was asked for.
    pub open spec fn complete(self) -> bool {
        &&& self.output_params is Some ==> self.stream.output_stream is Some
        &&& self.input_params is Some ==> self.stream.input_stream is Some
    }

    /// What holds of every construction: the engine is built as far as it
    /// goes; a transport is only awaited for a direction that was asked
    /// for and is not there yet, capture after playback; once the
    /// transports are waited for, the engine has every direction that was
    /// asked for; and at the start and after a failure it has none.
    pub open spec fn wf(self) -> bool {
        &&& self.built()
        &&& self.phase matches Phase::Opening(d) ==> {
            &&& self.params(d) matches Some(p) && p.spec_stream_init() is Ok
            &&& self.stream.slot(d) is None
            &&& self.stream.input_stream is None
            &&& d == Direction::Input ==> self.output_settled()
        }
        &&& self.phase is AwaitingReady || self.phase is Refreshing || self.phase is Done
            ==> self.complete()
        &&& self.phase is Start || self.phase is Failed ==> self.stream == Stream::empty()
    }

    /// Whether `reply` answers the request that is outstanding.
    pub open spec fn expects(self, reply: Reply) -> bool {
        match (self.phase, reply) {
            (Phase::Start, Reply::Begin) => true,
            (Phase::Opening(_), Reply::Opened(_)) => true,
            (Phase::AwaitingReady, Reply::States { .. }) => true,
            (Phase::Refreshing(_), Reply::Refreshed(_)) => true,
            _ => false,
        }
    }

    /// The request to open a direction with the parameters `p`: the buffer
    /// metrics are those for the latency asked for, at the frame size of
    /// the direction.
    pub open spec fn open_request(self, direction: Direction, p: StreamParams) -> OpenRequest {
        OpenRequest {
            direction,
            sample_spec: p.sample_spec(),
            with_channel_map: p.layout is Some,
            buffer_attr: buffering_for(self.latency_frames * p.sample_spec().spec_frame_size()),
            flags: connect_flags(),
        }
    }

    /// The construction fails with `e`: what was built is torn down.
    pub open spec fn failing(self, e: Error) -> (Setup, Request, Seq<Action>) {
        (
            Setup { stream: self.stream.after_destroy(), phase: Phase::Failed(e), ..self },
            Request::Abort(e),
            self.stream.destroy_actions(),
        )
    }

    /// The construction asks for the states of the transports.
    pub open spec fn polling(self, wait: bool) -> (Setup, Request, Seq<Action>) {
        (
            Setup { phase: Phase::AwaitingReady, ..self },
            Request::Poll { wait },
            Seq::<Action>::empty(),
        )
    }

    /// The construction turns to a direction that was asked for with the
    /// parameters `p`: it asks for the transport, or fails on the
    /// parameters.
    pub open spec fn opening(self, direction: Direction, p: StreamParams) -> (
        Setup,
        Request,
        Seq<Action>,
    ) {
        match p.spec_stream_init() {
            Err(e) => self.failing(e),
            Ok(_) => (
                Setup { phase: Phase::Opening(direction), ..self },
                Request::Open(self.open_request(direction, p)),
                Seq::<Action>::empty(),
            ),
        }
    }

    /// The construction is through with playback: capture follows where
    /// it was asked for, else the wait for the transports.
    pub open spec fn after_output(self) -> (Setup, Request, Seq<Action>) {
        match self.input_params {
            Some(p) => self.opening(Direction::Input, p),
            None => self.polling(false),
        }
    }

    /// The construction refreshes the timing information, after `last`.
    pub open spec fn refreshing(self, last: Option<(Direction, bool)>) -> (
        Setup,
        Request,
        Seq<Action>,
    ) {
        match self.stream.timing_step(last) {
            TimingStep::Refresh(d) => (
                Setup { phase: Phase::Refreshing(d), ..self },
                Request::RefreshTiming(d),
                Seq::<Action>::empty(),
            ),
            TimingStep::Done(true) => (
                Setup { phase: Phase::Done, ..self },
                Request::Finish,
                Seq::<Action>::empty(),
            ),
            TimingStep::Done(false) => self.failing(Error::Generic),
        }
    }

    /// One step of a construction: the construction after `reply`, the
    /// next request, and the actions to carry out before it. Playback is
    /// opened first, then capture; then the transports are waited for;
    /// then their timing is refreshed. Whatever fails ends the
    /// construction, and so does a transport whose frames have no byte,
    /// should the server ever create one.
    pub open spec fn step(self, reply: Reply) -> (Setup, Request, Seq<Action>) {
        match (self.phase, reply) {
            (Phase::Start, Reply::Begin) => match self.output_params {
                Some(p) => self.opening(Direction::Output, p),
                None => self.after_output(),
            },
            (Phase::Opening(d), Reply::Opened(created)) => if !created {
                self.failing(Error::Generic)
            } else {
                let built = Setup {
                    stream: self.stream.attached(d, self.params(d).unwrap().sample_spec()),
                    ..self
                };
                if !self.params(d).unwrap().sample_spec().has_frames() {
                    built.failing(Error::Generic)
                } else {
                    match d {
                        Direction::Output => built.after_output(),
                        Direction::Input => built.polling(false),
                    }
                }
            },
            (Phase::AwaitingReady, Reply::States { output, input }) => match self.stream.readiness(
                output,
                input,
            ) {
                Readiness::Failed => self.failing(Error::Generic),
                Readiness::Pending => self.polling(true),
                Readiness::Ready => self.refreshing(None),
            },
            (Phase::Refreshing(d), Reply::Refreshed(ok)) => self.refreshing(Some((d, ok))),
            _ => (self, Request::Abort(Error::Generic), Seq::<Action>::empty()),
        }
    }

    fn fail(&mut self, e: Error) -> (r: (Request, Vec<Action>))
        requires
            old(self).pristine(),
        ensures
            (*final(self), r.0, r.1@) == old(self).failing(e),
            final(self).wf(),
    {
        let actions: Vec<Action> = self.stream.destroy();
        self.phase = Phase::Failed(e);
        (Request::Abort(e), actions)
    }

    fn poll(&mut self, wait: bool) -> (r: (Request, Vec<Action>))
        requires
            old(self).built(),
            old(self).complete(),
        ensures
            (*final(self), r.0, r.1@) == old(self).polling(wait),
            final(self).wf(),
    {
        self.phase = Phase::AwaitingReady;
        (Request::Poll { wait }, Vec::new())
    }

    fn open(&mut self, direction: Direction) -> (r: (Request, Vec<Action>))
        requires
            old(self).built(),
            old(self).params(direction) is Some,
            old(self).stream.slot(direction) is None,
            old(self).stream.input_stream is None,
            direction == Direction::Input ==> old(self).output_settled(),
        ensures
            (*final(self), r.0, r.1@) == old(self).opening(
                direction,
                old(self).params(direction).unwrap(),
            ),
            final(self).wf(),
    {
        let params: &Option<StreamParams> = match direction {
            Direction::Output => &self.output_params,
            Direction::Input => &self.input_params,
        };
        let checked: Result<(SampleSpec, bool), Error> = match params {
            Some(p) => match Stream::stream_init(p) {
                Ok(spec) => Ok((spec, p.layout.is_some())),
                Err(e) => Err(e),
            },
            None => Err(Error::Generic),
        };
        match checked {
            Err(e) => self.fail(e),
            Ok((sample_spec, with_channel_map)) => {
                let frame_size: usize = sample_spec.frame_size();
                let buffer_attr: BufferAttr = set_buffering_attribute(
                    self.latency_frames,
                    frame_size as u32,
                );
                self.phase = Phase::Opening(direction);
                (
                    Request::Open(
                        OpenRequest {
                            direction,
                            sample_spec,
                            with_channel_map,
                            buffer_attr,
                            flags: ConnectFlags {
                                auto_timing_update: true,
                                interpolate_timing: true,
                                adjust_latency: true,
                                start_corked: true,
                            },
                        },
                    ),
                    Vec::new(),
                )
            },
        }
    }

    fn leave_output(&mut self) -> (r: (Request, Vec<Action>))
        requires
            old(self).built(),
            old(self).stream.input_stream is None,
            old(self).output_settled(),
        ensures
            (*final(self), r.0, r.1@) == old(self).after_output(),
            final(self).wf(),
    {
        if self.input_params.is_some() {
            self.open(Direction::Input)
        } else {
            self.poll(false)
        }
    }

    fn refresh(&mut self, last: Option<(Direction, bool)>) -> (r: (Request, Vec<Action>))
        requires
            old(self).built(),
            old(self).complete(),
        ensures
            (*final(self), r.0, r.1@) == old(self).refreshing(last),
            final(self).wf(),
    {
        match self.stream.update_timing_info(last) {
            TimingStep::Refresh(d) => {
                self.phase = Phase::Refreshing(d);
                (Request::RefreshTiming(d), Vec::new())
            },
            TimingStep::Done(true) => {
                self.phase = Phase::Done;
                (Request::Finish, Vec::new())
            },
            TimingStep::Done(false) => self.fail(Error::Generic),
        }
    }

    /// Takes the connection's reply to the last request, `Begin` at the
    /// start, and returns the next request, with the actions to carry out
    /// before it.
    pub fn advance(&mut self, reply: Reply) -> (r: (Request, Vec<Action>))
        requires
            old(self).wf(),
            old(self).expects(reply),
        ensures
            (*final(self), r.0, r.1@) == old(self).step(reply),
            final(self).wf(),
            r.0 is Abort ==> final(self).stream == Stream::empty(),
            r.0 is Abort <==> final(self).phase is Failed,
            r.0 is Finish <==> final(self).phase is Done,
    {
        match (self.phase, reply) {
            (Phase::Start, Reply::Begin) => {
                if self.output_params.is_some() {
                    self.open(Direction::Output)
                } else {
                    self.leave_output()
                }
            },
            (Phase::Opening(d), Reply::Opened(created)) => {
                if !created {
                    return self.fail(Error::Generic);
                }
                let params: &Option<StreamParams> = match d {
                    Direction::Output => &self.output_params,
                    Direction::Input => &self.input_params,
                };
                let sample_spec: SampleSpec = match params {
                    Some(p) => match Stream::stream_init(p) {
                        Ok(spec) => spec,
                        Err(_) => {
                            return self.fail(Error::Generic);
                        },
                    },
                    None => {
                        return self.fail(Error::Generic);
                    },
                };
                let sub = Some(SubStream { sample_spec, corked: true });
                let empty: bool = sample_spec.frame_size() == 0;
                match d {
                    Direction::Output => {
                        self.stream.output_stream = sub;
                        if empty {
                            return self.fail(Error::Generic);
                        }
                        assert(self.stream.slot(Direction::Input) is None);
                        assert(self.built());
                        self.leave_output()
                    },
                    Direction::Input => {
                        self.stream.input_stream = sub;
                        if empty {
                            return self.fail(Error::Generic);
                        }
                        assert(self.stream.slot(Direction::Output) == old(self).stream.slot(
                            Direction::Output,
                        ));
                        assert(self.built());
                        self.poll(false)
                    },
                }
            },
            (Phase::AwaitingReady, Reply::States { output, input }) => {
                match self.stream.wait_until_ready(output, input) {
                    Readiness::Failed => self.fail(Error::Generic),
                    Readiness::Pending => self.poll(true),
                    Readiness::Ready => self.refresh(None),
                }
            },
            (Phase::Refreshing(d), Reply::Refreshed(ok)) => self.refresh(Some((d, ok))),
            _ => (Request::Abort(Error::Generic), Vec::new()),
        }
    }

    /// The channel map for the transport of a direction: that of the
    /// layout asked for, or none where the layout is undefined or the
    /// direction was not asked for.
    pub fn channel_map(&self, direction: Direction) -> (cm: Option<ChannelMap>)
        requires
            self.wf(),
        ensures
            cm is Some <==> (self.params(direction) matches Some(p) && p.layout is Some),
            cm matches Some(m) ==> m@ == self.params(direction).unwrap().layout.unwrap()@.map_values(
                |c: Channel| position_of(c),
            ),
    {
        let params: &Option<StreamParams> = match direction {
            Direction::Output => &self.output_params,
            Direction::Input => &self.input_params,
        };
        match params {
            Some(p) => p.channel_map(),
            None => None,
        }
    }

    /// Whether the construction has ended.
    pub open spec fn ended(self) -> bool {
        self.phase is Done || self.phase is Failed
    }

    /// The sample spec that the engine has for a direction that was asked
    /// for with the parameters `params`.
    pub open spec fn slot_for(params: Option<StreamParams>) -> Option<SubStream> {
        match params {
            Some(p) => Some(SubStream { sample_spec: p.sample_spec(), corked: true }),
            None => None,
        }
    }

    /// The outcome of a construction that has ended: the error that it
    /// failed with, or the engine. The engine has the directions that were
    /// asked for and no others, each paused and with the sample spec asked
    /// for, and is otherwise as new.
    pub fn finish(self) -> (r: Result<Stream, Error>)
        requires
            self.wf(),
            self.ended(),
        ensures
            r == (match self.phase {
                Phase::Failed(e) => Err::<Stream, Error>(e),
                _ => Ok::<Stream, Error>(self.stream),
            }),
            r matches Ok(stream) ==> stream.fresh() && stream == (Stream {
                output_stream: Self::slot_for(self.output_params),
                input_stream: Self::slot_for(self.input_params),
                ..Stream::empty()
            }),
    {
        proof {
            if self.phase is Done {
                assert(self.stream.slot(Direction::Output) == self.stream.output_stream);
                assert(self.stream.slot(Direction::Input) == self.stream.input_stream);
            }
        }
        match self.phase {
            Phase::Failed(e) => Err(e),
            _ => Ok(self.stream),
        }
    }
}

} // verus!
