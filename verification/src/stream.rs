//! The stream engine: its state, what it asks of the connection, and the
//! operations an application calls on it.
//!
//! The engine never talks to the server itself. Every operation takes what
//! the connection reported as plain values and returns the requests to carry
//! out, in order, as `Action`s. A caller holds the connection's lock around
//! each operation and the actions that follow from it.

use crate::cork_state::CorkState;
use crate::format::SampleSpec;
use vstd::prelude::*;

verus! {

/// What the application was last told of the stream.
#[derive(Clone, Copy, Debug, PartialEq, Eq, Structural)]
pub enum State {
    Started,
    Stopped,
    Drained,
    Error,
}

/// One direction of a stream.
#[derive(Clone, Copy, Debug, PartialEq, Eq, Structural)]
pub enum Direction {
    /// Playback.
    Output,
    /// Capture.
    Input,
}

/// The state of a direction's transport, as the connection reports it.
#[derive(Clone, Copy, Debug, PartialEq, Eq, Structural)]
pub enum StreamState {
    Unconnected,
    Creating,
    Ready,
    Failed,
    Terminated,
}

impl StreamState {
    /// Whether the transport is being set up or is usable.
    pub open spec fn spec_is_good(self) -> bool {
        self == StreamState::Creating || self == StreamState::Ready
    }

    /// Whether the transport is being set up or is usable.
    pub fn is_good(self) -> (b: bool)
        ensures
            b == self.spec_is_good(),
    {
        match self {
            StreamState::Creating | StreamState::Ready => true,
            _ => false,
        }
    }
}

/// A request to the connection, or a call of an application's callback.
#[derive(Clone, Copy, Debug, PartialEq, Eq, Structural)]
pub enum Action {
    /// Ask the server to pause (`cork`) or resume a direction, and wait
    /// until it has answered.
    Cork { direction: Direction, cork: bool },
    /// Call the state callback.
    NotifyState(State),
    /// Have the event loop call `output_preroll` once, from its own thread.
    DeferPreroll,
    /// Multiply the first `samples` samples of the region being written
    /// with the gain, each for itself, as floating point numbers. `gain`
    /// holds the bits of the gain. `integer` tells 16 bit integer samples
    /// from 32 bit floating point ones: an integer sample becomes the
    /// product cut towards zero and held within 16 bits.
    Scale { samples: usize, integer: bool, gain: u32 },
    /// Hand the first `bytes` bytes of the region to the transport, at the
    /// current write position.
    Commit { bytes: usize },
    /// Give up the region that was begun on a direction's transport.
    CancelWrite(Direction),
    /// Arm the drain timer, at `drain_deadline`.
    ScheduleDrain,
    /// Release the drain timer.
    FreeDrainTimer,
    /// Wake the threads that wait on the event loop.
    Signal,
    /// Discard the chunk that was read last.
    DropRecord,
    /// Take the callbacks off a direction's transport, disconnect it and
    /// let go of it.
    Disconnect(Direction),
}

/// One direction of a stream that is in use.
#[derive(Clone, Copy, Debug, PartialEq, Eq, Structural)]
pub struct SubStream {
    /// Fixed when the direction is set up.
    pub sample_spec: SampleSpec,
    /// Whether the last request to the server left the direction paused.
    pub corked: bool,
}

/// The names of the devices a stream is connected to.
#[derive(Debug)]
pub struct Device {
    pub input_name: Option<String>,
    pub output_name: Option<String>,
}

/// Where a new volume goes.
#[derive(Clone, Copy, Debug, PartialEq, Eq, Structural)]
pub enum VolumeRoute {
    /// The engine keeps it and scales the samples it writes.
    Software,
    /// The caller converts it to the server's scale and sets it, for this
    /// many channels, on the server's side of the output.
    Server { channels: u8 },
}

/// The engine of one stream.
#[derive(Clone, Copy, Debug, PartialEq, Eq, Structural)]
pub struct Stream {
    /// Playback, where the stream has it.
    pub output_stream: Option<SubStream>,
    /// Capture, where the stream has it.
    pub input_stream: Option<SubStream>,
    /// Whether a drain timer is armed.
    pub drain_timer: bool,
    /// While set, callbacks of the event loop do nothing.
    pub shutdown: bool,
    /// The software gain, as bits; `NO_GAIN` for none.
    pub volume: u32,
    /// What the application was last told.
    pub state: State,
}

/// The state that a cork request with notification reports.
pub open spec fn reported_state(cork: bool) -> State {
    if cork {
        State::Stopped
    } else {
        State::Started
    }
}

impl SubStream {
    /// This direction, paused or resumed.
    pub open spec fn corked_to(self, cork: bool) -> SubStream {
        SubStream { corked: cork, ..self }
    }
}

/// A direction's slot after a cork request to it.
pub open spec fn slot_corked_to(slot: Option<SubStream>, cork: bool) -> Option<SubStream> {
    match slot {
        Some(s) => Some(s.corked_to(cork)),
        None => None,
    }
}

impl Stream {
    /// What holds of every engine: a direction in use has frames of at
    /// least one byte, and a drain timer is armed only on a stream that
    /// plays.
    pub open spec fn wf(self) -> bool {
        &&& self.output_stream matches Some(s) ==> s.sample_spec.has_frames()
        &&& self.input_stream matches Some(s) ==> s.sample_spec.has_frames()
        &&& self.drain_timer ==> self.output_stream is Some
    }

    /// The slot of a direction.
    pub open spec fn slot(self, direction: Direction) -> Option<SubStream> {
        match direction {
            Direction::Output => self.output_stream,
            Direction::Input => self.input_stream,
        }
    }

    /// Whether the stream plays.
    pub fn has_output(&self) -> (b: bool)
        ensures
            b == (self.output_stream is Some),
    {
        self.output_stream.is_some()
    }

    /// Whether the stream captures.
    pub fn has_input(&self) -> (b: bool)
        ensures
            b == (self.input_stream is Some),
    {
        self.input_stream.is_some()
    }

    /// The engine after `s` was reported to the application.
    pub open spec fn reporting(self, s: State) -> Stream {
        Stream { state: s, ..self }
    }

    /// Records `s` as the stream's state and returns the call of the state
    /// callback that reports it.
    pub fn state_change_callback(&mut self, s: State) -> (action: Action)
        ensures
            *final(self) == old(self).reporting(s),
            action == Action::NotifyState(s),
    {
        self.state = s;
        Action::NotifyState(s)
    }

    /// The engine after a cork request to one direction.
    pub open spec fn after_cork_stream(self, direction: Direction, cork: bool) -> Stream {
        match direction {
            Direction::Output => Stream {
                output_stream: slot_corked_to(self.output_stream, cork),
                ..self
            },
            Direction::Input => Stream {
                input_stream: slot_corked_to(self.input_stream, cork),
                ..self
            },
        }
    }

    /// The cork request for one direction: one where the stream has the
    /// direction, none where it has not.
    pub open spec fn cork_stream_action(self, direction: Direction, cork: bool) -> Option<Action> {
        if self.slot(direction) is Some {
            Some(Action::Cork { direction, cork })
        } else {
            None
        }
    }

    /// Pauses or resumes one direction, where the stream has it.
    pub fn cork_stream(&mut self, direction: Direction, state: CorkState) -> (action: Option<Action>)
        ensures
            *final(self) == old(self).after_cork_stream(direction, state.cork),
            action == old(self).cork_stream_action(direction, state.cork),
    {
        let cork: bool = state.is_cork();
        match direction {
            Direction::Output => match self.output_stream {
                Some(s) => {
                    self.output_stream = Some(SubStream { corked: cork, ..s });
                    Some(Action::Cork { direction, cork })
                },
                None => None,
            },
            Direction::Input => match self.input_stream {
                Some(s) => {
                    self.input_stream = Some(SubStream { corked: cork, ..s });
                    Some(Action::Cork { direction, cork })
                },
                None => None,
            },
        }
    }

    /// The cork requests for both directions, playback first.
    pub open spec fn cork_requests(self, cork: bool) -> Seq<Action> {
        let output = if self.output_stream is Some {
            seq![Action::Cork { direction: Direction::Output, cork }]
        } else {
            Seq::<Action>::empty()
        };
        let input = if self.input_stream is Some {
            seq![Action::Cork { direction: Direction::Input, cork }]
        } else {
            Seq::<Action>::empty()
        };
        output + input
    }

    /// What `cork` returns: the cork requests, then the report to the
    /// application where the request asks for one.
    pub open spec fn cork_actions(self, state: CorkState) -> Seq<Action> {
        if state.notify {
            self.cork_requests(state.cork).push(Action::NotifyState(reported_state(state.cork)))
        } else {
            self.cork_requests(state.cork)
        }
    }

    /// The engine after `cork`.
    pub open spec fn after_cork(self, state: CorkState) -> Stream {
        let corked = self.after_cork_stream(Direction::Output, state.cork).after_cork_stream(
            Direction::Input,
            state.cork,
        );
        if state.notify {
            corked.reporting(reported_state(state.cork))
        } else {
            corked
        }
    }

    /// Pauses or resumes both directions and, where the request says so,
    /// reports `Stopped` or `Started`.
    pub fn cork(&mut self, state: CorkState) -> (actions: Vec<Action>)
        ensures
            *final(self) == old(self).after_cork(state),
            actions@ == old(self).cork_actions(state),
    {
        let mut actions: Vec<Action> = Vec::new();
        if let Some(a) = self.cork_stream(Direction::Output, state) {
            actions.push(a);
        }
        if let Some(a) = self.cork_stream(Direction::Input, state) {
            actions.push(a);
        }
        assert(actions@ =~= old(self).cork_requests(state.cork));
        if state.is_notify() {
            let reported: State = if state.is_cork() {
                State::Stopped
            } else {
                State::Started
            };
            let a: Action = self.state_change_callback(reported);
            actions.push(a);
        }
        actions
    }

    /// Whether the stream plays and does not capture.
    pub open spec fn output_only(self) -> bool {
        self.output_stream is Some && self.input_stream is None
    }

    /// The engine after `start`.
    pub open spec fn after_start(self) -> Stream {
        Stream { shutdown: false, ..self }.after_cork(CorkState { cork: false, notify: true })
    }

    /// What `start` returns: both directions are resumed, `Started` is
    /// reported and, on a stream that only plays, one call of
    /// `output_preroll` is handed to the event loop.
    pub open spec fn start_actions(self) -> Seq<Action> {
        let resumed = self.cork_actions(CorkState { cork: false, notify: true });
        if self.output_only() {
            resumed.push(Action::DeferPreroll)
        } else {
            resumed
        }
    }

    /// Starts the stream: the callbacks of the event loop work again, and
    /// both directions are resumed.
    pub fn start(&mut self) -> (actions: Vec<Action>)
        ensures
            *final(self) == old(self).after_start(),
            actions@ == old(self).start_actions(),
    {
        self.shutdown = false;
        let mut actions: Vec<Action> = self.cork(CorkState::uncork().with(CorkState::notify()));
        if self.output_stream.is_some() && self.input_stream.is_none() {
            actions.push(Action::DeferPreroll);
        }
        actions
    }

    /// The engine when `stop` has shut the callbacks off.
    pub open spec fn stopping(self) -> Stream {
        Stream { shutdown: true, ..self }
    }

    /// The engine after `stop`, with and without a drain timer armed.
    pub open spec fn after_stop(self) -> Stream {
        if self.drain_timer {
            self.stopping()
        } else {
            self.stopping().after_cork(CorkState { cork: true, notify: true })
        }
    }

    /// What `stop` returns.
    pub open spec fn stop_actions(self) -> Option<Seq<Action>> {
        if self.drain_timer {
            None
        } else {
            Some(self.stopping().cork_actions(CorkState { cork: true, notify: true }))
        }
    }

    /// Stops the stream. The callbacks of the event loop are shut off at
    /// once. While a drain timer is armed nothing else happens and the
    /// result is `None`: the caller waits on the event loop and calls
    /// again. Otherwise both directions are paused and `Stopped` is
    /// reported.
    pub fn stop(&mut self) -> (actions: Option<Vec<Action>>)
        ensures
            *final(self) == old(self).after_stop(),
            actions is Some <==> !old(self).drain_timer,
            actions is Some <==> old(self).stop_actions() is Some,
            actions matches Some(a) ==> a@ == old(self).stop_actions().unwrap(),
    {
        self.shutdown = true;
        if self.drain_timer {
            return None;
        }
        Some(self.cork(CorkState::cork().with(CorkState::notify())))
    }

    /// The engine after `destroy`: no direction is left and no timer is
    /// armed.
    pub open spec fn after_destroy(self) -> Stream {
        Stream { output_stream: None, input_stream: None, drain_timer: false, ..self }
    }

    /// What `destroy` returns: both directions are paused; then playback
    /// gives up its drain timer and is disconnected, then capture.
    pub open spec fn destroy_actions(self) -> Seq<Action> {
        let timer = if self.output_stream is Some && self.drain_timer {
            seq![Action::FreeDrainTimer]
        } else {
            Seq::<Action>::empty()
        };
        let output = if self.output_stream is Some {
            seq![Action::Disconnect(Direction::Output)]
        } else {
            Seq::<Action>::empty()
        };
        let input = if self.input_stream is Some {
            seq![Action::Disconnect(Direction::Input)]
        } else {
            Seq::<Action>::empty()
        };
        self.cork_requests(true) + timer + output + input
    }

    /// Tears the stream down. On a stream that was torn down before, it
    /// does nothing.
    pub fn destroy(&mut self) -> (actions: Vec<Action>)
        ensures
            *final(self) == old(self).after_destroy(),
            actions@ == old(self).destroy_actions(),
            final(self).wf(),
    {
        let mut actions: Vec<Action> = self.cork(CorkState::cork());
        if self.output_stream.is_some() {
            if self.drain_timer {
                actions.push(Action::FreeDrainTimer);
            }
            actions.push(Action::Disconnect(Direction::Output));
            self.output_stream = None;
        }
        if self.input_stream.is_some() {
            actions.push(Action::Disconnect(Direction::Input));
            self.input_stream = None;
        }
        self.drain_timer = false;
        assert(actions@ =~= old(self).destroy_actions());
        actions
    }

    /// The engine after a transport reported `state`.
    pub open spec fn after_check_error(self, state: StreamState) -> Stream {
        if state.spec_is_good() {
            self
        } else {
            self.reporting(State::Error)
        }
    }

    /// What `check_error` returns.
    pub open spec fn check_error_actions(state: StreamState) -> Seq<Action> {
        if state.spec_is_good() {
            seq![Action::Signal]
        } else {
            seq![Action::NotifyState(State::Error), Action::Signal]
        }
    }

    /// A transport changed its state to `state`: a state that is not good
    /// is reported as `Error`, and in every case the waiting threads are
    /// woken.
    pub fn check_error(&mut self, state: StreamState) -> (actions: Vec<Action>)
        ensures
            *final(self) == old(self).after_check_error(state),
            actions@ == Self::check_error_actions(state),
    {
        let mut actions: Vec<Action> = Vec::new();
        if !state.is_good() {
            let a: Action = self.state_change_callback(State::Error);
            actions.push(a);
        }
        actions.push(Action::Signal);
        assert(actions@ =~= Self::check_error_actions(state));
        actions
    }
}

} // verus!
