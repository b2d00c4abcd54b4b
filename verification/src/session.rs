//! A stream over its lifetime: the calls of the application and the
//! callbacks of the event loop, one after the other, and what holds of the
//! engine and of the actions whatever their order.

use crate::cork_state::CorkState;
use crate::proofs::{
    lemma_concat, lemma_cork_requests_only_cork, lemma_push, lemma_round, occurrences,
};
use crate::stream::{Action, Direction, State, Stream, StreamState};
use crate::write_path::{Round, WritePass};
use vstd::prelude::*;

verus! {

/// One thing that happens to an engine.
pub enum Event {
    /// The application starts the stream.
    Start,
    /// The application stops the stream, or tries to while a drain is
    /// pending.
    Stop,
    /// The stream is torn down.
    Destroy,
    /// The application sets the volume.
    SetVolume { volume: u32, flat_volume: bool },
    /// A transport changed its state.
    StateChanged(StreamState),
    /// A round of the pass `pass` through the write path.
    Round { pass: WritePass, round: Round },
    /// The output transport failed in a pass.
    WriteFailed,
    /// On a stream that only captures, the data callback returned `got`
    /// for `frames` frames of a chunk of `read_size` bytes.
    InputDelivered { read_size: usize, frames: usize, got: i64 },
    /// The drain timer fired.
    TimerFired,
}

impl Stream {
    /// Whether `event` can happen to this engine: the grant of a round has
    /// to be one that may follow on its pass, and a timer fires only when
    /// one is armed. What the data callback returns is free.
    pub open spec fn allows(self, event: Event) -> bool {
        match event {
            Event::Round { pass, round } => self.admits(pass, round),
            Event::TimerFired => self.drain_timer,
            _ => true,
        }
    }

    /// The engine after `event`.
    pub open spec fn after(self, event: Event) -> Stream {
        match event {
            Event::Start => self.after_start(),
            Event::Stop => self.after_stop(),
            Event::Destroy => self.after_destroy(),
            Event::SetVolume { volume, flat_volume } => self.after_set_volume(volume, flat_volume),
            Event::StateChanged(state) => self.after_check_error(state),
            Event::Round { pass, round } => self.after_round(round),
            Event::WriteFailed => self.after_io_failure(),
            Event::InputDelivered { read_size, frames, got } => if Self::input_refused(frames, got) {
                self.stopping()
            } else {
                self
            },
            Event::TimerFired => self.after_drained(),
        }
    }

    /// The actions that `event` asks for.
    pub open spec fn actions_of(self, event: Event) -> Seq<Action> {
        match event {
            Event::Start => self.start_actions(),
            Event::Stop => match self.stop_actions() {
                Some(actions) => actions,
                None => Seq::<Action>::empty(),
            },
            Event::Destroy => self.destroy_actions(),
            Event::SetVolume { .. } => Seq::<Action>::empty(),
            Event::StateChanged(state) => Self::check_error_actions(state),
            Event::Round { pass, round } => self.round_actions(round),
            Event::WriteFailed => seq![Action::NotifyState(State::Error)],
            Event::InputDelivered { read_size, frames, got } => if Self::input_refused(frames, got) {
                seq![Action::CancelWrite(Direction::Input)]
            } else {
                Self::chunk_done_actions(read_size)
            },
            Event::TimerFired => seq![
                Action::NotifyState(State::Drained),
                Action::FreeDrainTimer,
                Action::Signal,
            ],
        }
    }
}

/// Whether the events in `events` can happen to the engine `s`, one after
/// the other.
pub open spec fn allowed(s: Stream, events: Seq<Event>) -> bool
    decreases events.len(),
{
    events.len() == 0 || (s.allows(events[0]) && allowed(s.after(events[0]), events.drop_first()))
}

/// The engine after the events in `events`.
pub open spec fn after_all(s: Stream, events: Seq<Event>) -> Stream
    decreases events.len(),
{
    if events.len() == 0 {
        s
    } else {
        after_all(s.after(events[0]), events.drop_first())
    }
}

/// The actions that the events in `events` ask for, in their order.
pub open spec fn actions_of_all(s: Stream, events: Seq<Event>) -> Seq<Action>
    decreases events.len(),
{
    if events.len() == 0 {
        Seq::<Action>::empty()
    } else {
        s.actions_of(events[0]) + actions_of_all(s.after(events[0]), events.drop_first())
    }
}

/// How often the drain timer fires among `events`.
pub open spec fn firings(events: Seq<Event>) -> nat
    decreases events.len(),
{
    if events.len() == 0 {
        0
    } else {
        firings(events.drop_first()) + if events[0] is TimerFired {
            1nat
        } else {
            0nat
        }
    }
}

/// The drain timers that an engine holds: one or none.
pub open spec fn timers(s: Stream) -> int {
    if s.drain_timer {
        1
    } else {
        0
    }
}

/// What pausing or resuming both directions asks for holds neither a
/// timer nor a report of `Drained`.
pub proof fn lemma_cork_actions_leave_timer(s: Stream, state: CorkState, a: Action)
    requires
        a == Action::ScheduleDrain || a == Action::FreeDrainTimer || a == Action::NotifyState(
            State::Drained,
        ),
    ensures
        occurrences(s.cork_actions(state), a) == 0,
{
    lemma_cork_requests_only_cork(s, state.cork, a);
    lemma_push(
        s.cork_requests(state.cork),
        Action::NotifyState(crate::stream::reported_state(state.cork)),
        a,
    );
}

/// Whatever happens to an engine, it stays well formed, and the books on
/// its drain timer balance: a timer is armed only in a round that
/// underruns while none is armed, released only when it fires or the
/// stream is torn down, and `Drained` is reported exactly when it fires.
pub proof fn lemma_event(s: Stream, event: Event)
    requires
        s.wf(),
        s.allows(event),
    ensures
        s.after(event).wf(),
        timers(s.after(event)) == timers(s) + occurrences(
            s.actions_of(event),
            Action::ScheduleDrain,
        ) - occurrences(s.actions_of(event), Action::FreeDrainTimer),
        occurrences(s.actions_of(event), Action::NotifyState(State::Drained)) == (if event
            is TimerFired {
            1nat
        } else {
            0nat
        }),
        occurrences(s.actions_of(event), Action::ScheduleDrain) <= 1,
        occurrences(s.actions_of(event), Action::ScheduleDrain) == 1 ==> !s.drain_timer,
{
    let e = Seq::<Action>::empty();
    let armed = Action::ScheduleDrain;
    let freed = Action::FreeDrainTimer;
    let drained = Action::NotifyState(State::Drained);
    let actions = s.actions_of(event);
    match event {
        Event::Start => {
            let resume = CorkState { cork: false, notify: true };
            lemma_cork_actions_leave_timer(s, resume, armed);
            lemma_cork_actions_leave_timer(s, resume, freed);
            lemma_cork_actions_leave_timer(s, resume, drained);
            lemma_push(s.cork_actions(resume), Action::DeferPreroll, armed);
            lemma_push(s.cork_actions(resume), Action::DeferPreroll, freed);
            lemma_push(s.cork_actions(resume), Action::DeferPreroll, drained);
        },
        Event::Stop => {
            let pause = CorkState { cork: true, notify: true };
            lemma_cork_actions_leave_timer(s.stopping(), pause, armed);
            lemma_cork_actions_leave_timer(s.stopping(), pause, freed);
            lemma_cork_actions_leave_timer(s.stopping(), pause, drained);
        },
        Event::Destroy => {
            let corks = s.cork_requests(true);
            let timer = if s.output_stream is Some && s.drain_timer {
                seq![freed]
            } else {
                e
            };
            let output = if s.output_stream is Some {
                seq![Action::Disconnect(Direction::Output)]
            } else {
                e
            };
            let input = if s.input_stream is Some {
                seq![Action::Disconnect(Direction::Input)]
            } else {
                e
            };
            assert(seq![freed] =~= e.push(freed));
            assert(seq![Action::Disconnect(Direction::Output)] =~= e.push(
                Action::Disconnect(Direction::Output),
            ));
            assert(seq![Action::Disconnect(Direction::Input)] =~= e.push(
                Action::Disconnect(Direction::Input),
            ));
            lemma_cork_requests_only_cork(s, true, armed);
            lemma_cork_requests_only_cork(s, true, freed);
            lemma_cork_requests_only_cork(s, true, drained);
            lemma_push(e, freed, armed);
            lemma_push(e, freed, freed);
            lemma_push(e, freed, drained);
            lemma_push(e, Action::Disconnect(Direction::Output), armed);
            lemma_push(e, Action::Disconnect(Direction::Output), freed);
            lemma_push(e, Action::Disconnect(Direction::Output), drained);
            lemma_push(e, Action::Disconnect(Direction::Input), armed);
            lemma_push(e, Action::Disconnect(Direction::Input), freed);
            lemma_push(e, Action::Disconnect(Direction::Input), drained);
            lemma_concat(corks, timer, armed);
            lemma_concat(corks, timer, freed);
            lemma_concat(corks, timer, drained);
            lemma_concat(corks + timer, output, armed);
            lemma_concat(corks + timer, output, freed);
            lemma_concat(corks + timer, output, drained);
            lemma_concat(corks + timer + output, input, armed);
            lemma_concat(corks + timer + output, input, freed);
            lemma_concat(corks + timer + output, input, drained);
        },
        Event::SetVolume { .. } => {},
        Event::StateChanged(state) => {
            lemma_push(e, Action::NotifyState(State::Error), armed);
            lemma_push(e, Action::NotifyState(State::Error), freed);
            lemma_push(e, Action::NotifyState(State::Error), drained);
            lemma_push(e, Action::Signal, armed);
            lemma_push(e, Action::Signal, freed);
            lemma_push(e, Action::Signal, drained);
            lemma_push(e.push(Action::NotifyState(State::Error)), Action::Signal, armed);
            lemma_push(e.push(Action::NotifyState(State::Error)), Action::Signal, freed);
            lemma_push(e.push(Action::NotifyState(State::Error)), Action::Signal, drained);
            assert(seq![Action::Signal] =~= e.push(Action::Signal));
            assert(seq![Action::NotifyState(State::Error), Action::Signal] =~= e.push(
                Action::NotifyState(State::Error),
            ).push(Action::Signal));
        },
        Event::Round { pass, round } => {
            lemma_round(s, pass, round);
            lemma_round_holds_no_release(s, round);
        },
        Event::WriteFailed => {
            lemma_push(e, Action::NotifyState(State::Error), armed);
            lemma_push(e, Action::NotifyState(State::Error), freed);
            lemma_push(e, Action::NotifyState(State::Error), drained);
            assert(actions =~= e.push(Action::NotifyState(State::Error)));
        },
        Event::InputDelivered { read_size, frames, got } => {
            lemma_push(e, Action::CancelWrite(Direction::Input), armed);
            lemma_push(e, Action::CancelWrite(Direction::Input), freed);
            lemma_push(e, Action::CancelWrite(Direction::Input), drained);
            lemma_push(e, Action::DropRecord, armed);
            lemma_push(e, Action::DropRecord, freed);
            lemma_push(e, Action::DropRecord, drained);
            assert(seq![Action::CancelWrite(Direction::Input)] =~= e.push(
                Action::CancelWrite(Direction::Input),
            ));
            assert(seq![Action::DropRecord] =~= e.push(Action::DropRecord));
        },
        Event::TimerFired => {
            let first = e.push(drained);
            let second = first.push(freed);
            lemma_push(e, drained, armed);
            lemma_push(e, drained, freed);
            lemma_push(e, drained, drained);
            lemma_push(first, freed, armed);
            lemma_push(first, freed, freed);
            lemma_push(first, freed, drained);
            lemma_push(second, Action::Signal, armed);
            lemma_push(second, Action::Signal, freed);
            lemma_push(second, Action::Signal, drained);
            assert(actions =~= second.push(Action::Signal));
        },
    }
}

/// A round releases no timer and reports no drain.
pub proof fn lemma_round_holds_no_release(s: Stream, r: Round)
    ensures
        occurrences(s.round_actions(r), Action::FreeDrainTimer) == 0,
        occurrences(s.round_actions(r), Action::NotifyState(State::Drained)) == 0,
{
    let e = Seq::<Action>::empty();
    let freed = Action::FreeDrainTimer;
    let drained = Action::NotifyState(State::Drained);
    let cancel = Action::CancelWrite(Direction::Output);
    lemma_push(e, cancel, freed);
    lemma_push(e, cancel, drained);
    assert(seq![cancel] =~= e.push(cancel));
    let scale = s.scale_actions(r);
    if scale.len() == 1 {
        assert(scale =~= e.push(scale[0]));
        lemma_push(e, scale[0], freed);
        lemma_push(e, scale[0], drained);
    } else {
        assert(scale =~= e);
    }
    let commit = Action::Commit { bytes: (r.got * s.out_frame()) as usize };
    lemma_push(scale, commit, freed);
    lemma_push(scale, commit, drained);
    lemma_push(scale.push(commit), Action::ScheduleDrain, freed);
    lemma_push(scale.push(commit), Action::ScheduleDrain, drained);
    assert(scale + seq![commit, Action::ScheduleDrain] =~= scale.push(commit).push(
        Action::ScheduleDrain,
    ));
    assert(scale + seq![commit] =~= scale.push(commit));
}

/// Over a whole lifetime, whatever the order of the events: the engine
/// stays well formed; the timers armed, less those released, are the
/// timers that the engine holds, so that never more than one is
/// outstanding; and `Drained` is reported once for each firing of the
/// timer, and never without one.
pub proof fn lemma_lifetime(s: Stream, events: Seq<Event>)
    requires
        s.wf(),
        allowed(s, events),
    ensures
        after_all(s, events).wf(),
        timers(after_all(s, events)) == timers(s) + occurrences(
            actions_of_all(s, events),
            Action::ScheduleDrain,
        ) - occurrences(actions_of_all(s, events), Action::FreeDrainTimer),
        0 <= timers(s) + occurrences(actions_of_all(s, events), Action::ScheduleDrain)
            - occurrences(actions_of_all(s, events), Action::FreeDrainTimer) <= 1,
        occurrences(actions_of_all(s, events), Action::NotifyState(State::Drained)) == firings(
            events,
        ),
    decreases events.len(),
{
    if events.len() > 0 {
        let first = events[0];
        lemma_event(s, first);
        lemma_lifetime(s.after(first), events.drop_first());
        let rest = actions_of_all(s.after(first), events.drop_first());
        lemma_concat(s.actions_of(first), rest, Action::ScheduleDrain);
        lemma_concat(s.actions_of(first), rest, Action::FreeDrainTimer);
        lemma_concat(s.actions_of(first), rest, Action::NotifyState(State::Drained));
    }
}

/// While an engine is shut down, the callbacks of the event loop start
/// nothing: no pass through the write path and no delivery of captured
/// frames, until the stream is started again.
pub proof fn lemma_shutdown_silences_callbacks(s: Stream, hole: bool, read_size: usize)
    requires
        s.shutdown,
    ensures
        !s.writes_on_demand(),
        s.read_step(hole, read_size) == crate::write_path::ReadStep::Idle,
        !s.after_start().shutdown,
{
}

} // verus!
