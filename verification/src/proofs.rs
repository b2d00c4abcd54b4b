//! What follows from the contracts of the engine: statements about whole
//! passes through the write path, about sequences of calls, and about the
//! actions that an operation hands out.

use crate::cork_state::CorkState;
use crate::error::Error;
use crate::format::{
    pulse_format_of, supported_format, SampleFormat, SampleSpec, SAMPLE_FLOAT32BE,
    SAMPLE_FLOAT32LE, SAMPLE_S16BE, SAMPLE_S16LE,
};
use crate::gain::NO_GAIN;
use crate::setup::{Phase, Reply, Request, Setup, StreamParams};
use crate::stream::{Action, Direction, State, Stream, StreamState};
use crate::write_path::{
    lemma_frames_fit, lemma_multiples_subtract, run, run_admitted, Round, WritePass,
};
use vstd::prelude::*;

verus! {

/// How often the action `a` occurs among `actions`.
pub open spec fn occurrences(actions: Seq<Action>, a: Action) -> nat
    decreases actions.len(),
{
    if actions.len() == 0 {
        0
    } else {
        occurrences(actions.drop_last(), a) + if actions.last() == a {
            1nat
        } else {
            0nat
        }
    }
}

/// The states that `actions` report to the application, in their order.
pub open spec fn reports(actions: Seq<Action>) -> Seq<State>
    decreases actions.len(),
{
    if actions.len() == 0 {
        Seq::<State>::empty()
    } else {
        match actions.last() {
            Action::NotifyState(s) => reports(actions.drop_last()).push(s),
            _ => reports(actions.drop_last()),
        }
    }
}

/// The bytes that `actions` commit to the output transport, in all.
pub open spec fn committed(actions: Seq<Action>) -> int
    decreases actions.len(),
{
    if actions.len() == 0 {
        0
    } else {
        match actions.last() {
            Action::Commit { bytes } => committed(actions.drop_last()) + bytes,
            _ => committed(actions.drop_last()),
        }
    }
}

/// Counting, reporting and committing go action by action.
pub proof fn lemma_push(actions: Seq<Action>, b: Action, a: Action)
    ensures
        occurrences(actions.push(b), a) == occurrences(actions, a) + (if b == a {
            1nat
        } else {
            0nat
        }),
        reports(actions.push(b)) == (match b {
            Action::NotifyState(s) => reports(actions).push(s),
            _ => reports(actions),
        }),
        committed(actions.push(b)) == (match b {
            Action::Commit { bytes } => committed(actions) + bytes,
            _ => committed(actions),
        }),
{
    assert(actions.push(b).drop_last() =~= actions);
    assert(actions.push(b).last() == b);
}

/// Counting, reporting and committing go over a concatenation part by
/// part.
pub proof fn lemma_concat(x: Seq<Action>, y: Seq<Action>, a: Action)
    ensures
        occurrences(x + y, a) == occurrences(x, a) + occurrences(y, a),
        reports(x + y) == reports(x) + reports(y),
        committed(x + y) == committed(x) + committed(y),
    decreases y.len(),
{
    if y.len() == 0 {
        assert(x + y =~= x);
        assert(reports(x) + reports(y) =~= reports(x));
    } else {
        lemma_concat(x, y.drop_last(), a);
        assert((x + y).drop_last() =~= x + y.drop_last());
        assert((x + y).last() == y.last());
        match y.last() {
            Action::NotifyState(s) => {
                assert(reports(x + y) =~= reports(x) + reports(y));
            },
            _ => {},
        }
    }
}

/// Cork requests are nothing but cork requests.
pub proof fn lemma_cork_requests_only_cork(s: Stream, cork: bool, a: Action)
    requires
        !(a is Cork),
    ensures
        occurrences(s.cork_requests(cork), a) == 0,
{
    let e = Seq::<Action>::empty();
    let out = Action::Cork { direction: Direction::Output, cork };
    let inp = Action::Cork { direction: Direction::Input, cork };
    lemma_push(e, out, a);
    lemma_push(e, inp, a);
    lemma_push(e.push(out), inp, a);
    assert(seq![out] + seq![inp] =~= e.push(out).push(inp));
    assert(seq![out] + e =~= e.push(out));
    assert(e + seq![inp] =~= e.push(inp));
    assert(e + e =~= e);
}

/// Cork requests report nothing to the application.
pub proof fn lemma_cork_requests_are_silent(s: Stream, cork: bool)
    ensures
        reports(s.cork_requests(cork)) == Seq::<State>::empty(),
{
    let e = Seq::<Action>::empty();
    let out = Action::Cork { direction: Direction::Output, cork };
    let inp = Action::Cork { direction: Direction::Input, cork };
    lemma_push(e, out, out);
    lemma_push(e, inp, inp);
    lemma_push(e.push(out), inp, inp);
    assert(seq![out] + seq![inp] =~= e.push(out).push(inp));
    assert(seq![out] + e =~= e.push(out));
    assert(e + seq![inp] =~= e.push(inp));
    assert(e + e =~= e);
}

/// A stream that is started and stopped at once, with no drain timer
/// armed, tells the application `Started` and then `Stopped`, and nothing
/// else.
pub proof fn lemma_start_then_stop_reports(s: Stream)
    requires
        !s.drain_timer,
    ensures
        s.after_start().stop_actions() is Some,
        reports(s.start_actions()) + reports(s.after_start().stop_actions().unwrap()) == seq![
            State::Started,
            State::Stopped,
        ],
        s.after_start().after_stop().state == State::Stopped,
        s.after_start().after_stop().shutdown,
{
    let uncork = CorkState { cork: false, notify: true };
    let cork = CorkState { cork: true, notify: true };
    let t = s.after_start();
    lemma_cork_requests_are_silent(s, false);
    lemma_cork_requests_are_silent(t.stopping(), true);
    lemma_push(s.cork_requests(false), Action::NotifyState(State::Started), Action::DeferPreroll);
    lemma_push(s.cork_actions(uncork), Action::DeferPreroll, Action::DeferPreroll);
    lemma_push(
        t.stopping().cork_requests(true),
        Action::NotifyState(State::Stopped),
        Action::DeferPreroll,
    );
    assert(reports(s.start_actions()) =~= seq![State::Started]);
    assert(reports(t.stop_actions().unwrap()) =~= seq![State::Stopped]);
    assert(seq![State::Started] + seq![State::Stopped] =~= seq![State::Started, State::Stopped]);
}

/// `start` hands exactly one call of `output_preroll` to the event loop on
/// a stream that only plays, and none on any other.
pub proof fn lemma_start_prerolls_once(s: Stream)
    ensures
        occurrences(s.start_actions(), Action::DeferPreroll) == (if s.output_only() {
            1nat
        } else {
            0nat
        }),
        !s.after_start().shutdown,
        s.after_start().state == State::Started,
{
    let uncork = CorkState { cork: false, notify: true };
    lemma_cork_requests_only_cork(s, false, Action::DeferPreroll);
    lemma_push(s.cork_requests(false), Action::NotifyState(State::Started), Action::DeferPreroll);
    lemma_push(s.cork_actions(uncork), Action::DeferPreroll, Action::DeferPreroll);
}

/// Tearing a stream down twice is tearing it down once: the second time
/// nothing is asked for and nothing changes.
pub proof fn lemma_destroy_is_idempotent(s: Stream)
    ensures
        s.after_destroy().destroy_actions() == Seq::<Action>::empty(),
        s.after_destroy().after_destroy() == s.after_destroy(),
        s.after_destroy().wf(),
{
    assert(s.after_destroy().destroy_actions() =~= Seq::<Action>::empty());
}

/// What one round of a pass does, seen from outside, whatever the data
/// callback returned: the engine and the pass stay well formed, the read
/// offset moves forward and stays within the captured chunk, the bytes to
/// write do not grow, nothing is reported to the application, a drain
/// timer is armed exactly on an underrun that finds none armed, and what
/// is committed is what the application produced.
pub proof fn lemma_round(s: Stream, p: WritePass, r: Round)
    requires
        s.admits(p, r),
    ensures
        s.after_round(r).wf(),
        s.pass_after_round(p, r).wf(s.after_round(r)),
        s.pass_after_round(p, r).input == p.input,
        p.input matches Some(len) ==> s.pass_after_round(p, r).read_offset <= len,
        p.read_offset <= s.pass_after_round(p, r).read_offset,
        s.pass_after_round(p, r).towrite <= p.towrite,
        s.pass_after_round(p, r).stopped <==> s.cancels(r) || s.underruns(r),
        s.after_round(r).drain_timer <==> s.drain_timer || s.underruns(r),
        s.after_round(r).shutdown <==> s.shutdown || s.cancels(r) || s.underruns(r),
        reports(s.round_actions(r)) == Seq::<State>::empty(),
        occurrences(s.round_actions(r), Action::ScheduleDrain) == (if s.underruns(r)
            && !s.drain_timer {
            1nat
        } else {
            0nat
        }),
        committed(s.round_actions(r)) == (if s.cancels(r) {
            0
        } else {
            r.got * s.out_frame()
        }),
        !s.pass_after_round(p, r).stopped ==> committed(s.round_actions(r)) == p.towrite
            - s.pass_after_round(p, r).towrite,
        committed(s.round_actions(r)) <= p.towrite,
        0 <= committed(s.round_actions(r)),
{
    let e = Seq::<Action>::empty();
    s.lemma_round_keeps_pass(p, r);
    if s.cancels(r) {
        lemma_push(e, Action::CancelWrite(Direction::Output), Action::ScheduleDrain);
        assert(s.round_actions(r) =~= e.push(Action::CancelWrite(Direction::Output)));
    } else {
        let scale = s.scale_actions(r);
        let commit = Action::Commit { bytes: (r.got * s.out_frame()) as usize };
        if scale.len() == 1 {
            assert(scale =~= e.push(scale[0]));
            lemma_push(e, scale[0], Action::ScheduleDrain);
        } else {
            assert(scale =~= e);
        }
        lemma_push(scale, commit, Action::ScheduleDrain);
        lemma_push(scale.push(commit), Action::ScheduleDrain, Action::ScheduleDrain);
        if s.underruns(r) && !s.drain_timer {
            assert(s.round_actions(r) =~= scale.push(commit).push(Action::ScheduleDrain));
        } else {
            assert(s.round_actions(r) =~= scale.push(commit));
        }
    }
}

/// Whatever the transport grants and the application returns in a pass:
/// the read offset never leaves the captured chunk; at most one drain
/// timer is armed, and when one is, the pass is over and the stream is
/// shut down; no state is reported to the application, so `Drained` is
/// left to the timer; and no more is committed than was asked for, and
/// exactly what was written where the pass did not stop.
pub proof fn lemma_pass(s: Stream, p: WritePass, rounds: Seq<Round>)
    requires
        s.wf(),
        p.wf(s),
        run_admitted(s, p, rounds),
    ensures
        run(s, p, rounds).0.wf(),
        run(s, p, rounds).1.wf(run(s, p, rounds).0),
        run(s, p, rounds).1.input == p.input,
        p.input matches Some(len) ==> run(s, p, rounds).1.read_offset <= len,
        run(s, p, rounds).1.towrite <= p.towrite,
        occurrences(run(s, p, rounds).2, Action::ScheduleDrain) <= 1,
        occurrences(run(s, p, rounds).2, Action::ScheduleDrain) == 1 ==> run(s, p, rounds).0.drain_timer
            && run(s, p, rounds).0.shutdown && run(s, p, rounds).1.stopped,
        !s.drain_timer ==> (run(s, p, rounds).0.drain_timer <==> occurrences(
            run(s, p, rounds).2,
            Action::ScheduleDrain,
        ) == 1),
        reports(run(s, p, rounds).2) == Seq::<State>::empty(),
        run(s, p, rounds).0.state == s.state,
        0 <= committed(run(s, p, rounds).2) <= p.towrite,
        !p.stopped && !run(s, p, rounds).1.stopped ==> committed(run(s, p, rounds).2) == p.towrite
            - run(s, p, rounds).1.towrite,
    decreases rounds.len(),
{
    if rounds.len() == 0 || p.finished() {
        s.lemma_frames_positive();
        lemma_frames_fit(p.towrite as int, s.out_frame());
    } else {
        let r = rounds[0];
        let s1 = s.after_round(r);
        let p1 = s.pass_after_round(p, r);
        lemma_round(s, p, r);
        lemma_pass(s1, p1, rounds.drop_first());
        let rest = run(s1, p1, rounds.drop_first());
        lemma_concat(s.round_actions(r), rest.2, Action::ScheduleDrain);
        assert(reports(s.round_actions(r)) + reports(rest.2) =~= Seq::<State>::empty());
        if p1.stopped {
            assert(rest.2 =~= Seq::<Action>::empty());
        }
    }
}

/// In a round that commits, the gain pass covers what is committed and
/// nothing else: its samples, at the size of a sample, are the bytes
/// committed; it runs with the gain of the engine, and does not run where
/// no gain is set.
pub proof fn lemma_gain_covers_committed(s: Stream, p: WritePass, r: Round)
    requires
        s.admits(p, r),
        !s.cancels(r),
    ensures
        s.volume == NO_GAIN ==> s.scale_actions(r) == Seq::<Action>::empty(),
        s.volume != NO_GAIN ==> s.scale_actions(r).len() == 1 && (s.scale_actions(r)[0] matches Action::Scale {
            samples,
            integer,
            gain,
        } && samples * s.output_stream.unwrap().sample_spec.format.spec_sample_size()
            == committed(s.round_actions(r)) && integer
            == s.output_stream.unwrap().sample_spec.format.spec_is_integer() && gain == s.volume),
{
    lemma_round(s, p, r);
    s.lemma_round_keeps_pass(p, r);
    let spec = s.output_stream.unwrap().sample_spec;
    let size = spec.format.spec_sample_size() as int;
    let channels = spec.channels as int;
    assert((r.got * channels) * size == r.got * (size * channels)) by (nonlinear_arith);
}

/// A round in which the data callback returns a negative number, or more
/// frames than the region holds, commits nothing: the region is handed
/// back and the stream shuts down.
pub proof fn lemma_refusal_commits_nothing(s: Stream, p: WritePass, r: Round)
    requires
        s.cancels(r),
    ensures
        s.round_actions(r) == seq![Action::CancelWrite(Direction::Output)],
        committed(s.round_actions(r)) == 0,
        s.after_round(r).shutdown,
        s.after_round(r).drain_timer == s.drain_timer,
        s.pass_after_round(p, r).finished(),
        s.pass_after_round(p, r).read_offset == p.read_offset,
{
    let e = Seq::<Action>::empty();
    lemma_push(e, Action::CancelWrite(Direction::Output), Action::ScheduleDrain);
    assert(s.round_actions(r) =~= e.push(Action::CancelWrite(Direction::Output)));
}

/// The bytes of the chunks in `chunks`, in all.
pub open spec fn total(chunks: Seq<usize>) -> int
    decreases chunks.len(),
{
    if chunks.len() == 0 {
        0
    } else {
        total(chunks.drop_last()) + chunks.last()
    }
}

/// The bytes that the stream `s` forwards to the write path for the
/// captured chunks in `chunks`, in all.
pub open spec fn total_forwarded(s: Stream, chunks: Seq<usize>) -> int
    decreases chunks.len(),
{
    if chunks.len() == 0 {
        0
    } else {
        total_forwarded(s, chunks.drop_last()) + s.forwarded_bytes(chunks.last())
    }
}

/// On a stream that captures and plays, whatever the sizes of the
/// captured chunks, as long as each holds whole frames: the bytes
/// forwarded to the write path are, in all, the frames captured in all at
/// the size of an output frame.
pub proof fn lemma_forwarding_keeps_frames(s: Stream, chunks: Seq<usize>)
    requires
        s.wf(),
        s.input_stream is Some,
        forall|i: int| 0 <= i < chunks.len() ==> (#[trigger] chunks[i]) as int % s.in_frame() == 0,
    ensures
        total(chunks) % s.in_frame() == 0,
        total_forwarded(s, chunks) == (total(chunks) / s.in_frame()) * s.out_frame(),
    decreases chunks.len(),
{
    let d = s.in_frame();
    let out = s.out_frame();
    s.lemma_frames_positive();
    lemma_frames_fit(0, d);
    if chunks.len() == 0 {
        assert((0int / d) * out == 0) by (nonlinear_arith)
            requires
                0int / d == 0,
        ;
    } else {
        let before = chunks.drop_last();
        let last = chunks.last() as int;
        assert forall|i: int| 0 <= i < before.len() implies (#[trigger] before[i]) as int % d
            == 0 by {
            assert(before[i] == chunks[i]);
        }
        lemma_forwarding_keeps_frames(s, before);
        let a = total(before);
        assert(last % d == 0);
        lemma_multiples_subtract(0, last, d);
        lemma_multiples_subtract(a, 0 - last, d);
        assert(a - (0 - last) == a + last);
        assert((a + last) / d == a / d + last / d);
        assert((a / d + last / d) * out == (a / d) * out + (last / d) * out) by (nonlinear_arith);
        assert(total(chunks) == a + last);
        assert(s.forwarded_bytes(chunks.last()) == (last / d) * out);
        assert(total_forwarded(s, chunks) == total_forwarded(s, before) + s.forwarded_bytes(
            chunks.last(),
        ));
    }
}

/// `stream_init` succeeds for every supported encoding, whatever the rate
/// and the channels, with the matching wire encoding, the rate asked for
/// and the channel count in eight bits; the four encodings that an
/// application can name are the supported ones; and every other encoding
/// is refused as `InvalidFormat`.
pub proof fn lemma_supported_formats(p: StreamParams)
    ensures
        supported_format(p.format) <==> p.format == SAMPLE_S16LE || p.format == SAMPLE_S16BE
            || p.format == SAMPLE_FLOAT32LE || p.format == SAMPLE_FLOAT32BE,
        supported_format(p.format) ==> p.spec_stream_init() == Ok::<SampleSpec, Error>(
            SampleSpec {
                format: pulse_format_of(p.format),
                rate: p.rate,
                channels: (p.channels % 256) as u8,
            },
        ) && pulse_format_of(p.format) != SampleFormat::Invalid,
        !supported_format(p.format) ==> p.spec_stream_init() == Err::<SampleSpec, Error>(
            Error::InvalidFormat,
        ),
{
}

/// A construction that meets an encoding without a wire equivalent, for
/// playback or, once playback stands, for capture, ends with
/// `InvalidFormat`, and what was built before is torn down.
pub proof fn lemma_unsupported_format_aborts(setup: Setup, reply: Reply)
    requires
        setup.wf(),
        setup.expects(reply),
    ensures
        setup.phase == Phase::Start && (setup.output_params matches Some(p) && !supported_format(
            p.format,
        )) ==> setup.step(reply).1 == Request::Abort(Error::InvalidFormat),
        (setup.phase == Phase::Start && setup.output_params is None || (setup.phase
            == Phase::Opening(Direction::Output) && reply == Reply::Opened(true)
            && setup.output_params.unwrap().sample_spec().has_frames())) && (
        setup.input_params matches Some(p) && !supported_format(p.format)) ==> setup.step(reply).1
            == Request::Abort(Error::InvalidFormat),
        setup.step(reply).1 is Abort ==> setup.step(reply).0.stream == Stream::empty()
            && setup.step(reply).0.phase is Failed,
        setup.phase == Phase::Opening(Direction::Output) && reply == Reply::Opened(true) && (
        setup.input_params matches Some(p) && !supported_format(p.format)) ==> setup.step(reply).2
            == seq![
            Action::Cork { direction: Direction::Output, cork: true },
            Action::Disconnect(Direction::Output),
        ],
{
    if setup.phase == Phase::Opening(Direction::Output) && reply == Reply::Opened(true) {
        let built = setup.stream.attached(
            Direction::Output,
            setup.params(Direction::Output).unwrap().sample_spec(),
        );
        assert(built.destroy_actions() =~= seq![
            Action::Cork { direction: Direction::Output, cork: true },
            Action::Disconnect(Direction::Output),
        ]);
    }
}

/// The calls of an application leave a well formed engine well formed.
pub proof fn lemma_controls_keep_wf(s: Stream, state: CorkState, volume: u32, flat_volume: bool)
    requires
        s.wf(),
    ensures
        s.after_cork(state).wf(),
        s.after_start().wf(),
        s.after_stop().wf(),
        s.after_destroy().wf(),
        s.after_set_volume(volume, flat_volume).wf(),
        forall|t: crate::stream::StreamState| (#[trigger] s.after_check_error(t)).wf(),
        s.drain_timer ==> s.after_drained().wf(),
{
}

/// A construction carried through with a server that creates every
/// transport, reports it ready and acknowledges every refresh.
pub open spec fn with_willing_server(setup: Setup) -> Setup {
    let both = setup.output_params is Some && setup.input_params is Some;
    let one = setup.output_params is Some || setup.input_params is Some;
    let ready = Reply::States { output: StreamState::Ready, input: StreamState::Ready };
    let begun = setup.step(Reply::Begin).0;
    let opened = if both {
        begun.step(Reply::Opened(true)).0.step(Reply::Opened(true)).0
    } else if one {
        begun.step(Reply::Opened(true)).0
    } else {
        begun
    };
    let waited = opened.step(ready).0;
    if both {
        waited.step(Reply::Refreshed(true)).0.step(Reply::Refreshed(true)).0
    } else if one {
        waited.step(Reply::Refreshed(true)).0
    } else {
        waited
    }
}

/// With a willing server, a construction for at least one direction,
/// each with a supported encoding and at least one channel, succeeds: the
/// engine has every direction that was asked for, paused, with the sample
/// spec asked for.
pub proof fn lemma_willing_server_completes(setup: Setup)
    requires
        setup.wf(),
        setup.phase == Phase::Start,
        setup.output_params is Some || setup.input_params is Some,
        setup.output_params matches Some(p) ==> supported_format(p.format) && p.channels % 256
            != 0,
        setup.input_params matches Some(p) ==> supported_format(p.format) && p.channels % 256
            != 0,
    ensures
        with_willing_server(setup).phase == Phase::Done,
        with_willing_server(setup).stream == (Stream {
            output_stream: Setup::slot_for(setup.output_params),
            input_stream: Setup::slot_for(setup.input_params),
            ..Stream::empty()
        }),
        with_willing_server(setup).stream.fresh(),
{
    if setup.output_params is Some {
        setup.output_params.unwrap().sample_spec().lemma_frame_size_bounds();
    }
    if setup.input_params is Some {
        setup.input_params.unwrap().sample_spec().lemma_frame_size_bounds();
    }
}

} // verus!
