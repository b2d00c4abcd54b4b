//! The write path: how a request for data is met round by round, how an
//! underrun turns into a drain, and how captured chunks reach it.

use crate::gain::NO_GAIN;
use crate::stream::{Action, Direction, State, Stream};
use vstd::arithmetic::div_mod::{
    lemma_div_multiples_vanish, lemma_fundamental_div_mod, lemma_mod_multiples_basic,
};
use vstd::arithmetic::mul::{lemma_mul_inequality, lemma_mul_is_distributive_sub};
use vstd::prelude::*;

verus! {

/// The latency assumed, in microseconds, where the transport cannot tell
/// its own.
pub const DRAIN_FALLBACK_LATENCY: u64 = 100_000;

/// The progress of one pass through the write path.
#[derive(Clone, Copy, Debug, PartialEq, Eq, Structural)]
pub struct WritePass {
    /// The bytes that are still to be written.
    pub towrite: usize,
    /// The bytes of the captured chunk that the application has been
    /// offered so far.
    pub read_offset: usize,
    /// The size of the captured chunk that feeds this pass; `None` on a
    /// pass without input.
    pub input: Option<usize>,
    /// Whether the pass ended before everything was written.
    pub stopped: bool,
}

/// What the transport and the application did in one round of a pass: the
/// size of the region that the transport granted, and the frames that the
/// data callback returned for it.
#[derive(Clone, Copy, Debug, PartialEq, Eq, Structural)]
pub struct Round {
    pub granted: usize,
    pub got: i64,
}

/// What to do with a chunk that the capture transport holds.
#[derive(Clone, Copy, Debug, PartialEq, Eq, Structural)]
pub enum ReadStep {
    /// The stream is shut down, or nothing is left to read: leave the
    /// chunk and stop reading.
    Idle,
    /// The chunk is a hole: nothing is in it.
    Hole,
    /// Run this pass through the write path, with the chunk as its input.
    Forward(WritePass),
    /// Hand the chunk's frames to the data callback, with no output.
    Deliver { frames: usize },
}

/// If `a` and `b` are multiples of `d`, so is their difference, and its
/// quotient is the difference of the quotients.
pub proof fn lemma_multiples_subtract(a: int, b: int, d: int)
    requires
        d > 0,
        a % d == 0,
        b % d == 0,
    ensures
        (a - b) % d == 0,
        (a - b) / d == a / d - b / d,
{
    lemma_fundamental_div_mod(a, d);
    lemma_fundamental_div_mod(b, d);
    lemma_mul_is_distributive_sub(d, a / d, b / d);
    lemma_div_multiples_vanish(a / d - b / d, d);
    lemma_mod_multiples_basic(a / d - b / d, d);
}

/// Whole frames of `d` bytes taken out of `n` bytes, and turned back into
/// bytes, are at most `n` bytes.
pub proof fn lemma_frames_fit(n: int, d: int)
    requires
        d > 0,
        0 <= n,
    ensures
        0 <= n / d,
        (n / d) * d <= n,
        ((n / d) * d) % d == 0,
        ((n / d) * d) / d == n / d,
{
    lemma_fundamental_div_mod(n, d);
    lemma_div_multiples_vanish(n / d, d);
    lemma_mod_multiples_basic(n / d, d);
    assert(0 <= n / d) by (nonlinear_arith)
        requires
            d > 0,
            0 <= n,
    ;
    assert((n / d) * d == d * (n / d)) by (nonlinear_arith);
}

/// The timer for a drain fires at `now` plus twice the latency, where the
/// latency is what the transport told or else the fallback; at the end of
/// the clock's range where the sum lies beyond it.
pub open spec fn spec_drain_deadline(now: u64, latency: Option<u64>) -> int {
    let l = match latency {
        Some(l) => l,
        None => DRAIN_FALLBACK_LATENCY,
    };
    if now + 2 * l <= u64::MAX {
        now + 2 * l
    } else {
        u64::MAX as int
    }
}

/// When the drain timer fires: at `now` plus twice the latency of the
/// output. All times are in microseconds.
pub fn drain_deadline(now: u64, latency: Option<u64>) -> (deadline: u64)
    ensures
        deadline == spec_drain_deadline(now, latency),
{
    let l: u64 = match latency {
        Some(l) => l,
        None => DRAIN_FALLBACK_LATENCY,
    };
    let sum: u128 = now as u128 + 2 * (l as u128);
    if sum <= u64::MAX as u128 {
        sum as u64
    } else {
        u64::MAX
    }
}

/// A pass played through: the engine, the pass and the actions after the
/// rounds in `rounds`, as far as the pass takes them. A pass that is over
/// takes no further round.
pub open spec fn run(s: Stream, p: WritePass, rounds: Seq<Round>) -> (Stream, WritePass, Seq<Action>)
    decreases rounds.len(),
{
    if rounds.len() == 0 || p.finished() {
        (s, p, Seq::<Action>::empty())
    } else {
        let rest = run(s.after_round(rounds[0]), s.pass_after_round(p, rounds[0]), rounds.drop_first());
        (rest.0, rest.1, s.round_actions(rounds[0]) + rest.2)
    }
}

/// Whether every round that the pass takes is one that may follow.
pub open spec fn run_admitted(s: Stream, p: WritePass, rounds: Seq<Round>) -> bool
    decreases rounds.len(),
{
    rounds.len() == 0 || p.finished() || (s.admits(p, rounds[0]) && run_admitted(
        s.after_round(rounds[0]),
        s.pass_after_round(p, rounds[0]),
        rounds.drop_first(),
    ))
}

impl WritePass {
    /// Whether the pass is over.
    pub open spec fn finished(self) -> bool {
        self.stopped || self.towrite == 0
    }

    /// What holds of a pass on the stream `s`: the stream plays, whole
    /// frames are left to write, the read offset lies within the captured
    /// chunk, and so does the input for the frames that are left.
    pub open spec fn wf(self, s: Stream) -> bool {
        &&& s.output_stream is Some
        &&& self.towrite as int % s.out_frame() == 0
        &&& self.input matches Some(len) ==> {
            &&& s.input_stream is Some
            &&& self.read_offset <= len
            &&& !self.stopped ==> self.read_offset + (self.towrite as int / s.out_frame())
                * s.in_frame() <= len
        }
    }

    /// The size to ask the output transport for in the next round; `None`
    /// when the pass is over.
    pub fn wanted(&self) -> (n: Option<usize>)
        ensures
            n == (if self.finished() {
                None
            } else {
                Some(self.towrite)
            }),
    {
        if self.stopped || self.towrite == 0 {
            None
        } else {
            Some(self.towrite)
        }
    }
}

impl Stream {
    /// The bytes of an output frame; 0 on a stream that does not play.
    pub open spec fn out_frame(self) -> int {
        match self.output_stream {
            Some(s) => s.sample_spec.spec_frame_size() as int,
            None => 0,
        }
    }

    /// The bytes of an input frame; 0 on a stream that does not capture.
    pub open spec fn in_frame(self) -> int {
        match self.input_stream {
            Some(s) => s.sample_spec.spec_frame_size() as int,
            None => 0,
        }
    }

    /// On a well formed engine, the frames of a direction in use have at
    /// least one byte.
    pub proof fn lemma_frames_positive(self)
        requires
            self.wf(),
        ensures
            self.output_stream is Some ==> 0 < self.out_frame() <= 1020,
            self.input_stream is Some ==> 0 < self.in_frame() <= 1020,
    {
        if self.output_stream is Some {
            self.output_stream.unwrap().sample_spec.lemma_frame_size_bounds();
        }
        if self.input_stream is Some {
            self.input_stream.unwrap().sample_spec.lemma_frame_size_bounds();
        }
    }

    /// The channels of an output frame; 0 on a stream that does not play.
    pub open spec fn out_channels(self) -> int {
        match self.output_stream {
            Some(s) => s.sample_spec.channels as int,
            None => 0,
        }
    }

    /// A pass that is to write `nbytes` bytes, fed by a captured chunk of
    /// `input` bytes or by none.
    pub open spec fn pass_for(nbytes: usize, input: Option<usize>) -> WritePass {
        WritePass { towrite: nbytes, read_offset: 0, input, stopped: false }
    }

    /// The whole output frames within `nbytes` bytes, in bytes.
    pub open spec fn whole_frames(self, nbytes: usize) -> usize {
        ((nbytes as int / self.out_frame()) * self.out_frame()) as usize
    }

    /// Whether the pass `p` can take a grant of `granted` bytes: the pass
    /// is not over, and the grant is of whole frames, at least one and no
    /// more than were asked for.
    pub open spec fn takes_grant(self, p: WritePass, granted: usize) -> bool {
        &&& self.wf()
        &&& p.wf(self)
        &&& !p.finished()
        &&& 0 < granted <= p.towrite
        &&& granted as int % self.out_frame() == 0
    }

    /// Whether a round may follow on the pass `p`: the pass can take what
    /// the transport granted. What the application returned is free.
    pub open spec fn admits(self, p: WritePass, r: Round) -> bool {
        self.takes_grant(p, r.granted)
    }

    /// The bytes of an output frame; 0 on a stream that does not play.
    pub fn out_frame_size(&self) -> (n: usize)
        ensures
            n == self.out_frame(),
    {
        match self.output_stream {
            Some(s) => s.sample_spec.frame_size(),
            None => 0,
        }
    }

    /// The bytes of an input frame; 0 on a stream that does not capture.
    pub fn in_frame_size(&self) -> (n: usize)
        ensures
            n == self.in_frame(),
    {
        match self.input_stream {
            Some(s) => s.sample_spec.frame_size(),
            None => 0,
        }
    }

    /// Tells whether `pass` can take a grant of `granted` bytes.
    pub fn admits_round(&self, pass: &WritePass, granted: usize) -> (b: bool)
        requires
            self.wf(),
            pass.wf(*self),
        ensures
            b == self.takes_grant(*pass, granted),
    {
        let frame_size: usize = self.out_frame_size();
        if pass.stopped || pass.towrite == 0 {
            return false;
        }
        if granted == 0 || granted > pass.towrite || granted % frame_size != 0 {
            return false;
        }
        true
    }

    /// Whether the data callback broke its contract in a round: it
    /// returned a negative number, or more frames than the region holds.
    pub open spec fn cancels(self, r: Round) -> bool {
        r.got < 0 || r.got > r.granted as int / self.out_frame()
    }

    /// Whether a round ends in a drain: the application returned fewer
    /// frames than the region holds.
    pub open spec fn underruns(self, r: Round) -> bool {
        0 <= r.got < r.granted as int / self.out_frame()
    }

    /// The gain pass of a round: over every sample that the application
    /// produced, where a gain is set.
    pub open spec fn scale_actions(self, r: Round) -> Seq<Action> {
        if self.volume != NO_GAIN {
            seq![
                Action::Scale {
                    samples: (r.got * self.out_channels()) as usize,
                    integer: self.output_stream.unwrap().sample_spec.format.spec_is_integer(),
                    gain: self.volume,
                },
            ]
        } else {
            Seq::<Action>::empty()
        }
    }

    /// What a round asks for. Where the data callback broke its contract
    /// the region is given up and nothing is committed. Otherwise the gain
    /// is applied to the frames that the application produced and these
    /// frames are committed; an underrun then arms the drain timer, unless
    /// one is armed already.
    pub open spec fn round_actions(self, r: Round) -> Seq<Action> {
        if self.cancels(r) {
            seq![Action::CancelWrite(Direction::Output)]
        } else if self.underruns(r) && !self.drain_timer {
            self.scale_actions(r) + seq![
                Action::Commit { bytes: (r.got * self.out_frame()) as usize },
                Action::ScheduleDrain,
            ]
        } else {
            self.scale_actions(r) + seq![
                Action::Commit { bytes: (r.got * self.out_frame()) as usize },
            ]
        }
    }

    /// The engine after a round: shut down where the data callback broke
    /// its contract and after an underrun, with the drain timer armed
    /// after an underrun.
    pub open spec fn after_round(self, r: Round) -> Stream {
        if self.cancels(r) {
            Stream { shutdown: true, ..self }
        } else if self.underruns(r) {
            Stream { shutdown: true, drain_timer: true, ..self }
        } else {
            self
        }
    }

    /// The pass after a round. The read offset moves on by the frames that
    /// the application produced, in input frames; the bytes to write go
    /// down by the granted size, unless the pass stops.
    pub open spec fn pass_after_round(self, p: WritePass, r: Round) -> WritePass {
        if self.cancels(r) {
            WritePass { stopped: true, ..p }
        } else {
            let read_offset = if p.input is Some {
                (p.read_offset + r.got * self.in_frame()) as usize
            } else {
                p.read_offset
            };
            if self.underruns(r) {
                WritePass { read_offset, stopped: true, ..p }
            } else {
                WritePass { read_offset, towrite: (p.towrite - r.granted) as usize, ..p }
            }
        }
    }

    /// The arithmetic of a round that may follow: what is committed lies
    /// within the granted region and fills it unless the round underruns,
    /// the input offered lies within the captured chunk, and the engine
    /// and the pass stay well formed.
    pub proof fn lemma_round_keeps_pass(self, p: WritePass, r: Round)
        requires
            self.admits(p, r),
        ensures
            0 < self.out_frame(),
            0 <= r.granted as int / self.out_frame() <= p.towrite as int / self.out_frame(),
            !self.cancels(r) ==> 0 <= r.got * self.out_frame() <= r.granted,
            !self.cancels(r) ==> 0 <= r.got * self.out_channels() <= r.granted,
            !self.cancels(r) && !self.underruns(r) ==> r.got * self.out_frame() == r.granted,
            !self.cancels(r) && p.input is Some ==> 0 <= r.got * self.in_frame()
                && p.read_offset + r.got * self.in_frame() <= p.input.unwrap(),
            self.after_round(r).wf(),
            self.pass_after_round(p, r).wf(self.after_round(r)),
    {
        let fs = self.out_frame();
        let frames = r.granted as int / fs;
        self.lemma_frames_positive();
        lemma_frames_fit(r.granted as int, fs);
        lemma_frames_fit(p.towrite as int, fs);
        vstd::arithmetic::div_mod::lemma_div_is_ordered(r.granted as int, p.towrite as int, fs);
        if !self.cancels(r) {
            lemma_mul_inequality(r.got as int, frames, fs);
            assert(0 <= r.got * fs) by (nonlinear_arith)
                requires
                    0 <= r.got,
                    0 <= fs,
            ;
            let channels = self.out_channels();
            assert(channels <= fs) by {
                let spec = self.output_stream.unwrap().sample_spec;
                assert(spec.format.spec_sample_size() >= 1);
                assert(channels <= spec.format.spec_sample_size() * (spec.channels as nat))
                    by (nonlinear_arith)
                    requires
                        channels == spec.channels,
                        spec.format.spec_sample_size() >= 1,
                ;
            }
            assert(0 <= r.got * channels <= r.got * fs) by (nonlinear_arith)
                requires
                    0 <= r.got,
                    0 <= channels <= fs,
            ;
            if !self.underruns(r) {
                lemma_multiples_subtract(p.towrite as int, r.granted as int, fs);
                lemma_fundamental_div_mod(r.granted as int, fs);
                assert(r.got * fs == fs * frames) by (nonlinear_arith)
                    requires
                        r.got == frames,
                ;
            }
            if p.input is Some {
                let in_frame = self.in_frame();
                lemma_mul_inequality(r.got as int, p.towrite as int / fs, in_frame);
                assert(0 <= r.got * in_frame) by (nonlinear_arith)
                    requires
                        0 <= r.got,
                        0 <= in_frame,
                ;
                if !self.underruns(r) {
                    assert((p.towrite as int / fs - frames) * in_frame == (p.towrite as int / fs)
                        * in_frame - frames * in_frame) by (nonlinear_arith);
                }
            }
        }
    }

    /// One round of a pass through the write path: the transport granted a
    /// region of `granted` bytes to write to, and the data callback, given
    /// the input from `read_offset` on and that region, returned `got`.
    /// Whatever it returned, at most one drain timer is armed afterwards.
    pub fn trigger_user_callback(&mut self, pass: &mut WritePass, granted: usize, got: i64) -> (actions:
        Vec<Action>)
        requires
            old(self).admits(*old(pass), Round { granted, got }),
        ensures
            *final(self) == old(self).after_round(Round { granted, got }),
            *final(pass) == old(self).pass_after_round(*old(pass), Round { granted, got }),
            actions@ == old(self).round_actions(Round { granted, got }),
            final(self).wf(),
            final(pass).wf(*final(self)),
            final(pass).input matches Some(len) ==> final(pass).read_offset <= len,
            final(pass).towrite <= old(pass).towrite,
            final(self).drain_timer <==> old(self).drain_timer || old(self).underruns(
                Round { granted, got },
            ),
            final(self).drain_timer && !old(self).drain_timer ==> final(self).shutdown
                && final(pass).stopped && actions@.last() == Action::ScheduleDrain,
            forall|i: int|
                0 <= i < actions@.len() && #[trigger] actions@[i] == Action::ScheduleDrain ==> i
                    == actions@.len() - 1 && !old(self).drain_timer,
    {
        let ghost round = Round { granted, got };
        let ghost before = *self;
        proof {
            before.lemma_round_keeps_pass(*pass, round);
        }
        let mut actions: Vec<Action> = Vec::new();
        let spec = match self.output_stream {
            Some(s) => s.sample_spec,
            None => {
                return actions;
            },
        };
        let frame_size: usize = spec.frame_size();
        let frames: usize = granted / frame_size;
        if got < 0 || got as u64 > frames as u64 {
            actions.push(Action::CancelWrite(Direction::Output));
            self.shutdown = true;
            pass.stopped = true;
            assert(actions@ =~= before.round_actions(round));
            return actions;
        }
        let produced: usize = got as usize;
        if pass.input.is_some() {
            let in_frame_size: usize = self.in_frame_size();
            pass.read_offset = pass.read_offset + produced * in_frame_size;
        }
        if self.volume != NO_GAIN {
            let channels: usize = spec.channels as usize;
            actions.push(
                Action::Scale {
                    samples: produced * channels,
                    integer: spec.format.is_integer(),
                    gain: self.volume,
                },
            );
        }
        actions.push(Action::Commit { bytes: produced * frame_size });
        if produced < frames {
            if !self.drain_timer {
                actions.push(Action::ScheduleDrain);
                self.drain_timer = true;
            }
            self.shutdown = true;
            pass.stopped = true;
            assert(actions@ =~= before.round_actions(round));
            return actions;
        }
        pass.towrite = pass.towrite - granted;
        assert(actions@ =~= before.round_actions(round));
        actions
    }

    /// The engine after a transport failed inside a callback of the event
    /// loop.
    pub open spec fn after_io_failure(self) -> Stream {
        Stream { shutdown: true, ..self }.reporting(State::Error)
    }

    /// A transport failed inside a callback of the event loop. Nothing is
    /// handed on to the event loop: the stream shuts down, and the
    /// application is told `Error`.
    pub fn io_failed(&mut self) -> (actions: Vec<Action>)
        ensures
            *final(self) == old(self).after_io_failure(),
            actions@ == seq![Action::NotifyState(State::Error)],
            old(self).wf() ==> final(self).wf(),
    {
        self.shutdown = true;
        let mut actions: Vec<Action> = Vec::new();
        let a: Action = self.state_change_callback(State::Error);
        actions.push(a);
        actions
    }

    /// The output transport failed in the middle of a pass: it granted no
    /// region, or one that no round can take. The pass ends, the stream
    /// shuts down, and the application is told `Error`.
    pub fn write_failed(&mut self, pass: &mut WritePass) -> (actions: Vec<Action>)
        ensures
            *final(self) == old(self).after_io_failure(),
            *final(pass) == (WritePass { stopped: true, ..*old(pass) }),
            actions@ == seq![Action::NotifyState(State::Error)],
            old(self).wf() ==> final(self).wf(),
            old(pass).wf(*old(self)) ==> final(pass).wf(*final(self)),
    {
        pass.stopped = true;
        self.io_failed()
    }

    /// Whether a write-ready event starts a pass: the stream is started,
    /// not shut down, and only plays. On a stream that also captures, the
    /// captured chunks start the passes.
    pub open spec fn writes_on_demand(self) -> bool {
        !self.shutdown && self.state == State::Started && self.input_stream is None
    }

    /// The output transport wants `nbytes` bytes. Returns the pass to run
    /// through the write path, if one is to run: a pass over the whole
    /// frames within `nbytes`.
    pub fn write_data(&self, nbytes: usize) -> (pass: Option<WritePass>)
        requires
            self.wf(),
            self.output_stream is Some,
        ensures
            pass == (if self.writes_on_demand() {
                Some(Self::pass_for(self.whole_frames(nbytes), None))
            } else {
                None
            }),
            pass matches Some(p) ==> p.wf(*self) && p.towrite <= nbytes,
            nbytes as int % self.out_frame() == 0 ==> self.whole_frames(nbytes) == nbytes,
    {
        let towrite: usize = self.whole(nbytes);
        if self.shutdown || self.state != State::Started {
            return None;
        }
        if self.input_stream.is_none() {
            Some(WritePass { towrite, read_offset: 0, input: None, stopped: false })
        } else {
            None
        }
    }

    /// The whole output frames within `nbytes` bytes, in bytes.
    fn whole(&self, nbytes: usize) -> (n: usize)
        requires
            self.wf(),
            self.output_stream is Some,
        ensures
            n == self.whole_frames(nbytes),
            n <= nbytes,
            n as int % self.out_frame() == 0,
            nbytes as int % self.out_frame() == 0 ==> n == nbytes,
    {
        let frame_size: usize = self.out_frame_size();
        proof {
            self.lemma_frames_positive();
            lemma_frames_fit(nbytes as int, frame_size as int);
            lemma_fundamental_div_mod(nbytes as int, frame_size as int);
            assert((nbytes as int / frame_size as int) * frame_size == frame_size * (nbytes as int
                / frame_size as int)) by (nonlinear_arith);
        }
        (nbytes / frame_size) * frame_size
    }

    /// The call that `start` handed to the event loop on a stream that only
    /// plays: `writable` is what the output transport accepts now, `None`
    /// where it could not tell. Returns the pass to run through the write
    /// path, if one is to run: a pass over the whole frames within
    /// `writable`.
    pub fn output_preroll(&self, writable: Option<usize>) -> (pass: Option<WritePass>)
        requires
            self.wf(),
            self.output_stream is Some,
        ensures
            pass == (match writable {
                Some(n) if !self.shutdown => Some(Self::pass_for(self.whole_frames(n), None)),
                _ => None,
            }),
            pass matches Some(p) ==> p.wf(*self),
    {
        if self.shutdown {
            return None;
        }
        match writable {
            Some(n) => Some(
                WritePass { towrite: self.whole(n), read_offset: 0, input: None, stopped: false },
            ),
            None => None,
        }
    }

    /// The engine after the drain timer fired.
    pub open spec fn after_drained(self) -> Stream {
        Stream { state: State::Drained, drain_timer: false, ..self }
    }

    /// The drain timer fired: `Drained` is reported, the timer is released
    /// and the waiting threads are woken.
    pub fn drained_cb(&mut self) -> (actions: Vec<Action>)
        requires
            old(self).drain_timer,
        ensures
            *final(self) == old(self).after_drained(),
            actions@ == seq![
                Action::NotifyState(State::Drained),
                Action::FreeDrainTimer,
                Action::Signal,
            ],
            old(self).wf() ==> final(self).wf(),
    {
        let mut actions: Vec<Action> = Vec::new();
        let a: Action = self.state_change_callback(State::Drained);
        actions.push(a);
        actions.push(Action::FreeDrainTimer);
        self.drain_timer = false;
        actions.push(Action::Signal);
        actions
    }

    /// The bytes to write for a captured chunk of `read_size` bytes: its
    /// whole frames, at the size of an output frame.
    pub open spec fn forwarded_bytes(self, read_size: usize) -> int {
        (read_size as int / self.in_frame()) * self.out_frame()
    }

    /// What `read_data` decides for a chunk. On a stream that is shut down
    /// and for a chunk of no bytes, which is what the transport shows when
    /// nothing is left, the reading ends.
    pub open spec fn read_step(self, hole: bool, read_size: usize) -> ReadStep {
        if self.shutdown || read_size == 0 {
            ReadStep::Idle
        } else if hole {
            ReadStep::Hole
        } else if self.output_stream is Some {
            ReadStep::Forward(
                Self::pass_for(self.forwarded_bytes(read_size) as usize, Some(read_size)),
            )
        } else {
            ReadStep::Deliver { frames: (read_size as int / self.in_frame()) as usize }
        }
    }

    /// The capture transport holds a chunk of `read_size` bytes, which is a
    /// `hole` where it has no data. On a stream that also plays, the chunk
    /// feeds a pass through the write path; on one that only captures, its
    /// frames go to the data callback. After either, and after a hole,
    /// `chunk_done` follows.
    pub fn read_data(&self, hole: bool, read_size: usize) -> (step: ReadStep)
        requires
            self.wf(),
            self.input_stream is Some,
            !self.shutdown && !hole && self.output_stream is Some ==> self.forwarded_bytes(
                read_size,
            ) <= usize::MAX,
        ensures
            step == self.read_step(hole, read_size),
            step matches ReadStep::Forward(p) ==> p.wf(*self),
    {
        if self.shutdown || read_size == 0 {
            return ReadStep::Idle;
        }
        if hole {
            return ReadStep::Hole;
        }
        let in_frame_size: usize = match self.input_stream {
            Some(s) => s.sample_spec.frame_size(),
            None => 1,
        };
        let read_frames: usize = read_size / in_frame_size;
        proof {
            lemma_frames_fit(read_size as int, in_frame_size as int);
        }
        match self.output_stream {
            Some(s) => {
                let out_frame_size: usize = s.sample_spec.frame_size();
                let write_size: usize = read_frames * out_frame_size;
                proof {
                    lemma_div_multiples_vanish(read_frames as int, out_frame_size as int);
                    lemma_mod_multiples_basic(read_frames as int, out_frame_size as int);
                    assert(read_frames * out_frame_size == out_frame_size * read_frames)
                        by (nonlinear_arith);
                }
                ReadStep::Forward(
                    WritePass {
                        towrite: write_size,
                        read_offset: 0,
                        input: Some(read_size),
                        stopped: false,
                    },
                )
            },
            None => ReadStep::Deliver { frames: read_frames },
        }
    }

    /// What follows a chunk of `read_size` bytes: it is discarded, unless
    /// it is empty.
    pub open spec fn chunk_done_actions(read_size: usize) -> Seq<Action> {
        if read_size > 0 {
            seq![Action::DropRecord]
        } else {
            Seq::<Action>::empty()
        }
    }

    /// Ends the work on a chunk of `read_size` bytes.
    pub fn chunk_done(read_size: usize) -> (actions: Vec<Action>)
        ensures
            actions@ == Self::chunk_done_actions(read_size),
    {
        let mut actions: Vec<Action> = Vec::new();
        if read_size > 0 {
            actions.push(Action::DropRecord);
        }
        actions
    }

    /// Whether the data callback broke its contract on a stream that only
    /// captures: it returned a negative number, or not the number of
    /// frames it was given.
    pub open spec fn input_refused(frames: usize, got: i64) -> bool {
        got < 0 || got != frames
    }

    /// On a stream that only captures, the data callback was given the
    /// `frames` frames of a chunk of `read_size` bytes and returned `got`.
    /// Where it took them all, the chunk is done. Otherwise the read is
    /// cancelled, the chunk is left and the stream shuts down.
    pub fn input_delivered(&mut self, read_size: usize, frames: usize, got: i64) -> (actions: Vec<
        Action,
    >)
        ensures
            *final(self) == (if Self::input_refused(frames, got) {
                old(self).stopping()
            } else {
                *old(self)
            }),
            actions@ == (if Self::input_refused(frames, got) {
                seq![Action::CancelWrite(Direction::Input)]
            } else {
                Self::chunk_done_actions(read_size)
            }),
    {
        if got < 0 || (got as u64) != (frames as u64) {
            let mut actions: Vec<Action> = Vec::new();
            actions.push(Action::CancelWrite(Direction::Input));
            self.shutdown = true;
            return actions;
        }
        Self::chunk_done(read_size)
    }

    /// Plays a pass through: the rounds in `rounds` are taken one after
    /// the other, as long as the pass is not over.
    pub fn run_pass(&mut self, pass: &mut WritePass, rounds: &Vec<Round>) -> (actions: Vec<Action>)
        requires
            old(self).wf(),
            old(pass).wf(*old(self)),
            run_admitted(*old(self), *old(pass), rounds@),
        ensures
            (*final(self), *final(pass), actions@) == run(*old(self), *old(pass), rounds@),
            final(self).wf(),
            final(pass).wf(*final(self)),
    {
        let mut actions: Vec<Action> = Vec::new();
        let mut i: usize = 0;
        assert(rounds@.subrange(0, rounds@.len() as int) =~= rounds@);
        while i < rounds.len() && !pass.stopped && pass.towrite != 0
            invariant
                i <= rounds@.len(),
                self.wf(),
                pass.wf(*self),
                run_admitted(*self, *pass, rounds@.subrange(i as int, rounds@.len() as int)),
                run(*old(self), *old(pass), rounds@) == ({
                    let rest = run(*self, *pass, rounds@.subrange(i as int, rounds@.len() as int));
                    (rest.0, rest.1, actions@ + rest.2)
                }),
            decreases rounds@.len() - i,
        {
            let ghost left = rounds@.subrange(i as int, rounds@.len() as int);
            let ghost before = actions@;
            let ghost engine = *self;
            assert(left[0] == rounds@[i as int]);
            assert(left.drop_first() =~= rounds@.subrange(i as int + 1, rounds@.len() as int));
            let r: Round = rounds[i];
            let mut step: Vec<Action> = self.trigger_user_callback(pass, r.granted, r.got);
            actions.append(&mut step);
            i += 1;
            proof {
                let rest = run(*self, *pass, rounds@.subrange(i as int, rounds@.len() as int));
                assert(before + (engine.round_actions(r) + rest.2) =~= actions@ + rest.2);
            }
        }
        proof {
            let rest = run(*self, *pass, rounds@.subrange(i as int, rounds@.len() as int));
            assert(rest.2 =~= Seq::<Action>::empty());
            assert(actions@ + rest.2 =~= actions@);
        }
        actions
    }
}

} // verus!
