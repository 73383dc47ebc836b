//! The pipeline driver: a pull-based state machine.
//!
//! The driver starts `Running`, where it accepts converted frames (from a
//! conversion and from the mandatory pending-output drain after it) and the
//! need-more-input signal; end of stream moves it to `Draining`, where it
//! accepts the frames the resampler's flush loop still produces; flush
//! exhaustion moves it to `Done`, which is terminal and accepts nothing.
//! Samples are appended in the exact order frames arrive, each frame
//! contributing its first channel's samples; the accumulated sequence is
//! always the concatenation of those contributions in arrival order.

use vstd::prelude::*;

use crate::frame::AudioFrame;

verus! {

/// The driver's control state.
#[derive(Clone, Copy, Debug, PartialEq, Eq, Structural)]
pub enum PipelineState {
    /// Reading packets: frames may still arrive from conversion.
    Running,
    /// The decoder is flushed; only the resampler's buffered output remains.
    Draining,
    /// Terminal: the accumulated samples may be emitted, exactly once.
    Done,
}

/// One observation handed to the driver by the loop around it.
#[derive(Clone, Debug, PartialEq, Eq)]
pub enum PipelineEvent {
    /// A frame came out of the resampler while running: the result of
    /// converting a decoded frame, or one more frame of pending output
    /// drained right after a conversion.
    Converted(AudioFrame),
    /// The decoder consumed a packet but needs more input; not an error.
    NeedMoreInput,
    /// End of stream, already normalized from either of its two shapes.
    EndOfStream,
    /// A frame produced by the resampler's flush loop after end of stream.
    FlushFrame(AudioFrame),
    /// The flush loop reported no more output.
    FlushExhausted,
}

/// Frames carried by an event are in a known mono or stereo layout.
pub open spec fn event_wf(e: PipelineEvent) -> bool {
    match e {
        PipelineEvent::Converted(f) => f.wf(),
        PipelineEvent::FlushFrame(f) => f.wf(),
        _ => true,
    }
}

/// Whether a state accepts an event: converted frames, the need-more-input
/// signal and end of stream belong to `Running`; flush frames and flush
/// exhaustion belong to `Draining`; `Done` accepts nothing.
pub open spec fn event_accepted(s: PipelineState, e: PipelineEvent) -> bool {
    match (s, e) {
        (PipelineState::Running, PipelineEvent::Converted(_)) => true,
        (PipelineState::Running, PipelineEvent::NeedMoreInput) => true,
        (PipelineState::Running, PipelineEvent::EndOfStream) => true,
        (PipelineState::Draining, PipelineEvent::FlushFrame(_)) => true,
        (PipelineState::Draining, PipelineEvent::FlushExhausted) => true,
        _ => false,
    }
}

/// The state after an event: end of stream begins the drain, flush
/// exhaustion finishes it, everything else (including a rejected event)
/// leaves the state unchanged.
pub open spec fn next_state(s: PipelineState, e: PipelineEvent) -> PipelineState {
    match (s, e) {
        (PipelineState::Running, PipelineEvent::EndOfStream) => PipelineState::Draining,
        (PipelineState::Draining, PipelineEvent::FlushExhausted) => PipelineState::Done,
        _ => s,
    }
}

/// Whether an event contributes a frame's samples to the output.
pub open spec fn frame_accepted(s: PipelineState, e: PipelineEvent) -> bool {
    event_accepted(s, e) && (e is Converted || e is FlushFrame)
}

/// What an event appends to the output: the first-channel samples of an
/// accepted frame, nothing otherwise.
pub open spec fn event_contribution(s: PipelineState, e: PipelineEvent) -> Seq<i16> {
    if event_accepted(s, e) {
        match e {
            PipelineEvent::Converted(f) => f.selected(),
            PipelineEvent::FlushFrame(f) => f.selected(),
            _ => Seq::empty(),
        }
    } else {
        Seq::empty()
    }
}

/// The pipeline driver: the control state and the append-only sample
/// accumulator, with a ghost record of every accepted frame's contribution.
pub struct PipelineDriver {
    state: PipelineState,
    samples: Vec<i16>,
    history: Ghost<Seq<Seq<i16>>>,
}

impl PipelineDriver {
    /// The current control state.
    pub closed spec fn state(self) -> PipelineState {
        self.state
    }

    /// The samples accumulated so far, in append order.
    pub closed spec fn samples(self) -> Seq<i16> {
        self.samples@
    }

    /// The contribution of each accepted frame, in arrival order.
    pub closed spec fn history(self) -> Seq<Seq<i16>> {
        self.history@
    }

    /// The ordering invariant: the accumulator is exactly the concatenation,
    /// in arrival order, of the accepted frames' first-channel samples — no
    /// gap, reordering or duplication.
    pub open spec fn wf(self) -> bool {
        self.samples() == self.history().flatten()
    }

    /// A fresh driver: running, with nothing accumulated.
    pub fn new() -> (d: Self)
        ensures
            d.wf(),
            d.state() == PipelineState::Running,
            d.samples() == Seq::<i16>::empty(),
            d.history() == Seq::<Seq<i16>>::empty(),
    {
        let d = PipelineDriver {
            state: PipelineState::Running,
            samples: Vec::new(),
            history: Ghost(Seq::empty()),
        };
        proof {
            assert(d.history@.flatten() =~= Seq::<i16>::empty());
        }
        d
    }

    /// Feed one event to the driver. An accepted frame's first-channel
    /// samples are appended behind everything accumulated so far; a rejected
    /// event (anything after `Done`, or an event out of phase) changes
    /// nothing and returns false.
    pub fn step(&mut self, event: PipelineEvent) -> (accepted: bool)
        requires
            old(self).wf(),
            event_wf(event),
        ensures
            final(self).wf(),
            accepted == event_accepted(old(self).state(), event),
            final(self).state() == next_state(old(self).state(), event),
            final(self).samples() == old(self).samples() + event_contribution(
                old(self).state(),
                event,
            ),
            final(self).history() == if frame_accepted(old(self).state(), event) {
                old(self).history().push(event_contribution(old(self).state(), event))
            } else {
                old(self).history()
            },
    {
        broadcast use vstd::prelude::Seq::lemma_flatten_push;

        match (self.state, event) {
            (PipelineState::Running, PipelineEvent::Converted(frame)) => {
                self.append_frame(&frame);
                true
            },
            (PipelineState::Running, PipelineEvent::NeedMoreInput) => {
                proof {
                    assert(self.samples@ =~= self.samples@ + Seq::<i16>::empty());
                }
                true
            },
            (PipelineState::Running, PipelineEvent::EndOfStream) => {
                self.state = PipelineState::Draining;
                proof {
                    assert(self.samples@ =~= self.samples@ + Seq::<i16>::empty());
                }
                true
            },
            (PipelineState::Draining, PipelineEvent::FlushFrame(frame)) => {
                self.append_frame(&frame);
                true
            },
            (PipelineState::Draining, PipelineEvent::FlushExhausted) => {
                self.state = PipelineState::Done;
                proof {
                    assert(self.samples@ =~= self.samples@ + Seq::<i16>::empty());
                }
                true
            },
            _ => {
                proof {
                    assert(self.samples@ =~= self.samples@ + Seq::<i16>::empty());
                }
                false
            },
        }
    }

    /// Append one accepted frame's first-channel samples and record them.
    fn append_frame(&mut self, frame: &AudioFrame)
        requires
            old(self).wf(),
            frame.wf(),
        ensures
            final(self).wf(),
            final(self).state() == old(self).state(),
            final(self).samples() == old(self).samples() + frame.selected(),
            final(self).history() == old(self).history().push(frame.selected()),
    {
        broadcast use vstd::prelude::Seq::lemma_flatten_push;

        let mut sel = crate::frame::first_channel_samples(frame);
        self.samples.append(&mut sel);
        proof {
            self.history@ = self.history@.push(frame.selected());
        }
    }

    /// The current state, for the loop around the driver.
    pub fn current_state(&self) -> (s: PipelineState)
        ensures
            s == self.state(),
    {
        self.state
    }

    /// Whether the terminal state is reached.
    pub fn is_done(&self) -> (r: bool)
        ensures
            r == (self.state() == PipelineState::Done),
    {
        match self.state {
            PipelineState::Done => true,
            _ => false,
        }
    }

    /// How many samples are accumulated so far.
    pub fn sample_count(&self) -> (n: usize)
        ensures
            n == self.samples().len(),
    {
        self.samples.len()
    }

    /// Emit the accumulator: only in the terminal state, and — since the
    /// driver is consumed — exactly once.
    pub fn into_samples(self) -> (samples: Vec<i16>)
        requires
            self.state() == PipelineState::Done,
        ensures
            samples@ == self.samples(),
    {
        self.samples
    }
}

/// The state a fresh run of the machine reaches after a sequence of events.
pub open spec fn run_state(s0: PipelineState, events: Seq<PipelineEvent>) -> PipelineState
    decreases events.len(),
{
    if events.len() == 0 {
        s0
    } else {
        run_state(next_state(s0, events[0]), events.drop_first())
    }
}

/// The samples a run of the machine accumulates over a sequence of events.
pub open spec fn run_output(s0: PipelineState, events: Seq<PipelineEvent>) -> Seq<i16>
    decreases events.len(),
{
    if events.len() == 0 {
        Seq::empty()
    } else {
        event_contribution(s0, events[0]) + run_output(
            next_state(s0, events[0]),
            events.drop_first(),
        )
    }
}

/// The contribution of each accepted frame of a run, in arrival order.
pub open spec fn run_contributions(s0: PipelineState, events: Seq<PipelineEvent>) -> Seq<Seq<i16>>
    decreases events.len(),
{
    if events.len() == 0 {
        Seq::empty()
    } else {
        let rest = run_contributions(next_state(s0, events[0]), events.drop_first());
        if frame_accepted(s0, events[0]) {
            seq![event_contribution(s0, events[0])] + rest
        } else {
            rest
        }
    }
}

/// A run over one more trailing event is the run so far, stepped once.
pub proof fn lemma_run_snoc(s0: PipelineState, events: Seq<PipelineEvent>, e: PipelineEvent)
    ensures
        run_state(s0, events.push(e)) == next_state(run_state(s0, events), e),
        run_output(s0, events.push(e)) == run_output(s0, events) + event_contribution(
            run_state(s0, events),
            e,
        ),
        run_contributions(s0, events.push(e)) == if frame_accepted(run_state(s0, events), e) {
            run_contributions(s0, events).push(event_contribution(run_state(s0, events), e))
        } else {
            run_contributions(s0, events)
        },
    decreases events.len(),
{
    if events.len() == 0 {
        let s1 = next_state(s0, e);
        assert(events.push(e)[0] == e);
        assert(events.push(e).drop_first() =~= Seq::<PipelineEvent>::empty());
        assert(run_state(s1, Seq::<PipelineEvent>::empty()) == s1);
        assert(run_output(s1, Seq::<PipelineEvent>::empty()) == Seq::<i16>::empty());
        assert(run_contributions(s1, Seq::<PipelineEvent>::empty()) == Seq::<Seq<i16>>::empty());
        assert(run_output(s0, events.push(e)) =~= event_contribution(s0, e));
        assert(run_output(s0, events) + event_contribution(s0, e) =~= event_contribution(s0, e));
        if frame_accepted(s0, e) {
            assert(run_contributions(s0, events.push(e)) =~= run_contributions(s0, events).push(
                event_contribution(s0, e),
            ));
        }
    } else {
        let s1 = next_state(s0, events[0]);
        lemma_run_snoc(s1, events.drop_first(), e);
        assert(events.push(e)[0] == events[0]);
        assert(events.push(e).drop_first() =~= events.drop_first().push(e));
        if frame_accepted(run_state(s0, events), e) {
            assert(run_contributions(s0, events.push(e)) =~= run_contributions(s0, events).push(
                event_contribution(run_state(s0, events), e),
            ));
        }
    }
}

/// Law (ordering): for every sequence of events, the output of a run is
/// exactly the concatenation, in arrival order, of the accepted frames'
/// first-channel contributions — no reordering, gap or duplication.
pub proof fn lemma_output_is_ordered_concatenation(s0: PipelineState, events: Seq<PipelineEvent>)
    ensures
        run_output(s0, events) == run_contributions(s0, events).flatten(),
    decreases events.len(),
{
    if events.len() == 0 {
        assert(run_contributions(s0, events).flatten() =~= Seq::<i16>::empty());
    } else {
        let s1 = next_state(s0, events[0]);
        let c = event_contribution(s0, events[0]);
        let rest = run_contributions(s1, events.drop_first());
        lemma_output_is_ordered_concatenation(s1, events.drop_first());
        if frame_accepted(s0, events[0]) {
            assert((seq![c] + rest)[0] == c);
            assert((seq![c] + rest).drop_first() =~= rest);
            assert((seq![c] + rest).flatten() == c + rest.flatten());
        } else {
            assert(c =~= Seq::<i16>::empty());
            assert(run_output(s0, events) =~= rest.flatten());
        }
    }
}

/// How far along the two-phase shutdown a state is.
pub open spec fn state_rank(s: PipelineState) -> int {
    match s {
        PipelineState::Running => 0,
        PipelineState::Draining => 1,
        PipelineState::Done => 2,
    }
}

/// Law (termination, single step): no event moves the machine backward —
/// in particular, once draining it never decodes again, and end of stream
/// followed by flush exhaustion reaches the terminal state.
pub proof fn lemma_shutdown_is_one_way(s: PipelineState, e: PipelineEvent)
    ensures
        state_rank(next_state(s, e)) >= state_rank(s),
        next_state(PipelineState::Draining, e) != PipelineState::Running,
        next_state(PipelineState::Running, PipelineEvent::EndOfStream) == PipelineState::Draining,
        next_state(PipelineState::Draining, PipelineEvent::FlushExhausted) == PipelineState::Done,
{
}

/// Law (drain exhaustion is stable): the terminal state accepts no event,
/// stays terminal under every event, and nothing is ever appended after it —
/// a drain that reported exhaustion yields no further output.
pub proof fn lemma_done_is_terminal(e: PipelineEvent)
    ensures
        next_state(PipelineState::Done, e) == PipelineState::Done,
        !event_accepted(PipelineState::Done, e),
        event_contribution(PipelineState::Done, e) == Seq::<i16>::empty(),
{
}

/// Running a run in two legs reaches the same state as running it whole.
pub proof fn lemma_run_state_concat(
    s0: PipelineState,
    first_leg: Seq<PipelineEvent>,
    second_leg: Seq<PipelineEvent>,
)
    ensures
        run_state(s0, first_leg + second_leg) == run_state(run_state(s0, first_leg), second_leg),
    decreases first_leg.len(),
{
    if first_leg.len() == 0 {
        assert(first_leg + second_leg =~= second_leg);
    } else {
        assert((first_leg + second_leg)[0] == first_leg[0]);
        assert((first_leg + second_leg).drop_first() =~= first_leg.drop_first() + second_leg);
        lemma_run_state_concat(next_state(s0, first_leg[0]), first_leg.drop_first(), second_leg);
    }
}

/// Law (termination over a whole run): the machine never moves backward over
/// any sequence of events.
pub proof fn lemma_run_rank_never_decreases(s0: PipelineState, events: Seq<PipelineEvent>)
    ensures
        state_rank(run_state(s0, events)) >= state_rank(s0),
    decreases events.len(),
{
    if events.len() > 0 {
        lemma_shutdown_is_one_way(s0, events[0]);
        lemma_run_rank_never_decreases(next_state(s0, events[0]), events.drop_first());
    }
}

/// Law (phase ordering): once a flush frame has been accepted, no converted
/// frame is ever accepted again — so in the output every converted frame's
/// samples precede every flush-phase frame's samples.
pub proof fn lemma_no_conversion_after_flush(events: Seq<PipelineEvent>, j: int, i: int)
    requires
        0 <= j < i < events.len(),
        events[j] is FlushFrame,
        event_accepted(run_state(PipelineState::Running, events.take(j)), events[j]),
        events[i] is Converted,
    ensures
        !event_accepted(run_state(PipelineState::Running, events.take(i)), events[i]),
{
    let sj = run_state(PipelineState::Running, events.take(j));
    assert(sj == PipelineState::Draining);
    assert(events.take(j + 1) =~= events.take(j) + seq![events[j]]);
    lemma_run_state_concat(PipelineState::Running, events.take(j), seq![events[j]]);
    assert(seq![events[j]][0] == events[j]);
    assert(seq![events[j]].drop_first() =~= Seq::<PipelineEvent>::empty());
    assert(run_state(next_state(sj, events[j]), Seq::<PipelineEvent>::empty()) == next_state(
        sj,
        events[j],
    ));
    let sj1 = run_state(PipelineState::Running, events.take(j + 1));
    assert(sj1 == next_state(sj, events[j]));
    assert(events.take(i) =~= events.take(j + 1) + events.subrange(j + 1, i));
    lemma_run_state_concat(PipelineState::Running, events.take(j + 1), events.subrange(j + 1, i));
    lemma_run_rank_never_decreases(sj1, events.subrange(j + 1, i));
    assert(state_rank(run_state(PipelineState::Running, events.take(i))) >= 1);
}

/// Drive a fresh driver through a sequence of events, in order: the decode
/// loop with the outside work abstracted into the events it observed.
pub fn replay(events: Vec<PipelineEvent>) -> (d: PipelineDriver)
    requires
        forall|i: int| 0 <= i < events@.len() ==> event_wf(#[trigger] events@[i]),
    ensures
        d.wf(),
        d.state() == run_state(PipelineState::Running, events@),
        d.samples() == run_output(PipelineState::Running, events@),
        d.history() == run_contributions(PipelineState::Running, events@),
{
    let ghost all = events@;
    let mut pending = events;
    let mut d = PipelineDriver::new();
    let ghost mut k: int = 0;
    while pending.len() > 0
        invariant
            0 <= k <= all.len(),
            pending@ == all.subrange(k, all.len() as int),
            forall|i: int| 0 <= i < all.len() ==> event_wf(#[trigger] all[i]),
            d.wf(),
            d.state() == run_state(PipelineState::Running, all.take(k)),
            d.samples() == run_output(PipelineState::Running, all.take(k)),
            d.history() == run_contributions(PipelineState::Running, all.take(k)),
        decreases pending@.len(),
    {
        let e = pending.remove(0);
        assert(e == all[k]);
        let _ = d.step(e);
        proof {
            lemma_run_snoc(PipelineState::Running, all.take(k), all[k]);
            assert(all.take(k + 1) =~= all.take(k).push(all[k]));
            assert(pending@ =~= all.subrange(k + 1, all.len() as int));
            k = k + 1;
        }
    }
    proof {
        assert(all.take(all.len() as int) =~= all);
    }
    d
}

} // verus!
