//! The cadence at which the process table is refreshed, as a state machine
//! that tells its caller what to do next.
//!
//! The caller samples, renders and waits; the session decides in which
//! order, how often, and when to stop.

use vstd::prelude::*;

verus! {

/// How many samples a session takes.
#[derive(Clone, Copy, Debug, PartialEq, Eq, Structural)]
pub enum IterationLimit {
    /// This many samples, then the session ends.
    Count(u64),
    /// Samples until the session is cancelled.
    Indefinite,
}

/// Where a session stands.
#[derive(Clone, Copy, Debug, PartialEq, Eq, Structural)]
pub enum RefreshState {
    /// Created, nothing done yet.
    Idle,
    /// The caller is taking a sample.
    Sampling,
    /// The caller is rendering the sample.
    Rendering,
    /// The caller is waiting for the interval to pass.
    Waiting,
    /// The session has ended.
    Terminated,
}

/// What the caller of a session is to do next.
#[derive(Clone, Copy, Debug, PartialEq, Eq, Structural)]
pub enum RefreshAction {
    /// Refresh the process table and take a sample of it.
    Sample,
    /// Render the sample just taken.
    Render,
    /// Wait this many milliseconds.
    Wait(u64),
    /// Do nothing more: the session has ended.
    Stop,
}

/// The state of one run of the refresh loop.
#[derive(Clone, Copy, Debug, PartialEq, Eq, Structural)]
pub struct RefreshSession {
    /// Milliseconds to wait after each rendering.
    pub interval_millis: u64,
    /// The samples still to be taken.
    pub remaining: IterationLimit,
    pub state: RefreshState,
}

impl IterationLimit {
    /// Whether no sample is left to take.
    pub open spec fn is_exhausted(self) -> bool {
        self == IterationLimit::Count(0)
    }

    /// The limit after one more sample was taken.
    pub open spec fn after_sample(self) -> IterationLimit {
        match self {
            IterationLimit::Count(left) => if left > 0 {
                IterationLimit::Count((left - 1) as u64)
            } else {
                IterationLimit::Count(0)
            },
            IterationLimit::Indefinite => IterationLimit::Indefinite,
        }
    }
}

impl RefreshSession {
    /// A session that has not started.
    pub open spec fn created(interval_millis: u64, iterations: IterationLimit) -> RefreshSession {
        RefreshSession { interval_millis, remaining: iterations, state: RefreshState::Idle }
    }

    /// The session in state `state` with `remaining` samples left.
    pub open spec fn at(self, state: RefreshState, remaining: IterationLimit) -> RefreshSession {
        RefreshSession { interval_millis: self.interval_millis, remaining, state }
    }

    /// The session after its next step, and what the caller is to do then.
    ///
    /// The first sample is taken at once. After each rendering the caller
    /// waits for the interval. Whether the session goes on is decided when
    /// a wait is over: it ends there if it was cancelled or no sample is
    /// left, and nowhere else is a cancellation looked at.
    pub open spec fn advanced(self, cancelled: bool) -> (RefreshSession, RefreshAction) {
        match self.state {
            RefreshState::Idle => if self.remaining.is_exhausted() {
                (self.at(RefreshState::Terminated, self.remaining), RefreshAction::Stop)
            } else {
                (self.at(RefreshState::Sampling, self.remaining), RefreshAction::Sample)
            },
            RefreshState::Sampling => (
                self.at(RefreshState::Rendering, self.remaining.after_sample()),
                RefreshAction::Render,
            ),
            RefreshState::Rendering => (
                self.at(RefreshState::Waiting, self.remaining),
                RefreshAction::Wait(self.interval_millis),
            ),
            RefreshState::Waiting => if cancelled || self.remaining.is_exhausted() {
                (self.at(RefreshState::Terminated, self.remaining), RefreshAction::Stop)
            } else {
                (self.at(RefreshState::Sampling, self.remaining), RefreshAction::Sample)
            },
            RefreshState::Terminated => (self, RefreshAction::Stop),
        }
    }

    /// The session after `steps` steps during which it is not cancelled.
    pub open spec fn run(self, steps: nat) -> RefreshSession
        decreases steps,
    {
        if steps == 0 {
            self
        } else {
            self.advanced(false).0.run((steps - 1) as nat)
        }
    }

    /// What the caller is told to do in the first `steps` steps of a
    /// session that is not cancelled.
    pub open spec fn actions(self, steps: nat) -> Seq<RefreshAction>
        decreases steps,
    {
        if steps == 0 {
            Seq::empty()
        } else {
            seq![self.advanced(false).1] + self.advanced(false).0.actions((steps - 1) as nat)
        }
    }

    /// A session that has not started: it takes `iterations` samples and
    /// waits `interval_millis` after rendering each.
    pub fn new(interval_millis: u64, iterations: IterationLimit) -> (session: Self)
        ensures
            session == Self::created(interval_millis, iterations),
    {
        RefreshSession { interval_millis, remaining: iterations, state: RefreshState::Idle }
    }

    /// Whether the session has ended.
    pub fn is_terminated(&self) -> (ended: bool)
        ensures
            ended == (self.state == RefreshState::Terminated),
    {
        match self.state {
            RefreshState::Terminated => true,
            _ => false,
        }
    }

    /// Takes the next step and says what the caller is to do. `cancelled`
    /// tells whether the session has been asked to stop; it is heeded when
    /// a wait is over.
    pub fn advance(&mut self, cancelled: bool) -> (action: RefreshAction)
        ensures
            (*final(self), action) == old(self).advanced(cancelled),
    {
        match self.state {
            RefreshState::Idle => {
                if limit_is_exhausted(self.remaining) {
                    self.state = RefreshState::Terminated;
                    RefreshAction::Stop
                } else {
                    self.state = RefreshState::Sampling;
                    RefreshAction::Sample
                }
            },
            RefreshState::Sampling => {
                self.remaining = limit_after_sample(self.remaining);
                self.state = RefreshState::Rendering;
                RefreshAction::Render
            },
            RefreshState::Rendering => {
                self.state = RefreshState::Waiting;
                RefreshAction::Wait(self.interval_millis)
            },
            RefreshState::Waiting => {
                if cancelled || limit_is_exhausted(self.remaining) {
                    self.state = RefreshState::Terminated;
                    RefreshAction::Stop
                } else {
                    self.state = RefreshState::Sampling;
                    RefreshAction::Sample
                }
            },
            RefreshState::Terminated => RefreshAction::Stop,
        }
    }
}

/// Whether no sample is left to take.
fn limit_is_exhausted(limit: IterationLimit) -> (exhausted: bool)
    ensures
        exhausted == limit.is_exhausted(),
{
    match limit {
        IterationLimit::Count(left) => left == 0,
        IterationLimit::Indefinite => false,
    }
}

/// The limit after one more sample was taken.
fn limit_after_sample(limit: IterationLimit) -> (after: IterationLimit)
    ensures
        after == limit.after_sample(),
{
    match limit {
        IterationLimit::Count(left) => if left > 0 {
            IterationLimit::Count(left - 1)
        } else {
            IterationLimit::Count(0)
        },
        IterationLimit::Indefinite => IterationLimit::Indefinite,
    }
}

/// One round of a session: a sample, its rendering, a wait.
pub open spec fn round(interval_millis: u64) -> Seq<RefreshAction> {
    seq![RefreshAction::Sample, RefreshAction::Render, RefreshAction::Wait(interval_millis)]
}

/// `count` rounds, one after the other.
pub open spec fn rounds(count: nat, interval_millis: u64) -> Seq<RefreshAction>
    decreases count,
{
    if count == 0 {
        Seq::empty()
    } else {
        round(interval_millis) + rounds((count - 1) as nat, interval_millis)
    }
}

/// Number of samples that `actions` ask for.
pub open spec fn samples_in(actions: Seq<RefreshAction>) -> nat
    decreases actions.len(),
{
    if actions.len() == 0 {
        0
    } else {
        samples_in(actions.drop_last()) + if actions.last() == RefreshAction::Sample {
            1nat
        } else {
            0nat
        }
    }
}

/// Milliseconds of waiting that `actions` ask for.
pub open spec fn waiting_in(actions: Seq<RefreshAction>) -> nat
    decreases actions.len(),
{
    if actions.len() == 0 {
        0
    } else {
        waiting_in(actions.drop_last()) + match actions.last() {
            RefreshAction::Wait(millis) => millis as nat,
            _ => 0nat,
        }
    }
}

/// Samples and waiting of two runs of actions add up.
proof fn lemma_counts_of_parts(first: Seq<RefreshAction>, second: Seq<RefreshAction>)
    ensures
        samples_in(first + second) == samples_in(first) + samples_in(second),
        waiting_in(first + second) == waiting_in(first) + waiting_in(second),
    decreases second.len(),
{
    if second.len() == 0 {
        assert(first + second =~= first);
    } else {
        lemma_counts_of_parts(first, second.drop_last());
        assert((first + second).drop_last() =~= first + second.drop_last());
    }
}

/// `count` rounds hold `count` samples and `count` waits of the interval.
proof fn lemma_counts_of_rounds(count: nat, interval_millis: u64)
    ensures
        rounds(count, interval_millis).len() == 3 * count,
        samples_in(rounds(count, interval_millis)) == count,
        waiting_in(rounds(count, interval_millis)) == count * interval_millis,
    decreases count,
{
    if count > 0 {
        let one = round(interval_millis);
        let rest = rounds((count - 1) as nat, interval_millis);
        lemma_counts_of_rounds((count - 1) as nat, interval_millis);
        lemma_counts_of_parts(one, rest);
        reveal_with_fuel(samples_in, 4);
        reveal_with_fuel(waiting_in, 4);
        assert(one.drop_last() =~= seq![RefreshAction::Sample, RefreshAction::Render]);
        assert(one.drop_last().drop_last() =~= seq![RefreshAction::Sample]);
        assert(one.drop_last().drop_last().drop_last() =~= Seq::<RefreshAction>::empty());
        assert(samples_in(one) == 1);
        assert(waiting_in(one) == interval_millis);
        assert((count - 1) * interval_millis + interval_millis == count * interval_millis)
            by (nonlinear_arith);
    }
}

/// From the end of a wait with `left` samples to go, a session that is not
/// cancelled runs `left` more rounds and then stops.
proof fn lemma_rounds_from_waiting(session: RefreshSession, left: u64)
    requires
        session.state == RefreshState::Waiting,
        session.remaining == IterationLimit::Count(left),
    ensures
        session.actions(3 * left as nat + 1) == rounds(left as nat, session.interval_millis) + seq![
            RefreshAction::Stop,
        ],
        session.run(3 * left as nat + 1).state == RefreshState::Terminated,
    decreases left,
{
    reveal_with_fuel(RefreshSession::actions, 4);
    reveal_with_fuel(RefreshSession::run, 4);
    if left == 0 {
        assert(session.actions(1) =~= rounds(0, session.interval_millis) + seq![
            RefreshAction::Stop,
        ]);
    } else {
        let next = session.at(RefreshState::Waiting, IterationLimit::Count((left - 1) as u64));
        let fewer: nat = 3 * (left - 1) as nat + 1;
        lemma_rounds_from_waiting(next, (left - 1) as u64);
        assert(session.run(3) == next);
        assert(session.run(3 + fewer) == next.run(fewer));
        assert(session.actions(3 + fewer) =~= round(session.interval_millis) + next.actions(
            fewer,
        ));
        assert(session.actions(3 + fewer) =~= rounds(left as nat, session.interval_millis)
            + seq![RefreshAction::Stop]);
    }
}

/// A session of `iterations` samples that is not cancelled asks for exactly
/// `iterations` rounds of sample, rendering and wait, in this order, and
/// then stops for good. So it takes exactly `iterations` samples, starts
/// with a sample and not with a wait, and waits for the interval after each
/// sample, which is at least once between any two samples.
pub proof fn lemma_counted_session(interval_millis: u64, iterations: u64)
    ensures
        ({
            let session = RefreshSession::created(
                interval_millis,
                IterationLimit::Count(iterations),
            );
            let steps = 3 * iterations as nat + 1;
            &&& session.actions(steps) == rounds(iterations as nat, interval_millis) + seq![
                RefreshAction::Stop,
            ]
            &&& session.run(steps).state == RefreshState::Terminated
            &&& samples_in(session.actions(steps)) == iterations
            &&& waiting_in(session.actions(steps)) == iterations * interval_millis
            &&& iterations > 0 ==> waiting_in(session.actions(steps)) >= (iterations - 1)
                * interval_millis
            &&& iterations > 0 ==> session.actions(steps)[0] == RefreshAction::Sample
        }),
{
    let session = RefreshSession::created(interval_millis, IterationLimit::Count(iterations));
    let steps = 3 * iterations as nat + 1;
    let expected = rounds(iterations as nat, interval_millis) + seq![RefreshAction::Stop];
    reveal_with_fuel(RefreshSession::actions, 4);
    reveal_with_fuel(RefreshSession::run, 4);
    if iterations == 0 {
        assert(session.actions(1) =~= expected);
    } else {
        let next = session.at(
            RefreshState::Waiting,
            IterationLimit::Count((iterations - 1) as u64),
        );
        let fewer: nat = 3 * (iterations - 1) as nat + 1;
        lemma_rounds_from_waiting(next, (iterations - 1) as u64);
        assert(session.run(3) == next);
        assert(session.run(3 + fewer) == next.run(fewer));
        assert(session.actions(3 + fewer) =~= round(interval_millis) + next.actions(fewer));
        assert(session.actions(steps) =~= expected);
        assert(expected[0] == round(interval_millis)[0]);
    }
    lemma_counts_of_rounds(iterations as nat, interval_millis);
    lemma_counts_of_parts(rounds(iterations as nat, interval_millis), seq![RefreshAction::Stop]);
    reveal_with_fuel(samples_in, 2);
    reveal_with_fuel(waiting_in, 2);
    assert(seq![RefreshAction::Stop].drop_last() =~= Seq::<RefreshAction>::empty());
    assert((iterations - 1) * interval_millis <= iterations * interval_millis)
        by (nonlinear_arith);
}

/// A session that is cancelled ends when its current wait is over, and a
/// session that has ended stays so and asks for nothing more.
pub proof fn lemma_cancellation_and_end(session: RefreshSession, cancelled: bool)
    ensures
        session.state == RefreshState::Waiting && cancelled ==> session.advanced(cancelled).0.state
            == RefreshState::Terminated,
        session.state == RefreshState::Terminated ==> session.advanced(cancelled) == (
            session,
            RefreshAction::Stop,
        ),
        session.advanced(cancelled).1 == RefreshAction::Stop <==> session.advanced(
            cancelled,
        ).0.state == RefreshState::Terminated,
{
}

/// A session without a limit never ends unless it is cancelled.
pub proof fn lemma_indefinite_session_goes_on(session: RefreshSession, steps: nat)
    requires
        session.remaining == IterationLimit::Indefinite,
        session.state != RefreshState::Terminated,
    ensures
        session.run(steps).state != RefreshState::Terminated,
        session.run(steps).remaining == IterationLimit::Indefinite,
    decreases steps,
{
    if steps > 0 {
        lemma_indefinite_session_goes_on(session.advanced(false).0, (steps - 1) as nat);
    }
}

} // verus!
