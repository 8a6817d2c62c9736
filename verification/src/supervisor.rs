//! The first process of the container: it buries the children that nobody
//! waits for, and leaves when it is asked to.

use vstd::prelude::*;

verus! {

/// The two signals that the supervisor listens to.
#[derive(Clone, Copy, Debug, PartialEq, Eq, Structural)]
pub enum Signal {
    /// A child has ended.
    ChildTerminated,
    /// The container is asked to stop.
    TerminateRequest,
}

/// What one look for an ended child gave, without waiting.
#[derive(Clone, Copy, Debug, PartialEq, Eq, Structural)]
pub enum WaitOutcome {
    /// A child that had ended was collected.
    Reaped,
    /// There are children, and none of them has ended.
    StillAlive,
    /// The look failed; most often there is no child at all.
    Failed,
}

/// Whether the supervisor goes on.
#[derive(Clone, Copy, Debug, PartialEq, Eq, Structural)]
pub enum SupervisorState {
    Running,
    Terminated,
}

/// What the supervisor does about a signal.
#[derive(Clone, Copy, Debug, PartialEq, Eq, Structural)]
pub enum SupervisorAction {
    /// Collect ended children until none is left to collect.
    Drain,
    /// Leave at once, with this exit status.
    Exit { status: i32 },
    /// Nothing: the supervisor has left already.
    Ignore,
}

/// Whether the collecting of ended children goes on.
#[derive(Clone, Copy, Debug, PartialEq, Eq, Structural)]
pub enum DrainStep {
    /// Look for another ended child.
    Again,
    /// None is left: go back to sleep.
    Stop,
}

/// The supervisor. It owns nothing but its own state.
#[derive(Clone, Copy, Debug, PartialEq, Eq, Structural)]
pub struct Supervisor {
    pub state: SupervisorState,
}

/// Where a signal takes the supervisor, and what it does about it. While it
/// runs, an ended child makes it collect and go on running, and a request to
/// stop makes it leave with success. Once it has left, nothing happens.
pub open spec fn react(state: SupervisorState, signal: Signal) -> (SupervisorState, SupervisorAction) {
    match state {
        SupervisorState::Terminated => (SupervisorState::Terminated, SupervisorAction::Ignore),
        SupervisorState::Running => match signal {
            Signal::ChildTerminated => (SupervisorState::Running, SupervisorAction::Drain),
            Signal::TerminateRequest => (
                SupervisorState::Terminated,
                SupervisorAction::Exit { status: 0 },
            ),
        },
    }
}

/// Whether to look again after a look that gave `outcome`: only a collected
/// child tells that there may be more.
pub open spec fn drain_step(outcome: WaitOutcome) -> DrainStep {
    match outcome {
        WaitOutcome::Reaped => DrainStep::Again,
        WaitOutcome::StillAlive => DrainStep::Stop,
        WaitOutcome::Failed => DrainStep::Stop,
    }
}

/// How many looks a drain takes when the looks give `outcomes` one after
/// the other: it goes on while they collect a child and ends with the first
/// that does not, or when the list is used up.
pub open spec fn looks_taken(outcomes: Seq<WaitOutcome>) -> nat
    decreases outcomes.len(),
{
    if outcomes.len() == 0 {
        0
    } else if drain_step(outcomes[0]) == DrainStep::Stop {
        1
    } else {
        1 + looks_taken(outcomes.drop_first())
    }
}

impl Supervisor {
    /// A supervisor that runs.
    pub fn new() -> (s: Supervisor)
        ensures
            s.state == SupervisorState::Running,
    {
        Supervisor { state: SupervisorState::Running }
    }

    /// The signals that the supervisor must be told of, before any child is
    /// started.
    pub fn signals() -> (list: Vec<Signal>)
        ensures
            list@ == seq![Signal::ChildTerminated, Signal::TerminateRequest],
    {
        let mut list: Vec<Signal> = Vec::new();
        list.push(Signal::ChildTerminated);
        list.push(Signal::TerminateRequest);
        assert(list@ =~= seq![Signal::ChildTerminated, Signal::TerminateRequest]);
        list
    }

    /// Takes a signal: see `react`.
    pub fn on_signal(&mut self, signal: Signal) -> (action: SupervisorAction)
        ensures
            (final(self).state, action) == react(old(self).state, signal),
    {
        match self.state {
            SupervisorState::Terminated => SupervisorAction::Ignore,
            SupervisorState::Running => match signal {
                Signal::ChildTerminated => SupervisorAction::Drain,
                Signal::TerminateRequest => {
                    self.state = SupervisorState::Terminated;
                    SupervisorAction::Exit { status: 0 }
                },
            },
        }
    }

    /// Whether to look again after a look that gave `outcome`: see
    /// `drain_step`.
    pub fn after_wait(&self, outcome: WaitOutcome) -> (step: DrainStep)
        ensures
            step == drain_step(outcome),
    {
        match outcome {
            WaitOutcome::Reaped => DrainStep::Again,
            WaitOutcome::StillAlive => DrainStep::Stop,
            WaitOutcome::Failed => DrainStep::Stop,
        }
    }
}

/// A drain collects every child that has ended and stops then: all looks but
/// the last one collect a child, and where it stops before the list of
/// outcomes is used up, the last look found nothing to collect.
pub proof fn lemma_drain_collects_all(outcomes: Seq<WaitOutcome>)
    ensures
        looks_taken(outcomes) <= outcomes.len(),
        forall|i: int|
            0 <= i < looks_taken(outcomes) - 1 ==> #[trigger] outcomes[i] == WaitOutcome::Reaped,
        looks_taken(outcomes) > 0 && outcomes[looks_taken(outcomes) - 1] != WaitOutcome::Reaped
            || looks_taken(outcomes) == outcomes.len(),
    decreases outcomes.len(),
{
    if outcomes.len() > 0 && drain_step(outcomes[0]) == DrainStep::Again {
        let rest = outcomes.drop_first();
        lemma_drain_collects_all(rest);
        assert forall|i: int| 0 <= i < looks_taken(outcomes) - 1 implies #[trigger] outcomes[i]
            == WaitOutcome::Reaped by {
            if i > 0 {
                assert(outcomes[i] == rest[i - 1]);
            }
        }
        if looks_taken(rest) > 0 {
            assert(outcomes[looks_taken(outcomes) - 1] == rest[looks_taken(rest) - 1]);
        }
    }
}

/// While the supervisor runs, a request to stop makes it leave at once with
/// success, and an ended child never makes it leave.
pub proof fn lemma_supervisor_reactions(signal: Signal)
    ensures
        react(SupervisorState::Running, Signal::TerminateRequest) == (
            SupervisorState::Terminated,
            SupervisorAction::Exit { status: 0 },
        ),
        react(SupervisorState::Running, Signal::ChildTerminated) == (
            SupervisorState::Running,
            SupervisorAction::Drain,
        ),
        react(SupervisorState::Terminated, signal).0 == SupervisorState::Terminated,
{
}

} // verus!
