//! The course of a phase that is done once and marked by a stamp: a quick
//! look, the lock, a second look, the changes, the stamp.
//!
//! The phase itself touches nothing. It is told what happened and says what
//! to do next; whoever drives it does the work. Both phases take the same
//! lock, and each has a stamp of its own.

use vstd::prelude::*;
use crate::error::Context;
use crate::names::RUNTIME_STAMP;
use crate::names::STATIC_STAMP;

verus! {

/// The two phases.
#[derive(Clone, Copy, Debug, PartialEq, Eq, Structural)]
pub enum PhaseKind {
    /// Once for each container; its stamp lasts as long as the container.
    Static,
    /// Once for each start of the container; its stamp is gone after a
    /// restart.
    Runtime,
}

/// How far a phase has come.
#[derive(Clone, Copy, Debug, PartialEq, Eq, Structural)]
pub enum PhaseState {
    /// Nothing was done yet.
    Start,
    /// The stamp is looked for without the lock.
    Peeking,
    /// The lock is waited for.
    Locking,
    /// The lock is held, and the host state is read.
    Decoding,
    /// The lock is held, and the stamp is looked for.
    Checking,
    /// The lock is held, the stamp was absent, and the changes are made.
    Performing,
    /// The lock is held, the changes were made, and the stamp is set.
    Stamping,
    /// The phase is complete, and the lock is free again.
    Done,
    /// The phase was given up, and the lock is free again.
    Failed,
}

/// What the driver tells the phase.
#[derive(Clone, Copy, Debug, PartialEq, Eq, Structural)]
pub enum PhaseEvent {
    /// The phase is to begin.
    Begin,
    /// The lock was taken.
    Locked,
    /// The host state was read.
    Decoded,
    /// The stamp is there.
    StampFound,
    /// The stamp is not there.
    StampMissing,
    /// All changes were made.
    Performed,
    /// The stamp was set.
    Stamped,
    /// What was to be done failed.
    Failure,
}

/// What the phase tells the driver to do next.
#[derive(Clone, Copy, Debug, PartialEq, Eq, Structural)]
pub enum PhaseAction {
    /// Look whether the stamp is there.
    CheckStamp,
    /// Take the lock, waiting as long as it takes.
    AcquireLock,
    /// Read the host state from the environment.
    DecodeState,
    /// Look at the container, plan the changes and make them.
    Perform,
    /// Set the stamp.
    CreateStamp,
    /// Let go of the lock, if it is held: the phase is complete.
    Finish,
    /// Let go of the lock, if it is held: the phase failed.
    Abort,
}

impl PhaseKind {
    /// The file that marks the phase as complete.
    pub open spec fn stamp_path_text(self) -> Seq<char> {
        match self {
            PhaseKind::Static => STATIC_STAMP@,
            PhaseKind::Runtime => RUNTIME_STAMP@,
        }
    }

    /// The file that marks the phase as complete.
    pub fn stamp_path(self) -> (path: &'static str)
        ensures
            path@ == self.stamp_path_text(),
    {
        match self {
            PhaseKind::Static => STATIC_STAMP,
            PhaseKind::Runtime => RUNTIME_STAMP,
        }
    }

    /// The words that go in front of a failure of the phase.
    pub fn context(self) -> (c: Context)
        ensures
            c == match self {
                PhaseKind::Static => Context::StaticPhase,
                PhaseKind::Runtime => Context::RuntimePhase,
            },
    {
        match self {
            PhaseKind::Static => Context::StaticPhase,
            PhaseKind::Runtime => Context::RuntimePhase,
        }
    }
}

impl PhaseState {
    /// Whether the lock is held in this state.
    pub open spec fn holds_lock(self) -> bool {
        self == PhaseState::Decoding || self == PhaseState::Checking || self
            == PhaseState::Performing || self == PhaseState::Stamping
    }

    /// Whether the phase has ended, one way or the other.
    pub open spec fn is_final(self) -> bool {
        self == PhaseState::Done || self == PhaseState::Failed
    }
}

/// The next state and the next thing to do, for a phase of kind `kind` that
/// is in `state` and is told `event`.
///
/// The one-time phase takes the lock, reads the host state and then looks
/// for its stamp. The per-boot phase looks for its stamp first, takes the
/// lock only where the stamp is absent, and looks again once it holds the
/// lock. From there both go the same way: with the stamp found the phase is
/// complete, else the changes are made and then the stamp is set. A failure
/// ends the phase at any point, and so does an event that does not belong
/// where the phase is.
pub open spec fn transition(kind: PhaseKind, state: PhaseState, event: PhaseEvent) -> (
    PhaseState,
    PhaseAction,
) {
    match (state, event) {
        (PhaseState::Start, PhaseEvent::Begin) => match kind {
            PhaseKind::Static => (PhaseState::Locking, PhaseAction::AcquireLock),
            PhaseKind::Runtime => (PhaseState::Peeking, PhaseAction::CheckStamp),
        },
        (PhaseState::Peeking, PhaseEvent::StampFound) => (PhaseState::Done, PhaseAction::Finish),
        (PhaseState::Peeking, PhaseEvent::StampMissing) => (
            PhaseState::Locking,
            PhaseAction::AcquireLock,
        ),
        (PhaseState::Locking, PhaseEvent::Locked) => match kind {
            PhaseKind::Static => (PhaseState::Decoding, PhaseAction::DecodeState),
            PhaseKind::Runtime => (PhaseState::Checking, PhaseAction::CheckStamp),
        },
        (PhaseState::Decoding, PhaseEvent::Decoded) => (
            PhaseState::Checking,
            PhaseAction::CheckStamp,
        ),
        (PhaseState::Checking, PhaseEvent::StampFound) => (PhaseState::Done, PhaseAction::Finish),
        (PhaseState::Checking, PhaseEvent::StampMissing) => (
            PhaseState::Performing,
            PhaseAction::Perform,
        ),
        (PhaseState::Performing, PhaseEvent::Performed) => (
            PhaseState::Stamping,
            PhaseAction::CreateStamp,
        ),
        (PhaseState::Stamping, PhaseEvent::Stamped) => (PhaseState::Done, PhaseAction::Finish),
        (PhaseState::Done, _) => (PhaseState::Done, PhaseAction::Finish),
        _ => (PhaseState::Failed, PhaseAction::Abort),
    }
}

/// A phase under way.
#[derive(Clone, Copy, Debug, PartialEq, Eq, Structural)]
pub struct Phase {
    pub kind: PhaseKind,
    pub state: PhaseState,
}

impl Phase {
    /// A phase of kind `kind` that has not begun.
    pub fn new(kind: PhaseKind) -> (p: Phase)
        ensures
            p.kind == kind,
            p.state == PhaseState::Start,
    {
        Phase { kind, state: PhaseState::Start }
    }

    /// Takes `event` and says what to do next: see `transition`.
    pub fn step(&mut self, event: PhaseEvent) -> (action: PhaseAction)
        ensures
            final(self).kind == old(self).kind,
            (final(self).state, action) == transition(old(self).kind, old(self).state, event),
    {
        let (next, action) = match (self.state, event) {
            (PhaseState::Start, PhaseEvent::Begin) => match self.kind {
                PhaseKind::Static => (PhaseState::Locking, PhaseAction::AcquireLock),
                PhaseKind::Runtime => (PhaseState::Peeking, PhaseAction::CheckStamp),
            },
            (PhaseState::Peeking, PhaseEvent::StampFound) => (
                PhaseState::Done,
                PhaseAction::Finish,
            ),
            (PhaseState::Peeking, PhaseEvent::StampMissing) => (
                PhaseState::Locking,
                PhaseAction::AcquireLock,
            ),
            (PhaseState::Locking, PhaseEvent::Locked) => match self.kind {
                PhaseKind::Static => (PhaseState::Decoding, PhaseAction::DecodeState),
                PhaseKind::Runtime => (PhaseState::Checking, PhaseAction::CheckStamp),
            },
            (PhaseState::Decoding, PhaseEvent::Decoded) => (
                PhaseState::Checking,
                PhaseAction::CheckStamp,
            ),
            (PhaseState::Checking, PhaseEvent::StampFound) => (
                PhaseState::Done,
                PhaseAction::Finish,
            ),
            (PhaseState::Checking, PhaseEvent::StampMissing) => (
                PhaseState::Performing,
                PhaseAction::Perform,
            ),
            (PhaseState::Performing, PhaseEvent::Performed) => (
                PhaseState::Stamping,
                PhaseAction::CreateStamp,
            ),
            (PhaseState::Stamping, PhaseEvent::Stamped) => (
                PhaseState::Done,
                PhaseAction::Finish,
            ),
            (PhaseState::Done, _) => (PhaseState::Done, PhaseAction::Finish),
            _ => (PhaseState::Failed, PhaseAction::Abort),
        };
        self.state = next;
        action
    }

    /// Whether the phase is complete.
    pub fn is_done(&self) -> (b: bool)
        ensures
            b == (self.state == PhaseState::Done),
    {
        match self.state {
            PhaseState::Done => true,
            _ => false,
        }
    }

    /// Whether the lock is held.
    pub fn holds_lock(&self) -> (b: bool)
        ensures
            b == self.state.holds_lock(),
    {
        match self.state {
            PhaseState::Decoding => true,
            PhaseState::Checking => true,
            PhaseState::Performing => true,
            PhaseState::Stamping => true,
            _ => false,
        }
    }
}

/// The changes are made only by a phase that holds the lock and has just
/// found the stamp absent, and the stamp is set only after the changes were
/// made in full. The lock is held exactly from the moment it was taken to
/// the end of the phase.
pub proof fn lemma_transition_guards(kind: PhaseKind, state: PhaseState, event: PhaseEvent)
    ensures
        transition(kind, state, event).1 == PhaseAction::Perform ==> state == PhaseState::Checking
            && event == PhaseEvent::StampMissing,
        transition(kind, state, event).1 == PhaseAction::CreateStamp ==> state
            == PhaseState::Performing && event == PhaseEvent::Performed,
        transition(kind, state, event).0 == PhaseState::Performing <==> transition(
            kind,
            state,
            event,
        ).1 == PhaseAction::Perform,
        transition(kind, state, event).0 == PhaseState::Stamping <==> transition(
            kind,
            state,
            event,
        ).1 == PhaseAction::CreateStamp,
        transition(kind, state, event).0.holds_lock() ==> state.holds_lock() || (state
            == PhaseState::Locking && event == PhaseEvent::Locked),
        state.holds_lock() ==> transition(kind, state, event).0.holds_lock() || transition(
            kind,
            state,
            event,
        ).0.is_final(),
        event == PhaseEvent::Failure && state != PhaseState::Done ==> transition(
            kind,
            state,
            event,
        ) == (PhaseState::Failed, PhaseAction::Abort),
{
}

} // verus!
