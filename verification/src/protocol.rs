//! Many sessions at once in one container: a model of what they share, and
//! the proof that the lock and the stamps make each phase happen once.
//!
//! Every session runs the one-time phase and then the per-boot phase, each
//! as `transition` says. What a session is told is true of the container at
//! that moment, the lock is given to one session at a time, and the changes
//! that a session makes are a plan for the host state that it carries.
//! Nothing else is assumed of the order in which sessions move.

use vstd::prelude::*;
use crate::host::HostStateView;
use crate::ops::OperationView;
use crate::phase::transition;
use crate::phase::Phase;
use crate::phase::PhaseAction;
use crate::phase::PhaseEvent;
use crate::phase::PhaseKind;
use crate::phase::PhaseState;
use crate::runtime_init::runtime_plan;
use crate::runtime_init::RuntimeProbeView;
use crate::static_init::static_plan;
use crate::static_init::sudo_rule;
use crate::static_init::sudo_rule_path;
use crate::static_init::StaticProbeView;
use crate::static_laws::lemma_no_symlink_twice;
use crate::static_laws::lemma_one_user_one_rule;
use crate::static_laws::links;

verus! {

/// A container and the sessions in it.
pub struct World {
    /// Whether the durable stamp was there when the container started.
    pub stamped_at_start: bool,
    /// Whether the durable stamp is there.
    pub static_stamp: bool,
    /// Whether the ephemeral stamp is there.
    pub runtime_stamp: bool,
    /// The session that holds the lock, if any does.
    pub lock: Option<int>,
    /// How often the changes of the one-time phase were made in full.
    pub static_runs: nat,
    /// How often the changes of the per-boot phase were made in full.
    pub runtime_runs: nat,
    /// All changes of the one-time phase that were made as part of a plan
    /// made in full, in the order in which they were made.
    pub static_changes: Seq<OperationView>,
    /// The same for the per-boot phase.
    pub runtime_changes: Seq<OperationView>,
    /// How many steps have failed.
    pub failures: nat,
    /// Where each session is.
    pub sessions: Seq<Phase>,
    /// The host state that each session carries.
    pub users: Seq<HostStateView>,
    /// Whether the container has the directory of sudo rules.
    pub sudoers_dir: bool,
}

/// Whether `plan` is a plan of the phase `kind` for the user `user`, in a
/// container that has the directory of sudo rules or not as `sudoers_dir`
/// says, whatever else was found in the container.
pub open spec fn is_plan_for(
    kind: PhaseKind,
    user: HostStateView,
    sudoers_dir: bool,
    plan: Seq<OperationView>,
) -> bool {
    match kind {
        PhaseKind::Static => exists|probe: StaticProbeView|
            probe.sudoers_dir == sudoers_dir && plan == #[trigger] static_plan(user, probe),
        PhaseKind::Runtime => exists|probe: RuntimeProbeView| plan == #[trigger] runtime_plan(probe),
    }
}

impl World {
    /// Whether the stamp of the phase `kind` is there.
    pub open spec fn stamp(self, kind: PhaseKind) -> bool {
        match kind {
            PhaseKind::Static => self.static_stamp,
            PhaseKind::Runtime => self.runtime_stamp,
        }
    }

    /// How often the changes of the phase `kind` were made in full.
    pub open spec fn runs(self, kind: PhaseKind) -> nat {
        match kind {
            PhaseKind::Static => self.static_runs,
            PhaseKind::Runtime => self.runtime_runs,
        }
    }

    /// The changes of the phase `kind` that were made.
    pub open spec fn changes(self, kind: PhaseKind) -> Seq<OperationView> {
        match kind {
            PhaseKind::Static => self.static_changes,
            PhaseKind::Runtime => self.runtime_changes,
        }
    }

    /// Whether `plan` is a plan of the phase `kind` that session `i` can make:
    /// a plan for the host state that the session carries.
    pub open spec fn is_plan_of(self, i: int, kind: PhaseKind, plan: Seq<OperationView>) -> bool {
        self.has(i) && is_plan_for(kind, self.users[i], self.sudoers_dir, plan)
    }

    /// Whether `i` is one of the sessions.
    pub open spec fn has(self, i: int) -> bool {
        0 <= i < self.sessions.len()
    }

    /// Whether the changes of the phase `kind` were made and its stamp is
    /// being set.
    pub open spec fn pending(self, kind: PhaseKind) -> bool {
        self.lock matches Some(j) && self.has(j) && self.sessions[j].kind == kind
            && self.sessions[j].state == PhaseState::Stamping
    }

    /// A container that has just started, with `n` sessions that have not
    /// begun. The ephemeral stamp is gone, the lock is free; the durable
    /// stamp is there where an earlier start of the container set it.
    pub open spec fn initial(self, n: nat) -> bool {
        &&& self.static_stamp == self.stamped_at_start
        &&& !self.runtime_stamp
        &&& self.lock is None
        &&& self.static_runs == 0
        &&& self.runtime_runs == 0
        &&& self.static_changes == Seq::<OperationView>::empty()
        &&& self.runtime_changes == Seq::<OperationView>::empty()
        &&& self.failures == 0
        &&& self.users.len() == n
        &&& self.sessions.len() == n
        &&& forall|i: int|
            0 <= i < n ==> #[trigger] self.sessions[i] == (Phase {
                kind: PhaseKind::Static,
                state: PhaseState::Start,
            })
    }

    /// Whether session `i` can be told `event` now: the event belongs where
    /// the session is, what it says of the stamp is true, and the lock is
    /// given only when it is free.
    pub open spec fn admits(self, i: int, event: PhaseEvent) -> bool {
        &&& self.has(i)
        &&& match event {
            PhaseEvent::Begin => self.sessions[i].state == PhaseState::Start,
            PhaseEvent::Locked => self.sessions[i].state == PhaseState::Locking && self.lock is None,
            PhaseEvent::Decoded => self.sessions[i].state == PhaseState::Decoding,
            PhaseEvent::StampFound => (self.sessions[i].state == PhaseState::Peeking
                || self.sessions[i].state == PhaseState::Checking) && self.stamp(
                self.sessions[i].kind,
            ),
            PhaseEvent::StampMissing => (self.sessions[i].state == PhaseState::Peeking
                || self.sessions[i].state == PhaseState::Checking) && !self.stamp(
                self.sessions[i].kind,
            ),
            PhaseEvent::Performed => self.sessions[i].state == PhaseState::Performing,
            PhaseEvent::Stamped => self.sessions[i].state == PhaseState::Stamping,
            PhaseEvent::Failure => self.sessions[i].state != PhaseState::Start
                && !self.sessions[i].state.is_final(),
        }
    }

    /// The world after session `i` was told `event`. The session moves as
    /// `transition` says. Taking the lock makes the session its holder, and
    /// the end of a phase sets the lock free. Changes made in full are
    /// counted, the stamp is there once it was set, and a failure is counted.
    /// Which changes were made is recorded by `performed`.
    pub open spec fn after(self, i: int, event: PhaseEvent) -> World {
        let kind = self.sessions[i].kind;
        let next = transition(kind, self.sessions[i].state, event).0;
        World {
            stamped_at_start: self.stamped_at_start,
            static_stamp: self.static_stamp || (event == PhaseEvent::Stamped && kind
                == PhaseKind::Static),
            runtime_stamp: self.runtime_stamp || (event == PhaseEvent::Stamped && kind
                == PhaseKind::Runtime),
            lock: if event == PhaseEvent::Locked {
                Some(i)
            } else if next.is_final() && self.lock == Some(i) {
                None
            } else {
                self.lock
            },
            static_runs: if event == PhaseEvent::Performed && kind == PhaseKind::Static {
                self.static_runs + 1
            } else {
                self.static_runs
            },
            runtime_runs: if event == PhaseEvent::Performed && kind == PhaseKind::Runtime {
                self.runtime_runs + 1
            } else {
                self.runtime_runs
            },
            static_changes: self.static_changes,
            runtime_changes: self.runtime_changes,
            failures: if event == PhaseEvent::Failure {
                self.failures + 1
            } else {
                self.failures
            },
            sessions: self.sessions.update(i, Phase { kind, state: next }),
            users: self.users,
            sudoers_dir: self.sudoers_dir,
        }
    }

    /// The world after session `i` has made the changes of `plan` in full:
    /// they are recorded behind what was recorded before.
    pub open spec fn performed(self, i: int, plan: Seq<OperationView>) -> World {
        let next = self.after(i, PhaseEvent::Performed);
        match self.sessions[i].kind {
            PhaseKind::Static => World { static_changes: self.static_changes + plan, ..next },
            PhaseKind::Runtime => World { runtime_changes: self.runtime_changes + plan, ..next },
        }
    }

    /// Whether session `i` can go on to the per-boot phase: its one-time
    /// phase is complete.
    pub open spec fn can_advance(self, i: int) -> bool {
        self.has(i) && self.sessions[i] == (Phase {
            kind: PhaseKind::Static,
            state: PhaseState::Done,
        })
    }

    /// The world after session `i` went on to the per-boot phase.
    pub open spec fn advanced(self, i: int) -> World {
        World {
            sessions: self.sessions.update(
                i,
                Phase { kind: PhaseKind::Runtime, state: PhaseState::Start },
            ),
            ..self
        }
    }

    /// Whether `next` comes from this world by one move of one session: the
    /// session is told something, or it has made the changes of a plan of
    /// its phase for the host state that it carries, or it goes on to the
    /// per-boot phase.
    pub open spec fn moves_to(self, next: World) -> bool {
        ||| exists|i: int, event: PhaseEvent| #[trigger]
            self.admits(i, event) && event != PhaseEvent::Performed && next == self.after(
                i,
                event,
            )
        ||| exists|i: int, plan: Seq<OperationView>|
            self.admits(i, PhaseEvent::Performed) && self.is_plan_of(
                i,
                self.sessions[i].kind,
                plan,
            ) && next == #[trigger] self.performed(i, plan)
        ||| exists|i: int| #[trigger] self.can_advance(i) && next == self.advanced(i)
    }

    /// What holds of every world that can be reached.
    pub open spec fn orderly(self) -> bool {
        &&& self.steady()
        &&& self.recorded(PhaseKind::Static)
        &&& self.recorded(PhaseKind::Runtime)
    }

    /// How the record of the changes goes with their count: nothing is
    /// recorded before the changes were made in full, and after the first
    /// time the record is one plan of the phase, made by one of the sessions
    /// for the host state that it carries.
    pub open spec fn recorded(self, kind: PhaseKind) -> bool {
        &&& self.users.len() == self.sessions.len()
        &&& (self.runs(kind) == 0 ==> self.changes(kind) == Seq::<OperationView>::empty())
        &&& (self.runs(kind) == 1 ==> exists|j: int| #[trigger]
            self.is_plan_of(j, kind, self.changes(kind)))
    }

    /// How lock, stamps, counts and sessions go together in every world
    /// that can be reached.
    pub open spec fn steady(self) -> bool {
        &&& forall|i: int|
            self.has(i) ==> (#[trigger] self.sessions[i].state.holds_lock() <==> self.lock == Some(
                i,
            ))
        &&& (self.lock matches Some(j) ==> self.has(j))
        &&& forall|i: int|
            self.has(i) && (#[trigger] self.sessions[i]).kind == PhaseKind::Runtime
                ==> self.static_stamp
        &&& forall|i: int|
            self.has(i) && (#[trigger] self.sessions[i]).state == PhaseState::Done ==> self.stamp(
                self.sessions[i].kind,
            )
        &&& forall|i: int|
            self.has(i) && ((#[trigger] self.sessions[i]).state == PhaseState::Performing
                || self.sessions[i].state == PhaseState::Stamping) ==> !self.stamp(
                self.sessions[i].kind,
            )
        &&& (self.runtime_stamp ==> self.static_stamp)
        &&& (self.stamped_at_start ==> self.static_stamp && self.static_runs == 0)
        &&& self.counted(PhaseKind::Static)
        &&& self.counted(PhaseKind::Runtime)
    }

    /// How the count of the phase `kind` goes with its stamp: without
    /// failures the changes are made in full at most once, they were made
    /// where the stamp was set, and each failure allows for one more time.
    pub open spec fn counted(self, kind: PhaseKind) -> bool {
        &&& (self.stamp(kind) || self.pending(kind) ==> self.runs(kind) <= self.failures + 1)
        &&& (!self.stamp(kind) && !self.pending(kind) ==> self.runs(kind) <= self.failures)
        &&& (self.pending(kind) ==> self.runs(kind) >= 1)
        &&& (self.stamp(kind) && !(kind == PhaseKind::Static && self.stamped_at_start)
            ==> self.runs(kind) >= 1)
    }
}

/// A container that has just started is orderly.
pub proof fn lemma_initial_orderly(w: World, n: nat)
    requires
        w.initial(n),
    ensures
        w.orderly(),
{
}

proof fn lemma_record_stays(w: World, n: World, kind: PhaseKind)
    requires
        w.recorded(kind),
        n.users == w.users,
        n.sudoers_dir == w.sudoers_dir,
        n.sessions.len() == w.sessions.len(),
        n.changes(kind) == w.changes(kind),
        n.runs(kind) == w.runs(kind),
    ensures
        n.recorded(kind),
{
    if w.runs(kind) == 1 {
        let j = choose|j: int| #[trigger] w.is_plan_of(j, kind, w.changes(kind));
        assert(n.is_plan_of(j, kind, n.changes(kind)));
    }
}

/// A move of a session that is told something keeps the world orderly.
pub proof fn lemma_after_orderly(w: World, i: int, event: PhaseEvent)
    requires
        w.orderly(),
        w.admits(i, event),
        event != PhaseEvent::Performed,
    ensures
        w.after(i, event).orderly(),
{
    lemma_after_steady(w, i, event);
    lemma_record_stays(w, w.after(i, event), PhaseKind::Static);
    lemma_record_stays(w, w.after(i, event), PhaseKind::Runtime);
}

/// A session that has made the changes of a plan of its phase keeps the
/// world orderly.
pub proof fn lemma_performed_orderly(w: World, i: int, plan: Seq<OperationView>)
    requires
        w.orderly(),
        w.admits(i, PhaseEvent::Performed),
        w.is_plan_of(i, w.sessions[i].kind, plan),
    ensures
        w.performed(i, plan).orderly(),
{
    let kind = w.sessions[i].kind;
    let a = w.after(i, PhaseEvent::Performed);
    let n = w.performed(i, plan);
    lemma_after_steady(w, i, PhaseEvent::Performed);
    assert(n.sessions == a.sessions && n.lock == a.lock && n.failures == a.failures);
    assert(n.steady()) by {
        assert(a.counted(PhaseKind::Static));
        assert(a.counted(PhaseKind::Runtime));
        assert(n.counted(PhaseKind::Static));
        assert(n.counted(PhaseKind::Runtime));
    }
    assert(w.recorded(PhaseKind::Static));
    assert(w.recorded(PhaseKind::Runtime));
    if w.runs(kind) == 0 {
        assert(w.changes(kind) + plan =~= plan);
        assert(n.is_plan_of(i, kind, n.changes(kind)));
    }
    let other = match kind {
        PhaseKind::Static => PhaseKind::Runtime,
        PhaseKind::Runtime => PhaseKind::Static,
    };
    lemma_record_stays(w, n, other);
}

proof fn lemma_after_steady(w: World, i: int, event: PhaseEvent)
    requires
        w.steady(),
        w.admits(i, event),
    ensures
        w.after(i, event).steady(),
{
    let n = w.after(i, event);
    assert(n.sessions.len() == w.sessions.len());
    assert forall|j: int| n.has(j) && j != i implies #[trigger] n.sessions[j] == w.sessions[j] by {}
    assert(w.sessions[i].state.holds_lock() <==> w.lock == Some(i));
    assert forall|j: int| n.has(j) implies (#[trigger] n.sessions[j].state.holds_lock() <==> n.lock
        == Some(j)) by {
        if j != i {
            assert(w.sessions[j].state.holds_lock() <==> w.lock == Some(j));
        }
    }
    assert forall|j: int|
        n.has(j) && ((#[trigger] n.sessions[j]).state == PhaseState::Performing
            || n.sessions[j].state == PhaseState::Stamping) implies !n.stamp(
        n.sessions[j].kind,
    ) by {
        if j != i {
            assert(w.sessions[j].state.holds_lock());
            assert(w.lock == Some(j));
        }
    }
    assert forall|j: int|
        n.has(j) && (#[trigger] n.sessions[j]).state == PhaseState::Done implies n.stamp(
        n.sessions[j].kind,
    ) by {
        if j != i {
            assert(w.sessions[j].state == PhaseState::Done);
        }
    }
    assert forall|j: int|
        n.has(j) && (#[trigger] n.sessions[j]).kind == PhaseKind::Runtime implies n.static_stamp by {
        assert(w.sessions[j].kind == PhaseKind::Runtime);
    }
    lemma_after_counted(w, i, event, PhaseKind::Static);
    lemma_after_counted(w, i, event, PhaseKind::Runtime);
}

proof fn lemma_after_counted(w: World, i: int, event: PhaseEvent, kind: PhaseKind)
    requires
        w.steady(),
        w.admits(i, event),
    ensures
        w.after(i, event).counted(kind),
{
    let n = w.after(i, event);
    assert(w.counted(kind));
    assert(w.sessions[i].state.holds_lock() <==> w.lock == Some(i));
    if let Some(j) = w.lock {
        assert(w.sessions[j].state.holds_lock());
        if j != i {
            assert(n.sessions[j] == w.sessions[j]);
        }
    }
    if let Some(j) = n.lock {
        if j != i {
            assert(n.sessions[j] == w.sessions[j]);
        }
    }
}

/// A session that goes on to the per-boot phase keeps the world orderly.
pub proof fn lemma_advanced_orderly(w: World, i: int)
    requires
        w.orderly(),
        w.can_advance(i),
    ensures
        w.advanced(i).orderly(),
{
    let n = w.advanced(i);
    assert(n.sessions.len() == w.sessions.len());
    assert(!w.sessions[i].state.holds_lock());
    assert(w.lock != Some(i));
    assert forall|j: int| n.has(j) implies (#[trigger] n.sessions[j].state.holds_lock() <==> n.lock
        == Some(j)) by {
        if j != i {
            assert(n.sessions[j] == w.sessions[j]);
            assert(w.sessions[j].state.holds_lock() <==> w.lock == Some(j));
        }
    }
    assert forall|j: int|
        n.has(j) && (#[trigger] n.sessions[j]).kind == PhaseKind::Runtime implies n.static_stamp by {
        if j != i {
            assert(w.sessions[j].kind == PhaseKind::Runtime);
        } else {
            assert(w.sessions[i].state == PhaseState::Done);
        }
    }
    assert forall|j: int|
        n.has(j) && (#[trigger] n.sessions[j]).state == PhaseState::Done implies n.stamp(
        n.sessions[j].kind,
    ) by {
        assert(w.sessions[j].state == PhaseState::Done);
    }
    assert forall|j: int|
        n.has(j) && ((#[trigger] n.sessions[j]).state == PhaseState::Performing
            || n.sessions[j].state == PhaseState::Stamping) implies !n.stamp(
        n.sessions[j].kind,
    ) by {
        assert(w.sessions[j] == n.sessions[j]);
    }
    if let Some(j) = w.lock {
        assert(n.sessions[j] == w.sessions[j]);
    }
    assert(w.counted(PhaseKind::Static));
    assert(w.counted(PhaseKind::Runtime));
    lemma_record_stays(w, n, PhaseKind::Static);
    lemma_record_stays(w, n, PhaseKind::Runtime);
}

/// Every move keeps the world orderly, and changes neither the sessions'
/// number, nor what they carry, nor what is remembered of the start.
pub proof fn lemma_move_orderly(w: World, next: World)
    requires
        w.orderly(),
        w.moves_to(next),
    ensures
        next.orderly(),
        next.sessions.len() == w.sessions.len(),
        next.users == w.users,
        next.sudoers_dir == w.sudoers_dir,
        next.stamped_at_start == w.stamped_at_start,
{
    if exists|i: int, event: PhaseEvent| #[trigger]
        w.admits(i, event) && event != PhaseEvent::Performed && next == w.after(i, event) {
        let (i, event) = choose|i: int, event: PhaseEvent| #[trigger]
            w.admits(i, event) && event != PhaseEvent::Performed && next == w.after(i, event);
        lemma_after_orderly(w, i, event);
    } else if exists|i: int, plan: Seq<OperationView>|
        w.admits(i, PhaseEvent::Performed) && w.is_plan_of(i, w.sessions[i].kind, plan) && next
            == #[trigger] w.performed(i, plan) {
        let (i, plan) = choose|i: int, plan: Seq<OperationView>|
            w.admits(i, PhaseEvent::Performed) && w.is_plan_of(i, w.sessions[i].kind, plan)
                && next == #[trigger] w.performed(i, plan);
        lemma_performed_orderly(w, i, plan);
    } else {
        let i = choose|i: int| #[trigger] w.can_advance(i) && next == w.advanced(i);
        lemma_advanced_orderly(w, i);
    }
}

/// A run of a container: its worlds in order, from the start on, each made
/// from the one before by one move of one session.
pub open spec fn is_run(worlds: Seq<World>, n: nat) -> bool {
    &&& worlds.len() > 0
    &&& worlds[0].initial(n)
    &&& forall|k: int| 0 <= k < worlds.len() - 1 ==> #[trigger] worlds[k].moves_to(worlds[k + 1])
}

/// Every world of a run is orderly.
pub proof fn lemma_run_orderly(worlds: Seq<World>, n: nat, k: int)
    requires
        is_run(worlds, n),
        0 <= k < worlds.len(),
    ensures
        worlds[k].orderly(),
        worlds[k].sessions.len() == n,
        worlds[k].users == worlds[0].users,
        worlds[k].sudoers_dir == worlds[0].sudoers_dir,
        worlds[k].stamped_at_start == worlds[0].stamped_at_start,
    decreases k,
{
    if k == 0 {
        lemma_initial_orderly(worlds[0], n);
    } else {
        lemma_run_orderly(worlds, n, k - 1);
        let w = worlds[k - 1];
        let next = worlds[k];
        assert(worlds[k - 1].moves_to(worlds[(k - 1) + 1]));
        lemma_move_orderly(w, next);
    }
}

impl World {
    /// Whether session `i` has completed the phase `kind`.
    pub open spec fn completed(self, i: int, kind: PhaseKind) -> bool {
        self.has(i) && match kind {
            PhaseKind::Static => self.sessions[i].kind == PhaseKind::Runtime || self.sessions[i]
                == (Phase { kind: PhaseKind::Static, state: PhaseState::Done }),
            PhaseKind::Runtime => self.sessions[i] == (Phase {
                kind: PhaseKind::Runtime,
                state: PhaseState::Done,
            }),
        }
    }
}

/// Mutual exclusion: two sessions never hold the lock at once, and so never
/// make changes or set a stamp at once.
pub proof fn lemma_one_holder(w: World, i: int, j: int)
    requires
        w.orderly(),
        w.has(i),
        w.has(j),
        w.sessions[i].state.holds_lock(),
        w.sessions[j].state.holds_lock(),
    ensures
        i == j,
{
    assert(w.lock == Some(i));
    assert(w.lock == Some(j));
}

/// Once and only once: however many sessions enter at the same time, and in
/// whatever order they move, as long as nothing fails the changes of a phase
/// are made in full at most once. They are made exactly once as soon as one
/// session has completed the phase, and not at all where the durable stamp
/// was there from the start.
pub proof fn lemma_changes_made_once(w: World, kind: PhaseKind, i: int)
    requires
        w.orderly(),
        w.failures == 0,
    ensures
        w.runs(kind) <= 1,
        w.stamped_at_start ==> w.static_runs == 0,
        w.completed(i, kind) && !(kind == PhaseKind::Static && w.stamped_at_start) ==> w.runs(kind)
            == 1,
{
    assert(w.counted(kind));
    if w.completed(i, kind) {
        assert(w.sessions[i].kind == PhaseKind::Runtime || w.sessions[i].state
            == PhaseState::Done);
        assert(w.stamp(kind));
    }
}

/// Each failure allows the changes of a phase to be made one more time, and
/// no more: a phase that failed has set no stamp, so the next session starts
/// the phase over.
pub proof fn lemma_changes_made_again_only_after_failure(w: World, kind: PhaseKind)
    requires
        w.orderly(),
    ensures
        w.runs(kind) <= w.failures + 1,
{
    assert(w.counted(kind));
}

/// Entering again is harmless: in a container that has the stamp of a phase,
/// no session is making the changes of that phase or setting its stamp, and
/// nothing that a session can be told makes it do so.
pub proof fn lemma_stamped_phase_is_left_alone(w: World, i: int, event: PhaseEvent)
    requires
        w.orderly(),
        w.admits(i, event),
        w.stamp(w.sessions[i].kind),
    ensures
        w.sessions[i].state != PhaseState::Performing,
        w.sessions[i].state != PhaseState::Stamping,
        transition(w.sessions[i].kind, w.sessions[i].state, event).1 != PhaseAction::Perform,
        transition(w.sessions[i].kind, w.sessions[i].state, event).1 != PhaseAction::CreateStamp,
        w.after(i, event).runs(w.sessions[i].kind) == w.runs(w.sessions[i].kind),
{
}

/// Stamps stay: no move of any session takes a stamp away, and only the end
/// of a phase whose changes were made in full sets one. A step that fails
/// leaves both stamps as they were.
pub proof fn lemma_stamps_stay(w: World, next: World)
    requires
        w.orderly(),
        w.moves_to(next),
    ensures
        w.static_stamp ==> next.static_stamp,
        w.runtime_stamp ==> next.runtime_stamp,
        forall|i: int|
            #[trigger] w.admits(i, PhaseEvent::Failure) ==> w.after(
                i,
                PhaseEvent::Failure,
            ).static_stamp == w.static_stamp && w.after(i, PhaseEvent::Failure).runtime_stamp
                == w.runtime_stamp,
        forall|i: int, event: PhaseEvent|
            #[trigger] w.admits(i, event) && w.after(i, event).stamp(w.sessions[i].kind)
                && !w.stamp(w.sessions[i].kind) ==> event == PhaseEvent::Stamped
                && w.sessions[i].state == PhaseState::Stamping,
{
}

/// The ephemeral stamp tells of the durable one: a container whose per-boot
/// phase is complete has its one-time phase complete too.
pub proof fn lemma_runtime_stamp_implies_static(w: World)
    requires
        w.orderly(),
    ensures
        w.runtime_stamp ==> w.static_stamp,
{
}

impl World {
    /// Whether session `i` has come to its end: it has completed both
    /// phases, or one of them has failed.
    pub open spec fn over(self, i: int) -> bool {
        self.has(i) && (self.sessions[i].state == PhaseState::Failed || self.sessions[i] == (Phase {
            kind: PhaseKind::Runtime,
            state: PhaseState::Done,
        }))
    }
}

/// Never stuck: as long as one session has not come to its end, some session
/// can move on without anything failing. A session that holds the lock can
/// always go on; and when nobody holds the lock, every session that has not
/// come to its end can go on, the ones that wait for the lock among them.
pub proof fn lemma_never_stuck(w: World, i: int)
    requires
        w.orderly(),
        w.has(i),
        !w.over(i),
    ensures
        (exists|j: int, event: PhaseEvent| #[trigger]
            w.admits(j, event) && event != PhaseEvent::Failure) || (exists|j: int| #[trigger]
            w.can_advance(j)),
{
    let j = match w.lock {
        Some(holder) => holder,
        None => i,
    };
    assert(w.has(j));
    assert(w.sessions[j].state.holds_lock() <==> w.lock == Some(j));
    assert(w.sessions[i].state.holds_lock() <==> w.lock == Some(i));
    let state = w.sessions[j].state;
    if state == PhaseState::Start {
        assert(w.admits(j, PhaseEvent::Begin));
    } else if state == PhaseState::Peeking || state == PhaseState::Checking {
        if w.stamp(w.sessions[j].kind) {
            assert(w.admits(j, PhaseEvent::StampFound));
        } else {
            assert(w.admits(j, PhaseEvent::StampMissing));
        }
    } else if state == PhaseState::Locking {
        assert(w.admits(j, PhaseEvent::Locked));
    } else if state == PhaseState::Decoding {
        assert(w.admits(j, PhaseEvent::Decoded));
    } else if state == PhaseState::Performing {
        assert(w.admits(j, PhaseEvent::Performed));
    } else if state == PhaseState::Stamping {
        assert(w.admits(j, PhaseEvent::Stamped));
    } else {
        assert(w.can_advance(j));
    }
}

/// Of every moment of every run: no two sessions hold the lock at once, the
/// ephemeral stamp is there only where the durable one is, and as long as
/// nothing has failed, the changes of each phase were made in full at most
/// once, exactly once if a session has completed the phase, and never if
/// the durable stamp was there from the start.
pub proof fn lemma_run_is_safe(worlds: Seq<World>, n: nat, k: int)
    requires
        is_run(worlds, n),
        0 <= k < worlds.len(),
    ensures
        forall|i: int, j: int|
            #![trigger worlds[k].sessions[i], worlds[k].sessions[j]]
            0 <= i < n && 0 <= j < n && worlds[k].sessions[i].state.holds_lock()
                && worlds[k].sessions[j].state.holds_lock() ==> i == j,
        worlds[k].runtime_stamp ==> worlds[k].static_stamp,
        worlds[k].failures == 0 ==> worlds[k].static_runs <= 1 && worlds[k].runtime_runs <= 1,
        worlds[k].failures == 0 && worlds[0].stamped_at_start ==> worlds[k].static_runs == 0,
        forall|i: int, kind: PhaseKind|
            worlds[k].failures == 0 && #[trigger] worlds[k].completed(i, kind) && !(kind
                == PhaseKind::Static && worlds[0].stamped_at_start) ==> worlds[k].runs(kind) == 1,
{
    let w = worlds[k];
    lemma_run_orderly(worlds, n, k);
    assert forall|i: int, j: int|
        #![trigger w.sessions[i], w.sessions[j]]
        0 <= i < n && 0 <= j < n && w.sessions[i].state.holds_lock()
            && w.sessions[j].state.holds_lock() implies i == j by {
        lemma_one_holder(w, i, j);
    }
    if w.failures == 0 {
        lemma_changes_made_once(w, PhaseKind::Static, 0);
        lemma_changes_made_once(w, PhaseKind::Runtime, 0);
        assert forall|i: int, kind: PhaseKind|
            #[trigger] w.completed(i, kind) && !(kind == PhaseKind::Static
                && worlds[0].stamped_at_start) implies w.runs(kind) == 1 by {
            lemma_changes_made_once(w, kind, i);
        }
    }
}

/// What is changed is what one plan says: as long as nothing has failed,
/// once a session has completed a phase, the changes of that phase that
/// were made by all sessions together are one plan of the phase, made by one
/// of the sessions for the host state that it carries, no more.
pub proof fn lemma_changes_are_one_plan(w: World, kind: PhaseKind, i: int)
    requires
        w.orderly(),
        w.failures == 0,
        w.completed(i, kind),
        !(kind == PhaseKind::Static && w.stamped_at_start),
    ensures
        exists|j: int| #[trigger] w.is_plan_of(j, kind, w.changes(kind)),
{
    lemma_changes_made_once(w, kind, i);
    assert(w.recorded(kind));
}

/// First use by many at once: however many sessions of one user enter a
/// fresh container at the same time, as long as nothing fails, once one of
/// them has completed the one-time phase, all of them together have made
/// what one plan for that user says. A user other than root was made
/// exactly once, with the id and the home that the sessions carry; where the
/// container has the directory of sudo rules, the rule of that user was
/// written exactly once and the user is in the administrative group; and no
/// place has got a symlink twice.
pub proof fn lemma_first_use_provisions_once(
    worlds: Seq<World>,
    n: nat,
    k: int,
    i: int,
    user: HostStateView,
)
    requires
        is_run(worlds, n),
        0 <= k < worlds.len(),
        !worlds[0].stamped_at_start,
        forall|j: int| 0 <= j < n ==> #[trigger] worlds[0].users[j] == user,
        worlds[k].failures == 0,
        worlds[k].completed(i, PhaseKind::Static),
    ensures
        is_plan_for(PhaseKind::Static, user, worlds[0].sudoers_dir, worlds[k].static_changes),
        forall|a: int, b: int|
            #![trigger worlds[k].static_changes[a], worlds[k].static_changes[b]]
            0 <= a < worlds[k].static_changes.len() && 0 <= b < worlds[k].static_changes.len()
                && worlds[k].static_changes[a] is AddUser
                && worlds[k].static_changes[b] is AddUser ==> a == b,
        user.uid != 0 ==> worlds[k].static_changes.contains(
            OperationView::AddUser {
                username: user.username,
                uid: user.uid,
                home: user.home,
                admin: worlds[0].sudoers_dir,
            },
        ),
        user.uid == 0 ==> forall|a: int|
            0 <= a < worlds[k].static_changes.len()
                ==> !(#[trigger] worlds[k].static_changes[a] is AddUser),
        forall|a: int, b: int|
            #![trigger worlds[k].static_changes[a], worlds[k].static_changes[b]]
            0 <= a < worlds[k].static_changes.len() && 0 <= b < worlds[k].static_changes.len()
                && worlds[k].static_changes[a] is WriteRule
                && worlds[k].static_changes[b] is WriteRule ==> a == b,
        worlds[0].sudoers_dir ==> worlds[k].static_changes.contains(
            OperationView::WriteRule {
                path: sudo_rule_path(user.username),
                line: sudo_rule(user.username),
            },
        ),
        !worlds[0].sudoers_dir ==> forall|a: int|
            0 <= a < worlds[k].static_changes.len()
                ==> !(#[trigger] worlds[k].static_changes[a] is WriteRule),
        links(worlds[k].static_changes).no_duplicates(),
{
    let w = worlds[k];
    lemma_run_orderly(worlds, n, k);
    lemma_changes_are_one_plan(w, PhaseKind::Static, i);
    let j = choose|j: int| #[trigger] w.is_plan_of(j, PhaseKind::Static, w.static_changes);
    assert(w.users[j] == worlds[0].users[j]);
    assert(is_plan_for(PhaseKind::Static, user, w.sudoers_dir, w.static_changes));
    let probe = choose|probe: StaticProbeView|
        probe.sudoers_dir == w.sudoers_dir && w.static_changes == #[trigger] static_plan(
            user,
            probe,
        );
    lemma_one_user_one_rule(user, probe);
    lemma_no_symlink_twice(user, probe);
    if user.uid != 0 {
        let plan = static_plan(user, probe);
        assert(plan[plan.len() - 4] is AddUser);
    }
}

impl World {
    /// The container after a restart, with new sessions that have not begun
    /// and carry `users`: the durable stamp and the files of the container
    /// are as they were, the ephemeral stamp and the lock are gone with
    /// everything else that lived in memory.
    pub open spec fn restarted(self, users: Seq<HostStateView>) -> World {
        World {
            stamped_at_start: self.static_stamp,
            static_stamp: self.static_stamp,
            runtime_stamp: false,
            lock: None,
            static_runs: 0,
            runtime_runs: 0,
            static_changes: Seq::empty(),
            runtime_changes: Seq::empty(),
            failures: 0,
            sessions: Seq::new(
                users.len(),
                |i: int| Phase { kind: PhaseKind::Static, state: PhaseState::Start },
            ),
            users,
            sudoers_dir: self.sudoers_dir,
        }
    }
}

/// A restart is a new start: the container begins anew, with the durable
/// stamp as the only thing it remembers of the phases. So the one-time
/// phase, once complete, is never done again, while the per-boot phase is
/// done again after every restart.
pub proof fn lemma_restart_begins_anew(w: World, users: Seq<HostStateView>)
    ensures
        w.restarted(users).initial(users.len()),
        w.restarted(users).orderly(),
        w.restarted(users).stamped_at_start == w.static_stamp,
        !w.restarted(users).runtime_stamp,
{
    lemma_initial_orderly(w.restarted(users), users.len());
}

/// The course of a session that is alone in a fresh container: it takes the
/// lock, reads the host state, finds no stamp, makes the changes and sets the
/// durable stamp; then it looks for the ephemeral stamp, takes the lock,
/// looks again, makes the changes and sets the ephemeral stamp. In the end
/// both stamps are there, the lock is free, and what was changed is the plan
/// of each phase, once.
pub proof fn lemma_first_session(
    w: World,
    found: StaticProbeView,
    found_later: RuntimeProbeView,
) -> (end: World)
    requires
        w.initial(1),
        !w.stamped_at_start,
        found.sudoers_dir == w.sudoers_dir,
    ensures
        end.static_stamp,
        end.runtime_stamp,
        end.lock is None,
        end.static_runs == 1,
        end.runtime_runs == 1,
        end.static_changes == static_plan(w.users[0], found),
        end.runtime_changes == runtime_plan(found_later),
        end.failures == 0,
        end.completed(0, PhaseKind::Runtime),
        exists|worlds: Seq<World>| #[trigger]
            is_run(worlds, 1) && worlds[0] == w && worlds.last() == end,
{
    let first = static_plan(w.users[0], found);
    let second = runtime_plan(found_later);
    assert(is_plan_for(PhaseKind::Static, w.users[0], w.sudoers_dir, first));
    assert(is_plan_for(PhaseKind::Runtime, w.users[0], w.sudoers_dir, second));
    let w1 = w.after(0, PhaseEvent::Begin);
    let w2 = w1.after(0, PhaseEvent::Locked);
    let w3 = w2.after(0, PhaseEvent::Decoded);
    let w4 = w3.after(0, PhaseEvent::StampMissing);
    let w5 = w4.performed(0, first);
    let w6 = w5.after(0, PhaseEvent::Stamped);
    let w7 = w6.advanced(0);
    let w8 = w7.after(0, PhaseEvent::Begin);
    let w9 = w8.after(0, PhaseEvent::StampMissing);
    let w10 = w9.after(0, PhaseEvent::Locked);
    let w11 = w10.after(0, PhaseEvent::StampMissing);
    let w12 = w11.performed(0, second);
    let w13 = w12.after(0, PhaseEvent::Stamped);
    assert(w.admits(0, PhaseEvent::Begin));
    assert(w1.admits(0, PhaseEvent::Locked));
    assert(w2.admits(0, PhaseEvent::Decoded));
    assert(w3.admits(0, PhaseEvent::StampMissing));
    assert(w4.admits(0, PhaseEvent::Performed) && w4.sessions[0].kind == PhaseKind::Static);
    assert(w5.admits(0, PhaseEvent::Stamped));
    assert(w6.can_advance(0));
    assert(w7.admits(0, PhaseEvent::Begin));
    assert(w8.admits(0, PhaseEvent::StampMissing));
    assert(w9.admits(0, PhaseEvent::Locked));
    assert(w10.admits(0, PhaseEvent::StampMissing));
    assert(w11.admits(0, PhaseEvent::Performed) && w11.sessions[0].kind == PhaseKind::Runtime);
    assert(w12.admits(0, PhaseEvent::Stamped));
    assert(w5.static_changes =~= first);
    assert(w12.runtime_changes =~= second);
    let worlds = seq![w, w1, w2, w3, w4, w5, w6, w7, w8, w9, w10, w11, w12, w13];
    assert(is_run(worlds, 1)) by {
        assert forall|k: int| 0 <= k < worlds.len() - 1 implies #[trigger] worlds[k].moves_to(
            worlds[k + 1],
        ) by {
            if k == 6 {
                assert(worlds[6].can_advance(0) && worlds[7] == worlds[6].advanced(0));
            } else if k == 4 {
                assert(worlds[5] == worlds[4].performed(0, first));
            } else if k == 11 {
                assert(worlds[12] == worlds[11].performed(0, second));
            } else {
                let event = if k == 0 || k == 7 {
                    PhaseEvent::Begin
                } else if k == 1 || k == 9 {
                    PhaseEvent::Locked
                } else if k == 2 {
                    PhaseEvent::Decoded
                } else if k == 3 || k == 8 || k == 10 {
                    PhaseEvent::StampMissing
                } else {
                    PhaseEvent::Stamped
                };
                assert(worlds[k].admits(0, event) && worlds[k + 1] == worlds[k].after(0, event));
            }
        }
    }
    assert(worlds.last() == w13);
    w13
}

} // verus!
