use coretoolbox::error::Context;
use coretoolbox::host::HostLayoutKind;
use coretoolbox::host::HostState;
use coretoolbox::ops::Operation;
use coretoolbox::phase::Phase;
use coretoolbox::phase::PhaseAction;
use coretoolbox::phase::PhaseEvent;
use coretoolbox::phase::PhaseKind;
use coretoolbox::phase::PhaseState;
use coretoolbox::runtime_init::plan_runtime;
use coretoolbox::runtime_init::RuntimeProbe;
use coretoolbox::static_init::plan_static;
use coretoolbox::static_init::DeviceProbe;
use coretoolbox::static_init::StaticProbe;

/// A container as the sessions of a test see it.
struct Container {
    static_stamp: bool,
    runtime_stamp: bool,
    lock: Option<usize>,
    applied: Vec<Operation>,
    static_runs: usize,
    runtime_runs: usize,
    /// The change, counted over all sessions, that fails; none if zero.
    fails_at: usize,
}

/// A session that is driven one step at a time.
struct Session {
    id: usize,
    phase: Phase,
    upcoming: Option<PhaseAction>,
    over: bool,
    failed: bool,
    actions: Vec<PhaseAction>,
}

fn fresh() -> Container {
    Container {
        static_stamp: false,
        runtime_stamp: false,
        lock: None,
        applied: Vec::new(),
        static_runs: 0,
        runtime_runs: 0,
        fails_at: 0,
    }
}

fn session(id: usize) -> Session {
    Session {
        id,
        phase: Phase::new(PhaseKind::Static),
        upcoming: None,
        over: false,
        failed: false,
        actions: Vec::new(),
    }
}

fn carol() -> HostState {
    HostState { username: String::from("carol"), uid: 1002, home: String::from("/home/carol") }
}

fn changes(kind: PhaseKind) -> Vec<Operation> {
    match kind {
        PhaseKind::Static => plan_static(
            &carol(),
            &StaticProbe {
                layout: HostLayoutKind::Conventional,
                tmp_entries: Vec::new(),
                devices: [DeviceProbe { inside: false, on_host: true }; 4],
                sudoers_dir: true,
            },
        ),
        PhaseKind::Runtime => plan_runtime(&RuntimeProbe {
            runtime_dir: String::from("/run/user/1002"),
            runtime_dir_present: false,
            selinux_status: false,
            empty_dir_present: true,
            layout: HostLayoutKind::Conventional,
        }),
    }
}

/// Lets the session do the one thing it is to do next. Returns whether it
/// moved: a session that waits for the lock does not.
fn step(s: &mut Session, c: &mut Container) -> bool {
    if s.over {
        return false;
    }
    let action = match s.upcoming {
        Some(action) => action,
        None => {
            let action = s.phase.step(PhaseEvent::Begin);
            s.actions.push(action);
            action
        }
    };
    let kind = s.phase.kind;
    let event = match action {
        PhaseAction::AcquireLock => {
            if c.lock.is_some() {
                s.upcoming = Some(action);
                return false;
            }
            c.lock = Some(s.id);
            PhaseEvent::Locked
        }
        PhaseAction::DecodeState => PhaseEvent::Decoded,
        PhaseAction::CheckStamp => {
            let there = match kind {
                PhaseKind::Static => c.static_stamp,
                PhaseKind::Runtime => c.runtime_stamp,
            };
            if there {
                PhaseEvent::StampFound
            } else {
                PhaseEvent::StampMissing
            }
        }
        PhaseAction::Perform => {
            assert_eq!(c.lock, Some(s.id));
            let mut event = PhaseEvent::Performed;
            for op in changes(kind) {
                if c.fails_at != 0 && c.applied.len() + 1 == c.fails_at {
                    c.fails_at = 0;
                    event = PhaseEvent::Failure;
                    break;
                }
                c.applied.push(op);
            }
            if event == PhaseEvent::Performed {
                match kind {
                    PhaseKind::Static => c.static_runs += 1,
                    PhaseKind::Runtime => c.runtime_runs += 1,
                }
            }
            event
        }
        PhaseAction::CreateStamp => {
            assert_eq!(c.lock, Some(s.id));
            match kind {
                PhaseKind::Static => c.static_stamp = true,
                PhaseKind::Runtime => c.runtime_stamp = true,
            }
            PhaseEvent::Stamped
        }
        PhaseAction::Finish => {
            if c.lock == Some(s.id) {
                c.lock = None;
            }
            assert!(s.phase.is_done());
            match kind {
                PhaseKind::Static => {
                    s.phase = Phase::new(PhaseKind::Runtime);
                    s.upcoming = None;
                }
                PhaseKind::Runtime => s.over = true,
            }
            return true;
        }
        PhaseAction::Abort => {
            if c.lock == Some(s.id) {
                c.lock = None;
            }
            s.over = true;
            s.failed = true;
            return true;
        }
    };
    let next = s.phase.step(event);
    s.actions.push(next);
    s.upcoming = Some(next);
    if !s.phase.holds_lock() && c.lock == Some(s.id) {
        assert!(next == PhaseAction::Finish || next == PhaseAction::Abort);
        c.lock = None;
    }
    assert_eq!(s.phase.holds_lock(), c.lock == Some(s.id));
    true
}

/// Runs the sessions until all are over, giving each in turn `burst` steps.
fn run_all(sessions: &mut Vec<Session>, c: &mut Container, burst: usize) {
    let mut rounds = 0;
    while sessions.iter().any(|s| !s.over) {
        for s in sessions.iter_mut() {
            for _ in 0..burst {
                step(s, c);
            }
            assert!(c.static_stamp || !c.runtime_stamp);
        }
        rounds += 1;
        assert!(rounds < 10_000);
    }
}

#[test]
fn the_course_of_the_one_time_phase() {
    let mut phase = Phase::new(PhaseKind::Static);
    assert_eq!(phase.state, PhaseState::Start);
    assert_eq!(phase.step(PhaseEvent::Begin), PhaseAction::AcquireLock);
    assert!(!phase.holds_lock());
    assert_eq!(phase.step(PhaseEvent::Locked), PhaseAction::DecodeState);
    assert!(phase.holds_lock());
    assert_eq!(phase.step(PhaseEvent::Decoded), PhaseAction::CheckStamp);
    assert_eq!(phase.step(PhaseEvent::StampMissing), PhaseAction::Perform);
    assert_eq!(phase.step(PhaseEvent::Performed), PhaseAction::CreateStamp);
    assert!(phase.holds_lock());
    assert_eq!(phase.step(PhaseEvent::Stamped), PhaseAction::Finish);
    assert!(phase.is_done());
    assert!(!phase.holds_lock());
    assert_eq!(phase.kind, PhaseKind::Static);
}

#[test]
fn the_course_of_the_per_boot_phase() {
    let mut phase = Phase::new(PhaseKind::Runtime);
    assert_eq!(phase.step(PhaseEvent::Begin), PhaseAction::CheckStamp);
    assert_eq!(phase.state, PhaseState::Peeking);
    assert!(!phase.holds_lock());
    assert_eq!(phase.step(PhaseEvent::StampMissing), PhaseAction::AcquireLock);
    assert_eq!(phase.step(PhaseEvent::Locked), PhaseAction::CheckStamp);
    assert_eq!(phase.state, PhaseState::Checking);
    assert_eq!(phase.step(PhaseEvent::StampMissing), PhaseAction::Perform);
    assert_eq!(phase.step(PhaseEvent::Performed), PhaseAction::CreateStamp);
    assert_eq!(phase.step(PhaseEvent::Stamped), PhaseAction::Finish);
    assert!(phase.is_done());
}

#[test]
fn a_stamp_that_is_there_ends_the_phase() {
    let mut phase = Phase::new(PhaseKind::Static);
    phase.step(PhaseEvent::Begin);
    phase.step(PhaseEvent::Locked);
    phase.step(PhaseEvent::Decoded);
    assert_eq!(phase.step(PhaseEvent::StampFound), PhaseAction::Finish);
    assert!(phase.is_done());
    let mut quick = Phase::new(PhaseKind::Runtime);
    quick.step(PhaseEvent::Begin);
    assert_eq!(quick.step(PhaseEvent::StampFound), PhaseAction::Finish);
    assert!(quick.is_done());
    let mut raced = Phase::new(PhaseKind::Runtime);
    raced.step(PhaseEvent::Begin);
    raced.step(PhaseEvent::StampMissing);
    raced.step(PhaseEvent::Locked);
    assert_eq!(raced.step(PhaseEvent::StampFound), PhaseAction::Finish);
    assert!(raced.is_done());
}

#[test]
fn a_failure_ends_the_phase_without_a_stamp() {
    let before_failure = [
        Vec::new(),
        vec![PhaseEvent::Begin],
        vec![PhaseEvent::Begin, PhaseEvent::Locked],
        vec![PhaseEvent::Begin, PhaseEvent::Locked, PhaseEvent::Decoded],
        vec![PhaseEvent::Begin, PhaseEvent::Locked, PhaseEvent::Decoded, PhaseEvent::StampMissing],
        vec![
            PhaseEvent::Begin,
            PhaseEvent::Locked,
            PhaseEvent::Decoded,
            PhaseEvent::StampMissing,
            PhaseEvent::Performed,
        ],
    ];
    for events in before_failure {
        let mut phase = Phase::new(PhaseKind::Static);
        for event in events {
            assert_ne!(phase.step(event), PhaseAction::Abort);
        }
        assert_eq!(phase.step(PhaseEvent::Failure), PhaseAction::Abort);
        assert_eq!(phase.state, PhaseState::Failed);
        assert!(!phase.holds_lock());
        for event in [PhaseEvent::Begin, PhaseEvent::Performed, PhaseEvent::Stamped] {
            assert_eq!(phase.step(event), PhaseAction::Abort);
        }
    }
}

#[test]
fn what_does_not_belong_ends_the_phase() {
    let mut phase = Phase::new(PhaseKind::Static);
    assert_eq!(phase.step(PhaseEvent::Performed), PhaseAction::Abort);
    let mut phase = Phase::new(PhaseKind::Static);
    phase.step(PhaseEvent::Begin);
    assert_eq!(phase.step(PhaseEvent::StampMissing), PhaseAction::Abort);
    let mut phase = Phase::new(PhaseKind::Runtime);
    phase.step(PhaseEvent::Begin);
    assert_eq!(phase.step(PhaseEvent::Decoded), PhaseAction::Abort);
    let mut done = Phase::new(PhaseKind::Runtime);
    done.step(PhaseEvent::Begin);
    done.step(PhaseEvent::StampFound);
    assert_eq!(done.step(PhaseEvent::Failure), PhaseAction::Finish);
    assert!(done.is_done());
}

#[test]
fn stamps_and_words_of_the_phases() {
    assert_eq!(PhaseKind::Static.stamp_path(), "/etc/coreos-toolbox.initialized");
    assert_eq!(PhaseKind::Runtime.stamp_path(), "/run/coreos-toolbox.initialized");
    assert_eq!(coretoolbox::names::INIT_LOCK, "/run/coreos-toolbox.lock");
    assert_eq!(PhaseKind::Static.context(), Context::StaticPhase);
    assert_eq!(PhaseKind::Runtime.context(), Context::RuntimePhase);
}

#[test]
fn after_the_first_enter_both_stamps_are_there() {
    let mut c = fresh();
    let mut sessions = vec![session(0)];
    run_all(&mut sessions, &mut c, 1);
    assert!(c.static_stamp && c.runtime_stamp);
    assert_eq!(c.lock, None);
    assert_eq!((c.static_runs, c.runtime_runs), (1, 1));
    assert_eq!(c.applied.len(), changes(PhaseKind::Static).len() + changes(PhaseKind::Runtime).len());
    assert_eq!(
        sessions[0].actions,
        vec![
            PhaseAction::AcquireLock,
            PhaseAction::DecodeState,
            PhaseAction::CheckStamp,
            PhaseAction::Perform,
            PhaseAction::CreateStamp,
            PhaseAction::Finish,
            PhaseAction::CheckStamp,
            PhaseAction::AcquireLock,
            PhaseAction::CheckStamp,
            PhaseAction::Perform,
            PhaseAction::CreateStamp,
            PhaseAction::Finish,
        ]
    );
}

#[test]
fn reuse() {
    let mut c = fresh();
    run_all(&mut vec![session(0)], &mut c, 1);
    let applied = c.applied.len();
    let mut second = vec![session(1)];
    run_all(&mut second, &mut c, 1);
    assert_eq!(c.applied.len(), applied);
    assert_eq!((c.static_runs, c.runtime_runs), (1, 1));
    assert!(!second[0].failed);
    assert_eq!(
        second[0].actions,
        vec![
            PhaseAction::AcquireLock,
            PhaseAction::DecodeState,
            PhaseAction::CheckStamp,
            PhaseAction::Finish,
            PhaseAction::CheckStamp,
            PhaseAction::Finish,
        ]
    );
}

#[test]
fn many_sessions_at_once_make_the_changes_once() {
    for count in [2usize, 3, 7] {
        for burst in [1usize, 2, 3, 5] {
            let mut c = fresh();
            let mut sessions: Vec<Session> = (0..count).map(session).collect();
            run_all(&mut sessions, &mut c, burst);
            assert!(sessions.iter().all(|s| !s.failed));
            assert_eq!((c.static_runs, c.runtime_runs), (1, 1));
            assert!(c.static_stamp && c.runtime_stamp);
            assert_eq!(c.lock, None);
            let users = c.applied.iter().filter(|op| matches!(op, Operation::AddUser { .. })).count();
            let rules = c.applied.iter().filter(|op| matches!(op, Operation::WriteRule { .. })).count();
            assert_eq!((users, rules), (1, 1));
            let mut links: Vec<&String> = c
                .applied
                .iter()
                .filter_map(|op| match op {
                    Operation::Symlink { link, .. } => Some(link),
                    _ => None,
                })
                .collect();
            let made = links.len();
            links.sort();
            links.dedup();
            assert_eq!(links.len(), made);
        }
    }
}

#[test]
fn after_a_restart_only_the_per_boot_phase_runs() {
    let mut c = fresh();
    run_all(&mut vec![session(0)], &mut c, 1);
    let applied = c.applied.len();
    c.runtime_stamp = false;
    c.lock = None;
    run_all(&mut vec![session(1), session(2)], &mut c, 2);
    assert_eq!((c.static_runs, c.runtime_runs), (1, 2));
    assert_eq!(c.applied.len(), applied + changes(PhaseKind::Runtime).len());
}

#[test]
fn a_failed_phase_leaves_no_stamp_and_is_done_over() {
    let mut c = fresh();
    c.fails_at = 5;
    let mut first = vec![session(0)];
    run_all(&mut first, &mut c, 1);
    assert!(first[0].failed);
    assert!(!c.static_stamp && !c.runtime_stamp);
    assert_eq!(c.lock, None);
    assert_eq!(c.applied.len(), 4);
    assert_eq!((c.static_runs, c.runtime_runs), (0, 0));
    let mut second = vec![session(1)];
    run_all(&mut second, &mut c, 1);
    assert!(!second[0].failed);
    assert!(c.static_stamp && c.runtime_stamp);
    assert_eq!((c.static_runs, c.runtime_runs), (1, 1));
    assert_eq!(
        c.applied.len(),
        4 + changes(PhaseKind::Static).len() + changes(PhaseKind::Runtime).len()
    );
}
