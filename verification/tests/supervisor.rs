use coretoolbox::supervisor::DrainStep;
use coretoolbox::supervisor::Signal;
use coretoolbox::supervisor::Supervisor;
use coretoolbox::supervisor::SupervisorAction;
use coretoolbox::supervisor::SupervisorState;
use coretoolbox::supervisor::WaitOutcome;

fn drain(supervisor: &Supervisor, outcomes: &[WaitOutcome]) -> usize {
    let mut looks = 0;
    for outcome in outcomes {
        looks += 1;
        if supervisor.after_wait(*outcome) == DrainStep::Stop {
            break;
        }
    }
    looks
}

#[test]
fn the_supervisor_listens_to_two_signals() {
    assert_eq!(Supervisor::signals(), vec![Signal::ChildTerminated, Signal::TerminateRequest]);
    assert_eq!(Supervisor::new().state, SupervisorState::Running);
}

#[test]
fn an_ended_child_is_collected() {
    let mut supervisor = Supervisor::new();
    assert_eq!(supervisor.on_signal(Signal::ChildTerminated), SupervisorAction::Drain);
    assert_eq!(supervisor.state, SupervisorState::Running);
    assert_eq!(supervisor.on_signal(Signal::ChildTerminated), SupervisorAction::Drain);
    assert_eq!(supervisor.state, SupervisorState::Running);
}

#[test]
fn a_request_to_stop_ends_with_success() {
    let mut supervisor = Supervisor::new();
    assert_eq!(supervisor.on_signal(Signal::TerminateRequest), SupervisorAction::Exit { status: 0 });
    assert_eq!(supervisor.state, SupervisorState::Terminated);
    assert_eq!(supervisor.on_signal(Signal::ChildTerminated), SupervisorAction::Ignore);
    assert_eq!(supervisor.on_signal(Signal::TerminateRequest), SupervisorAction::Ignore);
    assert_eq!(supervisor.state, SupervisorState::Terminated);
}

#[test]
fn collecting_goes_on_while_children_are_found() {
    let supervisor = Supervisor::new();
    assert_eq!(supervisor.after_wait(WaitOutcome::Reaped), DrainStep::Again);
    assert_eq!(supervisor.after_wait(WaitOutcome::StillAlive), DrainStep::Stop);
    assert_eq!(supervisor.after_wait(WaitOutcome::Failed), DrainStep::Stop);
}

#[test]
fn a_drain_collects_all_that_ended() {
    let supervisor = Supervisor::new();
    let r = WaitOutcome::Reaped;
    assert_eq!(drain(&supervisor, &[r, r, r, WaitOutcome::StillAlive, r]), 4);
    assert_eq!(drain(&supervisor, &[r, WaitOutcome::Failed]), 2);
    assert_eq!(drain(&supervisor, &[WaitOutcome::Failed, r]), 1);
    assert_eq!(drain(&supervisor, &[WaitOutcome::StillAlive]), 1);
    assert_eq!(drain(&supervisor, &[r, r]), 2);
    assert_eq!(drain(&supervisor, &[]), 0);
}
