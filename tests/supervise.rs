use xtask_watch::pipeline::PipelineRun;
use xtask_watch::supervisor::{
    wait_step, ChildState, TerminateAction, TerminateEvent, TerminatePhase, WaitAction, WaitPoll,
};
use xtask_watch::watch_loop::{LoopAction, LoopEvent, LoopPhase};
use xtask_watch::{ChildSlot, Termination, WatchLoop};

#[test]
fn terminate_on_empty_slot_is_noop() {
    let (t, action) = Termination::start(false, true, 0);
    assert_eq!(action, TerminateAction::Done);
    assert_eq!(t.phase, TerminatePhase::Finished);
    let (_, action) = Termination::start(false, false, 0);
    assert_eq!(action, TerminateAction::Done);
}

#[test]
fn terminate_twice_kills_once() {
    let mut slot: ChildSlot<u32> = ChildSlot::new();
    assert_eq!(slot.replace(42), None);
    let mut kills = 0;
    for _ in 0..2 {
        let (mut t, mut action) = Termination::start(slot.is_occupied(), true, 0);
        let mut now = 0;
        loop {
            action = match action {
                TerminateAction::Done => {
                    slot.shut();
                    break;
                }
                TerminateAction::SendSignal => t.step(TerminateEvent::Signalled, now),
                TerminateAction::Probe { sleep_ms } => {
                    now += sleep_ms;
                    t.step(TerminateEvent::Probed(ChildState::Running), now)
                }
                TerminateAction::ForceKill => {
                    kills += 1;
                    t.step(TerminateEvent::Killed, now)
                }
            };
        }
    }
    assert_eq!(kills, 1);
    assert!(!slot.is_occupied());
    assert!(slot.is_shut());
}

#[test]
fn graceful_exit_within_window() {
    let (mut t, action) = Termination::start(true, true, 100);
    assert_eq!(action, TerminateAction::SendSignal);
    assert_eq!(t.step(TerminateEvent::Signalled, 100), TerminateAction::Probe { sleep_ms: 200 });
    assert_eq!(
        t.step(TerminateEvent::Probed(ChildState::Running), 300),
        TerminateAction::Probe { sleep_ms: 200 }
    );
    assert_eq!(t.step(TerminateEvent::Probed(ChildState::Exited), 500), TerminateAction::Done);
    assert_eq!(t.phase, TerminatePhase::Finished);
}

#[test]
fn grace_window_then_kill() {
    let (mut t, _) = Termination::start(true, true, 0);
    t.step(TerminateEvent::Signalled, 0);
    assert_eq!(
        t.step(TerminateEvent::Probed(ChildState::Running), 1999),
        TerminateAction::Probe { sleep_ms: 200 }
    );
    assert_eq!(
        t.step(TerminateEvent::Probed(ChildState::Running), 2000),
        TerminateAction::Probe { sleep_ms: 0 }
    );
    assert_eq!(t.phase, TerminatePhase::Final);
    assert_eq!(t.step(TerminateEvent::Probed(ChildState::Running), 2000), TerminateAction::ForceKill);
    assert_eq!(t.step(TerminateEvent::Killed, 2100), TerminateAction::Done);
}

#[test]
fn no_graceful_signal_goes_straight_to_final_check() {
    let (mut t, action) = Termination::start(true, false, 0);
    assert_eq!(action, TerminateAction::Probe { sleep_ms: 0 });
    assert_eq!(t.phase, TerminatePhase::Final);
    assert_eq!(t.step(TerminateEvent::Probed(ChildState::Exited), 0), TerminateAction::Done);
}

#[test]
fn child_slot_holds_one_child() {
    let mut slot: ChildSlot<String> = ChildSlot::new();
    assert!(!slot.is_occupied());
    assert_eq!(slot.replace("first".to_string()), None);
    assert_eq!(slot.replace("second".to_string()), None);
    if let Some(c) = slot.child_mut() {
        c.push('!');
    }
    assert_eq!(slot.take(), Some("second!".to_string()));
    assert_eq!(slot.take(), None);
    assert!(!slot.is_shut());
}

#[test]
fn shut_slot_refuses_children() {
    let mut slot: ChildSlot<u32> = ChildSlot::new();
    assert_eq!(slot.replace(1), None);
    assert_eq!(slot.shut(), Some(1));
    assert!(slot.is_shut());
    assert_eq!(slot.replace(2), Some(2));
    assert!(!slot.is_occupied());
}

#[test]
fn wait_decisions() {
    assert_eq!(wait_step(WaitPoll::Exited { success: true }), WaitAction::Finish { success: true });
    assert_eq!(wait_step(WaitPoll::Exited { success: false }), WaitAction::Finish { success: false });
    assert_eq!(wait_step(WaitPoll::Gone), WaitAction::Finish { success: false });
    assert_eq!(wait_step(WaitPoll::Running), WaitAction::Retry { sleep_ms: 10 });
    assert_eq!(wait_step(WaitPoll::Failed), WaitAction::Retry { sleep_ms: 10 });
}

#[test]
fn failing_first_command_stops_pipeline() {
    let mut run = PipelineRun::new(3).unwrap();
    assert_eq!(run.next_command(), Some(0));
    run.record(false);
    assert_eq!(run.next_command(), None);
    run.record(true);
    assert_eq!(run.next_command(), None);
    assert_eq!(run.next, 1);
}

#[test]
fn pipeline_runs_in_order() {
    let mut run = PipelineRun::new(3).unwrap();
    let mut started = Vec::new();
    while let Some(i) = run.next_command() {
        started.push(i);
        run.record(i != 1);
    }
    assert_eq!(started, vec![0, 1]);

    let mut all = PipelineRun::new(2).unwrap();
    let mut count = 0;
    while let Some(_) = all.next_command() {
        count += 1;
        all.record(true);
    }
    assert_eq!(count, 2);
}

#[test]
fn empty_pipeline_is_refused() {
    assert!(PipelineRun::new(0).is_none());
}

#[test]
fn restarts_are_sequential() {
    let mut l = WatchLoop::new();
    assert_eq!(l.step(LoopEvent::ChangeAccepted), LoopAction::Nothing);
    assert_eq!(l.step(LoopEvent::Start), LoopAction::Spawn { generation: 0 });
    assert_eq!(l.step(LoopEvent::ChangeAccepted), LoopAction::Terminate { generation: 0 });
    assert_eq!(l.step(LoopEvent::ChangeAccepted), LoopAction::Nothing);
    assert_eq!(l.phase, LoopPhase::Restarting);
    assert_eq!(l.step(LoopEvent::TeardownDone), LoopAction::Spawn { generation: 1 });
    assert_eq!(l.step(LoopEvent::ChangeAccepted), LoopAction::Terminate { generation: 1 });
    assert_eq!(l.step(LoopEvent::TeardownDone), LoopAction::Spawn { generation: 2 });
    assert_eq!(l.generation, 2);
}

#[test]
fn first_spawn_failure_is_fatal() {
    let mut l = WatchLoop::new();
    l.step(LoopEvent::Start);
    assert_eq!(l.step(LoopEvent::SpawnFailed { generation: 0 }), LoopAction::Fail);
    assert!(l.is_finished());
}

#[test]
fn later_spawn_failure_is_reported() {
    let mut l = WatchLoop::new();
    l.step(LoopEvent::Start);
    l.step(LoopEvent::ChangeAccepted);
    l.step(LoopEvent::TeardownDone);
    assert_eq!(l.step(LoopEvent::SpawnFailed { generation: 1 }), LoopAction::Report);
    assert_eq!(l.phase, LoopPhase::Running);
    assert!(!l.is_finished());
}

#[test]
fn closing_source_ends_session() {
    let mut l = WatchLoop::new();
    l.step(LoopEvent::Start);
    assert_eq!(l.step(LoopEvent::SourceClosed), LoopAction::Terminate { generation: 0 });
    assert_eq!(l.step(LoopEvent::TeardownDone), LoopAction::Stop);
    assert_eq!(l.phase, LoopPhase::Terminated);
    assert!(l.is_finished());
}
