use container_runtime::error::ErrorKind;
use container_runtime::supervisor::forwarded_signals;
use nix::sys::signal::Signal;
use container_runtime::namespace::{NamespaceManager, ParentStep};
use container_runtime::supervisor::{
    forward_signal, reap_step, ChildStatus, ChildSupervisor, OutputPump, PumpAction, PumpEvent, PumpPhase,
    ReadOutcome, ReapStep, Termination, WaitFailure,
};

#[test]
fn exit_codes() {
    assert_eq!(Termination::Exited(0).exit_code(), 0);
    assert_eq!(Termination::Exited(7).exit_code(), 7);
    assert_eq!(Termination::Signaled(15).exit_code(), 143);
}

#[test]
fn termination_results() {
    assert!(Termination::Exited(0).result().is_ok());
    let e = Termination::Exited(7).result().err().unwrap();
    assert_eq!(e.kind(), ErrorKind::ProcessExecution);
    assert_eq!(e.message(), "Container process exited with non-zero status: 7");
    let s = Termination::Signaled(9).result().err().unwrap();
    assert_eq!(s.message(), "Container process killed by signal: 9");
}

#[test]
fn reaper_decisions() {
    assert!(matches!(reap_step(Ok(ChildStatus::Exited(3))), ReapStep::Terminated(Termination::Exited(3))));
    assert!(matches!(reap_step(Ok(ChildStatus::Signaled(2))), ReapStep::Terminated(Termination::Signaled(2))));
    assert!(matches!(reap_step(Ok(ChildStatus::Stopped(19))), ReapStep::WaitAgain));
    assert!(matches!(reap_step(Err(WaitFailure::Interrupted)), ReapStep::WaitAgain));
    match reap_step(Err(WaitFailure::Failed("EINVAL".to_string()))) {
        ReapStep::Failed(e) => {
            assert_eq!(e.kind(), ErrorKind::ProcessExecution);
            assert_eq!(e.message(), "waitpid failed: EINVAL");
        }
        _ => panic!("expected a failure"),
    }
}

#[test]
fn signals_go_to_a_live_child_only() {
    assert_eq!(forward_signal(321, 2), Some((321, 2)));
    assert_eq!(forward_signal(321, 15), Some((321, 15)));
    assert_eq!(forward_signal(321, 3), Some((321, 3)));
    assert_eq!(forward_signal(0, 15), None);
}

#[test]
fn child_is_reaped_once_and_slot_cleared() {
    let mut s = ChildSupervisor::started(500);
    assert_eq!(s.forward(15), Some((500, 15)));
    assert!(matches!(s.observe(Err(WaitFailure::Interrupted)), ReapStep::WaitAgain));
    assert_eq!(s.slot(), 500);
    assert!(matches!(s.observe(Ok(ChildStatus::Exited(0))), ReapStep::Terminated(Termination::Exited(0))));
    assert_eq!(s.slot(), 0);
    assert!(s.is_reaped());
    assert_eq!(s.forward(15), None);
    assert!(matches!(s.observe(Ok(ChildStatus::Exited(0))), ReapStep::Failed(_)));
}

#[test]
fn pid_namespace_parent_decisions() {
    assert_eq!(NamespaceManager::pid_namespace_wait_step(Ok(ChildStatus::Exited(7))), ParentStep::Exit(7));
    assert_eq!(NamespaceManager::pid_namespace_wait_step(Ok(ChildStatus::Signaled(15))), ParentStep::Exit(143));
    assert_eq!(NamespaceManager::pid_namespace_wait_step(Ok(ChildStatus::Stopped(19))), ParentStep::WaitAgain);
    assert_eq!(NamespaceManager::pid_namespace_wait_step(Ok(ChildStatus::Continued)), ParentStep::WaitAgain);
    assert_eq!(NamespaceManager::pid_namespace_wait_step(Err(WaitFailure::NoChild)), ParentStep::Exit(0));
    assert_eq!(NamespaceManager::pid_namespace_wait_step(Err(WaitFailure::Interrupted)), ParentStep::Exit(1));
    assert_eq!(NamespaceManager::pid_namespace_wait_step(Ok(ChildStatus::Other)), ParentStep::Exit(1));
}

#[test]
fn pump_copies_output_until_exit() {
    let (mut p, a) = OutputPump::start(77);
    assert!(matches!(a, PumpAction::PollChild));
    assert!(matches!(p.step(PumpEvent::Polled(Ok(ChildStatus::StillAlive))), PumpAction::ReadMaster));
    assert!(matches!(p.step(PumpEvent::Read(ReadOutcome::Data(12))), PumpAction::CopyOut(12)));
    assert!(matches!(p.step(PumpEvent::Polled(Ok(ChildStatus::StillAlive))), PumpAction::ReadMaster));
    assert!(matches!(p.step(PumpEvent::Read(ReadOutcome::WouldBlock)), PumpAction::Pause(10)));
    assert_eq!(p.slot(), 77);
    assert_eq!(p.forward(2), Some((77, 2)));
    assert!(matches!(p.step(PumpEvent::Polled(Ok(ChildStatus::Exited(7)))), PumpAction::DrainOutput));
    assert_eq!(p.slot(), 0);
    assert!(matches!(p.step(PumpEvent::Drained), PumpAction::Finish(Termination::Exited(7))));
    assert_eq!(p.phase(), PumpPhase::Finished);
    assert!(matches!(p.step(PumpEvent::Drained), PumpAction::Fail(_)));
}

#[test]
fn pump_drains_after_a_killing() {
    let (mut p, _) = OutputPump::start(5);
    assert!(matches!(p.step(PumpEvent::Polled(Ok(ChildStatus::Signaled(15)))), PumpAction::DrainOutput));
    assert!(matches!(p.step(PumpEvent::Drained), PumpAction::Finish(Termination::Signaled(15))));
}

#[test]
fn pump_falls_back_to_a_blocking_wait() {
    let (mut p, _) = OutputPump::start(5);
    assert!(matches!(p.step(PumpEvent::Polled(Err(WaitFailure::Interrupted))), PumpAction::PollChild));
    assert!(matches!(p.step(PumpEvent::Polled(Err(WaitFailure::NoChild))), PumpAction::WaitChild));
    assert!(matches!(
        p.step(PumpEvent::Waited(Ok(ChildStatus::Exited(3)))),
        PumpAction::Finish(Termination::Exited(3))
    ));
    assert_eq!(p.slot(), 0);
}

#[test]
fn pump_pauses_on_empty_reads() {
    let (mut p, _) = OutputPump::start(5);
    p.step(PumpEvent::Polled(Ok(ChildStatus::StillAlive)));
    assert!(matches!(p.step(PumpEvent::Read(ReadOutcome::Data(0))), PumpAction::Pause(10)));
    p.step(PumpEvent::Polled(Ok(ChildStatus::StillAlive)));
    assert!(matches!(p.step(PumpEvent::Read(ReadOutcome::Failed)), PumpAction::Pause(10)));
    assert_eq!(p.phase(), PumpPhase::Polling);
}

#[test]
fn forwarded_signals_are_int_term_quit() {
    assert_eq!(
        forwarded_signals(),
        vec![Signal::SIGINT as i32, Signal::SIGTERM as i32, Signal::SIGQUIT as i32]
    );
}
