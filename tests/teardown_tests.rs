use container_runtime::cgroup::{CgroupConfig, CgroupManager, CgroupVersion};
use container_runtime::error::ErrorKind;
use container_runtime::teardown::{backoff, CleanupAction, CleanupEvent, CleanupPhase};

fn manager() -> CgroupManager {
    CgroupManager::new(CgroupConfig::new("container-9".to_string()), CgroupVersion::V2).ok().unwrap()
}

#[test]
fn backoff_multiplies_and_caps() {
    assert_eq!(backoff(10, 1, 100), 10);
    assert_eq!(backoff(10, 2, 100), 20);
    assert_eq!(backoff(20, 3, 100), 60);
    assert_eq!(backoff(60, 4, 100), 100);
    assert_eq!(backoff(u64::MAX, 3, 100), 100);
}

#[test]
fn cleanup_with_kill_file_then_removal() {
    let mut m = manager();
    let (mut t, a) = m.cleanup();
    assert!(matches!(a, CleanupAction::CheckExists(ref p) if p == "/sys/fs/cgroup/container-9"));
    let a = t.step(CleanupEvent::Presence(true));
    assert!(matches!(a, CleanupAction::CheckExists(ref p) if p == "/sys/fs/cgroup/container-9/cgroup.kill"));
    let a = t.step(CleanupEvent::Presence(true));
    match a {
        CleanupAction::Write(w) => {
            assert_eq!(w.path, "/sys/fs/cgroup/container-9/cgroup.kill");
            assert_eq!(w.contents, "1");
        }
        other => panic!("unexpected {:?}", other),
    }
    let a = t.step(CleanupEvent::Outcome(Ok(())));
    assert!(matches!(a, CleanupAction::RemoveDir(ref p) if p == "/sys/fs/cgroup/container-9"));
    let a = t.step(CleanupEvent::Outcome(Ok(())));
    assert!(matches!(a, CleanupAction::Finish(Ok(()))));
    assert!(t.is_removed());
    m.finish_cleanup(&t);
    assert!(m.is_removed());
}

#[test]
fn second_cleanup_is_a_no_op() {
    let mut m = manager();
    let (mut t, _) = m.cleanup();
    t.step(CleanupEvent::Presence(false));
    assert!(t.is_removed());
    m.finish_cleanup(&t);
    let (t2, a) = m.cleanup();
    assert!(matches!(a, CleanupAction::Finish(Ok(()))));
    assert_eq!(t2.phase(), CleanupPhase::Finished { removed: true });
}

#[test]
fn cleanup_of_missing_group_succeeds_at_once() {
    let m = manager();
    let (mut t, _) = m.cleanup();
    assert!(matches!(t.step(CleanupEvent::Presence(false)), CleanupAction::Finish(Ok(()))));
}

#[test]
fn cleanup_without_kill_file_kills_each_member() {
    let m = manager();
    let (mut t, _) = m.cleanup();
    t.step(CleanupEvent::Presence(true));
    let a = t.step(CleanupEvent::Presence(false));
    assert!(matches!(a, CleanupAction::Read(ref p) if p == "/sys/fs/cgroup/container-9/cgroup.procs"));
    let a = t.step(CleanupEvent::Content(Ok(b"12\n34\n".to_vec())));
    assert!(matches!(a, CleanupAction::Kill(12)));
    let a = t.step(CleanupEvent::Outcome(Ok(())));
    assert!(matches!(a, CleanupAction::Kill(34)));
    let a = t.step(CleanupEvent::Outcome(Ok(())));
    assert!(matches!(a, CleanupAction::RemoveDir(_)));
}

#[test]
fn cleanup_with_no_members_goes_to_removal() {
    let m = manager();
    let (mut t, _) = m.cleanup();
    t.step(CleanupEvent::Presence(true));
    t.step(CleanupEvent::Presence(false));
    assert!(matches!(t.step(CleanupEvent::Content(Ok(Vec::new()))), CleanupAction::RemoveDir(_)));
}

#[test]
fn bad_procs_text_is_an_io_error() {
    let m = manager();
    let (mut t, _) = m.cleanup();
    t.step(CleanupEvent::Presence(true));
    t.step(CleanupEvent::Presence(false));
    match t.step(CleanupEvent::Content(Ok(b"12\nabc\n".to_vec()))) {
        CleanupAction::Finish(Err(e)) => assert_eq!(e.kind(), ErrorKind::Io),
        other => panic!("unexpected {:?}", other),
    }
}

#[test]
fn failed_kill_is_a_syscall_error() {
    let m = manager();
    let (mut t, _) = m.cleanup();
    t.step(CleanupEvent::Presence(true));
    t.step(CleanupEvent::Presence(false));
    t.step(CleanupEvent::Content(Ok(b"5\n".to_vec())));
    match t.step(CleanupEvent::Outcome(Err("ESRCH".to_string()))) {
        CleanupAction::Finish(Err(e)) => {
            assert_eq!(e.kind(), ErrorKind::Syscall);
            assert_eq!(e.message(), "ESRCH");
        }
        other => panic!("unexpected {:?}", other),
    }
}

#[test]
fn failed_kill_write_is_a_cgroup_error() {
    let m = manager();
    let (mut t, _) = m.cleanup();
    t.step(CleanupEvent::Presence(true));
    t.step(CleanupEvent::Presence(true));
    match t.step(CleanupEvent::Outcome(Err("denied".to_string()))) {
        CleanupAction::Finish(Err(e)) => assert_eq!(e.kind(), ErrorKind::Cgroup),
        other => panic!("unexpected {:?}", other),
    }
}

#[test]
fn removal_retries_with_backoff_then_gives_up() {
    let m = manager();
    let (mut t, _) = m.cleanup();
    t.step(CleanupEvent::Presence(true));
    t.step(CleanupEvent::Presence(true));
    t.step(CleanupEvent::Outcome(Ok(())));
    let mut pauses = Vec::new();
    let mut removals = 1;
    loop {
        match t.step(CleanupEvent::Outcome(Err("busy".to_string()))) {
            CleanupAction::Sleep(ms) => {
                pauses.push(ms);
                assert!(matches!(t.step(CleanupEvent::Slept), CleanupAction::RemoveDir(_)));
                removals += 1;
            }
            CleanupAction::Finish(Err(e)) => {
                assert_eq!(e.kind(), ErrorKind::Cgroup);
                assert_eq!(e.message(), "could not delete");
                break;
            }
            other => panic!("unexpected {:?}", other),
        }
    }
    assert_eq!(removals, 5);
    assert_eq!(pauses, vec![10, 10, 20, 60]);
    assert!(!t.is_removed());
}

#[test]
fn removal_succeeds_after_a_retry() {
    let m = manager();
    let (mut t, _) = m.cleanup();
    t.step(CleanupEvent::Presence(true));
    t.step(CleanupEvent::Presence(true));
    t.step(CleanupEvent::Outcome(Ok(())));
    assert!(matches!(t.step(CleanupEvent::Outcome(Err("busy".to_string()))), CleanupAction::Sleep(10)));
    t.step(CleanupEvent::Slept);
    assert!(matches!(t.step(CleanupEvent::Outcome(Ok(()))), CleanupAction::Finish(Ok(()))));
    assert!(t.is_removed());
}

#[test]
fn unexpected_event_ends_the_teardown() {
    let m = manager();
    let (mut t, _) = m.cleanup();
    match t.step(CleanupEvent::Slept) {
        CleanupAction::Finish(Err(e)) => assert_eq!(e.kind(), ErrorKind::Initialization),
        other => panic!("unexpected {:?}", other),
    }
    assert_eq!(t.phase(), CleanupPhase::Finished { removed: false });
}
