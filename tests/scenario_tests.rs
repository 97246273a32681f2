use container_runtime::boot::{boot_plan, check_privileges, error_exit_code, BootStage};
use container_runtime::cgroup::{CgroupManager, CgroupVersion};
use container_runtime::cli::ContainerConfig;
use container_runtime::error::ErrorKind;
use container_runtime::filesystem::FilesystemManager;
use container_runtime::namespace::{NamespaceManager, ParentStep};
use container_runtime::supervisor::{ChildStatus, ChildSupervisor, ReapStep, Termination};
use container_runtime::teardown::{CleanupAction, CleanupEvent};

fn config(command: &str, args: &[&str]) -> ContainerConfig {
    ContainerConfig {
        rootfs: "/tmp/alpine".to_string(),
        command: command.to_string(),
        args: args.iter().map(|a| a.to_string()).collect(),
        hostname: None,
        memory_limit_mb: None,
        cpu_percent: None,
        pids_limit: None,
    }
}

/// The outer parent's exit code once the pid-1 child, which exits with the
/// command's code, has ended.
fn outer_exit(command_ended: Termination) -> i32 {
    match NamespaceManager::pid_namespace_wait_step(Ok(ChildStatus::Exited(command_ended.exit_code()))) {
        ParentStep::Exit(code) => code,
        ParentStep::WaitAgain => panic!("the parent should stop waiting"),
    }
}

#[test]
fn true_command_exits_zero_without_cgroup() {
    let c = config("/bin/true", &[]);
    let plan = boot_plan(&c);
    assert!(!plan.contains(&BootStage::SetupCgroup));
    assert!(c.cgroup_config(1).ok().unwrap().is_none());
    let mut s = ChildSupervisor::started(2);
    let ended = match s.observe(Ok(ChildStatus::Exited(0))) {
        ReapStep::Terminated(t) => t,
        _ => panic!("expected the child's end"),
    };
    assert!(ended.result().is_ok());
    assert_eq!(outer_exit(ended), 0);
}

#[test]
fn exit_seven_with_memory_limit() {
    let c = ContainerConfig { memory_limit_mb: Some(64), ..config("/bin/sh", &["-c", "exit 7"]) };
    let cg = c.cgroup_config(4321).ok().unwrap().unwrap();
    let m = CgroupManager::new(cg, CgroupVersion::V2).ok().unwrap();
    let setup = m.setup_writes().ok().unwrap();
    assert_eq!(setup.limits[0].path, "/sys/fs/cgroup/container-4321/memory.max");
    assert_eq!(setup.limits[0].contents, "67108864");
    let ended = Termination::Exited(7);
    assert_eq!(ended.result().err().unwrap().kind(), ErrorKind::ProcessExecution);
    assert_eq!(outer_exit(ended), 7);
}

#[test]
fn self_terminated_shell_exits_143() {
    let mut s = ChildSupervisor::started(2);
    let ended = match s.observe(Ok(ChildStatus::Signaled(15))) {
        ReapStep::Terminated(t) => t,
        _ => panic!("expected the child's end"),
    };
    assert_eq!(outer_exit(ended), 143);
}

#[test]
fn missing_rootfs_exits_one() {
    let e = FilesystemManager::validate_rootfs("/nonexistent", false, false, &[]).err().unwrap();
    assert_eq!(e.kind(), ErrorKind::Filesystem);
    assert_eq!(error_exit_code(&e), 1);
    assert_eq!(NamespaceManager::pid_namespace_wait_step(Ok(ChildStatus::Exited(1))), ParentStep::Exit(1));
}

#[test]
fn non_root_is_refused_before_any_namespace_work() {
    let plan = boot_plan(&config("/bin/true", &[]));
    assert_eq!(plan[0], BootStage::CheckRoot);
    let e = check_privileges(1000).err().unwrap();
    assert_eq!(e.kind(), ErrorKind::RootRequired);
    assert_eq!(error_exit_code(&e), 1);
}

#[test]
fn pids_limit_one_fails_and_group_is_removed() {
    let c = ContainerConfig { pids_limit: Some(1), ..config("/bin/sh", &["-c", "/bin/sh -c true"]) };
    let mut m = CgroupManager::new(c.cgroup_config(50).ok().unwrap().unwrap(), CgroupVersion::V2).ok().unwrap();
    let setup = m.setup_writes().ok().unwrap();
    assert_eq!(setup.limits[0].path, "/sys/fs/cgroup/container-50/pids.max");
    assert_eq!(setup.limits[0].contents, "1");
    let fork_failed = NamespaceManager::fork_error("EAGAIN: Try again");
    assert_eq!(fork_failed.kind(), ErrorKind::NamespaceSetup);
    assert_ne!(error_exit_code(&fork_failed), 0);
    let (mut t, a) = m.cleanup();
    assert!(matches!(a, CleanupAction::CheckExists(_)));
    t.step(CleanupEvent::Presence(true));
    t.step(CleanupEvent::Presence(true));
    assert!(matches!(t.step(CleanupEvent::Outcome(Ok(()))), CleanupAction::RemoveDir(_)));
    assert!(matches!(t.step(CleanupEvent::Outcome(Ok(()))), CleanupAction::Finish(Ok(()))));
    m.finish_cleanup(&t);
    assert!(m.is_removed());
}
