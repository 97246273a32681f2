use container_runtime::cgroup::{CgroupConfig, CgroupManager, CgroupVersion, DEFAULT_CPU_PERIOD};
use container_runtime::cli::ContainerConfig;
use container_runtime::error::ErrorKind;

fn writes(m: &CgroupManager) -> Vec<(String, String)> {
    let setup = m.setup_writes().ok().unwrap();
    setup.limits.iter().map(|w| (w.path.clone(), w.contents.clone())).collect()
}

#[test]
fn new_config_has_default_period_and_no_limits() {
    let c = CgroupConfig::new("box".to_string());
    assert_eq!(c.name, "box");
    assert_eq!(c.cpu_period, Some(100000));
    assert_eq!(c.memory_limit, None);
    assert_eq!(c.memory_swap_limit, None);
    assert_eq!(c.cpu_weight, None);
    assert_eq!(c.cpu_quota, None);
    assert_eq!(c.pids_limit, None);
}

#[test]
fn leader_config_is_named_after_pid() {
    assert_eq!(CgroupConfig::for_leader(4242).name, "container-4242");
    assert_eq!(CgroupConfig::for_leader(-3).name, "container--3");
}

#[test]
fn default_config_is_named_after_this_process() {
    let c = CgroupConfig::default();
    assert_eq!(c.name, format!("container-{}", nix::unistd::getpid().as_raw()));
}

#[test]
fn memory_mb_becomes_bytes() {
    let c = CgroupConfig::new("a".to_string()).with_memory_mb(64);
    assert_eq!(c.memory_limit, Some(67108864));
}

#[test]
fn zero_memory_limit_is_accepted() {
    let c = CgroupConfig::new("a".to_string()).with_memory_mb(0);
    assert_eq!(c.memory_limit, Some(0));
    let m = CgroupManager::new(c, CgroupVersion::V2).ok().unwrap();
    let w = writes(&m);
    assert_eq!(w[0], ("/sys/fs/cgroup/a/memory.max".to_string(), "0".to_string()));
}

#[test]
fn full_cpu_percent_gives_quota_equal_to_period() {
    let c = CgroupConfig::new("a".to_string()).with_cpu_percent(100);
    assert_eq!(c.cpu_quota, Some(DEFAULT_CPU_PERIOD));
    assert_eq!(c.cpu_quota, c.cpu_period);
}

#[test]
fn cpu_percent_uses_configured_period() {
    let mut c = CgroupConfig::new("a".to_string());
    c.cpu_period = Some(50000);
    let c = c.with_cpu_percent(30);
    assert_eq!(c.cpu_quota, Some(15000));
    let mut d = CgroupConfig::new("a".to_string());
    d.cpu_period = None;
    assert_eq!(d.with_cpu_percent(50).cpu_quota, Some(50000));
}

#[test]
fn weight_and_pids_builders() {
    let c = CgroupConfig::new("a".to_string()).with_cpu_weight(200).with_pids_limit(17);
    assert_eq!(c.cpu_weight, Some(200));
    assert_eq!(c.pids_limit, Some(17));
}

#[test]
fn version_detection() {
    assert_eq!(CgroupManager::detect_cgroup_version(true), CgroupVersion::V2);
    assert_eq!(CgroupManager::detect_cgroup_version(false), CgroupVersion::V1);
    assert_eq!(CgroupManager::controllers_probe_path(), "/sys/fs/cgroup/cgroup.controllers");
}

#[test]
fn manager_paths() {
    let m = CgroupManager::new(CgroupConfig::new("c1".to_string()), CgroupVersion::V2).ok().unwrap();
    assert_eq!(m.cgroup_path(), "/sys/fs/cgroup/c1");
    assert!(!m.is_removed());
    let v1 = CgroupManager::new(CgroupConfig::new("c1".to_string()), CgroupVersion::V1).ok().unwrap();
    assert_eq!(v1.cgroup_path(), "/sys/fs/cgroup");
}

#[test]
fn memory_limit_of_64_mb_is_written_in_bytes() {
    let c = CgroupConfig::new("container-7".to_string()).with_memory_mb(64);
    let m = CgroupManager::new(c, CgroupVersion::V2).ok().unwrap();
    assert_eq!(
        writes(&m),
        vec![
            ("/sys/fs/cgroup/container-7/memory.max".to_string(), "67108864".to_string()),
            ("/sys/fs/cgroup/container-7/memory.swap.max".to_string(), "0".to_string()),
        ]
    );
}

#[test]
fn swap_limit_replaces_swap_zero() {
    let mut c = CgroupConfig::new("g".to_string()).with_memory_mb(1);
    c.memory_swap_limit = Some(2048);
    let m = CgroupManager::new(c, CgroupVersion::V2).ok().unwrap();
    assert_eq!(
        writes(&m),
        vec![
            ("/sys/fs/cgroup/g/memory.max".to_string(), "1048576".to_string()),
            ("/sys/fs/cgroup/g/memory.swap.max".to_string(), "2048".to_string()),
        ]
    );
}

#[test]
fn all_limits_in_order() {
    let c = CgroupConfig::new("g".to_string())
        .with_cpu_weight(50)
        .with_cpu_percent(25)
        .with_pids_limit(10);
    let m = CgroupManager::new(c, CgroupVersion::V2).ok().unwrap();
    assert_eq!(
        writes(&m),
        vec![
            ("/sys/fs/cgroup/g/cpu.weight".to_string(), "50".to_string()),
            ("/sys/fs/cgroup/g/cpu.max".to_string(), "25000 100000".to_string()),
            ("/sys/fs/cgroup/g/pids.max".to_string(), "10".to_string()),
        ]
    );
}

#[test]
fn unlimited_quota_is_max() {
    let mut c = CgroupConfig::new("g".to_string());
    c.cpu_quota = Some(u64::MAX);
    let m = CgroupManager::new(c, CgroupVersion::V2).ok().unwrap();
    assert_eq!(writes(&m), vec![("/sys/fs/cgroup/g/cpu.max".to_string(), "max".to_string())]);
}

#[test]
fn unlimited_pids_is_written_as_max() {
    let c = CgroupConfig::new("g".to_string()).with_pids_limit(i64::MAX);
    let m = CgroupManager::new(c, CgroupVersion::V2).ok().unwrap();
    assert_eq!(writes(&m), vec![("/sys/fs/cgroup/g/pids.max".to_string(), "max".to_string())]);
}

#[test]
fn pids_limit_of_one() {
    let c = CgroupConfig::new("g".to_string()).with_pids_limit(1);
    let m = CgroupManager::new(c, CgroupVersion::V2).ok().unwrap();
    assert_eq!(writes(&m), vec![("/sys/fs/cgroup/g/pids.max".to_string(), "1".to_string())]);
}

#[test]
fn controllers_are_enabled_on_the_root() {
    let m = CgroupManager::new(CgroupConfig::new("g".to_string()), CgroupVersion::V2).ok().unwrap();
    let setup = m.setup_writes().ok().unwrap();
    assert_eq!(setup.directory, "/sys/fs/cgroup/g");
    let got: Vec<(String, String)> =
        setup.controllers.iter().map(|w| (w.path.clone(), w.contents.clone())).collect();
    let f = "/sys/fs/cgroup/cgroup.subtree_control".to_string();
    assert_eq!(
        got,
        vec![
            (f.clone(), "+cpu".to_string()),
            (f.clone(), "+memory".to_string()),
            (f.clone(), "+pids".to_string()),
            (f, "+io".to_string()),
        ]
    );
    assert!(setup.limits.is_empty());
}

#[test]
fn v1_is_unsupported() {
    let m = CgroupManager::new(CgroupConfig::new("g".to_string()), CgroupVersion::V1).ok().unwrap();
    let e = m.setup_writes().err().unwrap();
    assert_eq!(e.kind(), ErrorKind::InvalidConfiguration);
    assert_eq!(e.message(), "cgroup v1 is not supported");
    assert_eq!(m.attach_write(5).err().unwrap().kind(), ErrorKind::InvalidConfiguration);
}

#[test]
fn attach_writes_pid_to_procs() {
    let m = CgroupManager::new(CgroupConfig::new("g".to_string()), CgroupVersion::V2).ok().unwrap();
    let w = m.attach_write(1234).ok().unwrap();
    assert_eq!(w.path, "/sys/fs/cgroup/g/cgroup.procs");
    assert_eq!(w.contents, "1234");
}

#[test]
fn failed_limit_write_is_a_cgroup_error() {
    let e = CgroupManager::write_error("/sys/fs/cgroup/g/memory.max", "Invalid argument");
    assert_eq!(e.kind(), ErrorKind::Cgroup);
    assert_eq!(e.message(), "Failed to write to /sys/fs/cgroup/g/memory.max: Invalid argument");
    let c = CgroupManager::create_error("denied");
    assert_eq!(c.kind(), ErrorKind::Cgroup);
    assert_eq!(c.message(), "Failed to create cgroup directory: denied");
}

#[test]
fn run_config_to_cgroup_config() {
    let run = ContainerConfig {
        rootfs: "/tmp/alpine".to_string(),
        command: "/bin/sh".to_string(),
        args: vec![],
        hostname: None,
        memory_limit_mb: Some(64),
        cpu_percent: Some(50),
        pids_limit: Some(1),
    };
    let c = run.cgroup_config(99).ok().unwrap().unwrap();
    assert_eq!(c.name, "container-99");
    assert_eq!(c.memory_limit, Some(67108864));
    assert_eq!(c.cpu_quota, Some(50000));
    assert_eq!(c.pids_limit, Some(1));
    let none = ContainerConfig { memory_limit_mb: None, cpu_percent: None, pids_limit: None, ..run.clone() };
    assert!(none.cgroup_config(99).ok().unwrap().is_none());
    let huge = ContainerConfig { memory_limit_mb: Some(u64::MAX), ..run };
    assert_eq!(huge.cgroup_config(1).err().unwrap().kind(), ErrorKind::InvalidConfiguration);
}

#[test]
fn release_moves_pid_to_root_group() {
    let m = CgroupManager::new(CgroupConfig::new("g".to_string()), CgroupVersion::V2).ok().unwrap();
    let w = m.release_write(77).ok().unwrap();
    assert_eq!(w.path, "/sys/fs/cgroup/cgroup.procs");
    assert_eq!(w.contents, "77");
}
