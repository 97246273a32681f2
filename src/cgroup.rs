//! Control-group (v2) configuration, the writes that set a group up, and
//! the step-by-step teardown of a group.

use vstd::prelude::*;
use crate::error::{ContainerError, ContainerResult, ErrorKind};
use crate::text::{decimal, signed_decimal, u64_to_decimal, i64_to_decimal};
use crate::namespace::NamespaceManager;
use crate::teardown::{CgroupTeardown, CleanupAction, CleanupPhase};

verus! {

/// The CPU period that a configuration starts with, in microseconds.
pub const DEFAULT_CPU_PERIOD: u64 = 100000;

/// Bytes in one mebibyte.
pub const MIB: u64 = 1048576;

/// Mount point of the unified cgroup hierarchy.
pub open spec fn cgroup_root() -> Seq<char> {
    "/sys/fs/cgroup"@
}

/// Returns the mount point of the unified cgroup hierarchy.
pub fn cgroup_root_path() -> (r: String)
    ensures
        r@ == cgroup_root(),
{
    String::from_str("/sys/fs/cgroup")
}

/// `dir/leaf`.
pub open spec fn join(dir: Seq<char>, leaf: Seq<char>) -> Seq<char> {
    dir + seq!['/'] + leaf
}

/// The default group name of a leader: `container-<pid>`.
pub open spec fn container_name(pid: int) -> Seq<char> {
    seq!['c', 'o', 'n', 't', 'a', 'i', 'n', 'e', 'r', '-'] + signed_decimal(pid)
}

/// Returns `dir/leaf`.
pub fn join_path(dir: &str, leaf: &str) -> (r: String)
    ensures
        r@ == join(dir@, leaf@),
{
    let slash = "/";
    proof {
        reveal_strlit("/");
    }
    let r = String::from_str(dir).concat(slash).concat(leaf);
    assert(r@ =~= join(dir@, leaf@));
    r
}

/// Requested limits of one control group.
#[derive(Debug, Clone)]
pub struct CgroupConfig {
    pub name: String,
    /// Bytes.
    pub memory_limit: Option<u64>,
    /// Bytes.
    pub memory_swap_limit: Option<u64>,
    pub cpu_weight: Option<u64>,
    /// Microseconds per period.
    pub cpu_quota: Option<u64>,
    /// Microseconds.
    pub cpu_period: Option<u64>,
    /// `i64::MAX` stands for no limit.
    pub pids_limit: Option<i64>,
}

/// The quota, in microseconds, that is `percent` percent of `period`.
pub open spec fn quota_for_percent(period: u64, percent: u64) -> int {
    period * percent / 100
}

impl CgroupConfig {
    /// A configuration named `name` with no limit and the default CPU period.
    pub fn new(name: String) -> (r: CgroupConfig)
        ensures
            r.name@ == name@,
            r.memory_limit is None,
            r.memory_swap_limit is None,
            r.cpu_weight is None,
            r.cpu_quota is None,
            r.cpu_period == Some(DEFAULT_CPU_PERIOD),
            r.pids_limit is None,
    {
        CgroupConfig {
            name,
            memory_limit: None,
            memory_swap_limit: None,
            cpu_weight: None,
            cpu_quota: None,
            cpu_period: Some(DEFAULT_CPU_PERIOD),
            pids_limit: None,
        }
    }

    /// The configuration of the group led by process `pid`, named `container-<pid>`.
    pub fn for_leader(pid: i32) -> (r: CgroupConfig)
        ensures
            r.name@ == container_name(pid as int),
            r.memory_limit is None,
            r.memory_swap_limit is None,
            r.cpu_weight is None,
            r.cpu_quota is None,
            r.cpu_period == Some(DEFAULT_CPU_PERIOD),
            r.pids_limit is None,
    {
        let prefix = "container-";
        proof {
            reveal_strlit("container-");
        }
        let digits = i64_to_decimal(pid as i64);
        let name = String::from_str(prefix).concat(digits.as_str());
        assert(name@ =~= container_name(pid as int));
        CgroupConfig::new(name)
    }

    /// Sets the memory limit to `mb` mebibytes.
    pub fn with_memory_mb(self, mb: u64) -> (r: CgroupConfig)
        requires
            mb * MIB <= u64::MAX,
        ensures
            r == (CgroupConfig { memory_limit: Some((mb * MIB) as u64), ..self }),
    {
        CgroupConfig { memory_limit: Some(mb * MIB), ..self }
    }

        /// Sets the CPU quota to `cpu_percent` percent of the period (the default
    /// period where none is set).
    pub fn with_cpu_percent(self, cpu_percent: u64) -> (r: CgroupConfig)
        requires
            self.cpu_period.unwrap_or(DEFAULT_CPU_PERIOD) * cpu_percent <= u64::MAX,
        ensures
            r == (CgroupConfig {
                cpu_quota: Some(
                    quota_for_percent(self.cpu_period.unwrap_or(DEFAULT_CPU_PERIOD), cpu_percent)
                        as u64,
                ),
                ..self
            }),
    {
        let period = match self.cpu_period {
            Some(p) => p,
            None => DEFAULT_CPU_PERIOD,
        };
        CgroupConfig { cpu_quota: Some(period * cpu_percent / 100), ..self }
    }

    /// Sets the largest number of processes; `i64::MAX` means no limit.
    pub fn with_pids_limit(self, limit: i64) -> (r: CgroupConfig)
        ensures
            r == (CgroupConfig { pids_limit: Some(limit), ..self }),
    {
        CgroupConfig { pids_limit: Some(limit), ..self }
    }

    /// Sets the relative CPU weight.
    pub fn with_cpu_weight(self, weight: u64) -> (r: CgroupConfig)
        ensures
            r == (CgroupConfig { cpu_weight: Some(weight), ..self }),
    {
        CgroupConfig { cpu_weight: Some(weight), ..self }
    }
}

impl Default for CgroupConfig {
    /// The configuration of the group led by this process.
    fn default() -> (r: CgroupConfig)
        ensures
            exists|pid: i32| r.name@ == container_name(pid as int),
            r.memory_limit is None,
            r.memory_swap_limit is None,
            r.cpu_weight is None,
            r.cpu_quota is None,
            r.cpu_period == Some(DEFAULT_CPU_PERIOD),
            r.pids_limit is None,
    {
        let pid = NamespaceManager::get_current_pid();
        CgroupConfig::for_leader(pid)
    }
}

/// One write of `contents` to the control file at `path`.
#[derive(Debug, Clone)]
pub struct FileWrite {
    pub path: String,
    pub contents: String,
}

impl View for FileWrite {
    type V = (Seq<char>, Seq<char>);

    open spec fn view(&self) -> (Seq<char>, Seq<char>) {
        (self.path@, self.contents@)
    }
}

pub open spec fn writes_view(s: Seq<FileWrite>) -> Seq<(Seq<char>, Seq<char>)> {
    s.map_values(|w: FileWrite| w@)
}

/// What `cpu.max` receives for a quota and a period.
pub open spec fn cpu_max_value(quota: u64, period: u64) -> Seq<char> {
    if quota == u64::MAX {
        "max"@
    } else {
        decimal(quota as nat) + " "@ + decimal(period as nat)
    }
}

/// What `pids.max` receives for a limit.
pub open spec fn pids_max_value(limit: i64) -> Seq<char> {
    if limit == i64::MAX {
        "max"@
    } else {
        signed_decimal(limit as int)
    }
}

pub open spec fn memory_writes(dir: Seq<char>, c: CgroupConfig) -> Seq<(Seq<char>, Seq<char>)> {
    match c.memory_limit {
        Some(m) => seq![(join(dir, "memory.max"@), decimal(m as nat))] + if c.memory_swap_limit is None {
            seq![(join(dir, "memory.swap.max"@), "0"@)]
        } else {
            Seq::empty()
        },
        None => Seq::empty(),
    }
}

pub open spec fn swap_writes(dir: Seq<char>, c: CgroupConfig) -> Seq<(Seq<char>, Seq<char>)> {
    match c.memory_swap_limit {
        Some(s) => seq![(join(dir, "memory.swap.max"@), decimal(s as nat))],
        None => Seq::empty(),
    }
}

pub open spec fn weight_writes(dir: Seq<char>, c: CgroupConfig) -> Seq<(Seq<char>, Seq<char>)> {
    match c.cpu_weight {
        Some(w) => seq![(join(dir, "cpu.weight"@), decimal(w as nat))],
        None => Seq::empty(),
    }
}

pub open spec fn cpu_max_writes(dir: Seq<char>, c: CgroupConfig) -> Seq<(Seq<char>, Seq<char>)> {
    if c.cpu_quota is Some && c.cpu_period is Some {
        seq![(join(dir, "cpu.max"@), cpu_max_value(c.cpu_quota->0, c.cpu_period->0))]
    } else {
        Seq::empty()
    }
}

pub open spec fn pids_writes(dir: Seq<char>, c: CgroupConfig) -> Seq<(Seq<char>, Seq<char>)> {
    match c.pids_limit {
        Some(l) => seq![(join(dir, "pids.max"@), pids_max_value(l))],
        None => Seq::empty(),
    }
}

/// The limit files of group directory `dir` and what each receives, in the
/// order they are written: memory, swap, CPU weight, CPU quota, processes.
pub open spec fn limit_writes(dir: Seq<char>, c: CgroupConfig) -> Seq<(Seq<char>, Seq<char>)> {
    memory_writes(dir, c) + swap_writes(dir, c) + weight_writes(dir, c) + cpu_max_writes(dir, c)
        + pids_writes(dir, c)
}

/// The writes to the root's `cgroup.subtree_control` that enable the
/// controllers a group needs.
pub open spec fn controller_writes() -> Seq<(Seq<char>, Seq<char>)> {
    let f = join(cgroup_root(), "cgroup.subtree_control"@);
    seq![(f, "+cpu"@), (f, "+memory"@), (f, "+pids"@), (f, "+io"@)]
}

fn file_write(dir: &str, leaf: &str, contents: String) -> (w: FileWrite)
    ensures
        w@ == (join(dir@, leaf@), contents@),
{
    FileWrite { path: join_path(dir, leaf), contents }
}

fn push_write(v: &mut Vec<FileWrite>, w: FileWrite)
    ensures
        writes_view(final(v)@) == writes_view(old(v)@).push(w@),
{
    v.push(w);
    assert(writes_view(final(v)@) =~= writes_view(old(v)@).push(w@));
}

fn cpu_max_string(quota: u64, period: u64) -> (r: String)
    ensures
        r@ == cpu_max_value(quota, period),
{
    if quota == u64::MAX {
        String::from_str("max")
    } else {
        let r = u64_to_decimal(quota).concat(" ").concat(u64_to_decimal(period).as_str());
        r
    }
}

fn pids_max_string(limit: i64) -> (r: String)
    ensures
        r@ == pids_max_value(limit),
{
    if limit == i64::MAX {
        String::from_str("max")
    } else {
        i64_to_decimal(limit)
    }
}

/// Returns the limit writes of group directory `dir` for configuration `c`.
pub fn build_limit_writes(dir: &str, c: &CgroupConfig) -> (r: Vec<FileWrite>)
    ensures
        writes_view(r@) == limit_writes(dir@, *c),
{
    let mut v: Vec<FileWrite> = Vec::new();
    assert(writes_view(v@) =~= Seq::empty());
    if let Some(m) = c.memory_limit {
        push_write(&mut v, file_write(dir, "memory.max", u64_to_decimal(m)));
        if c.memory_swap_limit.is_none() {
            push_write(&mut v, file_write(dir, "memory.swap.max", String::from_str("0")));
        }
    }
    assert(writes_view(v@) =~= memory_writes(dir@, *c));
    if let Some(s) = c.memory_swap_limit {
        push_write(&mut v, file_write(dir, "memory.swap.max", u64_to_decimal(s)));
    }
    assert(writes_view(v@) =~= memory_writes(dir@, *c) + swap_writes(dir@, *c));
    if let Some(w) = c.cpu_weight {
        push_write(&mut v, file_write(dir, "cpu.weight", u64_to_decimal(w)));
    }
    assert(writes_view(v@) =~= memory_writes(dir@, *c) + swap_writes(dir@, *c) + weight_writes(
        dir@,
        *c,
    ));
    if let (Some(q), Some(p)) = (c.cpu_quota, c.cpu_period) {
        push_write(&mut v, file_write(dir, "cpu.max", cpu_max_string(q, p)));
    }
    assert(writes_view(v@) =~= memory_writes(dir@, *c) + swap_writes(dir@, *c) + weight_writes(
        dir@,
        *c,
    ) + cpu_max_writes(dir@, *c));
    if let Some(l) = c.pids_limit {
        push_write(&mut v, file_write(dir, "pids.max", pids_max_string(l)));
    }
    assert(writes_view(v@) =~= limit_writes(dir@, *c));
    v
}

/// Returns the controller-enabling writes, in order.
pub fn build_controller_writes() -> (r: Vec<FileWrite>)
    ensures
        writes_view(r@) == controller_writes(),
{
    let root = cgroup_root_path();
    let mut v: Vec<FileWrite> = Vec::new();
    push_write(&mut v, file_write(root.as_str(), "cgroup.subtree_control", String::from_str("+cpu")));
    push_write(&mut v, file_write(root.as_str(), "cgroup.subtree_control", String::from_str("+memory")));
    push_write(&mut v, file_write(root.as_str(), "cgroup.subtree_control", String::from_str("+pids")));
    push_write(&mut v, file_write(root.as_str(), "cgroup.subtree_control", String::from_str("+io")));
    assert(writes_view(v@) =~= controller_writes());
    v
}

/// A quota of one hundred percent is the whole period.
pub proof fn lemma_full_percent_quota_is_period(period: u64)
    requires
        period * 100 <= u64::MAX,
    ensures
        quota_for_percent(period, 100) == period,
{
}

proof fn lemma_join_differs(dir: Seq<char>, a: Seq<char>, b: Seq<char>, i: int)
    requires
        0 <= i < a.len(),
        i < b.len(),
        a[i] != b[i],
    ensures
        join(dir, a) != join(dir, b),
{
    assert(join(dir, a)[dir.len() + 1 + i] == a[i]);
    assert(join(dir, b)[dir.len() + 1 + i] == b[i]);
}

proof fn lemma_join_len_differs(dir: Seq<char>, a: Seq<char>, b: Seq<char>)
    requires
        a.len() != b.len(),
    ensures
        join(dir, a) != join(dir, b),
{
    assert(join(dir, a).len() != join(dir, b).len());
}

/// With a memory limit of `mb` mebibytes, setting the group up writes
/// `mb * 1048576` in decimal to its `memory.max`, first of all the limit
/// writes, and no other write goes to that file.
pub proof fn lemma_memory_limit_written(dir: Seq<char>, c: CgroupConfig, mb: u64)
    requires
        mb * MIB <= u64::MAX,
        c.memory_limit == Some((mb * MIB) as u64),
    ensures
        limit_writes(dir, c).len() > 0,
        limit_writes(dir, c)[0] == (join(dir, "memory.max"@), decimal((mb * MIB) as nat)),
        forall|i: int|
            0 < i < limit_writes(dir, c).len() ==> (#[trigger] limit_writes(dir, c)[i]).0 != join(
                dir,
                "memory.max"@,
            ),
{
    reveal_strlit("memory.max");
    reveal_strlit("memory.swap.max");
    reveal_strlit("cpu.weight");
    reveal_strlit("cpu.max");
    reveal_strlit("pids.max");
    lemma_join_len_differs(dir, "memory.swap.max"@, "memory.max"@);
    lemma_join_differs(dir, "cpu.weight"@, "memory.max"@, 0);
    lemma_join_len_differs(dir, "cpu.max"@, "memory.max"@);
    lemma_join_len_differs(dir, "pids.max"@, "memory.max"@);
    let w = limit_writes(dir, c);
    assert(w[0] == (join(dir, "memory.max"@), decimal((mb * MIB) as nat)));
    assert forall|i: int| 0 < i < w.len() implies (#[trigger] w[i]).0 != join(dir, "memory.max"@) by {
        let leaves = seq!["memory.swap.max"@, "cpu.weight"@, "cpu.max"@, "pids.max"@];
        assert(exists|k: int| 0 <= k < 4 && w[i].0 == join(dir, #[trigger] leaves[k]));
    }
}

/// A process limit of `i64::MAX` is written to `pids.max` as `max`, by the
/// last of the limit writes.
pub proof fn lemma_unlimited_pids_written_as_max(dir: Seq<char>, c: CgroupConfig)
    requires
        c.pids_limit == Some(i64::MAX),
    ensures
        limit_writes(dir, c).len() > 0,
        limit_writes(dir, c).last() == (join(dir, "pids.max"@), "max"@),
{
}

/// The cgroup hierarchy found on the host.
#[derive(PartialEq, Eq, Structural, Clone, Copy, Debug)]
pub enum CgroupVersion {
    V1,
    V2,
}

/// The writes that set a v2 group up: its directory, the controller writes
/// (whose failure is only worth a warning) and the limit writes (whose
/// failure is fatal), each list in order.
#[derive(Debug)]
pub struct CgroupSetup {
    pub directory: String,
    pub controllers: Vec<FileWrite>,
    pub limits: Vec<FileWrite>,
}

/// One control group of the container: its directory, its configuration,
/// the hierarchy it lives in, and whether it has been removed.
#[derive(Debug)]
pub struct CgroupManager {
    cgroup_path: String,
    config: CgroupConfig,
    cgroup_version: CgroupVersion,
    removed: bool,
}

/// The directory of the group that `c` names under hierarchy `v`.
pub open spec fn group_directory(c: CgroupConfig, v: CgroupVersion) -> Seq<char> {
    match v {
        CgroupVersion::V1 => cgroup_root(),
        CgroupVersion::V2 => join(cgroup_root(), c.name@),
    }
}

pub open spec fn unsupported_v1_message() -> Seq<char> {
    "cgroup v1 is not supported"@
}

impl CgroupManager {
    pub closed spec fn spec_path(&self) -> Seq<char> {
        self.cgroup_path@
    }

    pub closed spec fn spec_config(&self) -> CgroupConfig {
        self.config
    }

    pub closed spec fn spec_version(&self) -> CgroupVersion {
        self.cgroup_version
    }

    /// The group's directory has been removed by a completed teardown.
    pub closed spec fn spec_removed(&self) -> bool {
        self.removed
    }

    /// Which hierarchy the host has, from whether the root holds `cgroup.controllers`.
    pub fn detect_cgroup_version(controllers_present: bool) -> (v: CgroupVersion)
        ensures
            v == (if controllers_present {
                CgroupVersion::V2
            } else {
                CgroupVersion::V1
            }),
    {
        if controllers_present {
            CgroupVersion::V2
        } else {
            CgroupVersion::V1
        }
    }

    /// The file whose presence marks the v2 hierarchy.
    pub fn controllers_probe_path() -> (r: String)
        ensures
            r@ == join(cgroup_root(), "cgroup.controllers"@),
    {
        join_path(cgroup_root_path().as_str(), "cgroup.controllers")
    }

    /// A manager for the group that `config` names, under hierarchy `version`.
    pub fn new(config: CgroupConfig, version: CgroupVersion) -> (r: ContainerResult<CgroupManager>)
        ensures
            r is Ok,
            r->Ok_0.spec_path() == group_directory(config, version),
            r->Ok_0.spec_config() == config,
            r->Ok_0.spec_version() == version,
            !r->Ok_0.spec_removed(),
    {
        let root = cgroup_root_path();
        let cgroup_path = match version {
            CgroupVersion::V1 => root,
            CgroupVersion::V2 => join_path(root.as_str(), config.name.as_str()),
        };
        Ok(CgroupManager { cgroup_path, config, cgroup_version: version, removed: false })
    }

    pub fn cgroup_path(&self) -> (r: &String)
        ensures
            r@ == self.spec_path(),
    {
        &self.cgroup_path
    }

    pub fn config(&self) -> (r: &CgroupConfig)
        ensures
            *r == self.spec_config(),
    {
        &self.config
    }

    pub fn version(&self) -> (r: CgroupVersion)
        ensures
            r == self.spec_version(),
    {
        self.cgroup_version
    }

    pub fn is_removed(&self) -> (r: bool)
        ensures
            r == self.spec_removed(),
    {
        self.removed
    }

    /// What setting the group up writes. Under v1 nothing is written and the
    /// answer is `InvalidConfiguration`.
    pub fn setup_writes(&self) -> (r: ContainerResult<CgroupSetup>)
        ensures
            self.spec_version() == CgroupVersion::V1 <==> r is Err,
            r is Err ==> r->Err_0.is(ErrorKind::InvalidConfiguration, unsupported_v1_message()),
            r is Ok ==> r->Ok_0.directory@ == self.spec_path() && writes_view(r->Ok_0.controllers@)
                == controller_writes() && writes_view(r->Ok_0.limits@) == limit_writes(
                self.spec_path(),
                self.spec_config(),
            ),
    {
        match self.cgroup_version {
            CgroupVersion::V1 => Err(
                ContainerError::invalid_configuration(String::from_str("cgroup v1 is not supported")),
            ),
            CgroupVersion::V2 => Ok(
                CgroupSetup {
                    directory: self.cgroup_path.clone(),
                    controllers: build_controller_writes(),
                    limits: build_limit_writes(self.cgroup_path.as_str(), &self.config),
                },
            ),
        }
    }

    /// The write that moves process `pid` into the group. Under v1 the answer
    /// is `InvalidConfiguration`.
    pub fn attach_write(&self, pid: i32) -> (r: ContainerResult<FileWrite>)
        ensures
            self.spec_version() == CgroupVersion::V1 <==> r is Err,
            r is Err ==> r->Err_0.is(ErrorKind::InvalidConfiguration, unsupported_v1_message()),
            r is Ok ==> r->Ok_0@ == (join(self.spec_path(), "cgroup.procs"@), signed_decimal(
                pid as int,
            )),
    {
        match self.cgroup_version {
            CgroupVersion::V1 => Err(
                ContainerError::invalid_configuration(String::from_str("cgroup v1 is not supported")),
            ),
            CgroupVersion::V2 => Ok(
                file_write(self.cgroup_path.as_str(), "cgroup.procs", i64_to_decimal(pid as i64)),
            ),
        }
    }

    /// The write that moves process `pid` back to the root group, so that
    /// the group can be removed while `pid` lives on. Under v1 the answer is
    /// `InvalidConfiguration`.
    pub fn release_write(&self, pid: i32) -> (r: ContainerResult<FileWrite>)
        ensures
            self.spec_version() == CgroupVersion::V1 <==> r is Err,
            r is Err ==> r->Err_0.is(ErrorKind::InvalidConfiguration, unsupported_v1_message()),
            r is Ok ==> r->Ok_0@ == (join(cgroup_root(), "cgroup.procs"@), signed_decimal(
                pid as int,
            )),
    {
        match self.cgroup_version {
            CgroupVersion::V1 => Err(
                ContainerError::invalid_configuration(String::from_str("cgroup v1 is not supported")),
            ),
            CgroupVersion::V2 => Ok(
                file_write(cgroup_root_path().as_str(), "cgroup.procs", i64_to_decimal(pid as i64)),
            ),
        }
    }

    /// Starts the teardown of the group: kill its members, then remove its
    /// directory. Once a teardown has removed the group, another one is a
    /// no-op: it reports success at once and asks for nothing.
    pub fn cleanup(&self) -> (r: (CgroupTeardown, CleanupAction))
        ensures
            r.0.spec_path() == self.spec_path(),
            self.spec_removed() ==> r.0.spec_phase() == (CleanupPhase::Finished {
                removed: true,
            }) && r.1 == CleanupAction::Finish(Ok(())),
            !self.spec_removed() ==> r.0.spec_phase() == CleanupPhase::CheckGroup && r.1 is CheckExists
                && r.1->CheckExists_0@ == self.spec_path(),
    {
        CgroupTeardown::begin(self)
    }

    /// Records how a teardown of this group ended.
    pub fn finish_cleanup(&mut self, t: &CgroupTeardown)
        ensures
            final(self).spec_removed() == (old(self).spec_removed() || t.spec_phase() == (
            CleanupPhase::Finished { removed: true })),
            final(self).spec_path() == old(self).spec_path(),
            final(self).spec_config() == old(self).spec_config(),
            final(self).spec_version() == old(self).spec_version(),
    {
        if t.is_removed() {
            self.removed = true;
        }
    }

    /// The error that a failed write of a control file becomes.
    pub fn write_error(path: &str, reason: &str) -> (e: ContainerError)
        ensures
            e.is(ErrorKind::Cgroup, "Failed to write to "@ + path@ + ": "@ + reason@),
    {
        let m = String::from_str("Failed to write to ").concat(path).concat(": ").concat(reason);
        ContainerError::cgroup_setup(m)
    }

    /// The error that a failed creation of the group's directory becomes.
    pub fn create_error(reason: &str) -> (e: ContainerError)
        ensures
            e.is(ErrorKind::Cgroup, "Failed to create cgroup directory: "@ + reason@),
    {
        let m = String::from_str("Failed to create cgroup directory: ").concat(reason);
        ContainerError::cgroup_setup(m)
    }
}

} // verus!
