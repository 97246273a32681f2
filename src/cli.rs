//! What the command line asks for.

use vstd::prelude::*;
use crate::cgroup::{quota_for_percent, CgroupConfig, DEFAULT_CPU_PERIOD, MIB};
use crate::error::{ContainerError, ContainerResult, ErrorKind};

verus! {

/// One run of the runtime: the rootfs, the command and its arguments, the
/// host name, and the optional resource limits.
#[derive(Debug, Clone)]
pub struct ContainerConfig {
    pub rootfs: String,
    pub command: String,
    pub args: Vec<String>,
    pub hostname: Option<String>,
    pub memory_limit_mb: Option<u64>,
    pub cpu_percent: Option<u64>,
    pub pids_limit: Option<i64>,
}

/// Some resource limit is requested.
pub open spec fn wants_limits(c: ContainerConfig) -> bool {
    c.memory_limit_mb is Some || c.cpu_percent is Some || c.pids_limit is Some
}

/// The requested memory limit does not fit in bytes.
pub open spec fn memory_too_large(c: ContainerConfig) -> bool {
    c.memory_limit_mb is Some && c.memory_limit_mb->0 * MIB > u64::MAX
}

/// The requested CPU share does not fit in microseconds of the default period.
pub open spec fn cpu_too_large(c: ContainerConfig) -> bool {
    c.cpu_percent is Some && c.cpu_percent->0 * DEFAULT_CPU_PERIOD > u64::MAX
}

pub open spec fn default_hostname() -> Seq<char> {
    "rust-container"@
}

impl ContainerConfig {
    /// Whether the run needs a control group.
    pub fn wants_cgroup(&self) -> (r: bool)
        ensures
            r == wants_limits(*self),
    {
        self.memory_limit_mb.is_some() || self.cpu_percent.is_some() || self.pids_limit.is_some()
    }

    /// The host name of the container: the one asked for, else `rust-container`.
    pub fn hostname_or_default(&self) -> (r: String)
        ensures
            r@ == match self.hostname {
                Some(h) => h@,
                None => default_hostname(),
            },
    {
        match &self.hostname {
            Some(h) => h.clone(),
            None => String::from_str("rust-container"),
        }
    }

    /// The control group of a run led by process `leader`: none without
    /// limits; else `container-<leader>` with each requested limit. A limit
    /// too large to state is an `InvalidConfiguration`.
    pub fn cgroup_config(&self, leader: i32) -> (r: ContainerResult<Option<CgroupConfig>>)
        ensures
            r is Err <==> wants_limits(*self) && (memory_too_large(*self) || cpu_too_large(*self)),
            r is Err ==> r->Err_0.spec_kind() == ErrorKind::InvalidConfiguration,
            r is Ok ==> (r->Ok_0 is Some <==> wants_limits(*self)),
            r is Ok && r->Ok_0 is Some ==> ({
                let c = r->Ok_0->Some_0;
                &&& c.name@ == crate::cgroup::container_name(leader as int)
                &&& c.memory_limit == match self.memory_limit_mb {
                    Some(mb) => Some((mb * MIB) as u64),
                    None => None,
                }
                &&& c.cpu_quota == match self.cpu_percent {
                    Some(p) => Some(quota_for_percent(DEFAULT_CPU_PERIOD, p) as u64),
                    None => None,
                }
                &&& c.cpu_period == Some(DEFAULT_CPU_PERIOD)
                &&& c.pids_limit == self.pids_limit
                &&& c.memory_swap_limit is None
                &&& c.cpu_weight is None
            }),
    {
        if !self.wants_cgroup() {
            return Ok(None);
        }
        let mut c = CgroupConfig::for_leader(leader);
        if let Some(mb) = self.memory_limit_mb {
            if mb > u64::MAX / MIB {
                return Err(
                    ContainerError::invalid_configuration(String::from_str("memory limit too large")),
                );
            }
            c = c.with_memory_mb(mb);
        }
        if let Some(p) = self.cpu_percent {
            if p > u64::MAX / DEFAULT_CPU_PERIOD {
                return Err(
                    ContainerError::invalid_configuration(String::from_str("CPU limit too large")),
                );
            }
            c = c.with_cpu_percent(p);
        }
        if let Some(n) = self.pids_limit {
            c = c.with_pids_limit(n);
        }
        Ok(Some(c))
    }
}

} // verus!
