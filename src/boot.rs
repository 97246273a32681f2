//! The order in which a run builds the container.

use vstd::prelude::*;
use crate::cli::{wants_limits, ContainerConfig};
use crate::error::{ContainerError, ContainerResult, ErrorKind};

verus! {

/// One stage of a run.
#[derive(PartialEq, Eq, Structural, Clone, Copy, Debug)]
pub enum BootStage {
    /// Refuse to go on without root privileges.
    CheckRoot,
    /// Create and configure the control group.
    SetupCgroup,
    /// Move the current process into the control group.
    AttachCgroup,
    /// Unshare the namespaces.
    Unshare,
    /// Fork; the parent waits and exits with the child's status, the child
    /// goes on as pid 1 of the new pid namespace.
    ForkIntoPidNamespace,
    /// Set the host name in the new UTS namespace.
    SetHostname,
    /// Pivot into the rootfs and mount the guest filesystems.
    PivotRoot,
    /// Run the command.
    Execute,
}

/// The stages of a run, in order; the control-group stages only when limits
/// are requested.
pub open spec fn boot_stages(with_cgroup: bool) -> Seq<BootStage> {
    if with_cgroup {
        seq![
            BootStage::CheckRoot,
            BootStage::SetupCgroup,
            BootStage::AttachCgroup,
            BootStage::Unshare,
            BootStage::ForkIntoPidNamespace,
            BootStage::SetHostname,
            BootStage::PivotRoot,
            BootStage::Execute,
        ]
    } else {
        seq![
            BootStage::CheckRoot,
            BootStage::Unshare,
            BootStage::ForkIntoPidNamespace,
            BootStage::SetHostname,
            BootStage::PivotRoot,
            BootStage::Execute,
        ]
    }
}

/// The index of the first occurrence of `x` in `s`.
pub open spec fn position(s: Seq<BootStage>, x: BootStage) -> int {
    choose|i: int| 0 <= i < s.len() && s[i] == x && forall|j: int| 0 <= j < i ==> s[j] != x
}

/// The ordering a run keeps: the privilege check comes first; the group is
/// set up and the current process attached before the namespaces are
/// unshared; the unshare comes before the fork into the pid namespace; the
/// host name is set before the pivot; and the command runs last. Each stage
/// occurs once.
pub proof fn lemma_boot_order(with_cgroup: bool)
    ensures
        ({
            let s = boot_stages(with_cgroup);
            &&& s[0] == BootStage::CheckRoot
            &&& s.last() == BootStage::Execute
            &&& s.no_duplicates()
            &&& with_cgroup ==> s.contains(BootStage::SetupCgroup) && s.contains(BootStage::AttachCgroup)
                && position(s, BootStage::SetupCgroup) < position(s, BootStage::AttachCgroup)
                && position(s, BootStage::AttachCgroup) < position(s, BootStage::Unshare)
            &&& !with_cgroup ==> !s.contains(BootStage::SetupCgroup) && !s.contains(BootStage::AttachCgroup)
            &&& position(s, BootStage::Unshare) < position(s, BootStage::ForkIntoPidNamespace)
            &&& position(s, BootStage::ForkIntoPidNamespace) < position(s, BootStage::SetHostname)
            &&& position(s, BootStage::SetHostname) < position(s, BootStage::PivotRoot)
            &&& position(s, BootStage::PivotRoot) < position(s, BootStage::Execute)
        }),
{
    let s = boot_stages(with_cgroup);
    let k: int = if with_cgroup { 2 } else { 0 };
    assert(s.no_duplicates());
    if with_cgroup {
        assert(s[1] == BootStage::SetupCgroup);
        assert(s[2] == BootStage::AttachCgroup);
        assert(position(s, BootStage::SetupCgroup) == 1);
        assert(position(s, BootStage::AttachCgroup) == 2);
    } else {
        assert forall|i: int| 0 <= i < s.len() implies s[i] != BootStage::SetupCgroup
            && s[i] != BootStage::AttachCgroup by {}
    }
    assert(s[1 + k] == BootStage::Unshare);
    assert(s[2 + k] == BootStage::ForkIntoPidNamespace);
    assert(s[3 + k] == BootStage::SetHostname);
    assert(s[4 + k] == BootStage::PivotRoot);
    assert(s[5 + k] == BootStage::Execute);
    assert(position(s, BootStage::Unshare) == 1 + k);
    assert(position(s, BootStage::ForkIntoPidNamespace) == 2 + k);
    assert(position(s, BootStage::SetHostname) == 3 + k);
    assert(position(s, BootStage::PivotRoot) == 4 + k);
    assert(position(s, BootStage::Execute) == 5 + k);
}

/// The stages of the run that `config` asks for.
pub fn boot_plan(config: &ContainerConfig) -> (r: Vec<BootStage>)
    ensures
        r@ == boot_stages(wants_limits(*config)),
{
    let mut v: Vec<BootStage> = Vec::new();
    v.push(BootStage::CheckRoot);
    if config.wants_cgroup() {
        v.push(BootStage::SetupCgroup);
        v.push(BootStage::AttachCgroup);
    }
    v.push(BootStage::Unshare);
    v.push(BootStage::ForkIntoPidNamespace);
    v.push(BootStage::SetHostname);
    v.push(BootStage::PivotRoot);
    v.push(BootStage::Execute);
    assert(v@ =~= boot_stages(wants_limits(*config)));
    v
}

/// Root privileges are required: effective user id 0.
pub fn check_privileges(euid: u32) -> (r: ContainerResult<()>)
    ensures
        r is Ok <==> euid == 0,
        r is Err ==> r->Err_0.spec_kind() == ErrorKind::RootRequired,
{
    if euid == 0 {
        Ok(())
    } else {
        Err(ContainerError::RootRequired)
    }
}

/// The exit code of a run that ends with a runtime error.
pub fn error_exit_code(e: &ContainerError) -> (r: i32)
    ensures
        r == 1,
{
    1
}

} // verus!
