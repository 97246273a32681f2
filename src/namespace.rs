//! Namespace selection, and the decisions of the process that waits for the
//! pid-1 child.

use vstd::prelude::*;
use nix::sched::CloneFlags;
use crate::error::{with_context, ContainerError, ErrorKind};
use crate::supervisor::{exit_code_of, termination_of, ChildStatus, WaitFailure};

verus! {

#[verifier::external_type_specification]
#[verifier::external_body]
pub struct ExCloneFlags(nix::sched::CloneFlags);

/// The flag set that `CloneFlags::from_bits_retain` makes of `bits`.
pub uninterp spec fn clone_flags_with_bits(bits: i32) -> CloneFlags;

/// Relies on nix's `CloneFlags::from_bits_retain`: the flag set holding
/// exactly `bits`, which depends on `bits` alone.
#[verifier::external_body]
fn clone_flags_from_bits(bits: i32) -> (r: CloneFlags)
    ensures
        r == clone_flags_with_bits(bits),
{
    CloneFlags::from_bits_retain(bits)
}

/// Kernel bit of a new mount namespace.
pub const CLONE_NEWNS: i32 = 0x20000;

/// Kernel bit of a new UTS (host name) namespace.
pub const CLONE_NEWUTS: i32 = 0x04000000;

/// Kernel bit of a new IPC namespace.
pub const CLONE_NEWIPC: i32 = 0x08000000;

/// Kernel bit of a new user namespace.
pub const CLONE_NEWUSER: i32 = 0x10000000;

/// Kernel bit of a new pid namespace.
pub const CLONE_NEWPID: i32 = 0x20000000;

/// Kernel bit of a new network namespace.
pub const CLONE_NEWNET: i32 = 0x40000000;

/// Which namespaces the container gets of its own.
#[derive(PartialEq, Eq, Structural, Clone, Copy, Debug)]
pub struct NamespaceConfig {
    pub isolate_pid: bool,
    pub isolate_net: bool,
    pub isolate_mount: bool,
    pub isolate_uts: bool,
    pub isolate_ipc: bool,
    pub isolate_user: bool,
}

pub open spec fn bit_if(set: bool, bit: i32) -> i32 {
    if set {
        bit
    } else {
        0
    }
}

/// The kernel's clone-flag mask of a selection: one bit per namespace kind.
pub open spec fn clone_bits(c: NamespaceConfig) -> i32 {
    0i32 | bit_if(c.isolate_pid, CLONE_NEWPID) | bit_if(c.isolate_net, CLONE_NEWNET) | bit_if(
        c.isolate_mount,
        CLONE_NEWNS,
    ) | bit_if(c.isolate_uts, CLONE_NEWUTS) | bit_if(c.isolate_ipc, CLONE_NEWIPC) | bit_if(
        c.isolate_user,
        CLONE_NEWUSER,
    )
}

/// No namespace is selected.
pub open spec fn selects_none(c: NamespaceConfig) -> bool {
    !c.isolate_pid && !c.isolate_net && !c.isolate_mount && !c.isolate_uts && !c.isolate_ipc
        && !c.isolate_user
}

proof fn lemma_or_zero(a: i32, b: i32)
    ensures
        (a | b) == 0 <==> (a == 0 && b == 0),
{
    assert((a | b) == 0 <==> (a == 0 && b == 0)) by (bit_vector);
}

/// The mask is empty exactly when no namespace is selected.
pub proof fn lemma_empty_mask_iff_none_selected(c: NamespaceConfig)
    ensures
        clone_bits(c) == 0 <==> selects_none(c),
{
    let b0 = 0i32 | bit_if(c.isolate_pid, CLONE_NEWPID);
    let b1 = b0 | bit_if(c.isolate_net, CLONE_NEWNET);
    let b2 = b1 | bit_if(c.isolate_mount, CLONE_NEWNS);
    let b3 = b2 | bit_if(c.isolate_uts, CLONE_NEWUTS);
    let b4 = b3 | bit_if(c.isolate_ipc, CLONE_NEWIPC);
    lemma_or_zero(0i32, bit_if(c.isolate_pid, CLONE_NEWPID));
    lemma_or_zero(b0, bit_if(c.isolate_net, CLONE_NEWNET));
    lemma_or_zero(b1, bit_if(c.isolate_mount, CLONE_NEWNS));
    lemma_or_zero(b2, bit_if(c.isolate_uts, CLONE_NEWUTS));
    lemma_or_zero(b3, bit_if(c.isolate_ipc, CLONE_NEWIPC));
    lemma_or_zero(b4, bit_if(c.isolate_user, CLONE_NEWUSER));
}

impl Default for NamespaceConfig {
    /// Every namespace but the user namespace.
    fn default() -> (r: NamespaceConfig)
        ensures
            r == (NamespaceConfig {
                isolate_pid: true,
                isolate_net: true,
                isolate_mount: true,
                isolate_uts: true,
                isolate_ipc: true,
                isolate_user: false,
            }),
    {
        NamespaceConfig {
            isolate_pid: true,
            isolate_net: true,
            isolate_mount: true,
            isolate_uts: true,
            isolate_ipc: true,
            isolate_user: false,
        }
    }
}

impl NamespaceConfig {
    /// The clone-flag mask of this selection.
    pub fn clone_flag_bits(&self) -> (r: i32)
        ensures
            r == clone_bits(*self),
    {
        let mut flags: i32 = 0;
        flags = flags | if self.isolate_pid { CLONE_NEWPID } else { 0 };
        flags = flags | if self.isolate_net { CLONE_NEWNET } else { 0 };
        flags = flags | if self.isolate_mount { CLONE_NEWNS } else { 0 };
        flags = flags | if self.isolate_uts { CLONE_NEWUTS } else { 0 };
        flags = flags | if self.isolate_ipc { CLONE_NEWIPC } else { 0 };
        flags = flags | if self.isolate_user { CLONE_NEWUSER } else { 0 };
        flags
    }

    /// The selection as nix's flag set.
    pub fn to_clone_flags(&self) -> (r: CloneFlags)
        ensures
            r == clone_flags_with_bits(clone_bits(*self)),
    {
        clone_flags_from_bits(self.clone_flag_bits())
    }

    /// Whether any namespace is selected, that is, whether the mask is not
    /// empty; unsharing nothing is skipped.
    pub fn selects_any(&self) -> (r: bool)
        ensures
            r == !selects_none(*self),
            r == (clone_bits(*self) != 0),
    {
        proof {
            lemma_empty_mask_iff_none_selected(*self);
        }
        self.isolate_pid || self.isolate_net || self.isolate_mount || self.isolate_uts
            || self.isolate_ipc || self.isolate_user
    }
}

/// What the process that forked the pid-1 child does after one wait.
#[derive(PartialEq, Eq, Structural, Clone, Copy, Debug)]
pub enum ParentStep {
    /// Wait again.
    WaitAgain,
    /// Exit the whole program with this code.
    Exit(i32),
}

/// Operations on the calling process's namespaces.
#[derive(Debug)]
pub struct NamespaceManager;

impl NamespaceManager {
    /// Relies on nix::unistd::getpid: the id of the calling process, which
    /// never fails. Nothing is promised of its value.
    #[verifier::external_body]
    pub fn get_current_pid() -> i32 {
        nix::unistd::getpid().as_raw()
    }

    /// Decides what the parent of the pid-1 child does after one wait: it
    /// exits with the child's code, or 128 plus the signal that killed it;
    /// it waits again when the child was only stopped or continued; it exits
    /// with 0 when the child is already gone, and with 1 on anything else.
    pub fn pid_namespace_wait_step(observed: Result<ChildStatus, WaitFailure>) -> (r: ParentStep)
        ensures
            r == match observed {
                Ok(s) => match termination_of(s) {
                    Some(t) => ParentStep::Exit(exit_code_of(t) as i32),
                    None => match s {
                        ChildStatus::Stopped(_) => ParentStep::WaitAgain,
                        ChildStatus::Continued => ParentStep::WaitAgain,
                        _ => ParentStep::Exit(1),
                    },
                },
                Err(WaitFailure::NoChild) => ParentStep::Exit(0),
                Err(_) => ParentStep::Exit(1),
            },
    {
        match observed {
            Ok(ChildStatus::Exited(code)) => ParentStep::Exit(code),
            Ok(ChildStatus::Signaled(sig)) => ParentStep::Exit(128 + sig as i32),
            Ok(ChildStatus::Stopped(_)) => ParentStep::WaitAgain,
            Ok(ChildStatus::Continued) => ParentStep::WaitAgain,
            Ok(_) => ParentStep::Exit(1),
            Err(WaitFailure::NoChild) => ParentStep::Exit(0),
            Err(_) => ParentStep::Exit(1),
        }
    }

    /// The error that a failed `unshare` becomes.
    pub fn unshare_error(reason: &str) -> (e: ContainerError)
        ensures
            e.is(
                ErrorKind::NamespaceSetup,
                with_context(
                    "unshare system call failed"@,
                    "Failed to unshare namespaces: "@ + reason@,
                ),
            ),
    {
        ContainerError::name_space(String::from_str("Failed to unshare namespaces: ").concat(reason)).context(
            "unshare system call failed",
        )
    }

    /// The error that a failed fork into the pid namespace becomes.
    pub fn fork_error(reason: &str) -> (e: ContainerError)
        ensures
            e.is(ErrorKind::NamespaceSetup, "Fork failed: "@ + reason@),
    {
        ContainerError::name_space(String::from_str("Fork failed: ").concat(reason))
    }

    /// The error that a failed `sethostname` becomes.
    pub fn hostname_error(reason: &str) -> (e: ContainerError)
        ensures
            e.is(
                ErrorKind::NamespaceSetup,
                with_context("sethostname system call failed"@, "Failed to set hostname: "@ + reason@),
            ),
    {
        ContainerError::name_space(String::from_str("Failed to set hostname: ").concat(reason)).context(
            "sethostname system call failed",
        )
    }
}

} // verus!
