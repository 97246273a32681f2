//! Teardown of a control group as a sequence of decisions: check that the
//! group is there, kill its members (through `cgroup.kill` where the kernel
//! has it, else one `SIGKILL` per listed process), then remove the directory,
//! retrying with a capped, growing delay. The caller performs each action and
//! reports what it saw.

use vstd::prelude::*;
use crate::cgroup::{join, join_path, CgroupManager, FileWrite};
use crate::error::{ContainerError, ContainerResult, ErrorKind};
use crate::text::{parse_pid_list, pid_list};

verus! {

/// How many times the directory removal is tried.
pub const DELETE_ATTEMPTS: u32 = 5;

/// The pause after the first failed removal, in milliseconds.
pub const FIRST_DELAY_MS: u64 = 10;

/// No pause between removals is longer than this, in milliseconds.
pub const DELAY_CEILING_MS: u64 = 100;

/// The pause that follows `delay` once `attempt` removals have failed:
/// `delay` times `attempt`, but never more than `ceiling`.
pub open spec fn next_delay(delay: u64, attempt: u32, ceiling: u64) -> u64 {
    if delay * attempt > ceiling {
        ceiling
    } else {
        (delay * attempt) as u64
    }
}

/// Returns `next_delay(delay, attempt, ceiling)`.
pub fn backoff(delay: u64, attempt: u32, ceiling: u64) -> (r: u64)
    ensures
        r == next_delay(delay, attempt, ceiling),
        r <= ceiling,
{
    if attempt == 0 {
        0
    } else if delay > ceiling / (attempt as u64) {
        assert(delay * attempt > ceiling) by (nonlinear_arith)
            requires
                delay > ceiling / (attempt as u64),
                attempt > 0,
        ;
        ceiling
    } else {
        assert(delay * attempt <= ceiling) by (nonlinear_arith)
            requires
                delay <= ceiling / (attempt as u64),
                attempt > 0,
        ;
        delay * (attempt as u64)
    }
}

/// Where a teardown stands.
#[derive(PartialEq, Eq, Structural, Clone, Copy, Debug)]
pub enum CleanupPhase {
    /// Waiting to learn whether the group's directory exists.
    CheckGroup,
    /// Waiting to learn whether the group has `cgroup.kill`.
    CheckKillFile,
    /// Waiting for the write of `1` to `cgroup.kill`.
    Killing,
    /// Waiting for the text of `cgroup.procs`.
    ReadingMembers,
    /// Waiting for the `SIGKILL` of member `next - 1`.
    Signalling { next: usize },
    /// Waiting for removal number `attempt`; `delay_ms` is the pause that
    /// follows it if it fails.
    Removing { attempt: u32, delay_ms: u64 },
    /// Waiting for the pause after removal number `attempt` to end.
    Waiting { attempt: u32, delay_ms: u64 },
    /// Over; `removed` tells whether the directory is known to be gone.
    Finished { removed: bool },
}

/// What the caller saw when it performed the last action.
#[derive(Debug)]
pub enum CleanupEvent {
    /// The path that was checked exists, or not.
    Presence(bool),
    /// The write, the kill or the removal succeeded, or failed with a reason.
    Outcome(Result<(), String>),
    /// The text that was read, or why reading failed.
    Content(Result<Vec<u8>, String>),
    /// The pause is over.
    Slept,
}

/// What the caller is to do next.
#[derive(Debug)]
pub enum CleanupAction {
    /// Check whether the path exists.
    CheckExists(String),
    /// Write the file.
    Write(FileWrite),
    /// Read the file.
    Read(String),
    /// Send `SIGKILL` to the process.
    Kill(i32),
    /// Remove the (empty) directory.
    RemoveDir(String),
    /// Pause for this many milliseconds.
    Sleep(u64),
    /// The teardown is over, with this result.
    Finish(ContainerResult<()>),
}

/// The teardown of one group directory.
#[derive(Debug)]
pub struct CgroupTeardown {
    path: String,
    members: Vec<i32>,
    phase: CleanupPhase,
}

pub open spec fn could_not_delete() -> Seq<char> {
    "could not delete"@
}

pub open spec fn unexpected_event() -> Seq<char> {
    "unexpected event during cgroup cleanup"@
}

impl CgroupTeardown {
    /// A removal is numbered from 1 to `DELETE_ATTEMPTS`, and a pause follows
    /// only one that leaves another try.
    #[verifier::type_invariant]
    closed spec fn counts_in_range(&self) -> bool {
        match self.phase {
            CleanupPhase::Removing { attempt, .. } => 1 <= attempt <= DELETE_ATTEMPTS,
            CleanupPhase::Waiting { attempt, .. } => 1 <= attempt < DELETE_ATTEMPTS,
            _ => true,
        }
    }

    pub closed spec fn spec_path(&self) -> Seq<char> {
        self.path@
    }

    pub closed spec fn spec_members(&self) -> Seq<i32> {
        self.members@
    }

    pub closed spec fn spec_phase(&self) -> CleanupPhase {
        self.phase
    }

    pub fn phase(&self) -> (r: CleanupPhase)
        ensures
            r == self.spec_phase(),
    {
        self.phase
    }

    /// The teardown is over and the directory is known to be gone.
    pub fn is_removed(&self) -> (r: bool)
        ensures
            r == (self.spec_phase() == CleanupPhase::Finished { removed: true }),
    {
        match self.phase {
            CleanupPhase::Finished { removed } => removed,
            _ => false,
        }
    }

    /// The teardown of `manager`'s group, and its first action: a check that
    /// the directory exists, or nothing at all once the group was removed.
    pub fn begin(manager: &CgroupManager) -> (r: (CgroupTeardown, CleanupAction))
        ensures
            r.0.spec_path() == manager.spec_path(),
            manager.spec_removed() ==> r.0.spec_phase() == (CleanupPhase::Finished {
                removed: true,
            }) && r.1 == CleanupAction::Finish(Ok(())),
            !manager.spec_removed() ==> r.0.spec_phase() == CleanupPhase::CheckGroup && r.1 is CheckExists
                && r.1->CheckExists_0@ == manager.spec_path(),
    {
        let path = manager.cgroup_path().clone();
        if manager.is_removed() {
            let t = CgroupTeardown {
                path,
                members: Vec::new(),
                phase: CleanupPhase::Finished { removed: true },
            };
            (t, CleanupAction::Finish(Ok(())))
        } else {
            let probe = path.clone();
            let t = CgroupTeardown { path, members: Vec::new(), phase: CleanupPhase::CheckGroup };
            (t, CleanupAction::CheckExists(probe))
        }
    }

    fn finish(&mut self, removed: bool, result: ContainerResult<()>) -> (a: CleanupAction)
        ensures
            final(self).spec_phase() == (CleanupPhase::Finished { removed }),
            final(self).spec_path() == old(self).spec_path(),
            final(self).spec_members() == old(self).spec_members(),
            a == CleanupAction::Finish(result),
    {
        self.phase = CleanupPhase::Finished { removed };
        CleanupAction::Finish(result)
    }

    fn start_removal(&mut self) -> (a: CleanupAction)
        ensures
            final(self).spec_phase() == (CleanupPhase::Removing {
                attempt: 1,
                delay_ms: FIRST_DELAY_MS,
            }),
            final(self).spec_path() == old(self).spec_path(),
            final(self).spec_members() == old(self).spec_members(),
            a is RemoveDir && a->RemoveDir_0@ == old(self).spec_path(),
    {
        self.phase = CleanupPhase::Removing { attempt: 1, delay_ms: FIRST_DELAY_MS };
        CleanupAction::RemoveDir(self.path.clone())
    }

    /// Takes what the caller saw and says what to do next.
    pub fn step(&mut self, event: CleanupEvent) -> (a: CleanupAction)
        ensures
            final(self).spec_path() == old(self).spec_path(),
            final(self).spec_phase() == (CleanupPhase::Finished { removed: true }) ==> old(
                self,
            ).spec_phase() == (CleanupPhase::Finished { removed: true }) || (old(self).spec_phase()
                == CleanupPhase::CheckGroup && event matches CleanupEvent::Presence(false)) || (old(
                self,
            ).spec_phase() is Removing && event matches CleanupEvent::Outcome(Ok(()))),
            a matches CleanupAction::Finish(Ok(())) ==> final(self).spec_phase() == (
            CleanupPhase::Finished { removed: true }),
            ({
                let p = old(self).spec_path();
                let q = final(self).spec_phase();
                match (old(self).spec_phase(), event) {
                    (CleanupPhase::CheckGroup, CleanupEvent::Presence(false)) => q
                        == CleanupPhase::Finished { removed: true } && a == CleanupAction::Finish(
                        Ok(()),
                    ),
                    (CleanupPhase::CheckGroup, CleanupEvent::Presence(true)) => q
                        == CleanupPhase::CheckKillFile && a is CheckExists && a->CheckExists_0@
                        == join(p, "cgroup.kill"@),
                    (CleanupPhase::CheckKillFile, CleanupEvent::Presence(true)) => q
                        == CleanupPhase::Killing && a is Write && a->Write_0@ == (
                        join(p, "cgroup.kill"@),
                        "1"@,
                    ),
                    (CleanupPhase::CheckKillFile, CleanupEvent::Presence(false)) => q
                        == CleanupPhase::ReadingMembers && a is Read && a->Read_0@ == join(
                        p,
                        "cgroup.procs"@,
                    ),
                    (CleanupPhase::Killing, CleanupEvent::Outcome(Ok(()))) => q
                        == CleanupPhase::Removing { attempt: 1, delay_ms: FIRST_DELAY_MS }
                        && a is RemoveDir && a->RemoveDir_0@ == p,
                    (CleanupPhase::Killing, CleanupEvent::Outcome(Err(m))) => q
                        == CleanupPhase::Finished { removed: false } && a is Finish
                        && a->Finish_0 is Err && a->Finish_0->Err_0.is(
                        ErrorKind::Cgroup,
                        "Failed to write to "@ + join(p, "cgroup.kill"@) + ": "@ + m@,
                    ),
                    (CleanupPhase::ReadingMembers, CleanupEvent::Content(Ok(text))) => match pid_list(
                        text@,
                    ) {
                        None => q == CleanupPhase::Finished { removed: false } && a is Finish
                            && a->Finish_0 is Err && a->Finish_0->Err_0.is(
                            ErrorKind::Io,
                            "invalid process id in "@ + join(p, "cgroup.procs"@),
                        ),
                        Some(pids) => final(self).spec_members() == pids && if pids.len() == 0 {
                            q == CleanupPhase::Removing { attempt: 1, delay_ms: FIRST_DELAY_MS }
                                && a is RemoveDir && a->RemoveDir_0@ == p
                        } else {
                            q == CleanupPhase::Signalling { next: 1 } && a == CleanupAction::Kill(
                                pids[0],
                            )
                        },
                    },
                    (CleanupPhase::ReadingMembers, CleanupEvent::Content(Err(m))) => q
                        == CleanupPhase::Finished { removed: false } && a is Finish
                        && a->Finish_0 is Err && a->Finish_0->Err_0.is(
                        ErrorKind::Cgroup,
                        "Failed to read "@ + join(p, "cgroup.procs"@) + ": "@ + m@,
                    ),
                    (CleanupPhase::Signalling { next }, CleanupEvent::Outcome(Ok(()))) => {
                        let pids = old(self).spec_members();
                        final(self).spec_members() == pids && if next < pids.len() {
                            q == CleanupPhase::Signalling { next: (next + 1) as usize }
                                && a == CleanupAction::Kill(pids[next as int])
                        } else {
                            q == CleanupPhase::Removing { attempt: 1, delay_ms: FIRST_DELAY_MS }
                                && a is RemoveDir && a->RemoveDir_0@ == p
                        }
                    },
                    (CleanupPhase::Signalling { next }, CleanupEvent::Outcome(Err(m))) => q
                        == CleanupPhase::Finished { removed: false } && a is Finish
                        && a->Finish_0 is Err && a->Finish_0->Err_0.is(ErrorKind::Syscall, m@),
                    (CleanupPhase::Removing { .. }, CleanupEvent::Outcome(Ok(()))) => q
                        == CleanupPhase::Finished { removed: true } && a == CleanupAction::Finish(
                        Ok(()),
                    ),
                    (
                        CleanupPhase::Removing { attempt, delay_ms },
                        CleanupEvent::Outcome(Err(m)),
                    ) => if attempt < DELETE_ATTEMPTS {
                        q == CleanupPhase::Waiting { attempt, delay_ms } && a
                            == CleanupAction::Sleep(delay_ms)
                    } else {
                        q == CleanupPhase::Finished { removed: false } && a is Finish
                            && a->Finish_0 is Err && a->Finish_0->Err_0.is(
                            ErrorKind::Cgroup,
                            could_not_delete(),
                        )
                    },
                    (CleanupPhase::Waiting { attempt, delay_ms }, CleanupEvent::Slept) => q
                        == CleanupPhase::Removing {
                        attempt: (attempt + 1) as u32,
                        delay_ms: next_delay(delay_ms, attempt, DELAY_CEILING_MS),
                    } && a is RemoveDir && a->RemoveDir_0@ == p,
                    (CleanupPhase::Finished { removed }, _) => q == old(self).spec_phase() && (
                    removed ==> a == CleanupAction::Finish(Ok(()))) && (!removed ==> a is Finish
                        && a->Finish_0 is Err),
                    _ => q == CleanupPhase::Finished { removed: false } && a is Finish
                        && a->Finish_0 is Err && a->Finish_0->Err_0.is(
                        ErrorKind::Initialization,
                        unexpected_event(),
                    ),
                }
            }),
    {
        proof {
            use_type_invariant(&*self);
        }
        match (self.phase, event) {
            (CleanupPhase::CheckGroup, CleanupEvent::Presence(present)) => {
                if present {
                    self.phase = CleanupPhase::CheckKillFile;
                    CleanupAction::CheckExists(join_path(self.path.as_str(), "cgroup.kill"))
                } else {
                    self.finish(true, Ok(()))
                }
            },
            (CleanupPhase::CheckKillFile, CleanupEvent::Presence(present)) => {
                if present {
                    self.phase = CleanupPhase::Killing;
                    CleanupAction::Write(
                        FileWrite {
                            path: join_path(self.path.as_str(), "cgroup.kill"),
                            contents: String::from_str("1"),
                        },
                    )
                } else {
                    self.phase = CleanupPhase::ReadingMembers;
                    CleanupAction::Read(join_path(self.path.as_str(), "cgroup.procs"))
                }
            },
            (CleanupPhase::Killing, CleanupEvent::Outcome(outcome)) => {
                match outcome {
                    Ok(()) => self.start_removal(),
                    Err(m) => {
                        let kill_file = join_path(self.path.as_str(), "cgroup.kill");
                        let e = CgroupManager::write_error(kill_file.as_str(), m.as_str());
                        self.finish(false, Err(e))
                    },
                }
            },
            (CleanupPhase::ReadingMembers, CleanupEvent::Content(content)) => {
                match content {
                    Ok(text) => {
                        match parse_pid_list(text.as_slice()) {
                            None => {
                                let procs = join_path(self.path.as_str(), "cgroup.procs");
                                let m = String::from_str("invalid process id in ").concat(
                                    procs.as_str(),
                                );
                                self.finish(false, Err(ContainerError::Io { message: m }))
                            },
                            Some(pids) => {
                                self.members = pids;
                                if self.members.len() == 0 {
                                    self.start_removal()
                                } else {
                                    self.phase = CleanupPhase::Signalling { next: 1 };
                                    CleanupAction::Kill(self.members[0])
                                }
                            },
                        }
                    },
                    Err(m) => {
                        let procs = join_path(self.path.as_str(), "cgroup.procs");
                        let msg = String::from_str("Failed to read ").concat(procs.as_str()).concat(
                            ": ",
                        ).concat(m.as_str());
                        self.finish(false, Err(ContainerError::cgroup_setup(msg)))
                    },
                }
            },
            (CleanupPhase::Signalling { next }, CleanupEvent::Outcome(outcome)) => {
                match outcome {
                    Ok(()) => {
                        if next < self.members.len() {
                            self.phase = CleanupPhase::Signalling { next: next + 1 };
                            CleanupAction::Kill(self.members[next])
                        } else {
                            self.start_removal()
                        }
                    },
                    Err(m) => self.finish(false, Err(ContainerError::Syscall { message: m })),
                }
            },
            (CleanupPhase::Removing { attempt, delay_ms }, CleanupEvent::Outcome(outcome)) => {
                match outcome {
                    Ok(()) => self.finish(true, Ok(())),
                    Err(_) => {
                        if attempt < DELETE_ATTEMPTS {
                            self.phase = CleanupPhase::Waiting { attempt, delay_ms };
                            CleanupAction::Sleep(delay_ms)
                        } else {
                            let e = ContainerError::cgroup_setup(
                                String::from_str("could not delete"),
                            );
                            self.finish(false, Err(e))
                        }
                    },
                }
            },
            (CleanupPhase::Waiting { attempt, delay_ms }, CleanupEvent::Slept) => {
                let next = backoff(delay_ms, attempt, DELAY_CEILING_MS);
                self.phase = CleanupPhase::Removing { attempt: attempt + 1, delay_ms: next };
                CleanupAction::RemoveDir(self.path.clone())
            },
            (CleanupPhase::Finished { removed }, _) => {
                if removed {
                    CleanupAction::Finish(Ok(()))
                } else {
                    CleanupAction::Finish(
                        Err(
                            ContainerError::cgroup_setup(
                                String::from_str("cgroup cleanup already failed"),
                            ),
                        ),
                    )
                }
            },
            _ => {
                let e = ContainerError::initialization(
                    String::from_str("unexpected event during cgroup cleanup"),
                );
                self.finish(false, Err(e))
            },
        }
    }
}

} // verus!
