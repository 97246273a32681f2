//! The parent's side of a running command: what a wait for the child
//! reports, how it ends the wait, the exit code it becomes, which signals
//! reach the child, and the loop that copies the pseudo-terminal's output
//! while the child runs.

use vstd::prelude::*;
use crate::error::{ContainerError, ContainerResult, ErrorKind};
use crate::text::{signed_decimal, decimal, i64_to_decimal, u64_to_decimal};

verus! {

/// What a wait for the child reported.
#[derive(PartialEq, Eq, Structural, Clone, Copy, Debug)]
pub enum ChildStatus {
    /// It exited with this code.
    Exited(i32),
    /// A signal with this number killed it.
    Signaled(u8),
    /// A signal with this number stopped it.
    Stopped(u8),
    /// It was continued.
    Continued,
    /// A wait that does not block found it running.
    StillAlive,
    /// Any other report (ptrace events).
    Other,
}

/// Why a wait for the child failed.
#[derive(Debug)]
pub enum WaitFailure {
    /// A signal interrupted it.
    Interrupted,
    /// There is no such child (any more).
    NoChild,
    /// Any other failure, with its description.
    Failed(String),
}

/// How the child ended.
#[derive(PartialEq, Eq, Structural, Clone, Copy, Debug)]
pub enum Termination {
    Exited(i32),
    Signaled(u8),
}

/// The runtime's exit code for a child that ended as `t`: its own code, or
/// 128 plus the number of the signal that killed it.
pub open spec fn exit_code_of(t: Termination) -> int {
    match t {
        Termination::Exited(n) => n as int,
        Termination::Signaled(s) => 128 + s,
    }
}

pub open spec fn nonzero_message(n: i32) -> Seq<char> {
    "Container process exited with non-zero status: "@ + signed_decimal(n as int)
}

pub open spec fn killed_message(s: u8) -> Seq<char> {
    "Container process killed by signal: "@ + decimal(s as nat)
}

/// What the reaper makes of `t`: success only for exit code 0.
pub open spec fn termination_ok(t: Termination) -> bool {
    t == Termination::Exited(0)
}

impl Termination {
    /// The runtime's exit code.
    pub fn exit_code(&self) -> (r: i32)
        ensures
            r == exit_code_of(*self),
    {
        match self {
            Termination::Exited(n) => *n,
            Termination::Signaled(s) => 128 + (*s as i32),
        }
    }

    /// Success for exit code 0; else a `ProcessExecution` error that says how
    /// the child ended.
    pub fn result(&self) -> (r: ContainerResult<()>)
        ensures
            r is Ok <==> termination_ok(*self),
            match *self {
                Termination::Exited(n) => n != 0 ==> r->Err_0.is(
                    ErrorKind::ProcessExecution,
                    nonzero_message(n),
                ),
                Termination::Signaled(s) => r->Err_0.is(
                    ErrorKind::ProcessExecution,
                    killed_message(s),
                ),
            },
    {
        match self {
            Termination::Exited(n) => {
                if *n == 0 {
                    Ok(())
                } else {
                    let m = String::from_str("Container process exited with non-zero status: ").concat(
                        i64_to_decimal(*n as i64).as_str(),
                    );
                    Err(ContainerError::process_execution(m))
                }
            },
            Termination::Signaled(s) => {
                let m = String::from_str("Container process killed by signal: ").concat(
                    u64_to_decimal(*s as u64).as_str(),
                );
                Err(ContainerError::process_execution(m))
            },
        }
    }
}

/// The termination that a status reports, if it reports one.
pub open spec fn termination_of(s: ChildStatus) -> Option<Termination> {
    match s {
        ChildStatus::Exited(n) => Some(Termination::Exited(n)),
        ChildStatus::Signaled(sig) => Some(Termination::Signaled(sig)),
        _ => None,
    }
}

/// What the blocking reaper does after one wait.
#[derive(Debug)]
pub enum ReapStep {
    /// Wait again.
    WaitAgain,
    /// The child has ended and is reaped.
    Terminated(Termination),
    /// Waiting failed.
    Failed(ContainerError),
}

pub open spec fn wait_failed_message(reason: Seq<char>) -> Seq<char> {
    "waitpid failed: "@ + reason
}

/// Decides what a blocking wait's report means: an exit or a killing ends
/// the wait; an interruption or any other status waits again; any other
/// failure ends it with a `ProcessExecution` error.
pub fn reap_step(observed: Result<ChildStatus, WaitFailure>) -> (r: ReapStep)
    ensures
        match observed {
            Ok(s) => match termination_of(s) {
                Some(t) => r == ReapStep::Terminated(t),
                None => r is WaitAgain,
            },
            Err(WaitFailure::Interrupted) => r is WaitAgain,
            Err(WaitFailure::NoChild) => r is Failed && r->Failed_0.is(
                ErrorKind::ProcessExecution,
                wait_failed_message("no child process"@),
            ),
            Err(WaitFailure::Failed(m)) => r is Failed && r->Failed_0.is(
                ErrorKind::ProcessExecution,
                wait_failed_message(m@),
            ),
        },
{
    match observed {
        Ok(ChildStatus::Exited(n)) => ReapStep::Terminated(Termination::Exited(n)),
        Ok(ChildStatus::Signaled(s)) => ReapStep::Terminated(Termination::Signaled(s)),
        Ok(_) => ReapStep::WaitAgain,
        Err(WaitFailure::Interrupted) => ReapStep::WaitAgain,
        Err(WaitFailure::NoChild) => ReapStep::Failed(
            ContainerError::process_execution(
                String::from_str("waitpid failed: ").concat("no child process"),
            ),
        ),
        Err(WaitFailure::Failed(m)) => ReapStep::Failed(
            ContainerError::process_execution(String::from_str("waitpid failed: ").concat(m.as_str())),
        ),
    }
}

/// Signal number of an interrupt from the terminal.
pub const SIGINT: i32 = 2;

/// Signal number of a quit from the terminal.
pub const SIGQUIT: i32 = 3;

/// Signal number of a termination request.
pub const SIGTERM: i32 = 15;

/// The signals that the parent passes on to the running child.
pub fn forwarded_signals() -> (r: Vec<i32>)
    ensures
        r@ == seq![SIGINT, SIGTERM, SIGQUIT],
{
    let mut v: Vec<i32> = Vec::new();
    v.push(SIGINT);
    v.push(SIGTERM);
    v.push(SIGQUIT);
    assert(v@ =~= seq![SIGINT, SIGTERM, SIGQUIT]);
    v
}

/// The signal to send, and to whom, when the parent receives `sig` while
/// the child-pid slot holds `child`: the same signal to the child, once, if
/// there is a child; nothing otherwise.
pub fn forward_signal(child: i32, sig: i32) -> (r: Option<(i32, i32)>)
    ensures
        r == (if child > 0 {
            Some((child, sig))
        } else {
            None
        }),
{
    if child > 0 {
        Some((child, sig))
    } else {
        None
    }
}

/// The parent's record of the child it waits for: the child-pid slot that
/// signal forwarding reads, and whether the child has been reaped.
#[derive(Debug)]
pub struct ChildSupervisor {
    slot: i32,
    reaped: bool,
}

impl ChildSupervisor {
    pub closed spec fn spec_slot(&self) -> i32 {
        self.slot
    }

    pub closed spec fn spec_reaped(&self) -> bool {
        self.reaped
    }

    /// Supervision of the child `pid`, just forked.
    pub fn started(pid: i32) -> (r: ChildSupervisor)
        ensures
            r.spec_slot() == pid,
            !r.spec_reaped(),
    {
        ChildSupervisor { slot: pid, reaped: false }
    }

    /// What the child-pid slot holds: the child until it is reaped, then 0.
    pub fn slot(&self) -> (r: i32)
        ensures
            r == self.spec_slot(),
    {
        self.slot
    }

    pub fn is_reaped(&self) -> (r: bool)
        ensures
            r == self.spec_reaped(),
    {
        self.reaped
    }

    /// What to do with `sig`, received by the parent now.
    pub fn forward(&self, sig: i32) -> (r: Option<(i32, i32)>)
        ensures
            r == (if self.spec_slot() > 0 {
                Some((self.spec_slot(), sig))
            } else {
                None
            }),
    {
        forward_signal(self.slot, sig)
    }

    /// Takes the report of a blocking wait. The first report that ends the
    /// wait reaps the child and empties the slot; once reaped, the child is
    /// never waited for again and the answer is a `ProcessExecution` error.
    pub fn observe(&mut self, observed: Result<ChildStatus, WaitFailure>) -> (r: ReapStep)
        ensures
            old(self).spec_reaped() ==> r is Failed && *final(self) == *old(self),
            !old(self).spec_reaped() && r is WaitAgain ==> *final(self) == *old(self),
            !old(self).spec_reaped() && !(r is WaitAgain) ==> final(self).spec_reaped()
                && final(self).spec_slot() == 0,
            !old(self).spec_reaped() ==> match observed {
                Ok(s) => match termination_of(s) {
                    Some(t) => r == ReapStep::Terminated(t),
                    None => r is WaitAgain,
                },
                Err(WaitFailure::Interrupted) => r is WaitAgain,
                Err(_) => r is Failed && r->Failed_0.spec_kind() == ErrorKind::ProcessExecution,
            },
    {
        if self.reaped {
            return ReapStep::Failed(
                ContainerError::process_execution(String::from_str("child already reaped")),
            );
        }
        let r = reap_step(observed);
        match r {
            ReapStep::WaitAgain => {},
            _ => {
                self.reaped = true;
                self.slot = 0;
            },
        }
        r
    }
}

/// The pause, in milliseconds, when the terminal had nothing to read.
pub const PUMP_PAUSE_MS: u64 = 10;

/// What a read of the pseudo-terminal's master gave.
#[derive(PartialEq, Eq, Structural, Clone, Copy, Debug)]
pub enum ReadOutcome {
    /// This many bytes (0 at end of input).
    Data(usize),
    /// Nothing is ready yet.
    WouldBlock,
    /// The read failed.
    Failed,
}

/// Where the copying of the child's terminal output stands.
#[derive(PartialEq, Eq, Structural, Clone, Copy, Debug)]
pub enum PumpPhase {
    /// Waiting for a wait that does not block.
    Polling,
    /// Waiting for a read of the master.
    Reading,
    /// The child ended as this; waiting for the rest of its output to be copied.
    Draining(Termination),
    /// The child is gone from sight; waiting for a blocking wait.
    FinalWait,
    /// Over.
    Finished,
}

/// What the caller saw when it performed the last action.
#[derive(Debug)]
pub enum PumpEvent {
    /// A wait that does not block reported this.
    Polled(Result<ChildStatus, WaitFailure>),
    /// A read of the master gave this.
    Read(ReadOutcome),
    /// All that was left to read has been copied and the output flushed.
    Drained,
    /// A blocking wait reported this.
    Waited(Result<ChildStatus, WaitFailure>),
}

/// What the caller is to do next.
#[derive(Debug)]
pub enum PumpAction {
    /// Wait for the child without blocking.
    PollChild,
    /// Read the master without blocking.
    ReadMaster,
    /// Write and flush the bytes just read, then poll the child.
    CopyOut(usize),
    /// Pause this many milliseconds, then poll the child.
    Pause(u64),
    /// Copy what is left to read, flush, then report `Drained`.
    DrainOutput,
    /// Wait for the child, blocking.
    WaitChild,
    /// The child ended as this; the copying is over.
    Finish(Termination),
    /// The copying is over, with this error.
    Fail(ContainerError),
}

/// The copying of a running child's terminal output to the host.
#[derive(Debug)]
pub struct OutputPump {
    slot: i32,
    phase: PumpPhase,
}

/// The child has been reaped in this phase.
pub open spec fn pump_reaped(p: PumpPhase) -> bool {
    p is Draining || p is Finished
}

pub open spec fn unexpected_pump_event() -> Seq<char> {
    "unexpected event while copying output"@
}

impl OutputPump {
    /// The slot holds the child until it is reaped, then 0.
    #[verifier::type_invariant]
    closed spec fn slot_empty_once_reaped(&self) -> bool {
        pump_reaped(self.phase) ==> self.slot == 0
    }

    pub closed spec fn spec_slot(&self) -> i32 {
        self.slot
    }

    pub closed spec fn spec_phase(&self) -> PumpPhase {
        self.phase
    }

    /// Copying for child `pid`, just forked; the first action is to poll it.
    pub fn start(pid: i32) -> (r: (OutputPump, PumpAction))
        ensures
            r.0.spec_slot() == pid,
            r.0.spec_phase() == PumpPhase::Polling,
            r.1 is PollChild,
    {
        (OutputPump { slot: pid, phase: PumpPhase::Polling }, PumpAction::PollChild)
    }

    /// What the child-pid slot holds.
    pub fn slot(&self) -> (r: i32)
        ensures
            r == self.spec_slot(),
            pump_reaped(self.spec_phase()) ==> r == 0,
    {
        proof {
            use_type_invariant(self);
        }
        self.slot
    }

    pub fn phase(&self) -> (r: PumpPhase)
        ensures
            r == self.spec_phase(),
    {
        self.phase
    }

    /// What to do with `sig`, received by the parent now.
    pub fn forward(&self, sig: i32) -> (r: Option<(i32, i32)>)
        ensures
            r == (if self.spec_slot() > 0 {
                Some((self.spec_slot(), sig))
            } else {
                None
            }),
    {
        forward_signal(self.slot, sig)
    }

    fn reap(&mut self, phase: PumpPhase) -> (a: ())
        requires
            pump_reaped(phase),
        ensures
            final(self).spec_phase() == phase,
            final(self).spec_slot() == 0,
    {
        self.slot = 0;
        self.phase = phase;
    }

    /// Takes what the caller saw and says what to do next. A wait that
    /// reports the child's end reaps it and empties the slot; after that the
    /// child is never waited for again.
    pub fn step(&mut self, event: PumpEvent) -> (a: PumpAction)
        ensures
            pump_reaped(final(self).spec_phase()) ==> final(self).spec_slot() == 0,
            !pump_reaped(final(self).spec_phase()) ==> final(self).spec_slot() == old(
                self,
            ).spec_slot(),
            pump_reaped(old(self).spec_phase()) ==> !(a is PollChild) && !(a is WaitChild),
            ({
                let q = final(self).spec_phase();
                match (old(self).spec_phase(), event) {
                    (PumpPhase::Polling, PumpEvent::Polled(Ok(s))) => match termination_of(s) {
                        Some(t) => q == PumpPhase::Draining(t) && a is DrainOutput,
                        None => if s == ChildStatus::StillAlive {
                            q == PumpPhase::Reading && a is ReadMaster
                        } else {
                            q == PumpPhase::Polling && a is PollChild
                        },
                    },
                    (PumpPhase::Polling, PumpEvent::Polled(Err(WaitFailure::NoChild))) => q
                        == PumpPhase::FinalWait && a is WaitChild,
                    (PumpPhase::Polling, PumpEvent::Polled(Err(_))) => q == PumpPhase::Polling
                        && a is PollChild,
                    (PumpPhase::Reading, PumpEvent::Read(ReadOutcome::Data(n))) => q
                        == PumpPhase::Polling && if n > 0 {
                        a == PumpAction::CopyOut(n)
                    } else {
                        a == PumpAction::Pause(PUMP_PAUSE_MS)
                    },
                    (PumpPhase::Reading, PumpEvent::Read(_)) => q == PumpPhase::Polling && a
                        == PumpAction::Pause(PUMP_PAUSE_MS),
                    (PumpPhase::Draining(t), PumpEvent::Drained) => q == PumpPhase::Finished && a
                        == PumpAction::Finish(t),
                    (PumpPhase::FinalWait, PumpEvent::Waited(w)) => q == PumpPhase::Finished
                        && match w {
                        Ok(s) => match termination_of(s) {
                            Some(t) => a == PumpAction::Finish(t),
                            None => a == PumpAction::Finish(Termination::Exited(0)),
                        },
                        Err(_) => a == PumpAction::Finish(Termination::Exited(0)),
                    },
                    _ => q == PumpPhase::Finished && a is Fail && a->Fail_0.is(
                        ErrorKind::Initialization,
                        unexpected_pump_event(),
                    ),
                }
            }),
    {
        proof {
            use_type_invariant(&*self);
        }
        match (self.phase, event) {
            (PumpPhase::Polling, PumpEvent::Polled(Ok(s))) => {
                match s {
                    ChildStatus::Exited(n) => {
                        self.reap(PumpPhase::Draining(Termination::Exited(n)));
                        PumpAction::DrainOutput
                    },
                    ChildStatus::Signaled(sig) => {
                        self.reap(PumpPhase::Draining(Termination::Signaled(sig)));
                        PumpAction::DrainOutput
                    },
                    ChildStatus::StillAlive => {
                        self.phase = PumpPhase::Reading;
                        PumpAction::ReadMaster
                    },
                    _ => PumpAction::PollChild,
                }
            },
            (PumpPhase::Polling, PumpEvent::Polled(Err(WaitFailure::NoChild))) => {
                self.phase = PumpPhase::FinalWait;
                PumpAction::WaitChild
            },
            (PumpPhase::Polling, PumpEvent::Polled(Err(_))) => PumpAction::PollChild,
            (PumpPhase::Reading, PumpEvent::Read(outcome)) => {
                self.phase = PumpPhase::Polling;
                match outcome {
                    ReadOutcome::Data(n) => {
                        if n > 0 {
                            PumpAction::CopyOut(n)
                        } else {
                            PumpAction::Pause(PUMP_PAUSE_MS)
                        }
                    },
                    _ => PumpAction::Pause(PUMP_PAUSE_MS),
                }
            },
            (PumpPhase::Draining(t), PumpEvent::Drained) => {
                self.reap(PumpPhase::Finished);
                PumpAction::Finish(t)
            },
            (PumpPhase::FinalWait, PumpEvent::Waited(w)) => {
                self.reap(PumpPhase::Finished);
                match w {
                    Ok(ChildStatus::Exited(n)) => PumpAction::Finish(Termination::Exited(n)),
                    Ok(ChildStatus::Signaled(sig)) => PumpAction::Finish(Termination::Signaled(sig)),
                    _ => PumpAction::Finish(Termination::Exited(0)),
                }
            },
            _ => {
                self.reap(PumpPhase::Finished);
                PumpAction::Fail(
                    ContainerError::initialization(
                        String::from_str("unexpected event while copying output"),
                    ),
                )
            },
        }
    }
}

} // verus!
