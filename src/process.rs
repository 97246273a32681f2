//! Running the container's command: where the executable is, what argv and
//! environment it gets, and the decisions of the parent that supervises it.

use vstd::prelude::*;
use vstd::utf8::encode_utf8;
use crate::cgroup::{join, join_path};
use crate::error::{ContainerError, ContainerResult, ErrorKind};
use crate::filesystem::{new_step, no_flags, push_step, steps_view, step, FsOp, FsOpView, FsStep, FsStepView, MountFlags, OnFailure};

verus! {

/// The directories searched, in order, for a command without a `/` in front.
pub open spec fn search_dirs() -> Seq<Seq<char>> {
    seq!["/bin"@, "/usr/bin"@, "/sbin"@, "/usr/sbin"@]
}

pub open spec fn is_absolute(command: Seq<char>) -> bool {
    command.len() > 0 && command[0] == '/'
}

/// The paths at which a command is looked for: none for an absolute one,
/// else the command under each search directory, in order.
pub open spec fn candidate_paths(command: Seq<char>) -> Seq<Seq<char>> {
    if is_absolute(command) {
        Seq::empty()
    } else {
        search_dirs().map_values(|d: Seq<char>| join(d, command))
    }
}

/// The index of the first of candidates `i` to 3 that `present` marks, if any.
pub open spec fn first_present(present: Seq<bool>, i: int) -> Option<int>
    decreases 4 - i,
{
    if i >= 4 {
        None
    } else if i < present.len() && present[i] {
        Some(i)
    } else {
        first_present(present, i + 1)
    }
}

/// The path a command runs from: an absolute command as it is; else the
/// first candidate that `present` marks; else the command under `/bin`.
pub open spec fn resolved_path(command: Seq<char>, present: Seq<bool>) -> Seq<char> {
    if is_absolute(command) {
        command
    } else {
        match first_present(present, 0) {
            Some(i) => candidate_paths(command)[i],
            None => join("/bin"@, command),
        }
    }
}

/// The fixed environment of the command.
pub open spec fn environment_entries() -> Seq<Seq<char>> {
    seq![
        "PATH=/usr/local/sbin:/usr/local/bin:/usr/sbin:/usr/bin:/sbin:/bin"@,
        "TERM=xterm"@,
        "HOME=/root"@,
        "HOSTNAME=rust-container"@,
        "container=rust-container-runtime"@,
    ]
}

/// A byte string as C reads it: the bytes, then a NUL.
pub open spec fn c_string(s: Seq<u8>) -> Seq<u8> {
    s.push(0u8)
}

pub open spec fn has_nul(s: Seq<u8>) -> bool {
    exists|i: int| 0 <= i < s.len() && s[i] == 0u8
}

pub open spec fn not_found_message(path: Seq<char>) -> Seq<char> {
    "Command not found in container: "@ + path
}

/// The options of the container's own devpts instance.
pub open spec fn devpts_options() -> Seq<char> {
    "newinstance,ptmxmode=0666,mode=0620"@
}

/// The steps that give the container its own pseudo-terminal devices:
/// create `/dev/pts` (fatal on failure), then mount a new devpts instance
/// there (a warning on failure, none when it is already mounted).
pub open spec fn devpts_steps() -> Seq<FsStepView> {
    seq![
        step(FsOpView::CreateDirAll("/dev/pts"@), OnFailure::Fatal, "failed to create /dev/pts"@),
        step(FsOpView::Mount { source: Some("devpts"@), target: "/dev/pts"@, fstype: Some("devpts"@),
            flags: no_flags(), data: Some(devpts_options()) }, OnFailure::WarnUnlessBusy,
            "Could not mount devpts"@),
    ]
}

/// What `/dev/ptmx` is now.
#[derive(Debug)]
pub enum PtmxState {
    /// A symbolic link to this target.
    Link(String),
    /// Not a symbolic link; it exists, or not.
    NotLink { exists: bool },
}

/// How to make `/dev/ptmx` a link to `/dev/pts/ptmx`.
#[derive(PartialEq, Eq, Structural, Clone, Copy, Debug)]
pub struct PtmxFix {
    /// Remove what is there first.
    pub remove_existing: bool,
    /// Create the link.
    pub create_link: bool,
}

pub open spec fn ptmx_target() -> Seq<char> {
    "/dev/pts/ptmx"@
}

/// Operations that start the container's command and wait for it.
#[derive(Debug)]
pub struct ProcessManager;

fn dir_string(i: usize) -> (r: String)
    requires
        i < 4,
    ensures
        r@ == search_dirs()[i as int],
{
    match i {
        0 => String::from_str("/bin"),
        1 => String::from_str("/usr/bin"),
        2 => String::from_str("/sbin"),
        _ => String::from_str("/usr/sbin"),
    }
}

fn starts_with_slash(s: &str) -> (r: bool)
    ensures
        r == is_absolute(s@),
{
    s.unicode_len() > 0 && s.get_char(0) == '/'
}

/// NUL-terminates `s`, or says that it holds a NUL.
fn c_bytes(s: &[u8]) -> (r: Option<Vec<u8>>)
    ensures
        r is None <==> has_nul(s@),
        r is Some ==> r->Some_0@ == c_string(s@),
{
    let mut v: Vec<u8> = Vec::new();
    let mut i: usize = 0;
    while i < s.len()
        invariant
            i <= s@.len(),
            v@ == s@.subrange(0, i as int),
            forall|j: int| 0 <= j < i ==> s@[j] != 0u8,
        decreases s@.len() - i,
    {
        if s[i] == 0u8 {
            return None;
        }
        v.push(s[i]);
        assert(v@ =~= s@.subrange(0, i + 1));
        i = i + 1;
    }
    assert(v@ =~= s@);
    v.push(0u8);
    Some(v)
}

impl ProcessManager {
    /// The paths at which `command` is looked for, in order.
    pub fn command_candidates(command: &str) -> (r: Vec<String>)
        ensures
            r@.len() == candidate_paths(command@).len(),
            forall|i: int| 0 <= i < r@.len() ==> #[trigger] r@[i]@ == candidate_paths(command@)[i],
    {
        let mut v: Vec<String> = Vec::new();
        if starts_with_slash(command) {
            return v;
        }
        let mut i: usize = 0;
        while i < 4
            invariant
                !is_absolute(command@),
                i <= 4,
                v@.len() == i,
                forall|j: int| 0 <= j < i ==> #[trigger] v@[j]@ == candidate_paths(command@)[j],
            decreases 4 - i,
        {
            let d = dir_string(i);
            v.push(join_path(d.as_str(), command));
            i = i + 1;
        }
        v
    }

    /// The path `command` runs from, given which of its candidates exist
    /// (`present[i]` for candidate `i`; a missing entry counts as absent).
    pub fn resolve_command(command: &str, present: &[bool]) -> (r: String)
        ensures
            r@ == resolved_path(command@, present@),
    {
        if starts_with_slash(command) {
            return String::from_str(command);
        }
        let candidates = ProcessManager::command_candidates(command);
        let mut i: usize = 0;
        while i < 4
            invariant
                !is_absolute(command@),
                i <= 4,
                candidates@.len() == 4,
                forall|j: int| 0 <= j < 4 ==> #[trigger] candidates@[j]@ == candidate_paths(command@)[j],
                first_present(present@, 0) == first_present(present@, i as int),
            decreases 4 - i,
        {
            if i < present.len() && present[i] {
                return candidates[i].clone();
            }
            i = i + 1;
        }
        join_path("/bin", command)
    }

    /// The steps that mount the container's devpts instance.
    pub fn devpts_plan() -> (r: Vec<FsStep>)
        ensures
            steps_view(r@) == devpts_steps(),
    {
        let mut v: Vec<FsStep> = Vec::new();
        push_step(&mut v, new_step(FsOp::CreateDirAll(String::from_str("/dev/pts")), OnFailure::Fatal, "failed to create /dev/pts"));
        let mount = FsOp::Mount {
            source: Some(String::from_str("devpts")),
            target: String::from_str("/dev/pts"),
            fstype: Some(String::from_str("devpts")),
            flags: MountFlags { bind: false, recursive: false, private: false, slave: false },
            data: Some(String::from_str("newinstance,ptmxmode=0666,mode=0620")),
        };
        push_step(&mut v, new_step(mount, OnFailure::WarnUnlessBusy, "Could not mount devpts"));
        assert(steps_view(v@) =~= devpts_steps());
        v
    }

    /// What to do about `/dev/ptmx`: nothing when it already links to
    /// `/dev/pts/ptmx`; else remove whatever is there and create the link.
    pub fn ptmx_fix(state: &PtmxState) -> (r: PtmxFix)
        ensures
            r == match state {
                PtmxState::Link(t) => if t@ == ptmx_target() {
                    PtmxFix { remove_existing: false, create_link: false }
                } else {
                    PtmxFix { remove_existing: true, create_link: true }
                },
                PtmxState::NotLink { exists } => PtmxFix { remove_existing: *exists, create_link: true },
            },
    {
        match state {
            PtmxState::Link(t) => {
                let target = String::from_str("/dev/pts/ptmx");
                if *t == target {
                    PtmxFix { remove_existing: false, create_link: false }
                } else {
                    PtmxFix { remove_existing: true, create_link: true }
                }
            },
            PtmxState::NotLink { exists } => PtmxFix { remove_existing: *exists, create_link: true },
        }
    }

    /// The error for a `/dev/ptmx` that could not be fixed.
    pub fn ptmx_error(reason: &str) -> (e: ContainerError)
        ensures
            e.is(ErrorKind::Filesystem, "Failed to create /dev/ptmx symlink: "@ + reason@),
    {
        ContainerError::filesystem_setup(String::from_str("Failed to create /dev/ptmx symlink: ").concat(reason))
    }

    /// The error for a resolved path that does not exist.
    pub fn command_not_found(path: &str) -> (e: ContainerError)
        ensures
            e.is(ErrorKind::ProcessExecution, not_found_message(path@)),
    {
        ContainerError::process_execution(String::from_str("Command not found in container: ").concat(path))
    }

    /// The argument vector: the resolved path, then the arguments, each as
    /// NUL-terminated bytes. A NUL inside any of them is an `InvalidString`.
    pub fn build_argv(command_path: &str, args: &[String]) -> (r: ContainerResult<Vec<Vec<u8>>>)
        ensures
            r is Ok <==> !has_nul(encode_utf8(command_path@)) && forall|i: int|
                0 <= i < args@.len() ==> !has_nul(encode_utf8(#[trigger] args@[i]@)),
            r is Err ==> r->Err_0.spec_kind() == ErrorKind::InvalidString,
            r is Ok ==> r->Ok_0@.len() == args@.len() + 1 && r->Ok_0@[0]@ == c_string(
                encode_utf8(command_path@),
            ) && forall|i: int|
                0 <= i < args@.len() ==> #[trigger] r->Ok_0@[i + 1]@ == c_string(
                    encode_utf8(args@[i]@),
                ),
    {
        let mut argv: Vec<Vec<u8>> = Vec::new();
        match c_bytes(command_path.as_bytes()) {
            Some(b) => argv.push(b),
            None => {
                return Err(nul_error());
            },
        }
        let mut i: usize = 0;
        while i < args.len()
            invariant
                i <= args@.len(),
                argv@.len() == i + 1,
                argv@[0]@ == c_string(encode_utf8(command_path@)),
                !has_nul(encode_utf8(command_path@)),
                forall|j: int| 0 <= j < i ==> !has_nul(encode_utf8(#[trigger] args@[j]@)),
                forall|j: int| 0 <= j < i ==> #[trigger] argv@[j + 1]@ == c_string(encode_utf8(args@[j]@)),
            decreases args@.len() - i,
        {
            match c_bytes(args[i].as_str().as_bytes()) {
                Some(b) => argv.push(b),
                None => {
                    return Err(nul_error());
                },
            }
            i = i + 1;
        }
        Ok(argv)
    }

    /// The command's environment, each entry as NUL-terminated bytes.
    pub fn build_environment() -> (r: ContainerResult<Vec<Vec<u8>>>)
        ensures
            r is Ok,
            r->Ok_0@.len() == environment_entries().len(),
            forall|i: int| 0 <= i < r->Ok_0@.len() ==> #[trigger] r->Ok_0@[i]@ == c_string(
                encode_utf8(environment_entries()[i]),
            ),
    {
        proof {
            reveal_strlit("PATH=/usr/local/sbin:/usr/local/bin:/usr/sbin:/usr/bin:/sbin:/bin");
            reveal_strlit("TERM=xterm");
            reveal_strlit("HOME=/root");
            reveal_strlit("HOSTNAME=rust-container");
            reveal_strlit("container=rust-container-runtime");
        }
        let mut env: Vec<Vec<u8>> = Vec::new();
        env.push(literal_c_bytes("PATH=/usr/local/sbin:/usr/local/bin:/usr/sbin:/usr/bin:/sbin:/bin"));
        env.push(literal_c_bytes("TERM=xterm"));
        env.push(literal_c_bytes("HOME=/root"));
        env.push(literal_c_bytes("HOSTNAME=rust-container"));
        env.push(literal_c_bytes("container=rust-container-runtime"));
        assert(env@.len() == 5);
        Ok(env)
    }
}

fn nul_error() -> (e: ContainerError)
    ensures
        e.spec_kind() == ErrorKind::InvalidString,
{
    ContainerError::InvalidString { message: String::from_str("nul byte found in provided data") }
}

/// ASCII without NUL.
pub open spec fn plain_ascii(c: Seq<char>) -> bool {
    forall|i: int| 0 <= i < c.len() ==> '\u{1}' <= #[trigger] c[i] <= '\u{7f}'
}

proof fn lemma_plain_ascii_has_no_nul(c: Seq<char>)
    requires
        plain_ascii(c),
    ensures
        !has_nul(encode_utf8(c)),
{
    vstd::utf8::is_ascii_chars_encode_utf8(c);
    assert forall|i: int| 0 <= i < encode_utf8(c).len() implies encode_utf8(c)[i] != 0u8 by {
        assert(c[i] as u8 == encode_utf8(c)[i]);
    }
}

/// The NUL-terminated bytes of a text in plain ASCII.
fn literal_c_bytes(s: &str) -> (r: Vec<u8>)
    requires
        plain_ascii(s@),
    ensures
        r@ == c_string(encode_utf8(s@)),
{
    proof {
        lemma_plain_ascii_has_no_nul(s@);
    }
    match c_bytes(s.as_bytes()) {
        Some(b) => b,
        None => Vec::new(),
    }
}

} // verus!
