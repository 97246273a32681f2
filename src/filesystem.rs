//! The container's root filesystem: checks on the rootfs directory, and the
//! ordered operations that pivot into it and mount the guest's pseudo
//! filesystems.

use vstd::prelude::*;
use crate::cgroup::{join, join_path};
use crate::error::{ContainerError, ContainerResult, ErrorKind};

verus! {

/// Propagation and binding flags of a mount call.
#[derive(PartialEq, Eq, Structural, Clone, Copy, Debug)]
pub struct MountFlags {
    pub bind: bool,
    pub recursive: bool,
    pub private: bool,
    pub slave: bool,
}

pub open spec fn no_flags() -> MountFlags {
    MountFlags { bind: false, recursive: false, private: false, slave: false }
}

/// What a failure of a step leads to.
#[derive(PartialEq, Eq, Structural, Clone, Copy, Debug)]
pub enum OnFailure {
    /// Nothing.
    Ignore,
    /// A warning; the work goes on.
    Warn,
    /// A warning unless the target was busy (already mounted); the work goes on.
    WarnUnlessBusy,
    /// A `Filesystem` error that ends the work.
    Fatal,
}

/// One filesystem operation.
#[derive(Debug)]
pub enum FsOp {
    /// `mount(source, target, fstype, flags, data)`.
    Mount { source: Option<String>, target: String, fstype: Option<String>, flags: MountFlags, data: Option<String> },
    /// Change the working directory.
    ChangeDir(String),
    /// Create a directory and its parents; an existing one is fine.
    CreateDirAll(String),
    /// `pivot_root(new_root, put_old)`.
    PivotRoot { new_root: String, put_old: String },
    /// Detach the mount at this path, lazily.
    Detach(String),
    /// Remove a directory and all it holds.
    RemoveDirAll(String),
}

/// One step: an operation, a path that must exist for it to be done at all,
/// what its failure leads to, and the words of that failure.
#[derive(Debug)]
pub struct FsStep {
    pub op: FsOp,
    pub only_if_present: Option<String>,
    pub on_failure: OnFailure,
    pub message: String,
}

/// The mathematical value of an `FsOp`.
pub enum FsOpView {
    Mount {
        source: Option<Seq<char>>,
        target: Seq<char>,
        fstype: Option<Seq<char>>,
        flags: MountFlags,
        data: Option<Seq<char>>,
    },
    ChangeDir(Seq<char>),
    CreateDirAll(Seq<char>),
    PivotRoot(Seq<char>, Seq<char>),
    Detach(Seq<char>),
    RemoveDirAll(Seq<char>),
}

/// The mathematical value of an `FsStep`.
pub struct FsStepView {
    pub op: FsOpView,
    pub only_if_present: Option<Seq<char>>,
    pub on_failure: OnFailure,
    pub message: Seq<char>,
}

pub open spec fn opt_view(o: Option<String>) -> Option<Seq<char>> {
    match o {
        Some(s) => Some(s@),
        None => None,
    }
}

impl View for FsOp {
    type V = FsOpView;

    open spec fn view(&self) -> FsOpView {
        match self {
            FsOp::Mount { source, target, fstype, flags, data } => FsOpView::Mount {
                source: opt_view(*source),
                target: target@,
                fstype: opt_view(*fstype),
                flags: *flags,
                data: opt_view(*data),
            },
            FsOp::ChangeDir(p) => FsOpView::ChangeDir(p@),
            FsOp::CreateDirAll(p) => FsOpView::CreateDirAll(p@),
            FsOp::PivotRoot { new_root, put_old } => FsOpView::PivotRoot(new_root@, put_old@),
            FsOp::Detach(p) => FsOpView::Detach(p@),
            FsOp::RemoveDirAll(p) => FsOpView::RemoveDirAll(p@),
        }
    }
}

impl View for FsStep {
    type V = FsStepView;

    open spec fn view(&self) -> FsStepView {
        FsStepView {
            op: self.op@,
            only_if_present: opt_view(self.only_if_present),
            on_failure: self.on_failure,
            message: self.message@,
        }
    }
}

pub open spec fn steps_view(s: Seq<FsStep>) -> Seq<FsStepView> {
    s.map_values(|x: FsStep| x@)
}

pub open spec fn step(op: FsOpView, on_failure: OnFailure, message: Seq<char>) -> FsStepView {
    FsStepView { op, only_if_present: None, on_failure, message }
}

/// The steps that make the rootfs at absolute path `p` the root: cut the
/// host's mount propagation (best effort), bind `p` onto itself, make it
/// private, enter it, pivot the old root onto `oldroot`, enter the new
/// root, then detach and remove the old one (warnings only).
pub open spec fn pivot_steps(p: Seq<char>) -> Seq<FsStepView> {
    seq![
        step(FsOpView::Mount { source: None, target: "/"@, fstype: None,
            flags: MountFlags { bind: false, recursive: true, private: false, slave: true }, data: None },
            OnFailure::Ignore, "Failed to make / a slave mount"@),
        step(FsOpView::Mount { source: Some(p), target: p, fstype: None,
            flags: MountFlags { bind: true, recursive: true, private: false, slave: false }, data: None },
            OnFailure::Fatal, "Failed to bind mount rootfs"@),
        step(FsOpView::Mount { source: None, target: p, fstype: None,
            flags: MountFlags { bind: false, recursive: true, private: true, slave: false }, data: None },
            OnFailure::Fatal, "Failed to make mount private"@),
        step(FsOpView::ChangeDir(p), OnFailure::Fatal, "chdir to rootfs failed"@),
        step(FsOpView::CreateDirAll("oldroot"@), OnFailure::Fatal, "Failed to create put_old"@),
        step(FsOpView::PivotRoot("."@, "oldroot"@), OnFailure::Fatal, "pivot_root failed"@),
        step(FsOpView::ChangeDir("/"@), OnFailure::Fatal, "chdir to new root failed"@),
        step(FsOpView::Detach("/oldroot"@), OnFailure::Warn, "Failed to unmount old root"@),
        step(FsOpView::RemoveDirAll("/oldroot"@), OnFailure::Warn, "Failed to remove old root directory"@),
    ]
}

/// The steps that mount the guest's pseudo filesystems once the root is
/// pivoted: `proc` at `/proc` (created if needed; fatal), then `sysfs` at
/// `/sys` and `devtmpfs` at `/dev`, each only where the directory exists
/// and with a warning on failure.
pub open spec fn guest_mount_steps() -> Seq<FsStepView> {
    seq![
        step(FsOpView::CreateDirAll("/proc"@), OnFailure::Fatal, "Failed to create /proc directory"@),
        step(FsOpView::Mount { source: Some("proc"@), target: "/proc"@, fstype: Some("proc"@),
            flags: no_flags(), data: None }, OnFailure::Fatal, "Failed to mount proc"@),
        FsStepView { op: FsOpView::Mount { source: Some("sysfs"@), target: "/sys"@, fstype: Some("sysfs"@),
            flags: no_flags(), data: None }, only_if_present: Some("/sys"@), on_failure: OnFailure::Warn,
            message: "Failed to mount sysfs"@ },
        FsStepView { op: FsOpView::Mount { source: Some("devtmpfs"@), target: "/dev"@,
            fstype: Some("devtmpfs"@), flags: no_flags(), data: None }, only_if_present: Some("/dev"@),
            on_failure: OnFailure::Warn, message: "Failed to mount devtmpfs"@ },
    ]
}

/// Setting the filesystem up for rootfs `p` pivots into `p` itself and
/// leaves no old root behind: `p` is bound onto itself and made private
/// before anything else can fail, the pivot is made from inside `p` (entered
/// just before, with only the creation of `oldroot` between), the new root
/// is entered right after, and the last two pivot steps detach and remove
/// `/oldroot`. Every step up to the new root's entry is fatal on failure, so
/// none of the later ones runs after a failed one.
pub proof fn lemma_pivot_enters_rootfs_and_drops_old_root(p: Seq<char>)
    ensures
        ({
            let s = pivot_steps(p) + guest_mount_steps();
            &&& s[1].op == (FsOpView::Mount {
                source: Some(p),
                target: p,
                fstype: None,
                flags: MountFlags { bind: true, recursive: true, private: false, slave: false },
                data: None,
            })
            &&& s[2].op == (FsOpView::Mount {
                source: None,
                target: p,
                fstype: None,
                flags: MountFlags { bind: false, recursive: true, private: true, slave: false },
                data: None,
            })
            &&& s[3].op == FsOpView::ChangeDir(p)
            &&& s[4].op is CreateDirAll
            &&& s[5].op == FsOpView::PivotRoot("."@, "oldroot"@)
            &&& s[6].op == FsOpView::ChangeDir("/"@)
            &&& s[7].op == FsOpView::Detach("/oldroot"@)
            &&& s[8].op == FsOpView::RemoveDirAll("/oldroot"@)
            &&& forall|i: int| 1 <= i <= 6 ==> (#[trigger] s[i]).on_failure == OnFailure::Fatal
            &&& forall|i: int| 9 <= i < s.len() ==> !((#[trigger] s[i]).op is PivotRoot)
                && !(s[i].op is RemoveDirAll)
        }),
{
    let s = pivot_steps(p) + guest_mount_steps();
    assert(s.len() == 13);
    assert forall|i: int| 9 <= i < s.len() implies !((#[trigger] s[i]).op is PivotRoot) && !(
    s[i].op is RemoveDirAll) by {
        assert(s[i] == guest_mount_steps()[i - 9]);
    }
}

/// The subdirectories a usable rootfs is expected to have.
pub open spec fn essential_dirs() -> Seq<Seq<char>> {
    seq!["bin"@, "lib"@, "etc"@]
}

pub open spec fn missing_message(path: Seq<char>) -> Seq<char> {
    "Rootfs path does not exist: "@ + path
}

pub open spec fn not_dir_message(path: Seq<char>) -> Seq<char> {
    "Rootfs path is not a directory: "@ + path
}

pub open spec fn strings_view(s: Seq<String>) -> Seq<Seq<char>> {
    s.map_values(|x: String| x@)
}

/// The names of the essential subdirectories among the first `n` that
/// `present` does not mark, in order.
pub open spec fn missing_essentials(present: Seq<bool>, n: nat) -> Seq<Seq<char>>
    decreases n,
{
    if n == 0 {
        Seq::empty()
    } else {
        let i = n - 1;
        let before = missing_essentials(present, (n - 1) as nat);
        if i < present.len() && present[i] {
            before
        } else {
            before.push(essential_dirs()[i])
        }
    }
}

/// Stateless operations on the container's filesystem.
#[derive(Debug)]
pub struct FilesystemManager;

pub(crate) fn new_step(op: FsOp, on_failure: OnFailure, message: &str) -> (r: FsStep)
    ensures
        r@ == step(op@, on_failure, message@),
{
    FsStep { op, only_if_present: None, on_failure, message: String::from_str(message) }
}

pub(crate) fn push_step(v: &mut Vec<FsStep>, s: FsStep)
    ensures
        steps_view(final(v)@) == steps_view(old(v)@).push(s@),
{
    v.push(s);
    assert(steps_view(final(v)@) =~= steps_view(old(v)@).push(s@));
}

fn flags(bind: bool, recursive: bool, private: bool, slave: bool) -> (r: MountFlags)
    ensures
        r == (MountFlags { bind, recursive, private, slave }),
{
    MountFlags { bind, recursive, private, slave }
}

fn guest_mount(kind: &str, target: &str, only_if_present: Option<String>, on_failure: OnFailure, message: &str) -> (r: FsStep)
    ensures
        r@ == (FsStepView {
            op: FsOpView::Mount { source: Some(kind@), target: target@, fstype: Some(kind@), flags: no_flags(), data: None },
            only_if_present: opt_view(only_if_present),
            on_failure,
            message: message@,
        }),
{
    FsStep {
        op: FsOp::Mount {
            source: Some(String::from_str(kind)),
            target: String::from_str(target),
            fstype: Some(String::from_str(kind)),
            flags: flags(false, false, false, false),
            data: None,
        },
        only_if_present,
        on_failure,
        message: String::from_str(message),
    }
}

impl FsStep {
    /// The error that this step's failure for `reason` ends the work with,
    /// if its failure is fatal.
    pub fn failure(&self, reason: &str) -> (r: Option<ContainerError>)
        ensures
            r is Some <==> self.on_failure == OnFailure::Fatal,
            r is Some ==> r->Some_0.is(ErrorKind::Filesystem, self.message@ + ": "@ + reason@),
    {
        match self.on_failure {
            OnFailure::Fatal => Some(
                ContainerError::filesystem_setup(self.message.clone().concat(": ").concat(reason)),
            ),
            _ => None,
        }
    }
}

impl FilesystemManager {
    /// The paths of the essential subdirectories of the rootfs at `path`.
    pub fn essential_paths(path: &str) -> (r: Vec<String>)
        ensures
            r@.len() == 3,
            forall|i: int| 0 <= i < 3 ==> #[trigger] r@[i]@ == join(path@, essential_dirs()[i]),
    {
        let mut v: Vec<String> = Vec::new();
        v.push(join_path(path, "bin"));
        v.push(join_path(path, "lib"));
        v.push(join_path(path, "etc"));
        v
    }

    /// Checks the rootfs at `path`: it must exist and be a directory. The
    /// answer names, in order, the essential subdirectories that `present`
    /// does not mark (a missing entry counts as absent); their absence is
    /// only worth a warning.
    pub fn validate_rootfs(path: &str, exists: bool, is_dir: bool, present: &[bool]) -> (r:
        ContainerResult<Vec<String>>)
        ensures
            !exists ==> r is Err && r->Err_0.is(ErrorKind::Filesystem, missing_message(path@)),
            exists && !is_dir ==> r is Err && r->Err_0.is(
                ErrorKind::Filesystem,
                not_dir_message(path@),
            ),
            exists && is_dir ==> r is Ok && strings_view(r->Ok_0@) == missing_essentials(
                present@,
                3,
            ),
    {
        if !exists {
            return Err(
                ContainerError::filesystem_setup(
                    String::from_str("Rootfs path does not exist: ").concat(path),
                ),
            );
        }
        if !is_dir {
            return Err(
                ContainerError::filesystem_setup(
                    String::from_str("Rootfs path is not a directory: ").concat(path),
                ),
            );
        }
        let mut missing: Vec<String> = Vec::new();
        let mut i: usize = 0;
        assert(strings_view(missing@) =~= missing_essentials(present@, 0));
        while i < 3
            invariant
                i <= 3,
                strings_view(missing@) == missing_essentials(present@, i as nat),
            decreases 3 - i,
        {
            if !(i < present.len() && present[i]) {
                let name = match i {
                    0 => String::from_str("bin"),
                    1 => String::from_str("lib"),
                    _ => String::from_str("etc"),
                };
                let ghost before = missing@;
                missing.push(name);
                assert(strings_view(missing@) =~= strings_view(before).push(name@));
            }
            i = i + 1;
        }
        Ok(missing)
    }

    /// The steps that pivot into the rootfs at absolute path `path`.
    pub fn pivot_plan(path: &str) -> (r: Vec<FsStep>)
        ensures
            steps_view(r@) == pivot_steps(path@),
    {
        let mut v: Vec<FsStep> = Vec::new();
        push_step(&mut v, new_step(FsOp::Mount {
            source: None, target: String::from_str("/"), fstype: None,
            flags: flags(false, true, false, true), data: None,
        }, OnFailure::Ignore, "Failed to make / a slave mount"));
        push_step(&mut v, new_step(FsOp::Mount {
            source: Some(String::from_str(path)), target: String::from_str(path), fstype: None,
            flags: flags(true, true, false, false), data: None,
        }, OnFailure::Fatal, "Failed to bind mount rootfs"));
        push_step(&mut v, new_step(FsOp::Mount {
            source: None, target: String::from_str(path), fstype: None,
            flags: flags(false, true, true, false), data: None,
        }, OnFailure::Fatal, "Failed to make mount private"));
        push_step(&mut v, new_step(FsOp::ChangeDir(String::from_str(path)), OnFailure::Fatal, "chdir to rootfs failed"));
        push_step(&mut v, new_step(FsOp::CreateDirAll(String::from_str("oldroot")), OnFailure::Fatal, "Failed to create put_old"));
        push_step(&mut v, new_step(FsOp::PivotRoot {
            new_root: String::from_str("."), put_old: String::from_str("oldroot"),
        }, OnFailure::Fatal, "pivot_root failed"));
        push_step(&mut v, new_step(FsOp::ChangeDir(String::from_str("/")), OnFailure::Fatal, "chdir to new root failed"));
        push_step(&mut v, new_step(FsOp::Detach(String::from_str("/oldroot")), OnFailure::Warn, "Failed to unmount old root"));
        push_step(&mut v, new_step(FsOp::RemoveDirAll(String::from_str("/oldroot")), OnFailure::Warn, "Failed to remove old root directory"));
        assert(steps_view(v@) =~= pivot_steps(path@));
        v
    }

    /// The steps that mount the guest's pseudo filesystems.
    pub fn guest_mount_plan() -> (r: Vec<FsStep>)
        ensures
            steps_view(r@) == guest_mount_steps(),
    {
        let mut v: Vec<FsStep> = Vec::new();
        push_step(&mut v, new_step(FsOp::CreateDirAll(String::from_str("/proc")), OnFailure::Fatal, "Failed to create /proc directory"));
        push_step(&mut v, guest_mount("proc", "/proc", None, OnFailure::Fatal, "Failed to mount proc"));
        push_step(&mut v, guest_mount("sysfs", "/sys", Some(String::from_str("/sys")), OnFailure::Warn, "Failed to mount sysfs"));
        push_step(&mut v, guest_mount("devtmpfs", "/dev", Some(String::from_str("/dev")), OnFailure::Warn, "Failed to mount devtmpfs"));
        assert(steps_view(v@) =~= guest_mount_steps());
        v
    }

    /// Every step that sets the container's filesystem up once the rootfs at
    /// absolute path `path` has been checked: the pivot, then the guest mounts.
    pub fn container_filesystem_plan(path: &str) -> (r: Vec<FsStep>)
        ensures
            steps_view(r@) == pivot_steps(path@) + guest_mount_steps(),
    {
        let mut v = FilesystemManager::pivot_plan(path);
        let mut rest = FilesystemManager::guest_mount_plan();
        let ghost a = v@;
        let ghost b = rest@;
        v.append(&mut rest);
        assert(steps_view(v@) =~= steps_view(a) + steps_view(b));
        v
    }

    /// The error that a failed canonicalization of the rootfs path becomes.
    pub fn canonicalize_error(reason: &str) -> (e: ContainerError)
        ensures
            e.is(ErrorKind::Filesystem, "Failed to canonicalize path: "@ + reason@),
    {
        ContainerError::filesystem_setup(String::from_str("Failed to canonicalize path: ").concat(reason))
    }
}

} // verus!
