//! The error taxonomy shared by every component: a kind and a message.

use vstd::prelude::*;

verus! {

/// What went wrong, without the words.
#[derive(PartialEq, Eq, Structural, Clone, Copy, Debug)]
pub enum ErrorKind {
    Io,
    Syscall,
    NamespaceSetup,
    Filesystem,
    ProcessExecution,
    Cgroup,
    InvalidConfiguration,
    Initialization,
    RootRequired,
    InvalidString,
}

/// A failure of the runtime: its kind and a human-readable message.
#[derive(Debug, Clone)]
pub enum ContainerError {
    Io { message: String },
    Syscall { message: String },
    NamespaceSetup { message: String },
    Filesystem { message: String },
    ProcessExecution { message: String },
    RootRequired,
    InvalidConfiguration { message: String },
    InvalidString { message: String },
    Initialization { message: String },
    Cgroup { message: String },
}

pub type ContainerResult<T> = Result<T, ContainerError>;

/// Whether errors of this kind carry a message.
pub open spec fn kind_has_message(k: ErrorKind) -> bool {
    k != ErrorKind::RootRequired
}

/// The message that `context(description)` leaves on an error whose message was `message`.
pub open spec fn with_context(description: Seq<char>, message: Seq<char>) -> Seq<char> {
    description + seq![':'] + message
}

impl ContainerError {
    pub open spec fn spec_kind(&self) -> ErrorKind {
        match self {
            ContainerError::Io { .. } => ErrorKind::Io,
            ContainerError::Syscall { .. } => ErrorKind::Syscall,
            ContainerError::NamespaceSetup { .. } => ErrorKind::NamespaceSetup,
            ContainerError::Filesystem { .. } => ErrorKind::Filesystem,
            ContainerError::ProcessExecution { .. } => ErrorKind::ProcessExecution,
            ContainerError::RootRequired => ErrorKind::RootRequired,
            ContainerError::InvalidConfiguration { .. } => ErrorKind::InvalidConfiguration,
            ContainerError::InvalidString { .. } => ErrorKind::InvalidString,
            ContainerError::Initialization { .. } => ErrorKind::Initialization,
            ContainerError::Cgroup { .. } => ErrorKind::Cgroup,
        }
    }

    /// The message; empty for the one kind that has none.
    pub open spec fn spec_message(&self) -> Seq<char> {
        match self {
            ContainerError::Io { message } => message@,
            ContainerError::Syscall { message } => message@,
            ContainerError::NamespaceSetup { message } => message@,
            ContainerError::Filesystem { message } => message@,
            ContainerError::ProcessExecution { message } => message@,
            ContainerError::RootRequired => Seq::empty(),
            ContainerError::InvalidConfiguration { message } => message@,
            ContainerError::InvalidString { message } => message@,
            ContainerError::Initialization { message } => message@,
            ContainerError::Cgroup { message } => message@,
        }
    }

    /// The error is of kind `k` with message `m`.
    pub open spec fn is(&self, k: ErrorKind, m: Seq<char>) -> bool {
        self.spec_kind() == k && self.spec_message() == m
    }

    pub fn kind(&self) -> (k: ErrorKind)
        ensures
            k == self.spec_kind(),
    {
        match self {
            ContainerError::Io { .. } => ErrorKind::Io,
            ContainerError::Syscall { .. } => ErrorKind::Syscall,
            ContainerError::NamespaceSetup { .. } => ErrorKind::NamespaceSetup,
            ContainerError::Filesystem { .. } => ErrorKind::Filesystem,
            ContainerError::ProcessExecution { .. } => ErrorKind::ProcessExecution,
            ContainerError::RootRequired => ErrorKind::RootRequired,
            ContainerError::InvalidConfiguration { .. } => ErrorKind::InvalidConfiguration,
            ContainerError::InvalidString { .. } => ErrorKind::InvalidString,
            ContainerError::Initialization { .. } => ErrorKind::Initialization,
            ContainerError::Cgroup { .. } => ErrorKind::Cgroup,
        }
    }

    /// The message, as a new string; empty for `RootRequired`.
    pub fn message(&self) -> (m: String)
        ensures
            m@ == self.spec_message(),
    {
        match self {
            ContainerError::Io { message } => message.clone(),
            ContainerError::Syscall { message } => message.clone(),
            ContainerError::NamespaceSetup { message } => message.clone(),
            ContainerError::Filesystem { message } => message.clone(),
            ContainerError::ProcessExecution { message } => message.clone(),
            ContainerError::RootRequired => String::new(),
            ContainerError::InvalidConfiguration { message } => message.clone(),
            ContainerError::InvalidString { message } => message.clone(),
            ContainerError::Initialization { message } => message.clone(),
            ContainerError::Cgroup { message } => message.clone(),
        }
    }

    /// An error of kind `kind` with `message`; `RootRequired` takes no message.
    pub fn of_kind(kind: ErrorKind, message: String) -> (e: ContainerError)
        ensures
            e.spec_kind() == kind,
            kind_has_message(kind) ==> e.spec_message() == message@,
    {
        match kind {
            ErrorKind::Io => ContainerError::Io { message },
            ErrorKind::Syscall => ContainerError::Syscall { message },
            ErrorKind::NamespaceSetup => ContainerError::NamespaceSetup { message },
            ErrorKind::Filesystem => ContainerError::Filesystem { message },
            ErrorKind::ProcessExecution => ContainerError::ProcessExecution { message },
            ErrorKind::Cgroup => ContainerError::Cgroup { message },
            ErrorKind::InvalidConfiguration => ContainerError::InvalidConfiguration { message },
            ErrorKind::Initialization => ContainerError::Initialization { message },
            ErrorKind::RootRequired => ContainerError::RootRequired,
            ErrorKind::InvalidString => ContainerError::InvalidString { message },
        }
    }

    pub fn name_space(message: String) -> (e: ContainerError)
        ensures
            e.is(ErrorKind::NamespaceSetup, message@),
    {
        ContainerError::NamespaceSetup { message }
    }

    pub fn filesystem_setup(message: String) -> (e: ContainerError)
        ensures
            e.is(ErrorKind::Filesystem, message@),
    {
        ContainerError::Filesystem { message }
    }

    pub fn initialization(message: String) -> (e: ContainerError)
        ensures
            e.is(ErrorKind::Initialization, message@),
    {
        ContainerError::Initialization { message }
    }

    pub fn process_execution(message: String) -> (e: ContainerError)
        ensures
            e.is(ErrorKind::ProcessExecution, message@),
    {
        ContainerError::ProcessExecution { message }
    }

    pub fn invalid_configuration(message: String) -> (e: ContainerError)
        ensures
            e.is(ErrorKind::InvalidConfiguration, message@),
    {
        ContainerError::InvalidConfiguration { message }
    }

    pub fn cgroup_setup(message: String) -> (e: ContainerError)
        ensures
            e.is(ErrorKind::Cgroup, message@),
    {
        ContainerError::Cgroup { message }
    }

    /// Prepends `description` and a colon to the message, keeping the kind.
    /// `RootRequired` has no message and is returned as it is.
    pub fn context(self, description: &str) -> (e: ContainerError)
        ensures
            e.spec_kind() == self.spec_kind(),
            kind_has_message(self.spec_kind()) ==> e.spec_message() == with_context(
                description@,
                self.spec_message(),
            ),
            !kind_has_message(self.spec_kind()) ==> e == self,
    {
        if let ContainerError::RootRequired = self {
            return self;
        }
        let kind = self.kind();
        let old_message = self.message();
        let sep = ":";
        proof {
            reveal_strlit(":");
        }
        let message = String::from_str(description).concat(sep).concat(old_message.as_str());
        assert(message@ =~= with_context(description@, self.spec_message()));
        ContainerError::of_kind(kind, message)
    }
}

/// Decoration of a result: an error gets a description in front of its message.
pub trait Context<T>: Sized {
    /// `r` is what decorating `self` with `description` gives.
    spec fn decorates(&self, description: Seq<char>, r: ContainerResult<T>) -> bool;

    fn context(self, description: &str) -> (r: ContainerResult<T>)
        ensures
            self.decorates(description@, r),
    ;
}

impl<T> Context<T> for ContainerResult<T> {
    open spec fn decorates(&self, description: Seq<char>, r: ContainerResult<T>) -> bool {
        match (*self, r) {
            (Ok(a), Ok(b)) => a == b,
            (Err(e), Err(f)) => f.spec_kind() == e.spec_kind() && (if kind_has_message(
                e.spec_kind(),
            ) {
                f.spec_message() == with_context(description, e.spec_message())
            } else {
                f == e
            }),
            _ => false,
        }
    }

    fn context(self, description: &str) -> (r: ContainerResult<T>) {
        match self {
            Ok(v) => Ok(v),
            Err(e) => Err(e.context(description)),
        }
    }
}

} // verus!
