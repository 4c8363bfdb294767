//! The error taxonomy: one tagged union per component, gathered under a
//! single `Error` for callers, each variant carrying the stage and the OS
//! error code needed to diagnose a failure without re-running.

use vstd::prelude::*;

verus! {

/// The two elevated capabilities the tool needs before it forks.
#[derive(Clone, Copy, Debug, PartialEq, Eq, Structural)]
pub enum CapabilityKind {
    /// The capability that permits changing the effective user id.
    SetIdentity,
    /// The capability that permits namespace and administrative operations.
    SysAdmin,
}

/// A missing required capability, or a failure to read the capability set
/// at all. Fatal: reported before any candidate is processed.
#[derive(Debug)]
pub enum PermissionError {
    /// The named capability is not in the effective set.
    Missing(CapabilityKind),
    /// The capability set could not be inspected; the message is the
    /// reading library's own.
    ProbeFailed(CapabilityKind, String),
}

/// A resource a child needs before it may transition: its own binary
/// location, the directory handle, or the namespace handle. Fatal to that
/// child only. Codes are OS errno values.
#[derive(Debug)]
pub enum ResourceError {
    /// The running binary's own location could not be determined.
    ProgramLocation,
    /// The directory holding the binary could not be opened.
    DirectoryHandle(i32),
    /// The target's mount-namespace handle could not be opened.
    NamespaceHandle(i32),
}

/// A failure in the one-way transition sequence itself. Fatal to that child
/// only; no further privileged step may follow it.
#[derive(Debug)]
pub enum TransitionError {
    /// A step was requested out of order: the action asked for, and the
    /// stage the child actually stood in.
    OrderViolation(ChildAction, Stage),
    /// Joining the target's mount namespace failed with this errno.
    NamespaceJoin(i32),
    /// Dropping the effective identity failed with this errno.
    IdentityDrop(i32),
}

/// A failure to replace the child's image. If reached, the child must
/// terminate rather than keep running with dropped privileges.
#[derive(Debug)]
pub enum ReExecError {
    /// Changing into the held directory handle failed with this errno.
    ChangeDirectory(i32),
    /// An argument could not be encoded for the execution call.
    ArgumentEncoding,
    /// The image-replacement call itself failed with this errno.
    ExecImage(i32),
}

/// A recoverable scan-side failure: one unreadable archive. Logged and
/// skipped; never fatal to the scan of the remaining classpath entries.
#[derive(Debug)]
pub enum ParseError {
    /// The archive could not be read; the message is the reader's own.
    Archive(String),
}

/// Every failure the tool distinguishes, one variant per component.
#[derive(Debug)]
pub enum Error {
    Permission(PermissionError),
    Resource(ResourceError),
    Transition(TransitionError),
    ReExec(ReExecError),
    Parse(ParseError),
}

/// The stages a forked child walks through, in the one permitted order,
/// with `Failed` absorbing every aborted child.
#[derive(Clone, Copy, Debug, PartialEq, Eq, Structural)]
pub enum Stage {
    /// Fresh from the fork; nothing captured yet.
    Start,
    /// The binary's directory handle is held, from the pre-switch view.
    HandleCaptured,
    /// The child now sees the target's mount namespace.
    NamespaceJoined,
    /// The effective user id is the candidate's owner; irreversible.
    IdentityDropped,
    /// The image-replacement call was issued; on success nothing runs here
    /// any more.
    ReExeced,
    /// Some step failed; the child must exit without further privileged work.
    Failed,
}

/// The four ordered actions a child performs, one per stage transition.
#[derive(Clone, Copy, Debug, PartialEq, Eq, Structural)]
pub enum ChildAction {
    CaptureHandle,
    JoinNamespace,
    DropIdentity,
    ReExec,
}

/// The process exit code chosen for each failure class: distinct, non-zero,
/// and stable, so the supervisor's log tells the classes apart.
pub open spec fn spec_exit_code(e: Error) -> i32 {
    match e {
        Error::Permission(_) => 2,
        Error::Resource(_) => 3,
        Error::Transition(_) => 4,
        Error::ReExec(_) => 5,
        Error::Parse(_) => 6,
    }
}

impl Error {
    /// The exit code a process terminating on this error must use: never
    /// zero, so the supervisor cannot mistake a failed child for success.
    pub fn exit_code(&self) -> (c: i32)
        ensures
            c == spec_exit_code(*self),
            c != 0,
    {
        match self {
            Error::Permission(_) => 2,
            Error::Resource(_) => 3,
            Error::Transition(_) => 4,
            Error::ReExec(_) => 5,
            Error::Parse(_) => 6,
        }
    }
}

} // verus!
