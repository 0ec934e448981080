use vstd::prelude::*;

verus! {

/// The error taxonomy. Every failure surfaces as one of these kinds, so a
/// caller can branch on the kind rather than on message text.
#[derive(Clone, Copy, PartialEq, Eq, Structural, Debug)]
pub enum ContainerError {
    /// Creating the control-group directory failed: it already exists (two
    /// live containers may not share a name) or its parent is unwritable.
    DirectoryCreateError,
    /// Writing a resource-ceiling control file failed.
    LimitWriteError,
    /// Writing the child's process id into the membership control file
    /// failed: the process is gone or the hierarchy is.
    MembershipWriteError,
    /// Creating, reading, writing or closing the synchronization channel
    /// failed.
    ChannelError,
    /// The namespace-isolated clone itself failed.
    SpawnFailed,
    /// A hostname, root-confinement or mount step failed inside the child.
    IsolationStepFailed,
    /// Replacing the child's program image failed.
    ExecFailed,
    /// The wait result had an unexpected shape.
    WaitError,
}

/// The terminal result of one container run, produced once and consumed by
/// the caller.
#[derive(Clone, Copy, PartialEq, Eq, Structural, Debug)]
pub enum ProcessOutcome {
    /// The child exited on its own; the numeric status is preserved.
    ExitedNormally(i32),
    /// The child was killed by this signal. Death by signal is never coerced
    /// into a misleading exit code: the two cases stay distinguishable.
    Terminated(i32),
    /// No confined child was released; the reason names the step that failed.
    SpawnFailed(ContainerError),
    /// The wait result was of no recognized shape; an error condition.
    Unknown,
}

/// What a finished lifecycle hands back to its caller.
#[derive(Clone, Copy, PartialEq, Eq, Structural, Debug)]
pub enum Completion {
    /// A non-blocking start: the child was released and left running, and
    /// termination handling is the caller's to arrange.
    Started { pid: i32 },
    /// The run is over. Teardown of the hierarchy was attempted on the way
    /// out whenever it had been created; `teardown_failed` reports a removal
    /// the kernel refused (a process still inhabits the hierarchy) — such a
    /// refusal is reported, never silently discarded.
    Exited { outcome: ProcessOutcome, teardown_failed: bool },
}

} // verus!
