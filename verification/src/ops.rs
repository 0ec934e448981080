use vstd::prelude::*;

use crate::outcome::Completion;

verus! {

/// One kernel-facing operation the lifecycle machine asks its runner to
/// perform. The runner executes it and feeds the result back as an [`Event`];
/// everything the operation depends on — paths, payloads, process ids — is
/// carried in the action itself.
#[derive(Debug)]
pub enum Action {
    /// Create the control-group directory at `path`, mode `0755`.
    MakeCgroupDir { path: String },
    /// Write `contents` — exactly these bytes, no trailing data — into the
    /// control file at `path`.
    WriteControlFile { path: String, contents: Vec<u8> },
    /// Allocate the synchronization channel: a bidirectional byte-pipe pair,
    /// one end for each side of the coming clone.
    CreateChannel,
    /// Clone the child into fresh process-id, mount, hostname,
    /// inter-process-communication, network and user-id namespaces, on the
    /// container's dedicated stack. The child starts on its setup plan; the
    /// runner reports the new process id.
    Spawn,
    /// Send the child a kill signal: its membership could not be established
    /// and it must never run unconfined.
    KillChild { pid: i32 },
    /// Write the single barrier byte to the parent's channel end, then close
    /// that end; the child blocks until this arrives.
    ReleaseBarrier,
    /// Block until the child with this process id terminates.
    Wait { pid: i32 },
    /// Remove the control-group directory at `path`.
    RemoveCgroupDir { path: String },
    /// Nothing is left to do; the run ended as `completion` says.
    Finish { completion: Completion },
}

/// The mathematical value of an [`Action`].
pub ghost enum ActionV {
    MakeCgroupDir { path: Seq<char> },
    WriteControlFile { path: Seq<char>, contents: Seq<u8> },
    CreateChannel,
    Spawn,
    KillChild { pid: i32 },
    ReleaseBarrier,
    Wait { pid: i32 },
    RemoveCgroupDir { path: Seq<char> },
    Finish { completion: Completion },
}

impl View for Action {
    type V = ActionV;

    open spec fn view(&self) -> ActionV {
        match self {
            Action::MakeCgroupDir { path } => ActionV::MakeCgroupDir { path: path@ },
            Action::WriteControlFile { path, contents } => ActionV::WriteControlFile {
                path: path@,
                contents: contents@,
            },
            Action::CreateChannel => ActionV::CreateChannel,
            Action::Spawn => ActionV::Spawn,
            Action::KillChild { pid } => ActionV::KillChild { pid: *pid },
            Action::ReleaseBarrier => ActionV::ReleaseBarrier,
            Action::Wait { pid } => ActionV::Wait { pid: *pid },
            Action::RemoveCgroupDir { path } => ActionV::RemoveCgroupDir { path: path@ },
            Action::Finish { completion } => ActionV::Finish { completion: *completion },
        }
    }
}

/// What the runner observed when it performed the previous action.
#[derive(Clone, Copy, PartialEq, Eq, Structural, Debug)]
pub enum Event {
    /// Nothing has been performed yet; starts the run.
    Begin,
    /// The previous action succeeded.
    Succeeded,
    /// The previous action failed.
    Failed,
    /// The clone returned this child process id.
    Spawned(i32),
    /// The wait call reported a normal exit with this status.
    WaitExited(i32),
    /// The wait call reported death by this signal.
    WaitSignaled(i32),
    /// The wait call returned something of another shape.
    WaitUnknown,
}

} // verus!
