use vstd::prelude::*;

use crate::config::Config;
use crate::outcome::ContainerError;

verus! {

/// Everything the child's entry routine needs, duplicated into the new
/// process at clone time: its own copy of the configuration, the detached
/// flag, and the two descriptors of the synchronization channel —
/// `ctrl_socket[0]` is the parent's end, `ctrl_socket[1]` the child's.
pub struct ChildArgs {
    pub config: Config,
    pub detached: bool,
    pub ctrl_socket: [i32; 2],
}

impl ChildArgs {
    pub fn new(config: Config, detached: bool, ctrl_socket: [i32; 2]) -> (a: Self)
        ensures
            a.config@ == config@,
            a.detached == detached,
            a.ctrl_socket == ctrl_socket,
    {
        ChildArgs { config, detached, ctrl_socket }
    }
}

/// One step of the child's setup, run inside the new process with the
/// isolated namespaces already in effect. Every step but `RedirectStdio` is
/// fatal on failure: the child exits at once with that step's reserved
/// status (see [`failure_status`]).
pub enum ChildStep {
    /// Close a channel end this side does not own.
    CloseFd { fd: i32 },
    /// Block reading exactly one byte — the barrier token — from `fd`; the
    /// parent sends it only once the child's control-group membership stands.
    AwaitBarrier { fd: i32 },
    /// Set the hostname; affects only this namespace's view.
    SetHostname { name: String },
    /// Change the filesystem root to `path`.
    ChangeRoot { path: String },
    /// Change the working directory — to `/` inside the new root; a
    /// successful root change with a failed directory change leaves the
    /// process in an unsafe rooted state and must abort.
    ChangeDir { path: String },
    /// Create the directory unless it is already there.
    EnsureDir { path: String },
    /// Mount a pseudo-filesystem at `target` inside the new root.
    Mount {
        source: String,
        target: String,
        fstype: String,
        nosuid: bool,
        strictatime: bool,
        data: Option<String>,
    },
    /// Redirect stdin, stdout and stderr to the null device and close the
    /// then-unused descriptor. The one non-fatal step: detached execution
    /// without redirected streams is degraded, not broken.
    RedirectStdio,
    /// Replace the process image with `program`; `argv` repeats the program
    /// name as argument zero. Unreachable on success.
    Exec { program: String, argv: Vec<String> },
}

/// The mathematical value of a [`ChildStep`].
pub ghost enum ChildStepV {
    CloseFd { fd: i32 },
    AwaitBarrier { fd: i32 },
    SetHostname { name: Seq<char> },
    ChangeRoot { path: Seq<char> },
    ChangeDir { path: Seq<char> },
    EnsureDir { path: Seq<char> },
    Mount {
        source: Seq<char>,
        target: Seq<char>,
        fstype: Seq<char>,
        nosuid: bool,
        strictatime: bool,
        data: Option<Seq<char>>,
    },
    RedirectStdio,
    Exec { program: Seq<char>, argv: Seq<Seq<char>> },
}

impl View for ChildStep {
    type V = ChildStepV;

    open spec fn view(&self) -> ChildStepV {
        match self {
            ChildStep::CloseFd { fd } => ChildStepV::CloseFd { fd: *fd },
            ChildStep::AwaitBarrier { fd } => ChildStepV::AwaitBarrier { fd: *fd },
            ChildStep::SetHostname { name } => ChildStepV::SetHostname { name: name@ },
            ChildStep::ChangeRoot { path } => ChildStepV::ChangeRoot { path: path@ },
            ChildStep::ChangeDir { path } => ChildStepV::ChangeDir { path: path@ },
            ChildStep::EnsureDir { path } => ChildStepV::EnsureDir { path: path@ },
            ChildStep::Mount { source, target, fstype, nosuid, strictatime, data } => {
                ChildStepV::Mount {
                    source: source@,
                    target: target@,
                    fstype: fstype@,
                    nosuid: *nosuid,
                    strictatime: *strictatime,
                    data: match data {
                        Some(d) => Some(d@),
                        None => None,
                    },
                }
            },
            ChildStep::RedirectStdio => ChildStepV::RedirectStdio,
            ChildStep::Exec { program, argv } => ChildStepV::Exec {
                program: program@,
                argv: argv.deep_view(),
            },
        }
    }
}

/// The argument vector of the program replacement: the program path first —
/// argument zero conventionally repeats the program name — then the
/// configured arguments in order.
pub open spec fn spec_argv(config: crate::config::ConfigView) -> Seq<Seq<char>> {
    seq![config.command] + config.args
}

/// The child's setup plan, in order, each step fatal on failure except the
/// stdio redirection: close the parent's channel end, block on the barrier,
/// close the spent end, take the configured hostname, confine the root and
/// enter it, provide `/proc`, `/dev` (a tmpfs mounted nosuid and strictatime,
/// mode `0755`) and `/dev/pts`, redirect stdio to the null device when
/// detached, and replace the process image.
pub open spec fn spec_child_plan(
    config: crate::config::ConfigView,
    detached: bool,
    parent_fd: i32,
    child_fd: i32,
) -> Seq<ChildStepV> {
    let isolation = seq![
        ChildStepV::CloseFd { fd: parent_fd },
        ChildStepV::AwaitBarrier { fd: child_fd },
        ChildStepV::CloseFd { fd: child_fd },
        ChildStepV::SetHostname { name: config.hostname },
        ChildStepV::ChangeRoot { path: config.rootfs_path },
        ChildStepV::ChangeDir { path: "/"@ },
        ChildStepV::EnsureDir { path: "proc"@ },
        ChildStepV::Mount {
            source: "proc"@,
            target: "proc"@,
            fstype: "proc"@,
            nosuid: false,
            strictatime: false,
            data: None,
        },
        ChildStepV::EnsureDir { path: "dev"@ },
        ChildStepV::Mount {
            source: "tmpfs"@,
            target: "dev"@,
            fstype: "tmpfs"@,
            nosuid: true,
            strictatime: true,
            data: Some("mode=755"@),
        },
        ChildStepV::EnsureDir { path: "dev/pts"@ },
        ChildStepV::Mount {
            source: "devpts"@,
            target: "dev/pts"@,
            fstype: "devpts"@,
            nosuid: false,
            strictatime: false,
            data: None,
        },
    ];
    let tail = seq![
        ChildStepV::Exec { program: config.command, argv: spec_argv(config) },
    ];
    if detached {
        isolation + seq![ChildStepV::RedirectStdio] + tail
    } else {
        isolation + tail
    }
}

/// Builds the argument vector for the program replacement.
pub fn build_argv(config: &Config) -> (argv: Vec<String>)
    ensures
        argv.deep_view() == spec_argv(config@),
{
    let mut argv: Vec<String> = Vec::new();
    argv.push(config.command.clone());
    let mut i: usize = 0;
    while i < config.args.len()
        invariant
            i <= config.args.len(),
            argv@.len() == i + 1,
            argv@[0]@ == config.command@,
            forall|j: int| 0 <= j < i ==> argv@[j + 1]@ == config.args@[j]@,
        decreases config.args.len() - i,
    {
        argv.push(config.args[i].clone());
        i = i + 1;
    }
    proof {
        assert(argv.deep_view() =~= spec_argv(config@));
    }
    argv
}

/// Builds the child's setup plan from its arguments.
pub fn child_plan(args: &ChildArgs) -> (plan: Vec<ChildStep>)
    ensures
        plan@.map_values(|s: ChildStep| s@) == spec_child_plan(
            args.config@,
            args.detached,
            args.ctrl_socket[0],
            args.ctrl_socket[1],
        ),
{
    let mut plan: Vec<ChildStep> = Vec::new();
    plan.push(ChildStep::CloseFd { fd: args.ctrl_socket[0] });
    plan.push(ChildStep::AwaitBarrier { fd: args.ctrl_socket[1] });
    plan.push(ChildStep::CloseFd { fd: args.ctrl_socket[1] });
    plan.push(ChildStep::SetHostname { name: args.config.hostname.clone() });
    plan.push(ChildStep::ChangeRoot { path: args.config.rootfs_path.clone() });
    plan.push(ChildStep::ChangeDir { path: String::from_str("/") });
    plan.push(ChildStep::EnsureDir { path: String::from_str("proc") });
    plan.push(
        ChildStep::Mount {
            source: String::from_str("proc"),
            target: String::from_str("proc"),
            fstype: String::from_str("proc"),
            nosuid: false,
            strictatime: false,
            data: None,
        },
    );
    plan.push(ChildStep::EnsureDir { path: String::from_str("dev") });
    plan.push(
        ChildStep::Mount {
            source: String::from_str("tmpfs"),
            target: String::from_str("dev"),
            fstype: String::from_str("tmpfs"),
            nosuid: true,
            strictatime: true,
            data: Some(String::from_str("mode=755")),
        },
    );
    plan.push(ChildStep::EnsureDir { path: String::from_str("dev/pts") });
    plan.push(
        ChildStep::Mount {
            source: String::from_str("devpts"),
            target: String::from_str("dev/pts"),
            fstype: String::from_str("devpts"),
            nosuid: false,
            strictatime: false,
            data: None,
        },
    );
    if args.detached {
        plan.push(ChildStep::RedirectStdio);
    }
    plan.push(
        ChildStep::Exec { program: args.config.command.clone(), argv: build_argv(&args.config) },
    );
    proof {
        assert(plan@.map_values(|s: ChildStep| s@) =~= spec_child_plan(
            args.config@,
            args.detached,
            args.ctrl_socket[0],
            args.ctrl_socket[1],
        ));
    }
    plan
}

/// Whether a failure of this step ends the child at once. Only the stdio
/// redirection is survivable.
pub open spec fn spec_is_fatal(s: ChildStepV) -> bool {
    !(s is RedirectStdio)
}

/// The reserved status a fatal step's failure exits the child with: channel
/// steps 100, hostname 101, root change 102, directory change 103, directory
/// creation 104, mounts 105, program replacement 127. The non-fatal stdio
/// redirection maps to 0, which no failure ever exits with.
pub open spec fn spec_failure_status(s: ChildStepV) -> i32 {
    match s {
        ChildStepV::CloseFd { .. } => 100,
        ChildStepV::AwaitBarrier { .. } => 100,
        ChildStepV::SetHostname { .. } => 101,
        ChildStepV::ChangeRoot { .. } => 102,
        ChildStepV::ChangeDir { .. } => 103,
        ChildStepV::EnsureDir { .. } => 104,
        ChildStepV::Mount { .. } => 105,
        ChildStepV::RedirectStdio => 0,
        ChildStepV::Exec { .. } => 127,
    }
}

/// The status the child exits with when `s` fails.
pub fn failure_status(s: &ChildStep) -> (code: i32)
    ensures
        code == spec_failure_status(s@),
{
    match s {
        ChildStep::CloseFd { .. } => 100,
        ChildStep::AwaitBarrier { .. } => 100,
        ChildStep::SetHostname { .. } => 101,
        ChildStep::ChangeRoot { .. } => 102,
        ChildStep::ChangeDir { .. } => 103,
        ChildStep::EnsureDir { .. } => 104,
        ChildStep::Mount { .. } => 105,
        ChildStep::RedirectStdio => 0,
        ChildStep::Exec { .. } => 127,
    }
}

/// How the creator reads a child's exit status: statuses in the reserved
/// range name the setup step class that failed; any other status is the
/// configured program's own.
pub open spec fn spec_child_failure_kind(status: i32) -> Option<ContainerError> {
    if status == 100 {
        Some(ContainerError::ChannelError)
    } else if 101 <= status <= 105 {
        Some(ContainerError::IsolationStepFailed)
    } else if status == 127 {
        Some(ContainerError::ExecFailed)
    } else {
        None
    }
}

/// Classifies a child exit status, so the creator can tell "the container's
/// program failed" from "container setup failed".
pub fn child_failure_kind(status: i32) -> (r: Option<ContainerError>)
    ensures
        r == spec_child_failure_kind(status),
{
    if status == 100 {
        Some(ContainerError::ChannelError)
    } else if 101 <= status && status <= 105 {
        Some(ContainerError::IsolationStepFailed)
    } else if status == 127 {
        Some(ContainerError::ExecFailed)
    } else {
        None
    }
}

/// The error kind a failure of `s` belongs to.
pub open spec fn spec_step_error(s: ChildStepV) -> ContainerError {
    match s {
        ChildStepV::CloseFd { .. } => ContainerError::ChannelError,
        ChildStepV::AwaitBarrier { .. } => ContainerError::ChannelError,
        ChildStepV::Exec { .. } => ContainerError::ExecFailed,
        _ => ContainerError::IsolationStepFailed,
    }
}

/// Law: a fatal step's failure status is never 0 — the child never passes a
/// failure off as success — and classifying that status recovers exactly the
/// step's error kind, so the reserved statuses round-trip.
pub proof fn lemma_child_status_roundtrip(s: ChildStepV)
    requires
        spec_is_fatal(s),
    ensures
        spec_failure_status(s) != 0,
        spec_child_failure_kind(spec_failure_status(s)) == Some(spec_step_error(s)),
{
}

} // verus!
