use vstd::prelude::*;

use crate::cgroup_manager::{CGroupManager, MAX_MEMORY_MIB};
use crate::config::Config;
use crate::numeral::{decimal_bytes, spec_decimal};
use crate::ops::{Action, ActionV, Event};
use crate::outcome::{Completion, ContainerError, ProcessOutcome};

verus! {

/// Where a run stands. Each phase names the action whose result the machine
/// is waiting for; the terminal phase is `Done`. A failure anywhere lands in
/// `Done` too, through the teardown and reaping phases the failure requires.
#[derive(Clone, Copy, PartialEq, Eq, Structural, Debug)]
pub enum Phase {
    /// Fresh; nothing performed yet.
    Created,
    /// The hierarchy directory's creation is in flight.
    MakingCgroup,
    /// The memory-ceiling write is in flight.
    SettingMemoryLimit,
    /// The process-ceiling write is in flight.
    SettingProcessLimit,
    /// The synchronization channel's allocation is in flight.
    CreatingChannel,
    /// The namespace-isolated clone is in flight.
    SpawningChild,
    /// The membership write for `pid` is in flight; the child blocks on the
    /// barrier meanwhile.
    ApplyingMembership { pid: i32 },
    /// The barrier byte is in flight; membership is already established.
    ReleasingBarrier { pid: i32 },
    /// The child runs its program; the wait for it is in flight.
    ChildRunning { pid: i32 },
    /// Membership or barrier release failed: the kill signal is in flight,
    /// because the child must never run unconfined.
    KillingChild { pid: i32, reason: ContainerError },
    /// The wait that reaps the killed child is in flight.
    ReapingKilled { pid: i32, reason: ContainerError },
    /// The child is gone; the hierarchy directory's removal is in flight.
    TearingDown { outcome: ProcessOutcome },
    /// Terminal.
    Done { completion: Completion },
}

/// The parent-side lifecycle machine. It decides, step by step, which
/// kernel-facing operation comes next; an unverified runner performs each
/// [`Action`] and feeds what it observed back as an [`Event`].
///
/// Policy, fixed here once: the barrier is released only after the
/// membership write succeeded. When that write (or the barrier write) fails,
/// the machine kills and reaps the child rather than let an unconfined
/// process execute the target program. A blocking run also treats every
/// setup failure as fatal; a non-blocking start records the failure in
/// `setup_warning` — reported, never swallowed — and continues best-effort.
pub struct Lifecycle {
    pub manager: CGroupManager,
    /// A blocking run waits for termination and tears down; a non-blocking
    /// start hands back the process id right after the barrier release.
    pub blocking: bool,
    /// Whether the child redirects its stdio to the null device.
    pub detached: bool,
    pub phase: Phase,
    /// Whether the hierarchy directory was created, and so must be removed
    /// on the way out.
    pub cgroup_created: bool,
    /// A setup failure a non-blocking start continued past.
    pub setup_warning: Option<ContainerError>,
}

/// Every process id a phase carries came from a successful clone.
pub open spec fn phase_pids_positive(p: Phase) -> bool {
    match p {
        Phase::ApplyingMembership { pid } => pid >= 1,
        Phase::ReleasingBarrier { pid } => pid >= 1,
        Phase::ChildRunning { pid } => pid >= 1,
        Phase::KillingChild { pid, .. } => pid >= 1,
        Phase::ReapingKilled { pid, .. } => pid >= 1,
        _ => true,
    }
}

impl Lifecycle {
    pub open spec fn wf(&self) -> bool {
        &&& self.manager.wf()
        &&& phase_pids_positive(self.phase)
    }

    /// The phase after the hierarchy directory exists: write whichever
    /// ceilings are configured, then make the channel.
    pub open spec fn spec_after_cgroup_made(self) -> Phase {
        if self.manager.config@.memory_limit > 0 {
            Phase::SettingMemoryLimit
        } else if self.manager.config@.process_limit > 0 {
            Phase::SettingProcessLimit
        } else {
            Phase::CreatingChannel
        }
    }

    /// The phase a failed run leaves for: teardown if there is a directory
    /// to remove, else straight to `Done` with the reason.
    pub open spec fn spec_fail_phase(self, reason: ContainerError) -> Phase {
        if self.cgroup_created {
            Phase::TearingDown { outcome: ProcessOutcome::SpawnFailed(reason) }
        } else {
            Phase::Done {
                completion: Completion::Exited {
                    outcome: ProcessOutcome::SpawnFailed(reason),
                    teardown_failed: false,
                },
            }
        }
    }

    /// The phase after the child was reaped with `outcome`: teardown is
    /// attempted exactly when the hierarchy was created.
    pub open spec fn spec_reaped_phase(self, outcome: ProcessOutcome) -> Phase {
        if self.cgroup_created {
            Phase::TearingDown { outcome }
        } else {
            Phase::Done {
                completion: Completion::Exited { outcome, teardown_failed: false },
            }
        }
    }

    /// The whole transition relation: the machine after consuming `e`. Only
    /// `phase`, `cgroup_created` and `setup_warning` ever change.
    pub open spec fn spec_next(self, e: Event) -> Lifecycle {
        match self.phase {
            Phase::Created => Lifecycle { phase: Phase::MakingCgroup, ..self },
            Phase::MakingCgroup => if e is Succeeded {
                Lifecycle { phase: self.spec_after_cgroup_made(), cgroup_created: true, ..self }
            } else if self.blocking {
                Lifecycle {
                    phase: self.spec_fail_phase(ContainerError::DirectoryCreateError),
                    ..self
                }
            } else {
                Lifecycle {
                    phase: Phase::CreatingChannel,
                    setup_warning: Some(ContainerError::DirectoryCreateError),
                    ..self
                }
            },
            Phase::SettingMemoryLimit => if e is Succeeded {
                if self.manager.config@.process_limit > 0 {
                    Lifecycle { phase: Phase::SettingProcessLimit, ..self }
                } else {
                    Lifecycle { phase: Phase::CreatingChannel, ..self }
                }
            } else if self.blocking {
                Lifecycle { phase: self.spec_fail_phase(ContainerError::LimitWriteError), ..self }
            } else {
                Lifecycle {
                    phase: Phase::CreatingChannel,
                    setup_warning: Some(ContainerError::LimitWriteError),
                    ..self
                }
            },
            Phase::SettingProcessLimit => if e is Succeeded {
                Lifecycle { phase: Phase::CreatingChannel, ..self }
            } else if self.blocking {
                Lifecycle { phase: self.spec_fail_phase(ContainerError::LimitWriteError), ..self }
            } else {
                Lifecycle {
                    phase: Phase::CreatingChannel,
                    setup_warning: Some(ContainerError::LimitWriteError),
                    ..self
                }
            },
            Phase::CreatingChannel => if e is Succeeded {
                Lifecycle { phase: Phase::SpawningChild, ..self }
            } else {
                Lifecycle { phase: self.spec_fail_phase(ContainerError::ChannelError), ..self }
            },
            Phase::SpawningChild => match e {
                Event::Spawned(pid) => if pid >= 1 {
                    Lifecycle { phase: Phase::ApplyingMembership { pid }, ..self }
                } else {
                    Lifecycle { phase: self.spec_fail_phase(ContainerError::SpawnFailed), ..self }
                },
                _ => Lifecycle { phase: self.spec_fail_phase(ContainerError::SpawnFailed), ..self },
            },
            Phase::ApplyingMembership { pid } => if e is Succeeded {
                Lifecycle { phase: Phase::ReleasingBarrier { pid }, ..self }
            } else {
                Lifecycle {
                    phase: Phase::KillingChild {
                        pid,
                        reason: ContainerError::MembershipWriteError,
                    },
                    ..self
                }
            },
            Phase::ReleasingBarrier { pid } => if e is Succeeded {
                if self.blocking {
                    Lifecycle { phase: Phase::ChildRunning { pid }, ..self }
                } else {
                    Lifecycle { phase: Phase::Done { completion: Completion::Started { pid } }, ..self }
                }
            } else {
                Lifecycle {
                    phase: Phase::KillingChild { pid, reason: ContainerError::ChannelError },
                    ..self
                }
            },
            Phase::ChildRunning { .. } => match e {
                Event::WaitExited(code) => Lifecycle {
                    phase: self.spec_reaped_phase(ProcessOutcome::ExitedNormally(code)),
                    ..self
                },
                Event::WaitSignaled(sig) => Lifecycle {
                    phase: self.spec_reaped_phase(ProcessOutcome::Terminated(sig)),
                    ..self
                },
                _ => Lifecycle { phase: self.spec_reaped_phase(ProcessOutcome::Unknown), ..self },
            },
            Phase::KillingChild { pid, reason } => Lifecycle {
                phase: Phase::ReapingKilled { pid, reason },
                ..self
            },
            Phase::ReapingKilled { reason, .. } => Lifecycle {
                phase: self.spec_fail_phase(reason),
                ..self
            },
            Phase::TearingDown { outcome } => if e is Succeeded {
                Lifecycle {
                    phase: Phase::Done {
                        completion: Completion::Exited { outcome, teardown_failed: false },
                    },
                    ..self
                }
            } else {
                Lifecycle {
                    phase: Phase::Done {
                        completion: Completion::Exited { outcome, teardown_failed: true },
                    },
                    ..self
                }
            },
            Phase::Done { .. } => self,
        }
    }

    pub fn new(manager: CGroupManager, blocking: bool, detached: bool) -> (l: Self)
        requires
            manager.wf(),
        ensures
            l.wf(),
            l.manager == manager,
            l.blocking == blocking,
            l.detached == detached,
            l.phase is Created,
            !l.cgroup_created,
            l.setup_warning is None,
    {
        Lifecycle {
            manager,
            blocking,
            detached,
            phase: Phase::Created,
            cgroup_created: false,
            setup_warning: None,
        }
    }

    /// The action the machine in this state is waiting on (for the fresh
    /// machine: the one it will ask for first).
    fn pending_action(&self) -> (a: Action)
        requires
            self.wf(),
        ensures
            a@ == action_for(*self),
    {
        match self.phase {
            Phase::Created | Phase::MakingCgroup => Action::MakeCgroupDir {
                path: self.manager.cgroup_dir_path(),
            },
            Phase::SettingMemoryLimit => Action::WriteControlFile {
                path: self.manager.memory_file_path(),
                contents: decimal_bytes(self.manager.memory_bytes()),
            },
            Phase::SettingProcessLimit => Action::WriteControlFile {
                path: self.manager.pids_file_path(),
                contents: decimal_bytes(self.manager.config.process_limit),
            },
            Phase::CreatingChannel => Action::CreateChannel,
            Phase::SpawningChild => Action::Spawn,
            Phase::ApplyingMembership { pid } => Action::WriteControlFile {
                path: self.manager.procs_file_path(),
                contents: decimal_bytes(pid as u64),
            },
            Phase::ReleasingBarrier { .. } => Action::ReleaseBarrier,
            Phase::ChildRunning { pid } => Action::Wait { pid },
            Phase::KillingChild { pid, .. } => Action::KillChild { pid },
            Phase::ReapingKilled { pid, .. } => Action::Wait { pid },
            Phase::TearingDown { .. } => Action::RemoveCgroupDir {
                path: self.manager.cgroup_dir_path(),
            },
            Phase::Done { completion } => Action::Finish { completion },
        }
    }

    /// One step of the run: consume what the runner observed of the previous
    /// action and hand it the next one. Total: a machine that is `Done`
    /// answers `Finish` forever.
    pub fn step(&mut self, e: Event) -> (a: Action)
        requires
            old(self).wf(),
        ensures
            final(self).wf(),
            *final(self) == old(self).spec_next(e),
            a@ == action_for(*final(self)),
    {
        let ph = self.phase;
        match ph {
            Phase::Created => {
                self.phase = Phase::MakingCgroup;
            },
            Phase::MakingCgroup => {
                match e {
                    Event::Succeeded => {
                        self.cgroup_created = true;
                        self.phase = if self.manager.config.memory_limit > 0 {
                            Phase::SettingMemoryLimit
                        } else if self.manager.config.process_limit > 0 {
                            Phase::SettingProcessLimit
                        } else {
                            Phase::CreatingChannel
                        };
                    },
                    _ => {
                        if self.blocking {
                            let p = self.fail_phase(ContainerError::DirectoryCreateError);
                            self.phase = p;
                        } else {
                            self.setup_warning = Some(ContainerError::DirectoryCreateError);
                            self.phase = Phase::CreatingChannel;
                        }
                    },
                }
            },
            Phase::SettingMemoryLimit => {
                match e {
                    Event::Succeeded => {
                        self.phase = if self.manager.config.process_limit > 0 {
                            Phase::SettingProcessLimit
                        } else {
                            Phase::CreatingChannel
                        };
                    },
                    _ => {
                        if self.blocking {
                            let p = self.fail_phase(ContainerError::LimitWriteError);
                            self.phase = p;
                        } else {
                            self.setup_warning = Some(ContainerError::LimitWriteError);
                            self.phase = Phase::CreatingChannel;
                        }
                    },
                }
            },
            Phase::SettingProcessLimit => {
                match e {
                    Event::Succeeded => {
                        self.phase = Phase::CreatingChannel;
                    },
                    _ => {
                        if self.blocking {
                            let p = self.fail_phase(ContainerError::LimitWriteError);
                            self.phase = p;
                        } else {
                            self.setup_warning = Some(ContainerError::LimitWriteError);
                            self.phase = Phase::CreatingChannel;
                        }
                    },
                }
            },
            Phase::CreatingChannel => {
                match e {
                    Event::Succeeded => {
                        self.phase = Phase::SpawningChild;
                    },
                    _ => {
                        let p = self.fail_phase(ContainerError::ChannelError);
                        self.phase = p;
                    },
                }
            },
            Phase::SpawningChild => {
                match e {
                    Event::Spawned(pid) => {
                        if pid >= 1 {
                            self.phase = Phase::ApplyingMembership { pid };
                        } else {
                            let p = self.fail_phase(ContainerError::SpawnFailed);
                            self.phase = p;
                        }
                    },
                    _ => {
                        let p = self.fail_phase(ContainerError::SpawnFailed);
                        self.phase = p;
                    },
                }
            },
            Phase::ApplyingMembership { pid } => {
                match e {
                    Event::Succeeded => {
                        self.phase = Phase::ReleasingBarrier { pid };
                    },
                    _ => {
                        self.phase = Phase::KillingChild {
                            pid,
                            reason: ContainerError::MembershipWriteError,
                        };
                    },
                }
            },
            Phase::ReleasingBarrier { pid } => {
                match e {
                    Event::Succeeded => {
                        if self.blocking {
                            self.phase = Phase::ChildRunning { pid };
                        } else {
                            self.phase = Phase::Done {
                                completion: Completion::Started { pid },
                            };
                        }
                    },
                    _ => {
                        self.phase = Phase::KillingChild {
                            pid,
                            reason: ContainerError::ChannelError,
                        };
                    },
                }
            },
            Phase::ChildRunning { .. } => {
                let outcome = match e {
                    Event::WaitExited(code) => ProcessOutcome::ExitedNormally(code),
                    Event::WaitSignaled(sig) => ProcessOutcome::Terminated(sig),
                    _ => ProcessOutcome::Unknown,
                };
                let p = self.reaped_phase(outcome);
                self.phase = p;
            },
            Phase::KillingChild { pid, reason } => {
                self.phase = Phase::ReapingKilled { pid, reason };
            },
            Phase::ReapingKilled { reason, .. } => {
                let p = self.fail_phase(reason);
                self.phase = p;
            },
            Phase::TearingDown { outcome } => {
                let teardown_failed = !matches!(e, Event::Succeeded);
                self.phase = Phase::Done {
                    completion: Completion::Exited { outcome, teardown_failed },
                };
            },
            Phase::Done { .. } => {},
        }
        self.pending_action()
    }

    fn fail_phase(&self, reason: ContainerError) -> (p: Phase)
        ensures
            p == self.spec_fail_phase(reason),
    {
        if self.cgroup_created {
            Phase::TearingDown { outcome: ProcessOutcome::SpawnFailed(reason) }
        } else {
            Phase::Done {
                completion: Completion::Exited {
                    outcome: ProcessOutcome::SpawnFailed(reason),
                    teardown_failed: false,
                },
            }
        }
    }

    fn reaped_phase(&self, outcome: ProcessOutcome) -> (p: Phase)
        ensures
            p == self.spec_reaped_phase(outcome),
    {
        if self.cgroup_created {
            Phase::TearingDown { outcome }
        } else {
            Phase::Done {
                completion: Completion::Exited { outcome, teardown_failed: false },
            }
        }
    }
}

/// The action pending in state `s`: what `step` just handed the runner when
/// it left the machine in `s`.
pub open spec fn action_for(s: Lifecycle) -> ActionV {
    match s.phase {
        Phase::Created | Phase::MakingCgroup => ActionV::MakeCgroupDir {
            path: s.manager.cgroup_path@,
        },
        Phase::SettingMemoryLimit => ActionV::WriteControlFile {
            path: s.manager.spec_memory_file(),
            contents: spec_decimal(s.manager.spec_memory_bytes()),
        },
        Phase::SettingProcessLimit => ActionV::WriteControlFile {
            path: s.manager.spec_pids_file(),
            contents: spec_decimal(s.manager.config@.process_limit as nat),
        },
        Phase::CreatingChannel => ActionV::CreateChannel,
        Phase::SpawningChild => ActionV::Spawn,
        Phase::ApplyingMembership { pid } => ActionV::WriteControlFile {
            path: s.manager.spec_procs_file(),
            contents: spec_decimal(pid as nat),
        },
        Phase::ReleasingBarrier { .. } => ActionV::ReleaseBarrier,
        Phase::ChildRunning { pid } => ActionV::Wait { pid },
        Phase::KillingChild { pid, .. } => ActionV::KillChild { pid },
        Phase::ReapingKilled { pid, .. } => ActionV::Wait { pid },
        Phase::TearingDown { .. } => ActionV::RemoveCgroupDir { path: s.manager.cgroup_path@ },
        Phase::Done { completion } => ActionV::Finish { completion },
    }
}

/// The machine state after the first `k` events of the run that starts at
/// `init` and consumes `evs` in order.
pub open spec fn state_at(init: Lifecycle, evs: Seq<Event>, k: int) -> Lifecycle
    decreases k,
{
    if k <= 0 {
        init
    } else {
        state_at(init, evs, k - 1).spec_next(evs[k - 1])
    }
}

/// The action step `j` of that run hands the runner.
pub open spec fn action_at(init: Lifecycle, evs: Seq<Event>, j: int) -> ActionV {
    action_for(state_at(init, evs, j + 1))
}

/// The manager and the mode flags never change over a run.
pub proof fn lemma_run_constants(init: Lifecycle, evs: Seq<Event>, k: int)
    ensures
        state_at(init, evs, k).manager == init.manager,
        state_at(init, evs, k).blocking == init.blocking,
        state_at(init, evs, k).detached == init.detached,
    decreases (if k > 0 { k } else { 0 }),
{
    if k > 0 {
        lemma_run_constants(init, evs, k - 1);
    }
}

/// Law (the ordering guarantee of every run): the barrier-release action is
/// handed out only by the step that consumes the success of the membership
/// write, and the immediately preceding action was exactly that write — the
/// child's process id, in decimal, into the hierarchy's membership file. The
/// child can therefore read the barrier byte only after its id stands in
/// that file: its program image never executes outside the resource limits.
pub proof fn lemma_membership_precedes_barrier(init: Lifecycle, evs: Seq<Event>, j: int)
    requires
        init.phase is Created,
        0 <= j,
        action_at(init, evs, j) is ReleaseBarrier,
    ensures
        1 <= j,
        evs[j] is Succeeded,
        exists|pid: i32|
            #![auto]
            pid >= 1 && state_at(init, evs, j).phase == (Phase::ApplyingMembership { pid })
                && state_at(init, evs, j - 1).phase is SpawningChild
                && evs[j - 1] == Event::Spawned(pid)
                && action_at(init, evs, j - 1) == (ActionV::WriteControlFile {
                path: init.manager.spec_procs_file(),
                contents: spec_decimal(pid as nat),
            }),
{
    let s_next = state_at(init, evs, j + 1);
    let s_j = state_at(init, evs, j);
    assert(s_next == s_j.spec_next(evs[j]));
    assert(s_next.phase is ReleasingBarrier);
    assert(s_j.phase is ApplyingMembership && evs[j] is Succeeded);
    assert(j != 0) by {
        if j == 0 {
            assert(state_at(init, evs, 0) == init);
        }
    }
    let s_prev = state_at(init, evs, j - 1);
    assert(s_j == s_prev.spec_next(evs[j - 1]));
    let pid = choose|pid: i32| s_j.phase == (Phase::ApplyingMembership { pid });
    assert(s_prev.phase is SpawningChild && evs[j - 1] == Event::Spawned(pid) && pid >= 1);
    lemma_run_constants(init, evs, j);
    assert(action_at(init, evs, j - 1) == action_for(s_j));
}

/// Phases in which no child process of this run exists yet.
pub open spec fn no_child_phase(p: Phase) -> bool {
    ||| p is Created
    ||| p is MakingCgroup
    ||| p is SettingMemoryLimit
    ||| p is SettingProcessLimit
    ||| p is CreatingChannel
    ||| p is SpawningChild
}

/// Once a clone has returned a child's process id, the run never re-enters a
/// no-child phase: whatever follows — handshake, kill, wait, teardown — the
/// machine remembers that a child existed.
pub proof fn lemma_child_phases_are_final(init: Lifecycle, evs: Seq<Event>, i: int, j: int)
    requires
        i <= j,
        !no_child_phase(state_at(init, evs, i).phase),
    ensures
        !no_child_phase(state_at(init, evs, j).phase),
    decreases j - i,
{
    if i < j {
        lemma_child_phases_are_final(init, evs, i, j - 1);
    }
}

/// Law: the hierarchy directory's removal is requested only when no process
/// of the run can remain a member of it — either before any child was cloned
/// (the run failed at or before the spawn), or in the very step that consumed
/// the wait result, i.e. after the child was reaped. Whether the kernel then
/// accepts the removal is observed by the runner: a refusal (some process
/// still inhabits the hierarchy) is reported in the completion's
/// `teardown_failed`, never discarded.
pub proof fn lemma_removal_only_after_reaping(init: Lifecycle, evs: Seq<Event>, j: int)
    requires
        init.phase is Created,
        0 <= j,
        action_at(init, evs, j) is RemoveCgroupDir,
    ensures
        no_child_phase(state_at(init, evs, j).phase) || state_at(init, evs, j).phase is ChildRunning
            || state_at(init, evs, j).phase is ReapingKilled,
        no_child_phase(state_at(init, evs, j).phase) ==> forall|i: int|
            0 <= i <= j ==> no_child_phase(#[trigger] state_at(init, evs, i).phase),
{
    let s_next = state_at(init, evs, j + 1);
    let s_j = state_at(init, evs, j);
    assert(s_next == s_j.spec_next(evs[j]));
    assert(s_next.phase is TearingDown);
    if no_child_phase(s_j.phase) {
        assert forall|i: int| 0 <= i <= j implies no_child_phase(
            #[trigger] state_at(init, evs, i).phase,
        ) by {
            if !no_child_phase(state_at(init, evs, i).phase) {
                lemma_child_phases_are_final(init, evs, i, j);
            }
        }
    }
}

/// Owns one configuration and the resources of one container run: the
/// control-group manager derived from the configuration and the dedicated
/// child stack. The stack region is exclusively the container's for the
/// duration of process creation: the cloning primitive may reference it
/// until it returns the child's process id, so the runner borrows it for the
/// clone call and no longer.
pub struct Container {
    pub config: Config,
    pub stack_memory: Vec<u8>,
    pub cgroup_manager: CGroupManager,
}

impl Container {
    pub fn new(config: Config, stack_memory: Vec<u8>) -> (c: Self)
        requires
            config.memory_limit <= MAX_MEMORY_MIB,
        ensures
            c.config@ == config@,
            c.stack_memory@ == stack_memory@,
            c.cgroup_manager.wf(),
            c.cgroup_manager.config@ == config@,
    {
        let cgroup_manager = CGroupManager::new(config.duplicate());
        Container { config, stack_memory, cgroup_manager }
    }

    /// The machine a blocking `run` drives: create the hierarchy and its
    /// ceilings, spawn, apply membership, release the barrier, wait for
    /// termination, tear down.
    pub fn run_lifecycle(&self) -> (l: Lifecycle)
        requires
            self.cgroup_manager.wf(),
        ensures
            l.wf(),
            l.manager.config@ == self.cgroup_manager.config@,
            l.manager.cgroup_path@ == self.cgroup_manager.cgroup_path@,
            l.blocking,
            !l.detached,
            l.phase is Created,
            !l.cgroup_created,
            l.setup_warning is None,
    {
        Lifecycle::new(self.cgroup_manager.duplicate(), true, false)
    }

    /// The machine a non-blocking `start` drives: as `run_lifecycle` up to
    /// the barrier release, then hand back the child's process id without
    /// waiting; termination handling is left to the caller. `detached` makes
    /// the child redirect its stdio to the null device.
    pub fn start_lifecycle(&self, detached: bool) -> (l: Lifecycle)
        requires
            self.cgroup_manager.wf(),
        ensures
            l.wf(),
            l.manager.config@ == self.cgroup_manager.config@,
            l.manager.cgroup_path@ == self.cgroup_manager.cgroup_path@,
            !l.blocking,
            l.detached == detached,
            l.phase is Created,
            !l.cgroup_created,
            l.setup_warning is None,
    {
        Lifecycle::new(self.cgroup_manager.duplicate(), false, detached)
    }
}

} // verus!
