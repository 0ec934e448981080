use vstd::prelude::*;

use crate::config::Config;
use crate::numeral::{decimal_bytes, spec_decimal};
use crate::ops::{Action, ActionV};

verus! {

/// A memory limit in MiB above this cannot be expressed in bytes in a `u64`;
/// the kernel-facing file takes the byte count, so configurations stay below
/// it.
pub const MAX_MEMORY_MIB: u64 = 17592186044415;

/// Owns one resource-limiting hierarchy, keyed by the container name. The
/// manager derives the paths and the exact payloads of every control-file
/// write; performing the writes is its runner's job. It holds no state
/// besides the path/name pair and the configuration.
pub struct CGroupManager {
    pub config: Config,
    /// The hierarchy directory: the fixed root joined with the container
    /// name. Names must be unique among concurrently running containers,
    /// since two equal names derive the same path (see
    /// [`lemma_equal_names_collide`]).
    pub cgroup_path: String,
    /// The container name; the configuration's hostname.
    pub container_name: String,
}

impl CGroupManager {
    /// The fixed hierarchy root every control group lives under.
    pub open spec fn spec_root() -> Seq<char> {
        "/sys/fs/cgroup/"@
    }

    /// The manager's internal invariant: the path and name are the ones its
    /// configuration derives, and the memory limit is expressible in bytes.
    pub open spec fn wf(&self) -> bool {
        &&& self.cgroup_path@ == Self::spec_root() + self.config@.hostname
        &&& self.container_name@ == self.config@.hostname
        &&& self.config@.memory_limit <= MAX_MEMORY_MIB
    }

    /// The memory-ceiling control file.
    pub open spec fn spec_memory_file(&self) -> Seq<char> {
        self.cgroup_path@ + "/memory.max"@
    }

    /// The process-count-ceiling control file.
    pub open spec fn spec_pids_file(&self) -> Seq<char> {
        self.cgroup_path@ + "/pids.max"@
    }

    /// The membership control file.
    pub open spec fn spec_procs_file(&self) -> Seq<char> {
        self.cgroup_path@ + "/cgroup.procs"@
    }

    /// The configured memory ceiling in bytes: MiB times 1048576.
    pub open spec fn spec_memory_bytes(&self) -> nat {
        self.config@.memory_limit as nat * 1048576
    }

    pub fn new(config: Config) -> (m: Self)
        requires
            config.memory_limit <= MAX_MEMORY_MIB,
        ensures
            m.wf(),
            m.config@ == config@,
    {
        let container_name = config.hostname.clone();
        let mut cgroup_path = String::from_str("/sys/fs/cgroup/");
        cgroup_path.append(container_name.as_str());
        CGroupManager { config, cgroup_path, container_name }
    }

    /// A copy for a second owner of the same hierarchy description.
    pub fn duplicate(&self) -> (m: Self)
        ensures
            m.config@ == self.config@,
            m.cgroup_path == self.cgroup_path,
            m.container_name == self.container_name,
            self.wf() ==> m.wf(),
    {
        CGroupManager {
            config: self.config.duplicate(),
            cgroup_path: self.cgroup_path.clone(),
            container_name: self.container_name.clone(),
        }
    }

    /// The hierarchy directory's path, for the runner.
    pub fn cgroup_dir_path(&self) -> (p: String)
        ensures
            p@ == self.cgroup_path@,
    {
        self.cgroup_path.clone()
    }

    pub fn memory_file_path(&self) -> (p: String)
        ensures
            p@ == self.spec_memory_file(),
    {
        let mut p = self.cgroup_path.clone();
        p.append("/memory.max");
        p
    }

    pub fn pids_file_path(&self) -> (p: String)
        ensures
            p@ == self.spec_pids_file(),
    {
        let mut p = self.cgroup_path.clone();
        p.append("/pids.max");
        p
    }

    pub fn procs_file_path(&self) -> (p: String)
        ensures
            p@ == self.spec_procs_file(),
    {
        let mut p = self.cgroup_path.clone();
        p.append("/cgroup.procs");
        p
    }

    /// The configured memory ceiling in bytes.
    pub fn memory_bytes(&self) -> (b: u64)
        requires
            self.wf(),
        ensures
            b as nat == self.spec_memory_bytes(),
    {
        self.config.memory_limit * 1048576
    }

    /// The filesystem operations `setup` consists of, in order: create the
    /// hierarchy directory, then write each configured ceiling — the memory
    /// ceiling in bytes, the process-count ceiling as a plain count, both as
    /// exact decimal numerals. A ceiling of 0 means unlimited and writes
    /// nothing.
    pub open spec fn spec_setup_plan(&self) -> Seq<ActionV> {
        let base = seq![ActionV::MakeCgroupDir { path: self.cgroup_path@ }];
        let with_mem = if self.config@.memory_limit > 0 {
            base.push(
                ActionV::WriteControlFile {
                    path: self.spec_memory_file(),
                    contents: spec_decimal(self.spec_memory_bytes()),
                },
            )
        } else {
            base
        };
        if self.config@.process_limit > 0 {
            with_mem.push(
                ActionV::WriteControlFile {
                    path: self.spec_pids_file(),
                    contents: spec_decimal(self.config@.process_limit as nat),
                },
            )
        } else {
            with_mem
        }
    }

    /// Creates the hierarchy, as a plan for the runner to execute in order.
    /// Creating a directory that already exists fails, so running setup twice
    /// — or for two live containers of one name — fails deterministically at
    /// the first operation; callers must not retry blindly.
    pub fn setup(&self) -> (plan: Vec<Action>)
        requires
            self.wf(),
        ensures
            plan@.map_values(|a: Action| a@) == self.spec_setup_plan(),
    {
        let mut plan: Vec<Action> = Vec::new();
        plan.push(Action::MakeCgroupDir { path: self.cgroup_dir_path() });
        if self.config.memory_limit > 0 {
            plan.push(
                Action::WriteControlFile {
                    path: self.memory_file_path(),
                    contents: decimal_bytes(self.memory_bytes()),
                },
            );
        }
        if self.config.process_limit > 0 {
            plan.push(
                Action::WriteControlFile {
                    path: self.pids_file_path(),
                    contents: decimal_bytes(self.config.process_limit),
                },
            );
        }
        proof {
            assert(plan@.map_values(|a: Action| a@) =~= self.spec_setup_plan());
        }
        plan
    }

    /// The membership write: placing `pid` — and, by control-group
    /// semantics, all its future descendants — under the hierarchy's limits.
    pub fn apply_config(&self, pid: i32) -> (a: Action)
        requires
            self.wf(),
            pid >= 1,
        ensures
            a@ == (ActionV::WriteControlFile {
                path: self.spec_procs_file(),
                contents: spec_decimal(pid as nat),
            }),
    {
        Action::WriteControlFile {
            path: self.procs_file_path(),
            contents: decimal_bytes(pid as u64),
        }
    }

    /// The removal of the hierarchy directory. Valid only once every process
    /// that was a member has exited — the kernel refuses to remove a
    /// non-empty control group — so the lifecycle machine issues it only
    /// after the child has been reaped (see the container module's laws).
    pub fn teardown(&self) -> (a: Action)
        ensures
            a@ == (ActionV::RemoveCgroupDir { path: self.cgroup_path@ }),
    {
        Action::RemoveCgroupDir { path: self.cgroup_dir_path() }
    }
}

/// Law: for every memory limit m > 0, the setup plan writes the
/// memory-ceiling file exactly once, and what it writes is exactly the
/// decimal numeral of m * 1048576 — no whitespace, no trailing data. No
/// other operation of the plan touches that file.
pub proof fn lemma_memory_ceiling_exact(m: &CGroupManager)
    requires
        m.wf(),
        m.config@.memory_limit > 0,
    ensures
        m.spec_setup_plan()[1] == (ActionV::WriteControlFile {
            path: m.spec_memory_file(),
            contents: spec_decimal(m.config@.memory_limit as nat * 1048576),
        }),
        forall|i: int|
            0 <= i < m.spec_setup_plan().len() && i != 1
                ==> !(#[trigger] m.spec_setup_plan()[i] matches ActionV::WriteControlFile {
                path,
                ..
            } && path == m.spec_memory_file()),
{
    reveal_strlit("/memory.max");
    reveal_strlit("/pids.max");
    assert(m.spec_memory_file().len() != m.spec_pids_file().len());
}

/// Law: for every process limit p > 0, the setup plan writes the
/// process-ceiling file exactly once, and what it writes is exactly the
/// decimal numeral of p. No other operation of the plan touches that file.
pub proof fn lemma_process_ceiling_exact(m: &CGroupManager)
    requires
        m.wf(),
        m.config@.process_limit > 0,
    ensures
        m.spec_setup_plan().last() == (ActionV::WriteControlFile {
            path: m.spec_pids_file(),
            contents: spec_decimal(m.config@.process_limit as nat),
        }),
        forall|i: int|
            0 <= i < m.spec_setup_plan().len() && i != m.spec_setup_plan().len() - 1
                ==> !(#[trigger] m.spec_setup_plan()[i] matches ActionV::WriteControlFile {
                path,
                ..
            } && path == m.spec_pids_file()),
{
    reveal_strlit("/memory.max");
    reveal_strlit("/pids.max");
    assert(m.spec_memory_file().len() != m.spec_pids_file().len());
}

/// Law (name-collision invariant): two managers whose configurations carry
/// the same hostname derive the same hierarchy path, so of two live
/// containers with one name the second's directory creation — the first
/// operation of its setup plan — must fail.
pub proof fn lemma_equal_names_collide(a: &CGroupManager, b: &CGroupManager)
    requires
        a.wf(),
        b.wf(),
        a.config@.hostname == b.config@.hostname,
    ensures
        a.cgroup_path@ == b.cgroup_path@,
        a.spec_setup_plan()[0] == b.spec_setup_plan()[0],
{
}

} // verus!
