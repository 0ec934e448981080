use vstd::prelude::*;

verus! {

/// An immutable description of what to run and how to constrain it.
///
/// The value is created once by the caller, before any container operation,
/// and is read-only thereafter. Parent and child become separate address
/// spaces at clone time, so the value is duplicated — never shared — across
/// that boundary (see [`Config::duplicate`]).
pub struct Config {
    /// Hostname given to the child's hostname namespace; doubles as the
    /// container name that keys the control-group hierarchy.
    pub hostname: String,
    /// Path the child's filesystem root is confined to.
    pub rootfs_path: String,
    /// Program the child's image is replaced with.
    pub command: String,
    /// Arguments handed to that program, in order.
    pub args: Vec<String>,
    /// Memory ceiling in MiB; 0 means unlimited.
    pub memory_limit: u64,
    /// Process-count ceiling; 0 means unlimited.
    pub process_limit: u64,
}

/// The mathematical value of a [`Config`].
pub ghost struct ConfigView {
    pub hostname: Seq<char>,
    pub rootfs_path: Seq<char>,
    pub command: Seq<char>,
    pub args: Seq<Seq<char>>,
    pub memory_limit: u64,
    pub process_limit: u64,
}

impl View for Config {
    type V = ConfigView;

    open spec fn view(&self) -> ConfigView {
        ConfigView {
            hostname: self.hostname@,
            rootfs_path: self.rootfs_path@,
            command: self.command@,
            args: self.args.deep_view(),
            memory_limit: self.memory_limit,
            process_limit: self.process_limit,
        }
    }
}

impl Config {
    /// A configuration that names a container and its root filesystem and
    /// leaves everything else empty: no command, no arguments, no limits.
    pub fn new(name: &str, path: &str) -> (c: Self)
        ensures
            c@.hostname == name@,
            c@.rootfs_path == path@,
            c@.command == Seq::<char>::empty(),
            c@.args == Seq::<Seq<char>>::empty(),
            c@.memory_limit == 0,
            c@.process_limit == 0,
    {
        let c = Config {
            hostname: name.to_owned(),
            rootfs_path: path.to_owned(),
            command: String::new(),
            args: Vec::new(),
            memory_limit: 0,
            process_limit: 0,
        };
        proof {
            assert(c.args.deep_view() =~= Seq::<Seq<char>>::empty());
        }
        c
    }

    /// An explicit deep copy. The spawning side hands the child its own copy
    /// of the configuration, since the two processes share no memory.
    pub fn duplicate(&self) -> (c: Self)
        ensures
            c@ == self@,
    {
        let mut args: Vec<String> = Vec::new();
        let mut i: usize = 0;
        while i < self.args.len()
            invariant
                i <= self.args.len(),
                args@.len() == i as nat,
                forall|j: int| 0 <= j < i ==> args@[j]@ == self.args@[j]@,
            decreases self.args.len() - i,
        {
            args.push(self.args[i].clone());
            i = i + 1;
        }
        let c = Config {
            hostname: self.hostname.clone(),
            rootfs_path: self.rootfs_path.clone(),
            command: self.command.clone(),
            args,
            memory_limit: self.memory_limit,
            process_limit: self.process_limit,
        };
        proof {
            assert(c.args.deep_view() =~= self.args.deep_view());
        }
        c
    }
}

impl Default for Config {
    /// A placeholder configuration for trying the runtime out.
    fn default() -> (c: Self)
        ensures
            c@.hostname == "default"@,
            c@.rootfs_path == "rootfs"@,
            c@.command == "bin/sh"@,
            c@.args == Seq::<Seq<char>>::empty(),
            c@.memory_limit == 512,
            c@.process_limit == 10,
    {
        let c = Config {
            hostname: String::from_str("default"),
            rootfs_path: String::from_str("rootfs"),
            command: String::from_str("bin/sh"),
            args: Vec::new(),
            memory_limit: 512,
            process_limit: 10,
        };
        proof {
            assert(c.args.deep_view() =~= Seq::<Seq<char>>::empty());
        }
        c
    }
}

} // verus!
