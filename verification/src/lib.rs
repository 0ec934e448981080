//! A minimal container runtime core: it describes how to launch a process
//! into an isolated execution context (fresh process-id, mount, hostname,
//! inter-process-communication, network and user-id namespaces), how to
//! constrain it through a control-group hierarchy, and how to interpret its
//! termination.
//!
//! The crate verifies the decision logic: the control-group file writes with
//! their exact paths and payloads, the parent-side lifecycle state machine
//! with its ordering guarantees (resource limits are applied before the child
//! is released past the synchronization barrier), the child-side setup plan,
//! and the interpretation of the wait result. The kernel-facing system calls
//! themselves (directory creation, file writes, cloning, mounting, waiting)
//! are performed by an unverified runner that executes the [`ops::Action`]
//! values this library hands it and feeds the results back as [`ops::Event`]
//! values.

pub mod cgroup_manager;
pub mod child;
pub mod config;
pub mod container;
pub mod numeral;
pub mod ops;
pub mod outcome;
