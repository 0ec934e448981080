use minicontainer::config::Config;
use minicontainer::container::{Container, Lifecycle, Phase};
use minicontainer::ops::{Action, Event};
use minicontainer::outcome::{Completion, ContainerError, ProcessOutcome};

fn container(name: &str, command: &str, args: &[&str], memory_limit: u64, process_limit: u64) -> Container {
    let mut config = Config::new(name, "/srv/rootfs");
    config.command = command.to_string();
    config.args = args.iter().map(|a| a.to_string()).collect();
    config.memory_limit = memory_limit;
    config.process_limit = process_limit;
    Container::new(config, vec![0u8; 4096])
}

/// Drives the machine, answering every action the way `respond` says, and
/// returns the full action trace with the completion.
fn drive(mut machine: Lifecycle, respond: impl Fn(&Action) -> Event) -> (Vec<Action>, Completion) {
    let mut trace: Vec<Action> = Vec::new();
    let mut event = Event::Begin;
    loop {
        let action = machine.step(event);
        if let Action::Finish { completion } = &action {
            let completion = *completion;
            trace.push(action);
            return (trace, completion);
        }
        event = respond(&action);
        trace.push(action);
        assert!(trace.len() < 64, "the machine must reach Finish");
    }
}

fn all_succeed(exit: Event) -> impl Fn(&Action) -> Event {
    move |action: &Action| match action {
        Action::Spawn => Event::Spawned(4242),
        Action::Wait { .. } => exit,
        _ => Event::Succeeded,
    }
}

#[test]
fn clean_run_yields_exited_normally_zero() {
    let c = container("p5box", "/bin/true", &[], 0, 0);
    let (_, completion) = drive(c.run_lifecycle(), all_succeed(Event::WaitExited(0)));
    assert_eq!(
        completion,
        Completion::Exited { outcome: ProcessOutcome::ExitedNormally(0), teardown_failed: false }
    );
}

#[test]
fn exit_code_is_preserved() {
    let c = container("p6box", "/bin/sh", &["-c", "exit 7"], 0, 0);
    let (_, completion) = drive(c.run_lifecycle(), all_succeed(Event::WaitExited(7)));
    assert_eq!(
        completion,
        Completion::Exited { outcome: ProcessOutcome::ExitedNormally(7), teardown_failed: false }
    );
}

#[test]
fn external_signal_reports_terminated_never_exited() {
    let c = container("p7box", "/bin/sleep", &["60"], 0, 0);
    let (_, completion) = drive(c.run_lifecycle(), all_succeed(Event::WaitSignaled(15)));
    match completion {
        Completion::Exited { outcome, .. } => {
            assert_eq!(outcome, ProcessOutcome::Terminated(15));
            assert!(!matches!(outcome, ProcessOutcome::ExitedNormally(_)));
        }
        other => panic!("unexpected completion {:?}", other),
    }
}

#[test]
fn unknown_wait_result_reports_unknown() {
    let c = container("waitbox", "/bin/true", &[], 0, 0);
    let (_, completion) = drive(c.run_lifecycle(), all_succeed(Event::WaitUnknown));
    assert_eq!(
        completion,
        Completion::Exited { outcome: ProcessOutcome::Unknown, teardown_failed: false }
    );
}

#[test]
fn membership_write_comes_strictly_before_barrier_release() {
    let c = container("p3box", "/bin/true", &[], 64, 10);
    let (trace, _) = drive(c.run_lifecycle(), all_succeed(Event::WaitExited(0)));
    let membership = trace.iter().position(|a| {
        matches!(a, Action::WriteControlFile { path, .. } if path.ends_with("/cgroup.procs"))
    });
    let barrier = trace.iter().position(|a| matches!(a, Action::ReleaseBarrier));
    match (membership, barrier) {
        (Some(m), Some(b)) => assert!(m < b, "membership write must precede the barrier"),
        other => panic!("incomplete trace {:?}", other),
    }
    match &trace[membership.unwrap()] {
        Action::WriteControlFile { path, contents } => {
            assert_eq!(path, "/sys/fs/cgroup/p3box/cgroup.procs");
            assert_eq!(contents, &b"4242".to_vec());
        }
        _ => unreachable!(),
    }
}

#[test]
fn removal_comes_only_after_the_wait() {
    let c = container("p4box", "/bin/true", &[], 0, 0);
    let (trace, _) = drive(c.run_lifecycle(), all_succeed(Event::WaitExited(0)));
    let wait = trace.iter().position(|a| matches!(a, Action::Wait { .. }));
    let removal = trace.iter().position(|a| matches!(a, Action::RemoveCgroupDir { .. }));
    match (wait, removal) {
        (Some(w), Some(r)) => assert!(w < r, "removal must come after the child is reaped"),
        other => panic!("incomplete trace {:?}", other),
    }
}

#[test]
fn refused_removal_is_reported() {
    let c = container("p4fail", "/bin/true", &[], 0, 0);
    let respond = |action: &Action| match action {
        Action::Spawn => Event::Spawned(4242),
        Action::Wait { .. } => Event::WaitExited(0),
        Action::RemoveCgroupDir { .. } => Event::Failed,
        _ => Event::Succeeded,
    };
    let (_, completion) = drive(c.run_lifecycle(), respond);
    assert_eq!(
        completion,
        Completion::Exited { outcome: ProcessOutcome::ExitedNormally(0), teardown_failed: true }
    );
}

#[test]
fn name_collision_fails_run_with_directory_create_error() {
    let first = container("twinbox", "/bin/true", &[], 0, 0);
    let second = container("twinbox", "/bin/true", &[], 0, 0);
    assert_eq!(first.cgroup_manager.cgroup_path, second.cgroup_manager.cgroup_path);
    // the runner reports the kernel's refusal of the second, colliding mkdir
    let respond = |action: &Action| match action {
        Action::MakeCgroupDir { .. } => Event::Failed,
        _ => Event::Succeeded,
    };
    let (trace, completion) = drive(second.run_lifecycle(), respond);
    assert_eq!(trace.len(), 2);
    assert_eq!(
        completion,
        Completion::Exited {
            outcome: ProcessOutcome::SpawnFailed(ContainerError::DirectoryCreateError),
            teardown_failed: false,
        }
    );
}

#[test]
fn nonblocking_start_hands_back_the_pid() {
    let c = container("startbox", "/bin/sleep", &["60"], 64, 0);
    let (trace, completion) = drive(c.start_lifecycle(true), all_succeed(Event::WaitExited(0)));
    assert_eq!(completion, Completion::Started { pid: 4242 });
    assert!(trace.iter().all(|a| !matches!(a, Action::Wait { .. })));
    assert!(trace.iter().all(|a| !matches!(a, Action::RemoveCgroupDir { .. })));
}

#[test]
fn nonblocking_start_records_setup_warning_and_continues() {
    let c = container("warnbox", "/bin/true", &[], 64, 0);
    let mut machine = c.start_lifecycle(false);
    let a0 = machine.step(Event::Begin);
    assert!(matches!(&a0, Action::MakeCgroupDir { .. }));
    let a1 = machine.step(Event::Failed);
    assert!(matches!(&a1, Action::CreateChannel));
    assert_eq!(machine.setup_warning, Some(ContainerError::DirectoryCreateError));
}

#[test]
fn failed_membership_write_kills_and_reaps_the_child() {
    let c = container("killbox", "/bin/true", &[], 0, 0);
    let respond = |action: &Action| match action {
        Action::Spawn => Event::Spawned(77),
        Action::WriteControlFile { path, .. } if path.ends_with("/cgroup.procs") => Event::Failed,
        Action::Wait { .. } => Event::WaitSignaled(9),
        _ => Event::Succeeded,
    };
    let (trace, completion) = drive(c.run_lifecycle(), respond);
    assert!(trace.iter().all(|a| !matches!(a, Action::ReleaseBarrier)));
    let kill = trace.iter().position(|a| matches!(a, Action::KillChild { pid: 77 }));
    let wait = trace.iter().position(|a| matches!(a, Action::Wait { pid: 77 }));
    let removal = trace.iter().position(|a| matches!(a, Action::RemoveCgroupDir { .. }));
    match (kill, wait, removal) {
        (Some(k), Some(w), Some(r)) => assert!(k < w && w < r),
        other => panic!("incomplete trace {:?}", other),
    }
    assert_eq!(
        completion,
        Completion::Exited {
            outcome: ProcessOutcome::SpawnFailed(ContainerError::MembershipWriteError),
            teardown_failed: false,
        }
    );
}

#[test]
fn channel_failure_is_a_channel_error() {
    let c = container("nochan", "/bin/true", &[], 0, 0);
    let respond = |action: &Action| match action {
        Action::CreateChannel => Event::Failed,
        _ => Event::Succeeded,
    };
    let (trace, completion) = drive(c.run_lifecycle(), respond);
    assert!(trace.iter().all(|a| !matches!(a, Action::Spawn)));
    assert_eq!(
        completion,
        Completion::Exited {
            outcome: ProcessOutcome::SpawnFailed(ContainerError::ChannelError),
            teardown_failed: false,
        }
    );
}

#[test]
fn failed_barrier_release_kills_the_child() {
    let c = container("nobarrier", "/bin/true", &[], 0, 0);
    let respond = |action: &Action| match action {
        Action::Spawn => Event::Spawned(88),
        Action::ReleaseBarrier => Event::Failed,
        Action::Wait { .. } => Event::WaitSignaled(9),
        _ => Event::Succeeded,
    };
    let (trace, completion) = drive(c.run_lifecycle(), respond);
    assert!(trace.iter().any(|a| matches!(a, Action::KillChild { pid: 88 })));
    assert_eq!(
        completion,
        Completion::Exited {
            outcome: ProcessOutcome::SpawnFailed(ContainerError::ChannelError),
            teardown_failed: false,
        }
    );
}

#[test]
fn clone_failure_tears_the_cgroup_down() {
    let c = container("nospawn", "/bin/true", &[], 64, 0);
    let respond = |action: &Action| match action {
        Action::Spawn => Event::Failed,
        _ => Event::Succeeded,
    };
    let (trace, completion) = drive(c.run_lifecycle(), respond);
    assert!(trace.iter().any(|a| matches!(a, Action::RemoveCgroupDir { .. })));
    assert_eq!(
        completion,
        Completion::Exited {
            outcome: ProcessOutcome::SpawnFailed(ContainerError::SpawnFailed),
            teardown_failed: false,
        }
    );
}

#[test]
fn limit_write_failure_is_fatal_for_a_blocking_run() {
    let c = container("limitfail", "/bin/true", &[], 64, 0);
    let respond = |action: &Action| match action {
        Action::WriteControlFile { path, .. } if path.ends_with("/memory.max") => Event::Failed,
        _ => Event::Succeeded,
    };
    let (trace, completion) = drive(c.run_lifecycle(), respond);
    assert!(trace.iter().all(|a| !matches!(a, Action::Spawn)));
    assert!(trace.iter().any(|a| matches!(a, Action::RemoveCgroupDir { .. })));
    assert_eq!(
        completion,
        Completion::Exited {
            outcome: ProcessOutcome::SpawnFailed(ContainerError::LimitWriteError),
            teardown_failed: false,
        }
    );
}

#[test]
fn machine_phases_follow_the_specified_order() {
    let c = container("phasebox", "/bin/true", &[], 64, 10);
    let mut machine = c.run_lifecycle();
    assert_eq!(machine.phase, Phase::Created);
    machine.step(Event::Begin);
    assert_eq!(machine.phase, Phase::MakingCgroup);
    machine.step(Event::Succeeded);
    assert_eq!(machine.phase, Phase::SettingMemoryLimit);
    machine.step(Event::Succeeded);
    assert_eq!(machine.phase, Phase::SettingProcessLimit);
    machine.step(Event::Succeeded);
    assert_eq!(machine.phase, Phase::CreatingChannel);
    machine.step(Event::Succeeded);
    assert_eq!(machine.phase, Phase::SpawningChild);
    machine.step(Event::Spawned(9));
    assert_eq!(machine.phase, Phase::ApplyingMembership { pid: 9 });
    machine.step(Event::Succeeded);
    assert_eq!(machine.phase, Phase::ReleasingBarrier { pid: 9 });
    machine.step(Event::Succeeded);
    assert_eq!(machine.phase, Phase::ChildRunning { pid: 9 });
    machine.step(Event::WaitExited(0));
    assert_eq!(
        machine.phase,
        Phase::TearingDown { outcome: ProcessOutcome::ExitedNormally(0) }
    );
    machine.step(Event::Succeeded);
    assert!(matches!(machine.phase, Phase::Done { .. }));
}
