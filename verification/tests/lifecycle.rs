use firec::config::{Config, JailerMode, StdioPolicy};
use firec::process::{KillOutcome, ProcessInfo, discover_pid};
use firec::workspace::{CleanupOp, FileOp};
use firec::{Error, KillAction, Machine, MachineState, PollStep, VmId, socket_poll_step};

fn sample_id() -> VmId {
    VmId::parse("00000000-0000-0000-0000-000000000001").unwrap()
}

fn sample_config() -> firec::config::Config {
    let iface = firec::config::network::Interface::new("tap0", "eth0", None);
    Config::builder(Some(sample_id()), "/tmp/k")
        .jailer_cfg()
        .uid(123)
        .gid(456)
        .exec_file("/usr/bin/firecracker")
        .chroot_base_dir("/srv/jailer")
        .mode(JailerMode::Daemon)
        .build()
        .add_drive("root", "/tmp/r.ext4")
        .is_root_device(true)
        .build()
        .add_network_interface(iface)
        .build()
        .unwrap()
}

#[test]
fn create_starts_shutoff_with_plan() {
    let (machine, ops) = Machine::create(sample_config()).unwrap();
    assert_eq!(machine.state(), MachineState::Shutoff);
    let ws = "/srv/jailer/firecracker/00000000-0000-0000-0000-000000000001/root";
    assert_eq!(ops.len(), 4);
    match &ops[0] {
        FileOp::EnsureDir(d) => assert_eq!(d, ws),
        other => panic!("unexpected op: {:?}", other),
    }
    match &ops[1] {
        FileOp::CopyIfAbsent { src, dst } => {
            assert_eq!(src, "/tmp/k");
            assert_eq!(dst, &format!("{}/kernel", ws));
        }
        other => panic!("unexpected op: {:?}", other),
    }
    match &ops[2] {
        FileOp::CopyIfAbsent { src, dst } => {
            assert_eq!(src, "/tmp/r.ext4");
            assert_eq!(dst, &format!("{}/r.ext4", ws));
        }
        other => panic!("unexpected op: {:?}", other),
    }
    match &ops[3] {
        FileOp::EnsureDir(d) => assert_eq!(d, &format!("{}/run", ws)),
        other => panic!("unexpected op: {:?}", other),
    }
}

#[test]
fn create_plan_includes_initrd() {
    let config = Config::builder(Some(sample_id()), "/tmp/k")
        .initrd_path("/tmp/initrd.img")
        .build()
        .unwrap();
    let (_, ops) = Machine::create(config).unwrap();
    let ws = "/srv/jailer/firecracker/00000000-0000-0000-0000-000000000001/root";
    match &ops[2] {
        FileOp::CopyIfAbsent { src, dst } => {
            assert_eq!(src, "/tmp/initrd.img");
            assert_eq!(dst, &format!("{}/initrd.img", ws));
        }
        other => panic!("unexpected op: {:?}", other),
    }
}

#[test]
fn create_is_deterministic() {
    // Two creates from equal configurations plan exactly the same
    // operations, and every copy is skip-if-exists: re-running the plan
    // re-copies nothing.
    let (_, first) = Machine::create(sample_config()).unwrap();
    let (_, second) = Machine::create(sample_config()).unwrap();
    assert_eq!(first.len(), second.len());
    for (a, b) in first.iter().zip(second.iter()) {
        match (a, b) {
            (FileOp::EnsureDir(x), FileOp::EnsureDir(y)) => assert_eq!(x, y),
            (
                FileOp::CopyIfAbsent { src: s1, dst: d1 },
                FileOp::CopyIfAbsent { src: s2, dst: d2 },
            ) => {
                assert_eq!(s1, s2);
                assert_eq!(d1, d2);
            }
            other => panic!("plans differ in shape: {:?}", other),
        }
    }
}

#[test]
fn create_rejects_bad_initrd() {
    let config = Config::builder(Some(sample_id()), "/tmp/k")
        .initrd_path("/tmp/")
        .build()
        .unwrap();
    assert!(matches!(Machine::create(config), Err(Error::InvalidInitrdPath)));
}

#[test]
fn create_rejects_bad_drive_path() {
    let config = Config::builder(Some(sample_id()), "/tmp/k")
        .add_drive("root", "..")
        .build()
        .build()
        .unwrap();
    assert!(matches!(Machine::create(config), Err(Error::InvalidDrivePath)));
}

#[test]
fn start_plan_argv_daemon_mode() {
    let (machine, _) = Machine::create(sample_config()).unwrap();
    let plan = machine.start_plan().unwrap();
    let argv: Vec<&str> = plan.argv.iter().map(|s| s.as_str()).collect();
    assert_eq!(
        argv,
        vec![
            "jailer",
            "--daemonize",
            "--id",
            "00000000-0000-0000-0000-000000000001",
            "--exec-file",
            "/usr/bin/firecracker",
            "--uid",
            "123",
            "--gid",
            "456",
            "--chroot-base-dir",
            "/srv/jailer",
            "--",
            "--api-sock",
            "/run/firecracker.socket",
        ]
    );
    assert_eq!(plan.stdin, StdioPolicy::Null);
    assert_eq!(plan.stdout, StdioPolicy::Null);
    assert_eq!(plan.stderr, StdioPolicy::Null);
}

#[test]
fn start_plan_argv_is_stable() {
    let (machine, _) = Machine::create(sample_config()).unwrap();
    let first = machine.start_plan().unwrap();
    let second = machine.start_plan().unwrap();
    assert_eq!(first.argv, second.argv);
}

#[test]
fn start_plan_argv_tmux_mode() {
    let config = Config::builder(Some(sample_id()), "/tmp/k")
        .jailer_cfg()
        .uid(1)
        .gid(2)
        .mode(JailerMode::Tmux(None))
        .build()
        .build()
        .unwrap();
    let (machine, _) = Machine::create(config).unwrap();
    let plan = machine.start_plan().unwrap();
    let argv: Vec<&str> = plan.argv.iter().map(|s| s.as_str()).collect();
    assert_eq!(
        &argv[..6],
        &["tmux", "new-session", "-d", "-s", "00000000-0000-0000-0000-000000000001", "jailer"]
    );
    let named = Config::builder(Some(sample_id()), "/tmp/k")
        .jailer_cfg()
        .mode(JailerMode::Tmux(Some("sess".to_string())))
        .build()
        .build()
        .unwrap();
    let (machine, _) = Machine::create(named).unwrap();
    let plan = machine.start_plan().unwrap();
    assert_eq!(plan.argv[4], "sess");
}

#[test]
fn start_plan_cleanup_removes_stale_state() {
    let config = Config::builder(Some(sample_id()), "/tmp/k")
        .vsock_cfg(firec::config::VSock::new(3, "/v.sock"))
        .build()
        .unwrap();
    let (machine, _) = Machine::create(config).unwrap();
    let plan = machine.start_plan().unwrap();
    let ws = "/srv/jailer/firecracker/00000000-0000-0000-0000-000000000001/root";
    assert_eq!(plan.cleanup.len(), 3);
    match &plan.cleanup[0] {
        CleanupOp::RemoveFile(p) => assert_eq!(p, &format!("{}/run/firecracker.socket", ws)),
        other => panic!("unexpected op: {:?}", other),
    }
    match &plan.cleanup[1] {
        CleanupOp::RemoveFile(p) => assert_eq!(p, &format!("{}/v.sock", ws)),
        other => panic!("unexpected op: {:?}", other),
    }
    match &plan.cleanup[2] {
        CleanupOp::RemoveDirAll(p) => assert_eq!(p, &format!("{}/dev", ws)),
        other => panic!("unexpected op: {:?}", other),
    }
}

#[test]
fn start_refused_while_running() {
    let (mut machine, _) = Machine::create(sample_config()).unwrap();
    machine.mark_started(4242);
    assert_eq!(machine.state(), MachineState::Running { pid: 4242 });
    assert!(matches!(machine.start_plan(), Err(Error::ProcessAlreadyRunning)));
}

#[test]
fn shutdown_keeps_state_running() {
    let (mut machine, _) = Machine::create(sample_config()).unwrap();
    machine.mark_started(4242);
    let req = machine.shutdown();
    assert_eq!(req.path(), "/actions");
    assert_eq!(req.body(), "{\"action_type\":\"SendCtrlAltDel\"}");
    assert_eq!(machine.state(), MachineState::Running { pid: 4242 });
}

#[test]
fn force_shutdown_transitions_and_repeats() {
    let (mut machine, _) = Machine::create(sample_config()).unwrap();
    machine.mark_started(4242);
    match machine.kill_action().unwrap() {
        KillAction::Signal { pid } => assert_eq!(pid, 4242),
        other => panic!("unexpected action: {:?}", other),
    }
    assert!(machine.force_shutdown(KillOutcome::Killed).is_ok());
    assert_eq!(machine.state(), MachineState::Shutoff);
    // A second forced shutdown finds no started process.
    assert!(matches!(
        machine.force_shutdown(KillOutcome::Killed),
        Err(Error::ProcessNotStarted)
    ));
    assert!(matches!(machine.kill_action(), Err(Error::ProcessNotStarted)));
}

#[test]
fn force_shutdown_outcome_mapping() {
    let (mut machine, _) = Machine::create(sample_config()).unwrap();
    machine.mark_started(7);
    assert!(matches!(
        machine.force_shutdown(KillOutcome::NotFound),
        Err(Error::ProcessNotRunning(7))
    ));
    assert_eq!(machine.state(), MachineState::Shutoff);

    let (mut machine, _) = Machine::create(sample_config()).unwrap();
    machine.mark_started(7);
    assert!(matches!(
        machine.force_shutdown(KillOutcome::Rejected),
        Err(Error::ProcessNotKilled(7))
    ));
    assert_eq!(machine.state(), MachineState::Shutoff);

    let (mut machine, _) = Machine::create(sample_config()).unwrap();
    machine.mark_started(7);
    match machine.force_shutdown(KillOutcome::SessionFailed("tmux died".to_string())) {
        Err(Error::Io(m)) => assert_eq!(m, "tmux died"),
        other => panic!("unexpected result: {:?}", other),
    }
    assert_eq!(machine.state(), MachineState::Shutoff);

    let (mut machine, _) = Machine::create(sample_config()).unwrap();
    machine.mark_started(7);
    assert!(machine.force_shutdown(KillOutcome::SessionEnded).is_ok());
    assert_eq!(machine.state(), MachineState::Shutoff);
}

#[test]
fn kill_action_in_tmux_mode_ends_session() {
    let config = Config::builder(Some(sample_id()), "/tmp/k")
        .jailer_cfg()
        .mode(JailerMode::Tmux(None))
        .build()
        .build()
        .unwrap();
    let (mut machine, _) = Machine::create(config).unwrap();
    machine.mark_started(7);
    match machine.kill_action().unwrap() {
        KillAction::EndTmuxSession { session } => {
            assert_eq!(session, "00000000-0000-0000-0000-000000000001")
        }
        other => panic!("unexpected action: {:?}", other),
    }
}

#[test]
fn boot_failure_rollback() {
    // A boot-source request answered with 400 aborts the sequence; the
    // forced shutdown is attempted and the machine ends in Shutoff, while
    // the original API error is what the caller sees.
    let (mut machine, _) = Machine::create(sample_config()).unwrap();
    let plan = machine.start_plan().unwrap();
    assert!(!plan.argv.is_empty());
    machine.mark_started(4242);
    let err = firec::api::interpret_response(400, Some("bad boot source".to_string()))
        .unwrap_err();
    let _ = machine.force_shutdown(KillOutcome::Killed);
    assert_eq!(machine.state(), MachineState::Shutoff);
    assert!(matches!(err, Error::FirecrackerAPIError { status: 400, .. }));
}

#[test]
fn socket_poll_decisions() {
    assert_eq!(socket_poll_step(200, 0).unwrap(), PollStep::Ready);
    assert_eq!(socket_poll_step(204, 9999).unwrap(), PollStep::Ready);
    assert_eq!(
        socket_poll_step(404, 0).unwrap(),
        PollStep::RetryAfterDelay { delay_millis: 100 }
    );
    assert_eq!(
        socket_poll_step(404, 9999).unwrap(),
        PollStep::RetryAfterDelay { delay_millis: 100 }
    );
    // After ten seconds without a success answer, the start has timed out.
    assert!(matches!(
        socket_poll_step(404, 10000),
        Err(Error::JailerStartTimedOut)
    ));
    assert!(matches!(
        socket_poll_step(503, 60000),
        Err(Error::JailerStartTimedOut)
    ));
}

#[test]
fn delete_plan_running_machine() {
    let (mut machine, _) = Machine::create(sample_config()).unwrap();
    machine.mark_started(4242);
    let plan = machine.delete();
    assert!(plan.shutdown_first);
    assert_eq!(plan.wait_millis, 10000);
    match plan.kill.unwrap() {
        KillAction::Signal { pid } => assert_eq!(pid, 4242),
        other => panic!("unexpected action: {:?}", other),
    }
    // The VM directory is the parent of the workspace.
    assert_eq!(
        plan.vm_dir,
        "/srv/jailer/firecracker/00000000-0000-0000-0000-000000000001"
    );
}

#[test]
fn delete_plan_shutoff_machine() {
    let (machine, _) = Machine::create(sample_config()).unwrap();
    let plan = machine.delete();
    assert!(!plan.shutdown_first);
    assert!(plan.kill.is_none());
    assert_eq!(
        plan.vm_dir,
        "/srv/jailer/firecracker/00000000-0000-0000-0000-000000000001"
    );
}

#[test]
fn connect_takes_caller_state() {
    let machine = Machine::connect(sample_config(), MachineState::Running { pid: 99 });
    assert_eq!(machine.state(), MachineState::Running { pid: 99 });
    let machine = Machine::connect(sample_config(), MachineState::Shutoff);
    assert_eq!(machine.state(), MachineState::Shutoff);
}

fn proc_info(pid: u32, cmd: &[&str]) -> ProcessInfo {
    ProcessInfo { pid, cmd: cmd.iter().map(|s| s.to_string()).collect() }
}

#[test]
fn discover_pid_wants_exactly_one_candidate() {
    let id = "00000000-0000-0000-0000-000000000001";
    let procs = vec![
        proc_info(10, &["jailer", "--id", id]),
        proc_info(11, &["jailer", "--id", "another"]),
    ];
    assert_eq!(discover_pid(&procs, id).unwrap(), 10);

    let none: Vec<ProcessInfo> = vec![proc_info(11, &["jailer", "--id", "another"])];
    assert!(matches!(discover_pid(&none, id), Err(Error::FailedToStart)));

    let two = vec![
        proc_info(10, &["jailer", "--id", id]),
        proc_info(12, &["jailer", "--id", id]),
    ];
    assert!(matches!(discover_pid(&two, id), Err(Error::FailedToStart)));
}

#[test]
fn process_observer_on_absent_pid() {
    // PIDs above the kernel's maximum cannot exist, so the observations
    // are deterministic here.
    assert!(!firec::process::is_running(999999999));
    assert!(matches!(
        firec::process::kill_process(999999999),
        KillOutcome::NotFound
    ));
}
