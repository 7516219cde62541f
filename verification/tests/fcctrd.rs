use faascell::metadata::SandboxStats;
use faascell::runtime::fc::runtime::TapReply;
use faascell::runtime::fcctrd::config::FirecrackerContainerdConfig;
use faascell::runtime::fcctrd::create::{Create, CreateAction, CreateEvent, CreatePhase};
use faascell::runtime::fcctrd::destroy::{
    destroy_way, snapshot_removal, DestroyIdle, DestroySnapshotted, DestroyWay, IdleAction,
    IdleEvent, IdlePhase, Removal, SnapshottedAction, SnapshottedPhase,
};
use faascell::runtime::fcctrd::error::Error;
use faascell::runtime::fcctrd::images::{
    ensure_image, finalize_function_info, pull_args, ImageConfig, PullOutcome, RegisteredImages,
};
use faascell::runtime::fcctrd::info::{FcctrdFunctionInfo, FunctionInfoProto};
use faascell::runtime::fcctrd::register::{
    Register, RegisterAction, RegisterEvent, RegisterPhase,
};
use faascell::runtime::fcctrd::runtime::{
    FirecrackerContainerd, PauseRetries, Unload, MAX_PAUSE_RETRIES,
};
use faascell::runtime::fcctrd::sandbox::{MicroVm, Vm};
use faascell::runtime::net::{Ipv4Addr, TapInfo};
use faascell::runtime::{MonitorTarget, Sandbox, SnapshotState};
use faascell::status::StatusCode;

fn info() -> FcctrdFunctionInfo {
    FcctrdFunctionInfo {
        id: "chameleon-1".to_string(),
        image_ref: "docker.io/fn/chameleon:1".to_string(),
        memory: 512 << 20,
        parent_snapshot: None,
        process_args: None,
    }
}

fn tap() -> TapInfo {
    TapInfo {
        name: "tap3".to_string(),
        ip_addr: Ipv4Addr { a: 10, b: 1, c: 2, d: 3 },
        gateway: Ipv4Addr { a: 10, b: 1, c: 2, d: 1 },
        prefix_len: 24,
    }
}

fn vm(pid: Option<u32>, snapshot: bool) -> Vm {
    let file = |name: &str| if snapshot { Some(format!("/pmem/{name}")) } else { None };
    Vm {
        id: "vm3".to_string(),
        pid,
        cgroup_path: Some("/sys/fs/cgroup/vm3".to_string()),
        snapshot_state_file: file("vm3.state"),
        snapshot_memory_file: file("vm3.memory"),
    }
}

fn uvm(pid: Option<u32>, snapshot: bool) -> MicroVm {
    MicroVm::new(&"chameleon-1".to_string(), tap(), vm(pid, snapshot))
}

fn run_create(mut create: Create, fail_at: Option<CreateAction>) -> (Vec<CreateAction>, Create) {
    let mut actions = Vec::new();
    while let Some(action) = create.action() {
        actions.push(action);
        create.step(if Some(action) == fail_at {
            CreateEvent::Failed("no".to_string())
        } else {
            CreateEvent::Done
        });
    }
    (actions, create)
}

#[test]
fn register_function_finalizes_missing_metadata() {
    let mut fi = info();
    assert!(fi.is_incomplete());
    let config = ImageConfig {
        parent_snapshot: "sha256:abc".to_string(),
        process_args: Ok("python3 main.py".to_string()),
    };
    finalize_function_info(&mut fi, Ok(config)).unwrap();
    assert_eq!(fi.parent_snapshot.as_deref(), Some("sha256:abc"));
    assert_eq!(fi.process_args.as_deref(), Some("python3 main.py"));
    assert!(!fi.is_incomplete());

    // what is there already stays
    let config = ImageConfig {
        parent_snapshot: "sha256:def".to_string(),
        process_args: Err("unused".to_string()),
    };
    finalize_function_info(&mut fi, Ok(config)).unwrap();
    assert_eq!(fi.parent_snapshot.as_deref(), Some("sha256:abc"));

    let mut fi = info();
    let err = finalize_function_info(&mut fi, Err("offline".to_string())).unwrap_err();
    assert_eq!(err.message(), "failed to get OCI Image config");
    let config = ImageConfig {
        parent_snapshot: "sha256:abc".to_string(),
        process_args: Err("no command".to_string()),
    };
    let err = finalize_function_info(&mut fi, Ok(config)).unwrap_err();
    assert_eq!(err.message(), "failed to extract command & args for the new process");
    assert!(fi.parent_snapshot.is_some());
    assert!(fi.process_args.is_none());
}

#[test]
fn images_are_counted() {
    let image = "docker.io/fn/chameleon:1".to_string();
    let mut images = RegisteredImages::new();
    assert!(images.needs_pull(&image));
    images.register(&image);
    assert!(!images.needs_pull(&image));
    images.register(&image);
    assert!(images.deregister(&image));
    assert!(!images.needs_pull(&image));
    assert!(images.deregister(&image));
    assert!(images.needs_pull(&image));
    // the count does not fall below nothing
    assert!(images.deregister(&image));
    images.register(&image);
    assert!(!images.needs_pull(&image));
    assert!(!images.deregister(&"other".to_string()));
}

#[test]
fn images_are_pulled_with_the_image_tool() {
    let config = FirecrackerContainerdConfig::default();
    assert_eq!(config.ctr, "firecracker-ctr");
    assert_eq!(
        pull_args(&config, "img"),
        [
            "--address",
            "/var/run/firecracker-containerd/containerd.sock",
            "--namespace",
            "default",
            "images",
            "pull",
            "--snapshotter",
            "devmapper",
            "img"
        ]
    );
    assert!(ensure_image(PullOutcome::Success).is_ok());
    let err = ensure_image(PullOutcome::Status("exit status: 1".to_string())).unwrap_err();
    assert_eq!(err.message(), "firecracker-ctr: exit status: 1");
    let err = ensure_image(PullOutcome::NotRun("ENOENT".to_string())).unwrap_err();
    assert_eq!(err.message(), "failed to fork/exec firecracker-ctr");
}

#[test]
fn only_two_nameservers_count() {
    let mut config = FirecrackerContainerdConfig::default();
    assert_eq!(config.ttrpc_address, "/var/run/firecracker-containerd/containerd.sock.ttrpc");
    config.nameservers.push(Ipv4Addr { a: 8, b: 8, c: 8, d: 8 });
    let ns = config.vm_nameservers();
    assert_eq!(ns.len(), 2);
    assert_eq!(ns[1].to_text(), "1.0.0.1");
}

#[test]
fn function_info_of_a_container_travels_in_a_message() {
    let mut fi = info();
    fi.process_args = Some("cmd".to_string());
    fi.memory += 5;
    let back = FcctrdFunctionInfo::from(fi.to_proto());
    assert_eq!(back.memory(), 512 << 20);
    assert_eq!(back.id(), "chameleon-1");
    assert_eq!(back.image_ref, "docker.io/fn/chameleon:1");
    assert_eq!(back.parent_snapshot, None);
    assert_eq!(back.process_args.as_deref(), Some("cmd"));
    let proto = FunctionInfoProto {
        function_id: "f".to_string(),
        image_ref: "i".to_string(),
        memory_mib: 3,
        parent_snapshot: Some("p".to_string()),
        process_args: None,
    };
    let again = FcctrdFunctionInfo::from(proto).to_proto();
    assert_eq!(again.memory_mib, 3);
    assert_eq!(again.parent_snapshot.as_deref(), Some("p"));
}

#[test]
fn container_machine_is_created() {
    let (actions, create) = run_create(Create::new(false), None);
    assert_eq!(
        actions,
        [
            CreateAction::BuildTap,
            CreateAction::CreateVm,
            CreateAction::CreateContainer,
            CreateAction::PrepareSnapshot,
            CreateAction::CreateTask,
            CreateAction::StartTask,
        ]
    );
    let mut rt = FirecrackerContainerd::new(FirecrackerContainerdConfig::default(), info(), None);
    assert!(rt.snapshot.is_none());
    assert_eq!(rt.vm_memory_mib(), 512);
    rt.vm_created("tap3");
    assert_eq!(rt.snapshot.as_deref(), Some("tap3-snap"));
    let made = Vm { id: "tap3".to_string(), ..vm(Some(5), false) };
    let uvm = rt.create_sandbox(create, &"chameleon-1".to_string(), tap(), made).unwrap();
    assert_eq!(uvm.vm.id, *uvm.id());
    assert_eq!(uvm.stats(), SandboxStats { invocations: 0, restorations: 0 });
    assert_eq!(uvm.ip_addr(), tap().ip_addr);
    assert_eq!(rt.setup_cpuset(&uvm), Some(5));
}

#[test]
fn failed_creation_is_cleaned_up_after() {
    let (actions, create) = run_create(Create::new(true), Some(CreateAction::PrepareSnapshot));
    assert_eq!(
        actions[3..],
        [CreateAction::DeleteContainer, CreateAction::StopVm]
    );
    let rt = FirecrackerContainerd::new(FirecrackerContainerdConfig::default(), info(), None);
    let err = rt
        .create_sandbox(create, &"chameleon-1".to_string(), tap(), vm(None, false))
        .err()
        .unwrap();
    assert_eq!(err.message(), "failed to prepare container snapshot");

    let (actions, _) = run_create(Create::new(true), Some(CreateAction::CreateContainer));
    assert_eq!(actions.last(), Some(&CreateAction::StopVm));
    let (actions, create) = run_create(Create::new(true), Some(CreateAction::StartTask));
    assert_eq!(actions.last(), Some(&CreateAction::StartTask));
    assert!(matches!(create.phase, CreatePhase::Over(Err(Error::StartTask(_)))));
    for (at, shown) in [
        (CreateAction::BuildTap, "no"),
        (CreateAction::CreateVm, "failed to create new VM"),
        (CreateAction::CreateContainer, "failed to create new container"),
        (CreateAction::CreateTask, "failed to create new task"),
        (CreateAction::StartTask, "failed to start task"),
    ] {
        match run_create(Create::new(false), Some(at)).1.phase {
            CreatePhase::Over(Err(err)) => assert_eq!(err.message(), shown),
            other => panic!("{other:?}"),
        }
    }
}

#[test]
fn machines_are_destroyed_as_they_stand() {
    assert_eq!(destroy_way(&uvm(None, true)), DestroyWay::Snapshotted);
    assert_eq!(destroy_way(&uvm(Some(1), false)), DestroyWay::Idle);
    assert_eq!(destroy_way(&uvm(Some(1), true)), DestroyWay::ShutDownFirst);
    assert_eq!(destroy_way(&uvm(None, false)), DestroyWay::Impossible);
    assert_eq!(snapshot_removal(Ok(())), Removal::Removed);
    assert_eq!(snapshot_removal(Err(Some(StatusCode::NotFound))), Removal::AlreadyGone);
    assert_eq!(snapshot_removal(Err(Some(StatusCode::Unavailable))), Removal::Failed);
    assert_eq!(snapshot_removal(Err(None)), Removal::Failed);
}

fn firecracker() -> IdleEvent {
    IdleEvent::Process { comm: "firecracker".to_string(), ppid: 40, pgrp: 40 }
}

#[test]
fn idle_machine_is_stopped() {
    let mut destroy = DestroyIdle::new(41);
    assert_eq!(destroy.action(), Some(IdleAction::StatProcess(41)));
    destroy.step(firecracker());
    let mut actions = Vec::new();
    while let Some(action) = destroy.action() {
        actions.push(action);
        destroy.step(match action {
            IdleAction::Resume | IdleAction::KillTask => IdleEvent::Failed("gone".to_string()),
            IdleAction::PollShim(..) => IdleEvent::Answer(true),
            _ => IdleEvent::Done,
        });
    }
    assert_eq!(
        actions,
        [
            IdleAction::Resume,
            IdleAction::KillTask,
            IdleAction::DeleteTask,
            IdleAction::DeleteContainer,
            IdleAction::RemoveContainerSnapshot,
            IdleAction::StopVm(4500),
            IdleAction::PollShim(40, 100, 1500),
        ]
    );
    assert!(matches!(destroy.phase, IdlePhase::Over(Ok(()))));
}

#[test]
fn stubborn_shim_is_terminated() {
    let run = |shim: fn() -> IdleEvent| {
        let mut destroy = DestroyIdle::new(41);
        let mut actions = Vec::new();
        while let Some(action) = destroy.action() {
            actions.push(action);
            destroy.step(match action {
                IdleAction::StatProcess(_) => firecracker(),
                IdleAction::DeleteTask => IdleEvent::Failed("busy".to_string()),
                IdleAction::CheckProcess(_) => IdleEvent::Answer(true),
                IdleAction::PollShim(..) => IdleEvent::Answer(false),
                IdleAction::StatShim(_) => shim(),
                _ => IdleEvent::Done,
            });
        }
        (actions, destroy.phase)
    };
    let (actions, phase) =
        run(|| IdleEvent::Process { comm: "containerd-shim".to_string(), ppid: 1, pgrp: 39 });
    assert_eq!(
        actions[6..],
        [
            IdleAction::CheckProcess(41),
            IdleAction::TerminateProcess(41),
            IdleAction::PollShim(40, 100, 1500),
            IdleAction::StatShim(40),
            IdleAction::TerminateGroup(39),
            IdleAction::Sleep(5000),
        ]
    );
    assert!(matches!(phase, IdlePhase::Over(Ok(()))));
    // a process that is no shim is left alone
    let (actions, phase) =
        run(|| IdleEvent::Process { comm: "bash".to_string(), ppid: 1, pgrp: 39 });
    assert_eq!(actions.last(), Some(&IdleAction::StatShim(40)));
    assert!(matches!(phase, IdlePhase::Over(Err(Error::DestroyVm))));
    // even if it is in no group
    let (actions, phase) =
        run(|| IdleEvent::Process { comm: "kthreadd".to_string(), ppid: 0, pgrp: 0 });
    assert_eq!(actions.last(), Some(&IdleAction::StatShim(40)));
    assert!(matches!(phase, IdlePhase::Over(Err(Error::DestroyVm))));
    let (actions, phase) = run(|| IdleEvent::NoProcess("gone".to_string()));
    assert_eq!(actions.last(), Some(&IdleAction::Sleep(5000)));
    assert!(matches!(phase, IdlePhase::Over(Ok(()))));
}

#[test]
fn snapshotted_machine_is_removed() {
    let mut destroy = DestroySnapshotted::new();
    let mut actions = Vec::new();
    while let Some(action) = destroy.action() {
        actions.push(action);
        destroy.step(Ok(()));
    }
    assert_eq!(
        actions,
        [
            SnapshottedAction::DeleteContainer,
            SnapshottedAction::RemoveContainerSnapshot,
            SnapshottedAction::UnlinkFiles,
        ]
    );
    assert!(matches!(destroy.phase, SnapshottedPhase::Over(Ok(()))));
    let mut destroy = DestroySnapshotted::new();
    destroy.step(Err("busy".to_string()));
    match destroy.phase {
        SnapshottedPhase::Over(Err(err)) => assert_eq!(err.message(), "failed to delete container"),
        other => panic!("{other:?}"),
    }
}

#[test]
fn pausing_is_tried_again_after_a_missed_deadline() {
    let mut retries = PauseRetries::new();
    assert!(!retries.retry("connection refused"));
    let mut n = 0;
    while retries.retry("rpc error: context deadline exceeded!") {
        n += 1;
    }
    assert_eq!(n, MAX_PAUSE_RETRIES);
}

#[test]
fn calls_to_a_machine_fail_with_their_errors() {
    let rt = FirecrackerContainerd::new(
        FirecrackerContainerdConfig::default(),
        info(),
        Some(&uvm(None, true)),
    );
    assert_eq!(rt.snapshot.as_deref(), Some("vm3-snap"));
    let no = || Err("no".to_string());
    assert!(rt.load_sandbox(Ok(())).is_ok());
    assert!(rt.pause_sandbox(Ok(())).is_ok());
    assert!(rt.resume_sandbox(Ok(())).is_ok());
    assert_eq!(rt.load_sandbox(no()).unwrap_err().message(), "failed to load VM from snapshot");
    assert_eq!(rt.pause_sandbox(no()).unwrap_err().message(), "failed to pause VM");
    assert_eq!(rt.resume_sandbox(no()).unwrap_err().message(), "failed to resume VM");

    let mut m = uvm(Some(5), false);
    let (state, memory) = ("/s".to_string(), "/m".to_string());
    let err = rt.create_snapshot(&mut m, state.clone(), memory.clone(), no()).unwrap_err();
    assert_eq!(err.message(), "failed to create new VM snapshot");
    assert!(rt.uncache_sandbox(&m).is_empty());
    rt.create_snapshot(&mut m, state, memory, Ok(())).unwrap();
    assert!(m.has_snapshot());
    assert_eq!(rt.uncache_sandbox(&m), ["/s", "/m"]);

    let err = rt.shutdown_sandbox(&mut m, Unload::Failed("x".to_string())).unwrap_err();
    assert_eq!(err.message(), "failed to unload VM");
    let err = rt.shutdown_sandbox(&mut m, Unload::RpcStatus("busy".to_string())).unwrap_err();
    assert!(matches!(err, Error::UnloadVm(m) if m == "busy"));
    assert_eq!(m.vm.pid, Some(5));
    rt.shutdown_sandbox(&mut m, Unload::RpcStatus("ttrpc: closed".to_string())).unwrap();
    assert_eq!(m.vm.pid, None);
    let mut m = uvm(Some(5), true);
    rt.shutdown_sandbox(&mut m, Unload::Success).unwrap();
    assert_eq!(m.vm.pid, None);
}

fn config_of_image() -> ImageConfig {
    ImageConfig { parent_snapshot: "sha256:abc".to_string(), process_args: Ok("cmd".to_string()) }
}

#[test]
fn function_is_registered() {
    let mut images = RegisteredImages::new();
    let mut fi = info();
    let mut reg = Register::new();
    let mut actions = Vec::new();
    while let Some(action) = reg.action() {
        actions.push(action);
        reg.step(
            &mut images,
            &mut fi,
            match action {
                RegisterAction::PullImage => RegisterEvent::Pulled(PullOutcome::Success),
                RegisterAction::GetImageConfig => RegisterEvent::Config(config_of_image()),
                _ => RegisterEvent::Done,
            },
        );
    }
    assert_eq!(
        actions,
        [
            RegisterAction::MakeRuntime,
            RegisterAction::InitRuntime,
            RegisterAction::PullImage,
            RegisterAction::GetImageConfig,
        ]
    );
    assert!(matches!(reg.phase, RegisterPhase::Over(Ok(()))));
    assert_eq!(fi.process_args.as_deref(), Some("cmd"));
    assert!(!images.needs_pull(&fi.image_ref));

    // neither the image nor its configuration is needed again
    let mut reg = Register::new();
    reg.step(&mut images, &mut fi, RegisterEvent::Done);
    reg.step(&mut images, &mut fi, RegisterEvent::Done);
    assert!(matches!(reg.phase, RegisterPhase::Over(Ok(()))));
    images.deregister(&fi.image_ref);
    assert!(!images.needs_pull(&fi.image_ref));
    images.deregister(&fi.image_ref);
    assert!(images.needs_pull(&fi.image_ref));
}

#[test]
fn failed_registrations_tell_why() {
    let fail = |n: usize, e: RegisterEvent| {
        let mut images = RegisteredImages::new();
        let mut fi = info();
        let mut reg = Register::new();
        for _ in 0..n {
            let done = match reg.action() {
                Some(RegisterAction::PullImage) => RegisterEvent::Pulled(PullOutcome::Success),
                _ => RegisterEvent::Done,
            };
            reg.step(&mut images, &mut fi, done);
        }
        reg.step(&mut images, &mut fi, e);
        match reg.phase {
            RegisterPhase::Over(Err(err)) => (err.message(), images.needs_pull(&fi.image_ref)),
            other => panic!("{other:?}"),
        }
    };
    let no = || RegisterEvent::Failed("no".to_string());
    assert_eq!(
        fail(0, no()),
        ("failed to instantiate FirecrackerContainerd runtime".to_string(), true)
    );
    assert_eq!(
        fail(1, no()),
        ("failed to initialize FirecrackerContainerd runtime".to_string(), true)
    );
    assert_eq!(
        fail(2, RegisterEvent::Pulled(PullOutcome::Status("exit status: 1".to_string()))),
        ("firecracker-ctr: exit status: 1".to_string(), true)
    );
    // the image stays counted
    assert_eq!(fail(3, no()), ("failed to get OCI Image config".to_string(), false));
}

#[test]
fn machine_and_container_are_asked_for() {
    let mut fi = info();
    fi.process_args = Some("cmd".to_string());
    let mut rt = FirecrackerContainerd::new(FirecrackerContainerdConfig::default(), fi, None);
    let spec = rt.vm_spec(&tap());
    assert_eq!(spec.id, "tap3");
    assert_eq!(spec.memory_mib, 512);
    assert_eq!(spec.nameservers.len(), 2);
    assert!(spec.exit_after_all_tasks_deleted);
    assert_eq!(spec.container_count, 1);
    assert_eq!(spec.timeout_ms, 7500);
    rt.vm_created("tap3");
    let spec = rt.container_spec(&"tap3".to_string());
    assert_eq!(spec.snapshot_key, "tap3-snap");
    assert_eq!(spec.image_ref, "docker.io/fn/chameleon:1");
    assert_eq!(spec.process_args, "cmd");
}

#[test]
fn container_snapshot_is_reinstated() {
    let stats = SandboxStats { invocations: 9, restorations: 3 };
    let m = MicroVm::with_stats(&"chameleon-1".to_string(), tap(), vm(None, true), stats);
    let state = m.snapshot_state();
    assert_eq!(SnapshotState::id(&state), SnapshotState::id(&m.snapshot_state()));
    assert!(state == m.snapshot_state());
    let mut same = m.snapshot_state();
    same.vm.snapshot_state_file = Some("/pmem//vm3.state".to_string());
    same.vm.snapshot_memory_file = Some("/pmem/./vm3.memory".to_string());
    same.vm.cgroup_path = Some("/sys/fs/cgroup/vm3/".to_string());
    same.stats = SandboxStats { invocations: 0, restorations: 0 };
    assert!(state == same);
    same.vm.snapshot_memory_file = Some("/pmem/vm4.memory".to_string());
    assert!(state != same);
    same.vm.snapshot_memory_file = None;
    assert!(state != same);
    let back = FirecrackerContainerd::reinstate_sandbox(
        &"chameleon-1".to_string(),
        state,
        TapReply::Device(tap()),
        "TAP".to_string(),
    )
    .unwrap();
    assert_eq!(back.id(), m.id());
    assert_eq!(back.stats(), stats);
    assert!(back.snapshot_state() == m.snapshot_state());
    let err = FirecrackerContainerd::reinstate_sandbox(
        &"chameleon-1".to_string(),
        m.snapshot_state(),
        TapReply::NoReply("closed".to_string()),
        "TAP".to_string(),
    )
    .err()
    .unwrap();
    assert_eq!(
        err.message(),
        "failed to reinstate VM from SnapshotState: failed to receive from netman's oneshot channel"
    );
}

#[test]
fn machine_is_monitored_by_process_and_group() {
    let targets = uvm(Some(5), false).monitor_targets();
    assert!(targets.iter().any(|t| matches!(t, MonitorTarget::Pid(5))));
    assert!(targets.iter().any(|t| matches!(t, MonitorTarget::Cgroup(p) if p == "/sys/fs/cgroup/vm3")));
}

#[test]
fn destruction_gives_the_device_or_the_machine_back() {
    let tap = FirecrackerContainerd::destroy_sandbox(uvm(Some(41), false), Ok(())).unwrap();
    assert_eq!(tap.name, "tap3");
    assert_eq!(tap.ip_addr, Ipv4Addr { a: 10, b: 1, c: 2, d: 3 });
    for (err, shown) in [
        (Error::DestroyVm, "failed to destroy VM"),
        (Error::UnloadVm("busy".to_string()), "failed to unload VM"),
    ] {
        let failed = FirecrackerContainerd::destroy_sandbox(uvm(Some(41), true), Err(err));
        let (left, err) = failed.unwrap_err().into_parts();
        assert_eq!(err, shown);
        assert_eq!(left.tap.name, "tap3");
        assert_eq!(left.vm.pid, Some(41));
    }
}
