use faascell::faasctl::snapshots::SnapshotFilesExt;
use faascell::metadata::SandboxStats;
use faascell::runtime::fc::api::{ApiAction, ApiError, ApiEvent, ApiPhase, AwaitApi, MAX_ATTEMPTS};
use faascell::runtime::fc::boot::{Boot, BootAction, BootEvent, BootPhase};
use faascell::runtime::fc::config::{
    render_uvm_config, uvm_config_patterns, uvm_config_replacements, vsock_guest_cid,
    FirecrackerConfig, UvmPlan,
};
use faascell::runtime::fc::error::{ApiSetup, Error, IoUse, SnapshotUse, VmFault, VmOp};
use faascell::runtime::fc::files::{
    EnsureFiles, EnsureFilesMode, FileCall, FileReply, FilesPhase, Node,
};
use faascell::runtime::fc::info::{FcFunctionInfo, FunctionInfoProto};
use faascell::runtime::fc::kernel::{ip_boot_param, prefix_to_mask, Architecture, KernelVerbosity};
use faascell::runtime::fc::process::{
    process_args, pump_paths, InitFiles, ProcessAction, ProcessEvent, ProcessPhase, StartProcess,
};
use faascell::runtime::fc::registry::{rootfs_path, RootfsRegistry};
use faascell::runtime::fc::requests::{
    LoggerParams, MetricsParams, SnapshotCreateParams, SnapshotLoadParams, VmState,
};
use faascell::runtime::fc::runtime::{op_outcome, Firecracker, TapReply};
use faascell::runtime::fc::sandbox::{FcProcessState, MicroVm, SnapshotFiles};
use faascell::runtime::net::{Ipv4Addr, TapInfo};
use faascell::runtime::registration::RegistrationError;
use faascell::runtime::{MonitorTarget, Sandbox, SnapshotState};

fn config() -> FirecrackerConfig {
    FirecrackerConfig {
        uvms_root_path: "/run/uvms".to_string(),
        uvms_rootfs_path: "/srv/rootfs".to_string(),
        firecracker_bin: "/usr/bin/firecracker".to_string(),
        kernel_img: "/boot/vmlinux".to_string(),
        kernel_verbosity: KernelVerbosity::Silent,
    }
}

fn info() -> FcFunctionInfo {
    FcFunctionInfo {
        id: "chameleon-61939efde6a3f9".to_string(),
        memory: 256 * 1024 * 1024,
        vcpu_count: 2,
        entrypoint: "python3".to_string(),
    }
}

fn tap() -> TapInfo {
    TapInfo {
        name: "tap7".to_string(),
        ip_addr: Ipv4Addr { a: 172, b: 16, c: 3, d: 7 },
        gateway: Ipv4Addr { a: 172, b: 16, c: 0, d: 1 },
        prefix_len: 20,
    }
}

fn uvm() -> MicroVm {
    MicroVm {
        stats: SandboxStats { invocations: 4, restorations: 2 },
        function_id: info().id,
        tap: tap(),
        process: Some(FcProcessState { pid: Some(77) }),
        snapshot: None,
    }
}

fn files() -> SnapshotFiles {
    SnapshotFiles::new("/pmem/tap7.state".to_string(), "/pmem/tap7.memory".to_string())
}

#[test]
fn register_function_resolves_rootfs() {
    let fi = info();
    let mut registry = RootfsRegistry::new();
    match registry.lookup_rootfs_path(&fi.id) {
        Err(err) => assert_eq!(
            err.message(),
            "failed to initialize runtime: \
             missing rootfs path for FunctionId 'chameleon-61939efde6a3f9'"
        ),
        Ok(path) => panic!("{path}"),
    }
    let path = rootfs_path(&config(), &fi.id).unwrap();
    assert_eq!(path, "/srv/rootfs/chameleon.ext4");
    registry.register_function(&config(), &fi.id, Ok(())).unwrap();
    assert_eq!(registry.lookup_rootfs_path(&fi.id).unwrap(), path);
    registry.deregister_function(&fi.id);
    assert!(registry.lookup_rootfs_path(&fi.id).is_err());

    let err = registry
        .register_function(&config(), &fi.id, Err("No such file".to_string()))
        .unwrap_err();
    assert_eq!(err.message(), "missing rootfs image at '/srv/rootfs/chameleon.ext4'");
    assert!(registry.lookup_rootfs_path(&fi.id).is_err());
    let err = registry.register_function(&config(), &"chameleon".to_string(), Ok(())).unwrap_err();
    assert!(matches!(&err, RegistrationError::FunctionIdFormat(id) if id == "chameleon"));
    let err = rootfs_path(&config(), &"chameleon".to_string()).unwrap_err();
    assert!(matches!(&err, RegistrationError::FunctionIdFormat(id) if id == "chameleon"));
    assert_eq!(
        err.message(),
        "expected Function ID in the form '$PREFIX-$SUFFIX'; got 'chameleon'"
    );
}

#[test]
fn snapshot_state_requires_snapshot() {
    let mut vm = uvm();
    match vm.snapshot_state() {
        Err(err) => {
            assert!(matches!(err, Error::NoSnapshot(SnapshotUse::State)));
            assert_eq!(err.message(), "snapshot state creation: snapshot not found");
            assert!(err.source_message().is_none());
        }
        Ok(state) => panic!("unexpected snapshot_state result on a fresh sandbox: {state:?}"),
    }
    vm.snapshot = Some(files());
    let state = vm.snapshot_state().unwrap();
    assert_eq!(SnapshotState::id(&state), "tap7");
    assert_eq!(state.state_file().as_deref(), Some("/pmem/tap7.state"));
    assert_eq!(state.memory_file().as_deref(), Some("/pmem/tap7.memory"));
    assert!(state == vm.snapshot_state().unwrap());
    let mut moved = vm.snapshot_state().unwrap();
    moved.tap.name = "tap8".to_string();
    assert!(state != moved);
}

#[test]
fn states_are_compared_by_the_components_of_paths() {
    let mut vm = uvm();
    let mut state_with = |state: &str, memory: &str| {
        vm.snapshot = Some(SnapshotFiles::new(state.to_string(), memory.to_string()));
        vm.snapshot_state().unwrap()
    };
    let state = state_with("a/b", "/c/d");
    assert!(state == state_with("a//b", "/c/d"));
    assert!(state == state_with("a/b/", "/c/./d"));
    assert!(state != state_with("a/../b", "/c/d"));
    assert!(state != state_with("/a/b", "/c/d"));
    assert!(state != state_with("a/b", "/c/e"));
}

#[test]
fn guest_kernels_boot_with_their_parameters() {
    let base = "i8042.nokbd i8042.noaux i8042.nomux ipv6.disable=1 reboot=k panic=1 \
                swiotlb=noforce nomodule random.trust_cpu=on tsc=reliable ro init=/sbin/overlay-init";
    assert_eq!(KernelVerbosity::default(), KernelVerbosity::Silent);
    assert_eq!(KernelVerbosity::Silent.boot_params(Architecture::X86_64), format!("{base} 8250.nr_uarts=0"));
    assert_eq!(
        KernelVerbosity::Minimal.boot_params(Architecture::X86_64),
        format!(
            "{base} 8250.nr_uarts=1 console=ttyS0,115200n8 \
             systemd.journald.forward_to_console=no systemd.getty_auto=no"
        )
    );
    assert_eq!(
        KernelVerbosity::Verbose.boot_params(Architecture::X86_64),
        format!(
            "{base} 8250.nr_uarts=1 console=ttyS0,115200n8 \
             systemd.journald.forward_to_console=yes"
        )
    );
    let base = "ipv6.disable=1 reboot=k panic=1 swiotlb=noforce nomodule random.trust_cpu=on ro \
                init=/sbin/overlay-init";
    let arm = Architecture::Aarch64;
    assert_eq!(KernelVerbosity::Silent.boot_params(arm), format!("{base} 8250.nr_uarts=0"));
    assert_eq!(
        KernelVerbosity::Minimal.boot_params(arm),
        format!(
            "{base} keep_bootcon 8250.nr_uarts=1 console=ttyS0,115200n8 \
             systemd.journald.forward_to_console=no systemd.getty_auto=no"
        )
    );
    assert_eq!(
        KernelVerbosity::Verbose.boot_params(arm),
        format!(
            "{base} keep_bootcon 8250.nr_uarts=1 console=ttyS0,115200n8 \
             systemd.journald.forward_to_console=yes"
        )
    );
    assert_eq!(prefix_to_mask(0), 0);
    assert_eq!(prefix_to_mask(1), 0x8000_0000);
    assert_eq!(prefix_to_mask(20), 0xffff_f000);
    assert_eq!(prefix_to_mask(32), u32::MAX);
    assert_eq!(
        ip_boot_param(&tap()),
        "ip=172.16.3.7::172.16.0.1:255.255.240.0::eth0:off:1.1.1.1:1.0.0.1:"
    );
}

#[test]
fn guest_cids_are_not_reserved() {
    assert_eq!(vsock_guest_cid(0), 3);
    assert_eq!(vsock_guest_cid(5), 8);
    assert_eq!(vsock_guest_cid(u64::MAX), 3 + 3);
    assert_eq!(vsock_guest_cid(u32::MAX as u64 - 4), u32::MAX - 1);
    assert_eq!(vsock_guest_cid(u32::MAX as u64 - 3), 3);
    assert_eq!(vsock_guest_cid(1 << 32), 3);
}

#[test]
fn config_is_rendered_from_its_template() {
    let plan = UvmPlan {
        rootfs_path: "/srv/rootfs/chameleon.ext4".to_string(),
        tap: tap(),
        dir: "/run/uvms/tap7".to_string(),
        vm_id_hash: 5,
        arch: Architecture::X86_64,
    };
    let patterns = uvm_config_patterns();
    let with = uvm_config_replacements(&config(), &info(), &plan);
    assert_eq!(patterns.len(), 11);
    assert_eq!(with.len(), 11);
    assert_eq!(with[0], "2");
    assert_eq!(with[1], "256");
    assert_eq!(with[2], "8");
    assert_eq!(with[7], "/run/uvms/tap7/v.sock");
    let template = "{\"vcpus\": \"$SNAPLACE_VCPU_COUNT\", \"mem\": \"$SNAPLACE_MEM_SIZE_MIB\", \
                    \"cid\": \"$SNAPLACE_VSOCK_GUEST_CID\", \"uds\": \"$SNAPLACE_VSOCK_UDS_PATH\", \
                    \"kernel\": \"$SNAPLACE_KERNEL_IMG_PATH\", \"rootfs\": \"$SNAPLACE_UVM_ROOTFS\", \
                    \"tap\": \"$SNAPLACE_HOST_TAP_NAME\", \"lvl\": \"$SNAPLACE_VMM_LOG_LVL\", \
                    \"log\": \"$SNAPLACE_VMM_LOG_PATH\", \"mtr\": \"$SNAPLACE_VMM_METRICS_PATH\", \
                    \"args\": \"$SNAPLACE_KERNEL_BOOT_ARGS\"}";
    let rendered = render_uvm_config(&config(), &info(), &plan, template).unwrap();
    assert_eq!(
        rendered,
        format!(
            "{{\"vcpus\": 2, \"mem\": 256, \"cid\": 8, \"uds\": \"/run/uvms/tap7/v.sock\", \
             \"kernel\": \"/boot/vmlinux\", \"rootfs\": \"/srv/rootfs/chameleon.ext4\", \
             \"tap\": \"tap7\", \"lvl\": \"Warning\", \"log\": \"/run/uvms/tap7/log.fifo\", \
             \"mtr\": \"/run/uvms/tap7/mtr.fifo\", \"args\": \"{} {}\"}}",
            KernelVerbosity::Silent.boot_params(Architecture::X86_64),
            ip_boot_param(&tap())
        )
    );
}

#[test]
fn function_info_travels_in_a_message() {
    let proto = info().to_proto();
    assert_eq!(proto.memory_mib, 256);
    assert_eq!(proto.vcpu_count, 2);
    let back = FcFunctionInfo::from(proto);
    assert_eq!(back.id(), "chameleon-61939efde6a3f9");
    assert_eq!(back.memory(), 256 * 1024 * 1024);
    assert_eq!(back.vcpu_count, 2);
    assert_eq!(back.entrypoint, "python3");
    let cut = FcFunctionInfo::from(FunctionInfoProto {
        function_id: "f-1".to_string(),
        memory_mib: u32::MAX,
        vcpu_count: 258,
        entrypoint: String::new(),
    });
    assert_eq!(cut.vcpu_count, 2);
    assert_eq!(cut.memory, (u32::MAX as u64) << 20);
}

#[test]
fn api_server_is_waited_for_with_growing_delays() {
    let mut wait = AwaitApi::new();
    let mut delays = Vec::new();
    let mut connects = 0;
    while let Some(action) = wait.action() {
        wait.step(match action {
            ApiAction::PollChild => ApiEvent::Done,
            ApiAction::Connect => {
                connects += 1;
                ApiEvent::Failed(format!("refused {connects}"))
            }
            ApiAction::Sleep(us) => {
                delays.push(us);
                ApiEvent::Done
            }
        });
    }
    assert_eq!(connects, MAX_ATTEMPTS);
    assert_eq!(delays[..9], [500, 500, 1000, 1500, 2500, 4000, 6500, 10_000, 10_000]);
    assert_eq!(delays.len(), 19);
    assert_eq!(delays.iter().sum::<u64>(), 136_500);
    assert!(matches!(
        &wait.phase,
        ApiPhase::Over(Err(ApiError::Connect(err))) if err == "refused 20"
    ));

    let mut wait = AwaitApi::new();
    wait.step(ApiEvent::Done);
    wait.step(ApiEvent::Done);
    assert!(matches!(wait.phase, ApiPhase::Over(Ok(()))));
    let mut wait = AwaitApi::new();
    wait.step(ApiEvent::Exited("ExitStatus(1)".to_string()));
    match wait.phase {
        ApiPhase::Over(Err(err)) => assert_eq!(
            err.message(),
            "Firecracker exited before its API socket becomes ready: ExitStatus(1)"
        ),
        other => panic!("{other:?}"),
    }
    let mut wait = AwaitApi::new();
    wait.step(ApiEvent::Failed("wait".to_string()));
    assert!(matches!(wait.phase, ApiPhase::Over(Err(ApiError::Poll(_)))));
}

#[test]
fn directory_of_a_new_machine_is_prepared() {
    let mut prep = EnsureFiles::new(EnsureFilesMode::Creation);
    let mut calls = Vec::new();
    while let Some(call) = prep.call() {
        calls.push(call);
        prep.step(FileReply::Done);
    }
    assert!(matches!(prep.phase, FilesPhase::Finished));
    assert_eq!(
        calls,
        [
            FileCall::Mkdir,
            FileCall::Open,
            FileCall::MkFifo(Node::LogFifo),
            FileCall::MkFifo(Node::MetricsFifo),
        ]
    );
}

#[test]
fn leftovers_in_a_directory_are_replaced() {
    for (mode, last) in
        [(EnsureFilesMode::Creation, Node::Config), (EnsureFilesMode::Loading, Node::VsockUds)]
    {
        let mut prep = EnsureFiles::new(mode);
        let mut calls = Vec::new();
        let mut made = 0;
        while let Some(call) = prep.call() {
            calls.push(call);
            prep.step(match call {
                FileCall::Mkdir => FileReply::Exists("dir".to_string()),
                FileCall::MkFifo(Node::LogFifo) if made == 0 => {
                    made += 1;
                    FileReply::Exists("file".to_string())
                }
                FileCall::Stat(_) => FileReply::IsFifo(false),
                FileCall::Unlink(Node::VsockUds) => FileReply::NotFound("none".to_string()),
                _ => FileReply::Done,
            });
        }
        assert!(matches!(prep.phase, FilesPhase::Finished));
        assert!(calls.contains(&FileCall::Unlink(Node::LogFifo)));
        assert!(calls.contains(&FileCall::Unlink(Node::ApiSock)));
        assert_eq!(calls.last(), Some(&FileCall::Unlink(last)));
    }
}

#[test]
fn failed_file_calls_are_shown() {
    let mut prep = EnsureFiles::new(EnsureFilesMode::Loading);
    prep.step(FileReply::Failed("EACCES".to_string()));
    match prep.phase {
        FilesPhase::Failed(failed) => {
            assert_eq!(failed.message("/d"), "failed to mkdir(2) '/d'");
            let err = Error::LoadSnapshot(VmFault::Files("/d".to_string(), failed));
            assert_eq!(err.source_message().unwrap(), "I/O error: failed to mkdir(2) '/d'");
        }
        other => panic!("{other:?}"),
    }
    let mut prep = EnsureFiles::new(EnsureFilesMode::Loading);
    prep.step(FileReply::Done);
    prep.step(FileReply::Done);
    prep.step(FileReply::Failed("ENOSPC".to_string()));
    match prep.phase {
        FilesPhase::Failed(failed) => {
            assert_eq!(failed.message("/d"), "failed to mkfifoat(2) '/d/log.fifo'");
            assert_eq!(failed.err, "ENOSPC");
        }
        other => panic!("{other:?}"),
    }
}

#[test]
fn monitor_process_is_started() {
    assert_eq!(
        process_args(InitFiles::Config, "tap7", "/run/uvms/tap7"),
        [
            "--id",
            "tap7",
            "--api-sock",
            "/run/uvms/tap7/api.sock",
            "--config-file",
            "/run/uvms/tap7/uvm.json"
        ]
    );
    assert_eq!(process_args(InitFiles::Fifos, "tap7", "/d").len(), 4);
    let (log, metrics) = pump_paths("/d");
    assert_eq!(log, "/d/log.fifo");
    assert_eq!(metrics, "/d/mtr.fifo");

    let mut start = StartProcess::new(InitFiles::Config);
    start.step(ProcessEvent::Spawned(12));
    start.step(ProcessEvent::Done);
    assert_eq!(start.action(), Some(ProcessAction::StartPumps(12)));
    start.step(ProcessEvent::Done);
    assert!(matches!(
        start.phase,
        ProcessPhase::Over(Ok(FcProcessState { pid: Some(12) }))
    ));

    // without a configuration the log and the metrics are set up over the API
    let mut start = StartProcess::new(InitFiles::Fifos);
    start.step(ProcessEvent::Spawned(12));
    start.step(ProcessEvent::Done);
    assert_eq!(start.action(), Some(ProcessAction::AwaitApi(12)));
    start.step(ProcessEvent::Failed("late".to_string()));
    assert_eq!(start.action(), Some(ProcessAction::PutLogger));
    start.step(ProcessEvent::Done);
    start.step(ProcessEvent::Failed("bad".to_string()));
    assert_eq!(start.action(), Some(ProcessAction::Kill(12)));
    start.step(ProcessEvent::Done);
    match start.phase {
        ProcessPhase::Over(Err(err)) => {
            assert!(matches!(err, Error::ApiSetup { what: ApiSetup::Metrics, .. }));
            assert_eq!(
                err.message(),
                "failed API-driven Firecracker setup: configuring metrics"
            );
            assert_eq!(err.source_message().unwrap(), "bad");
        }
        other => panic!("{other:?}"),
    }
}

#[test]
fn unwatched_child_is_killed() {
    let mut start = StartProcess::new(InitFiles::Config);
    start.step(ProcessEvent::Spawned(12));
    start.step(ProcessEvent::Failed("EMFILE".to_string()));
    assert_eq!(start.action(), Some(ProcessAction::Kill(12)));
    start.step(ProcessEvent::Done);
    match start.phase {
        ProcessPhase::Over(Err(err)) => {
            assert_eq!(err.message(), "I/O error: failed to pidfd_open(2) child process 12");
            assert_eq!(err.source_message().unwrap(), "EMFILE");
        }
        other => panic!("{other:?}"),
    }
    let mut start = StartProcess::new(InitFiles::Config);
    start.step(ProcessEvent::Failed("ENOENT".to_string()));
    match start.phase {
        ProcessPhase::Over(Err(err)) => {
            assert_eq!(err.message(), "I/O error: failed to fork/exec firecracker process")
        }
        other => panic!("{other:?}"),
    }
}

fn boot_to_process(boot: &mut Boot) {
    while let Some(action) = boot.action() {
        match action {
            BootAction::BuildTap => boot.step(BootEvent::TapBuilt("tap7".to_string())),
            BootAction::EnsureFiles | BootAction::LookupRootfs | BootAction::WriteConfig => {
                boot.step(BootEvent::Done)
            }
            BootAction::StartProcess => {
                return boot.step(BootEvent::Started(FcProcessState { pid: Some(9) }));
            }
            other => panic!("{other:?}"),
        }
    }
}

#[test]
fn machine_lives_through_its_life() {
    let mut rt = Firecracker::new(&config(), &info(), None);
    assert!(rt.init(Ok(())).is_ok());
    assert_eq!(rt.uvm_dir("tap7"), "/run/uvms/tap7");
    let err = rt.client_for(VmOp::Pause).unwrap_err();
    assert_eq!(err.source_message().unwrap(), "BUG: attempting to pause uVM without client");

    let mut boot = Boot::create(None);
    boot_to_process(&mut boot);
    assert_eq!(boot.action(), Some(BootAction::AwaitApi));
    boot.step(BootEvent::Done);
    boot.step(BootEvent::Instance {
        running: true,
        id: "tap7".to_string(),
        shown: "Running".to_string(),
    });
    let mut vm = rt.create_sandbox(boot, &info().id, tap()).unwrap();
    assert_eq!(vm.id(), "tap7");
    assert_eq!(vm.function_id(), info().id);
    assert_eq!(vm.ip_addr(), tap().ip_addr);
    assert!(!vm.has_snapshot());
    assert_eq!(vm.stats(), SandboxStats { invocations: 0, restorations: 0 });
    assert_eq!(vm.monitor_targets().len(), 1);
    assert!(matches!(vm.monitor_targets()[0], MonitorTarget::Pid(9)));
    assert_eq!(rt.setup_cpuset(&vm), Some(9));

    // pause, resume
    assert!(rt.client_for(VmOp::Pause).is_ok());
    assert!(op_outcome(VmOp::Pause, Ok(())).is_ok());
    let failed = op_outcome(VmOp::Resume, Err(VmFault::Cause("busy".to_string()))).unwrap_err();
    assert_eq!(failed.message(), "failed to resume uVM");
    assert_eq!(failed.source_message().unwrap(), "busy");

    // snapshot
    let (state, memory) = ("/pmem/tap7.state".to_string(), "/pmem/tap7.memory".to_string());
    let fault = VmFault::Cause("full".to_string());
    let err = rt.create_snapshot(&mut vm, state.clone(), memory.clone(), Err(fault)).unwrap_err();
    assert_eq!(err.message(), "failed to create uVM snapshot");
    assert!(!vm.has_snapshot());
    assert!(rt.uncache_sandbox(&vm).is_empty());
    rt.create_snapshot(&mut vm, state, memory, Ok(())).unwrap();
    assert!(vm.has_snapshot());
    assert_eq!(rt.uncache_sandbox(&vm), ["/pmem/tap7.state", "/pmem/tap7.memory"]);

    // shut down
    assert_eq!(rt.shutdown_sandbox(&mut vm).and_then(|p| p.pid()), Some(9));
    assert!(vm.monitor_targets().is_empty());
    assert!(rt.shutdown_sandbox(&mut vm).is_none());

    // load
    let mut boot = rt.start_load(&vm);
    boot_to_process(&mut boot);
    assert_eq!(boot.action(), Some(BootAction::LoadSnapshot));
    boot.step(BootEvent::Done);
    boot.step(BootEvent::Instance {
        running: true,
        id: "tap7".to_string(),
        shown: String::new(),
    });
    rt.load_sandbox(boot, &mut vm).unwrap();
    assert_eq!(rt.setup_cpuset(&vm), Some(9));

    // destroy
    let plan = rt.destroy_sandbox(vm);
    assert_eq!(plan.kill.and_then(|p| p.pid()), Some(9));
    assert_eq!(plan.remove_dir, "/run/uvms/tap7");
    assert_eq!(plan.unlink.map(|f| f.memory().to_string()).unwrap(), "/pmem/tap7.memory");
    assert_eq!(plan.tap.name, "tap7");
    assert!(rt.uvm_name.is_none());
    assert!(rt.client_for(VmOp::Snapshot).is_err());
}

#[test]
fn machine_in_a_wrong_state_is_killed() {
    for (running, id) in [(false, "tap7"), (true, "tap8")] {
        let mut boot = Boot::create(Some("tap7".to_string()));
        assert_eq!(boot.action(), Some(BootAction::EnsureFiles));
        boot_to_process(&mut boot);
        boot.step(BootEvent::Done);
        boot.step(BootEvent::Instance {
            running,
            id: id.to_string(),
            shown: "odd".to_string(),
        });
        assert_eq!(boot.action(), Some(BootAction::Kill(FcProcessState { pid: Some(9) })));
        boot.step(BootEvent::Done);
        let mut rt = Firecracker::new(&config(), &info(), None);
        let err = rt.create_sandbox(boot, &info().id, tap()).err().unwrap();
        assert_eq!(err.message(), "failed to create new uVM");
        assert_eq!(err.source_message().unwrap(), "started uVM in invalid state: odd");
        assert!(!rt.connected);
    }
}

#[test]
fn machine_without_a_snapshot_is_not_loaded() {
    let mut vm = uvm();
    let mut rt = Firecracker::new(&config(), &info(), Some(&vm));
    assert_eq!(rt.uvm_name.as_deref(), Some("tap7"));
    let boot = rt.start_load(&vm);
    assert!(boot.action().is_none());
    let err = rt.load_sandbox(boot, &mut vm).unwrap_err();
    assert_eq!(err.message(), "loading tap7: snapshot not found");

    // the error speaks of the machine, whatever the runtime is bound to
    let mut rt = Firecracker::new(&config(), &info(), None);
    vm.tap.name = "tap8".to_string();
    let boot = rt.start_load(&vm);
    let err = rt.load_sandbox(boot, &mut vm).unwrap_err();
    assert_eq!(err.message(), "loading tap8: snapshot not found");
}

#[test]
fn machine_is_loaded_under_the_name_of_its_runtime() {
    let mut vm = uvm();
    let mut rt = Firecracker::new(&config(), &info(), Some(&vm));
    let (state, memory) = ("/pmem/tap7.state".to_string(), "/pmem/tap7.memory".to_string());
    rt.create_snapshot(&mut vm, state, memory, Ok(())).unwrap();
    vm.tap.name = "tap8".to_string();
    for (id, loaded) in [("tap7", true), ("tap8", false)] {
        let mut boot = rt.start_load(&vm);
        assert_eq!(boot.vm_id.as_deref(), Some("tap7"));
        boot_to_process(&mut boot);
        boot.step(BootEvent::Done);
        boot.step(BootEvent::Instance {
            running: true,
            id: id.to_string(),
            shown: String::new(),
        });
        assert_eq!(boot.action().is_none(), loaded);
    }
}

#[test]
fn failed_boots_tell_why() {
    let mut boot = Boot::create(None);
    boot.step(BootEvent::Failed("no bridge".to_string()));
    assert!(matches!(&boot.phase, BootPhase::Over(Err(Error::Tap(err))) if err == "no bridge"));

    let mut boot = Boot::create(Some("tap7".to_string()));
    boot.step(BootEvent::Done);
    boot.step(BootEvent::NoRootfs(Error::Init { function_id: "f".to_string() }));
    assert!(matches!(boot.phase, BootPhase::Over(Err(Error::Init { .. }))));

    let mut boot = Boot::create(Some("tap7".to_string()));
    boot.step(BootEvent::Done);
    boot.step(BootEvent::Done);
    boot.step(BootEvent::NotWritten { path: "/d/uvm.json".to_string(), err: "full".to_string() });
    match boot.phase {
        BootPhase::Over(Err(err)) => {
            assert_eq!(err.message(), "I/O error: failed to write uVM config file '/d/uvm.json'")
        }
        other => panic!("{other:?}"),
    }

    let mut boot = Boot::create(Some("tap7".to_string()));
    boot_to_process(&mut boot);
    boot.step(BootEvent::Failed("mute".to_string()));
    boot.step(BootEvent::Done);
    match boot.phase {
        BootPhase::Over(Err(err)) => {
            assert!(matches!(err, Error::Io { what: IoUse::AwaitApi, .. }));
            assert_eq!(err.message(), "I/O error: awaiting Firecracker's API server");
        }
        other => panic!("{other:?}"),
    }

    let rt = Firecracker::new(&config(), &info(), None);
    let err = rt.init(Err("EROFS".to_string())).unwrap_err();
    assert_eq!(err.message(), "I/O error: failed to create uVMs root directory '/run/uvms'");
}

#[test]
fn snapshot_is_reinstated() {
    let mut vm = uvm();
    vm.snapshot = Some(files());
    let state = vm.snapshot_state().unwrap();
    let back = Firecracker::reinstate_sandbox(
        vm.function_id.clone(),
        state,
        TapReply::Device(tap()),
        "TapInfo".to_string(),
    )
    .unwrap();
    assert_eq!(back.id(), vm.id());
    assert_eq!(back.stats(), vm.stats());
    assert!(back.has_snapshot());
    assert!(back.process.is_none());
    assert!(back.snapshot_state().unwrap() == vm.snapshot_state().unwrap());

    for (reply, shown) in [
        (TapReply::BuildFailed("a".to_string()), "failed to build or adopt requested TAP"),
        (TapReply::AllocationFailed("a".to_string()), "failed requested allocation for TAP"),
        (TapReply::NoReply("a".to_string()), "failed to receive from netman's oneshot channel"),
        (TapReply::NotAsked("a".to_string()), "failed to request from netman TAP"),
    ] {
        let err = Firecracker::reinstate_sandbox(
            vm.function_id.clone(),
            vm.snapshot_state().unwrap(),
            reply,
            "TAP".to_string(),
        )
        .err()
        .unwrap();
        assert_eq!(err.message(), format!("failed to reinstate VM from SnapshotState: {shown}"));
        assert_eq!(err.source_message().unwrap(), "a");
    }
}

#[test]
fn monitors_are_asked_over_their_api() {
    let load = SnapshotLoadParams::new(&files());
    assert_eq!(load.snapshot_path, "/pmem/tap7.state");
    assert_eq!(load.mem_backend_path, "/pmem/tap7.memory");
    assert!(load.resume_vm && !load.track_dirty_pages);
    let create = SnapshotCreateParams::new("/s", "/m");
    assert_eq!((create.snapshot_path.as_str(), create.mem_file_path.as_str()), ("/s", "/m"));
    assert!(create.full);
    assert_eq!(VmState::Paused.name(), "Paused");
    assert_eq!(VmState::Resumed.name(), "Resumed");
    let logger = LoggerParams::new("/d", false);
    assert_eq!((logger.level, logger.log_path.as_str()), ("Warning", "/d/log.fifo"));
    assert!(logger.show_level && logger.show_log_origin);
    assert_eq!(LoggerParams::new("/d", true).level, "Trace");
    assert_eq!(MetricsParams::new("/d").metrics_path, "/d/mtr.fifo");
}
