use faascell::faasctl::snapshots::cp2m::{
    next_step, round_up_pmd, tmp_path, AtomicStep, CopyChunks, SendFile, SendOutcome, SendPhase,
    PMD_SIZE, SENDFILE_MAX,
};
use faascell::faasctl::snapshots::db::DbOp;
use faascell::faasctl::snapshots::forget::{forget, shown, ForgetSource};
use faascell::faasctl::snapshots::ls::{
    list, ls_snapshots, wanted_functions, FuncRead, SidRead, Snapshot, StateRead,
};
use faascell::faasctl::snapshots::mv::{
    check_sources, files_from_function_ids, invalid_reason, stored_file, update_state, MoveAction,
    MoveEvent, MoveFault, MoveFile, MovePhase, MoveSource, MoveTally, SourceStat,
};
use faascell::faasctl::snapshots::sb_stats::{sort_by_usage, zero_out};
use faascell::faasctl::snapshots::sync::{
    check_snapshot, incomplete_snapshots, remove_db_snapshots, FileCheck,
};
use faascell::faasctl::snapshots::{
    read_func_file, ForgetCmd, MoveCmd, SnapshotFilesExt, SnapshotStateStatsExt,
};
use faascell::metadata::SandboxStats;
use faascell::runtime::fc::sandbox::{MicroVmState, SnapshotFiles};
use faascell::runtime::fcctrd;
use faascell::runtime::net::{Ipv4Addr, TapInfo};
use faascell::worker::machine::SnapshotTarget;

fn tap(name: &str) -> TapInfo {
    TapInfo {
        name: name.to_string(),
        ip_addr: Ipv4Addr { a: 10, b: 0, c: 0, d: 2 },
        gateway: Ipv4Addr { a: 10, b: 0, c: 0, d: 1 },
        prefix_len: 24,
    }
}

fn state(sid: &str, invocations: u64) -> MicroVmState {
    MicroVmState {
        stats: SandboxStats { invocations, restorations: 1 },
        tap: tap(sid),
        snapshot: SnapshotFiles::new(format!("/a/{sid}.state"), format!("/a/{sid}.memory")),
    }
}

fn snap(fid: &str, sid: &str, invocations: u64) -> Snapshot<MicroVmState> {
    Snapshot { fid: fid.to_string(), sid: sid.to_string(), state: state(sid, invocations) }
}

fn sids<St>(snaps: &[Snapshot<St>]) -> Vec<&str> {
    snaps.iter().map(|s| s.sid.as_str()).collect()
}

#[test]
fn round_up() {
    assert_eq!(round_up_pmd(0), 0);
    assert_eq!(round_up_pmd(1), PMD_SIZE);
    assert_eq!(round_up_pmd(PMD_SIZE - 1), PMD_SIZE);
    assert_eq!(round_up_pmd(PMD_SIZE), PMD_SIZE);
    assert_eq!(round_up_pmd(PMD_SIZE + 1), PMD_SIZE * 2);
}

#[test]
fn file_is_copied_in_chunks() {
    let mut chunks = CopyChunks::new(2 * PMD_SIZE + 5);
    let mut sizes = Vec::new();
    while let Some(n) = chunks.next_chunk() {
        sizes.push(n);
    }
    assert_eq!(sizes, [PMD_SIZE, PMD_SIZE, 5]);
    assert_eq!(CopyChunks::new(0).next_chunk(), None);
}

#[test]
fn file_is_sent_by_the_kernel() {
    let mut send = SendFile::new(SENDFILE_MAX + 10);
    assert!(matches!(send.phase, SendPhase::Send(SENDFILE_MAX)));
    send.step(SendOutcome::Sent(4));
    assert!(matches!(send.phase, SendPhase::Send(SENDFILE_MAX)));
    send.step(SendOutcome::Sent(SENDFILE_MAX));
    assert!(matches!(send.phase, SendPhase::Send(6)));
    send.step(SendOutcome::Sent(6));
    assert!(matches!(send.phase, SendPhase::Finished));
    let mut send = SendFile::new(10);
    send.step(SendOutcome::Unsupported);
    assert!(matches!(send.phase, SendPhase::CopyAll));
    let mut send = SendFile::new(10);
    send.step(SendOutcome::Sent(0));
    assert!(matches!(send.phase, SendPhase::Finished));
    assert_eq!(send.remaining, 10);
    let mut send = SendFile::new(10);
    send.step(SendOutcome::Failed("EIO".to_string()));
    assert!(matches!(send.phase, SendPhase::Failed(err) if err == "EIO"));
    assert!(matches!(SendFile::new(0).phase, SendPhase::Finished));
}

#[test]
fn copy_gets_its_name_last() {
    assert_eq!(tmp_path("/pmem/s1.memory", 42).unwrap(), "/pmem/.tmp-hdax-42");
    assert_eq!(
        tmp_path("s1.memory", u128::MAX).unwrap(),
        ".tmp-hdax-340282366920938463463374607431768211455"
    );
    assert_eq!(tmp_path("/", 42), None);
    assert_eq!(tmp_path("", 42), None);
    let mut step = Some(AtomicStep::OpenSource);
    let mut steps = Vec::new();
    while let Some(s) = step {
        steps.push(s);
        step = next_step(s, PMD_SIZE + 1);
    }
    assert_eq!(
        steps,
        [
            AtomicStep::OpenSource,
            AtomicStep::CreateTmp,
            AtomicStep::Allocate(2 * PMD_SIZE),
            AtomicStep::CopyData,
            AtomicStep::SyncData,
            AtomicStep::Rename,
            AtomicStep::SyncDir,
        ]
    );
}

#[test]
fn snapshots_that_can_be_read_are_listed() {
    let reads = vec![
        FuncRead::Func {
            fid: "f-1".to_string(),
            sids: vec![
                SidRead::Sid { sid: "a".to_string(), state: StateRead::Found(state("a", 1)) },
                SidRead::Sid { sid: "b".to_string(), state: StateRead::Missing },
                SidRead::Failed("torn".to_string()),
            ],
        },
        FuncRead::Failed("torn".to_string()),
        FuncRead::Func {
            fid: "f-2".to_string(),
            sids: vec![
                SidRead::Sid { sid: "c".to_string(), state: StateRead::Failed("x".to_string()) },
                SidRead::Sid { sid: "d".to_string(), state: StateRead::Found(state("d", 1)) },
            ],
        },
    ];
    let snaps = ls_snapshots(reads);
    assert_eq!(sids(&snaps), ["a", "d"]);
    assert_eq!(snaps[1].fid, "f-2");
    let only = list(snaps, &vec!["f-2".to_string()]);
    assert_eq!(sids(&only), ["d"]);
    let snaps = list(vec![snap("f-1", "a", 1)], &Vec::new());
    assert_eq!(sids(&snaps), ["a"]);
}

#[test]
fn functions_are_named_in_files() {
    assert_eq!(read_func_file("f-1\n\nf-2\n"), ["f-1", "f-2"]);
    assert!(read_func_file("").is_empty());
    let wanted = wanted_functions(vec!["a".to_string()], Some(vec!["b".to_string()]));
    assert!(wanted.contains(&"b".to_string()));
    assert_eq!(wanted_functions(vec!["a".to_string()], None), ["a"]);
}

#[test]
fn most_used_snapshots_come_first() {
    let mut low = snap("f", "low", 3);
    low.state.stats.restorations = 0;
    let sorted = sort_by_usage(vec![low, snap("f", "top", 9), snap("f", "mid", 3)]);
    assert_eq!(sids(&sorted), ["top", "mid", "low"]);
    assert!(SandboxStats { invocations: 1, restorations: 9 }
        .is_less_used(&SandboxStats { invocations: 2, restorations: 0 }));
}

#[test]
fn counters_are_zeroed() {
    let zeroed = zero_out(StateRead::Found(state("a", 7))).unwrap();
    assert_eq!(zeroed.stats(), SandboxStats { invocations: 0, restorations: 0 });
    assert_eq!(zeroed.tap.name, "a");
    assert!(zero_out(StateRead::<MicroVmState>::Missing).is_none());
    assert!(zero_out(StateRead::<MicroVmState>::Failed(String::new())).is_none());
    let mut vm = fcctrd::sandbox::MicroVmState {
        stats: SandboxStats { invocations: 3, restorations: 1 },
        tap: tap("t"),
        vm: fcctrd::sandbox::Vm {
            id: "vm".to_string(),
            pid: None,
            cgroup_path: None,
            snapshot_state_file: Some("/s".to_string()),
            snapshot_memory_file: None,
        },
    };
    vm.clear_stats();
    assert_eq!(vm.stats().invocations, 0);
    assert_eq!(stored_file(&vm, false).as_deref(), Some("/s"));
    assert_eq!(stored_file(&vm, true), None);
}

#[test]
fn functions_are_forgotten() {
    let read = || Ok(vec![Ok("a".to_string()), Err("torn".to_string()), Ok("b".to_string())]);
    let ops = forget(&"f".to_string(), read(), false);
    assert_eq!(ops.len(), 3);
    assert!(matches!(&ops[0], DbOp::RemoveSnapshot(s) if s == "a"));
    assert!(matches!(&ops[1], DbOp::RemoveSnapshot(s) if s == "b"));
    assert!(matches!(&ops[2], DbOp::RemoveFunction(f) if f == "f"));
    assert!(forget(&"f".to_string(), read(), true).is_empty());
    assert!(forget(&"f".to_string(), Err("down".to_string()), false).is_empty());
    assert_eq!(shown(read()), ["a", "b"]);

    let cmd = |func: &[&str], file: Option<&str>| ForgetCmd {
        dry_run: false,
        func: func.iter().map(|s| s.to_string()).collect(),
        from_func_file: file.map(str::to_string),
    };
    assert_eq!(cmd(&["f"], None).source(), Ok(ForgetSource::Arguments));
    assert_eq!(cmd(&[], Some("x")).source(), Ok(ForgetSource::File));
    assert_eq!(cmd(&[], None).source().unwrap_err().message(), "No Function IDs specified");
    assert_eq!(
        cmd(&["f"], Some("x")).source().unwrap_err().message(),
        "Only one of `--func` and `--from-func-file` should be provided; see --help"
    );
}

#[test]
fn incomplete_snapshots_are_found() {
    assert!(check_snapshot(FileCheck::Found, FileCheck::Found));
    assert!(check_snapshot(FileCheck::Found, FileCheck::Failed));
    assert!(!check_snapshot(FileCheck::NotFound, FileCheck::Found));
    assert!(!check_snapshot(FileCheck::Found, FileCheck::NotStored));
    let snaps = vec![snap("f", "a", 1), snap("f", "b", 1), snap("g", "a", 1)];
    let gone = incomplete_snapshots(snaps, &vec![true, true, false]);
    assert_eq!(sids(&gone), ["a", "a"]);
    let ops = remove_db_snapshots(&gone);
    assert_eq!(ops.iter().filter(|op| matches!(op, DbOp::RemoveSnapshot(s) if s == "a")).count(), 2);
    assert!(ops
        .iter()
        .any(|op| matches!(op, DbOp::RemovePair(f, s) if f == "g" && s == "a")));
}

fn mv(src: &str, no_rm: bool) -> MoveFile {
    MoveFile::new(src.to_string(), "/b", no_rm).unwrap()
}

#[test]
fn file_is_moved_after_the_database_knows() {
    let mut m = mv("/a/s1.memory", false);
    assert_eq!(m.dst, "/b/s1.memory");
    let mut actions = Vec::new();
    while let Some(action) = m.action() {
        actions.push(action);
        m.step(match action {
            MoveAction::StatDestination => MoveEvent::NotFound,
            MoveAction::StatSource | MoveAction::StatStored => MoveEvent::Inode(7),
            MoveAction::ReadState => MoveEvent::Stored(Some("/x/s1.memory".to_string())),
            _ => MoveEvent::Done,
        });
    }
    assert_eq!(
        actions,
        [
            MoveAction::StatDestination,
            MoveAction::StatSource,
            MoveAction::ReadState,
            MoveAction::StatStored,
            MoveAction::Copy,
            MoveAction::UpdateDb,
            MoveAction::RemoveSource,
        ]
    );
    assert_eq!(m.sid.as_deref(), Some("s1"));
    assert!(m.is_memory_file);
    assert!(matches!(m.phase, MovePhase::Over(Ok(()))));
    assert!(MoveFile::new("/".to_string(), "/b", false).is_none());
}

#[test]
fn faulty_moves_tell_why() {
    let check = |m: MoveFile, shown: &str| match &m.phase {
        MovePhase::Over(Err(err)) => assert_eq!(m.fault_message(&err.what), shown),
        other => panic!("{other:?}"),
    };
    let mut m = mv("/a/s1.state", false);
    m.step(MoveEvent::Found);
    check(m, "skipping overwrite of '/b/s1.state'");
    let mut m = mv("/a/s1.state", false);
    m.step(MoveEvent::Failed("EIO".to_string()));
    check(m, "failed to stat(2) destination path");
    let mut m = mv("/a/s1.img", false);
    m.step(MoveEvent::NotFound);
    check(m, "Unexpected file extension: Some(\"img\")");
    let mut m = mv("/a/s1", false);
    m.step(MoveEvent::NotFound);
    check(m, "Unexpected file extension: None");

    let to_read = || {
        let mut m = mv("/a/s1.state", true);
        m.step(MoveEvent::NotFound);
        m.step(MoveEvent::Inode(7));
        m
    };
    let mut m = mv("/a/s1.state", true);
    m.step(MoveEvent::NotFound);
    m.step(MoveEvent::Failed("EIO".to_string()));
    check(m, "failed to stat(2) source file '/a/s1.state'");
    let mut m = to_read();
    m.step(MoveEvent::NotFound);
    check(m, "Sandbox ID 's1' not found in table SNAPSHOTS");
    let mut m = to_read();
    m.step(MoveEvent::Failed("torn".to_string()));
    check(m, "failed to read state of Sandbox 's1' from table SNAPSHOTS");
    let mut m = to_read();
    m.step(MoveEvent::Stored(None));
    check(
        m,
        "No snapshot state file related to '/a/s1.state' is stored in table SNAPSHOTS for Sandbox 's1'",
    );

    let to_copy = |ino: u64| {
        let mut m = to_read();
        m.step(MoveEvent::Stored(Some("/x/s1.state".to_string())));
        m.step(MoveEvent::Inode(ino));
        m
    };
    check(to_copy(8), "File paths refer to different files");
    let mut m = to_read();
    m.step(MoveEvent::Stored(Some("/x/s1.state".to_string())));
    m.step(MoveEvent::Failed("EIO".to_string()));
    check(m, "Failed to stat(2) file '/x/s1.state'");
    let mut m = to_copy(7);
    m.step(MoveEvent::Failed("ENOSPC".to_string()));
    check(m, "failed to copy file '/a/s1.state' -> '/b/s1.state'");
    let mut m = to_copy(7);
    m.step(MoveEvent::Done);
    m.step(MoveEvent::Failed("locked".to_string()));
    check(
        m,
        "failed to update DB after copying file '/a/s1.state' to destination '/b/s1.state'",
    );
    // the file stays where it was, too
    let mut m = to_copy(7);
    m.step(MoveEvent::Done);
    m.step(MoveEvent::Done);
    assert!(matches!(m.phase, MovePhase::Over(Ok(()))));
    let m = mv("/a/s1.state", true);
    assert_eq!(
        m.fault_message(&MoveFault::NoSandboxId),
        "Failed to parse Sandbox ID from 'Some(\"s1\")'"
    );
}

#[test]
fn move_arguments_are_checked() {
    let cmd = |src: &[&str], func: &[&str], file: Option<&str>| MoveCmd {
        no_rm: false,
        func: func.iter().map(|s| s.to_string()).collect(),
        from_func_file: file.map(str::to_string),
        dst: "/b".to_string(),
        src: src.iter().map(|s| s.to_string()).collect(),
    };
    assert_eq!(cmd(&[], &[], None).source().unwrap(), None);
    assert_eq!(cmd(&["a"], &[], None).source().unwrap(), Some(MoveSource::Paths));
    assert_eq!(cmd(&[], &["f"], None).source().unwrap(), Some(MoveSource::Functions));
    assert_eq!(cmd(&[], &[], Some("x")).source().unwrap(), Some(MoveSource::FunctionFile));
    assert_eq!(
        cmd(&["a"], &["f"], None).source().unwrap_err().message(),
        "Only one of `--func`, `--from-func-file` and positional arguments should be provided; \
         see --help"
    );
    let c = cmd(&["a"], &[], None);
    assert!(c.check_destination(Ok(true)).is_ok());
    assert_eq!(
        c.check_destination(Ok(false)).unwrap_err().message(),
        "Destination path '/b' is not a directory"
    );
    assert_eq!(
        c.check_destination(Err("ENOENT".to_string())).unwrap_err().message(),
        "failed to stat(2) destination path '/b'"
    );
    assert!(check_sources(&vec![SourceStat::RegularFile]).is_ok());
    let err = check_sources(&vec![SourceStat::RegularFile, SourceStat::Other]).unwrap_err();
    assert_eq!(err.message(), "Aborted due to invalid input source files");
    assert_eq!(invalid_reason(&SourceStat::RegularFile), None);
    assert_eq!(invalid_reason(&SourceStat::Other).unwrap(), "not a regular file");
    assert_eq!(
        invalid_reason(&SourceStat::Failed("EIO".to_string())).unwrap(),
        "failed to stat(2): EIO"
    );
}

#[test]
fn files_of_functions_are_moved_together() {
    let snaps = vec![snap("f", "a", 1), snap("g", "b", 1), snap("f", "c", 1)];
    assert_eq!(
        files_from_function_ids(&snaps, &vec!["f".to_string()]),
        ["/a/a.state", "/a/a.memory", "/a/c.state", "/a/c.memory"]
    );
    let mut st = state("a", 1);
    update_state(&mut st, true, "/b/a.memory".to_string());
    assert_eq!(st.memory_file().as_deref(), Some("/b/a.memory"));
    assert_eq!(st.state_file().as_deref(), Some("/a/a.state"));
    update_state(&mut st, false, "/b/a.state".to_string());
    assert_eq!(stored_file(&st, false).as_deref(), Some("/b/a.state"));
    // nothing else is written
    update_state(&mut st, true, "/a/a.memory".to_string());
    update_state(&mut st, false, "/a/a.state".to_string());
    assert_eq!(st.stats, state("a", 1).stats);
    assert!(st == state("a", 1));
    let mut tally = MoveTally::new();
    tally.record(true);
    tally.record(false);
    tally.record(true);
    assert_eq!((tally.succeeded, tally.failed), (2, 1));
}

#[test]
fn files_of_a_snapshot_are_recognised() {
    let target = SnapshotTarget {
        state_dir: "/a".to_string(),
        memory_dir: "/m".to_string(),
        sandbox_id: "uvm-0a.1".to_string(),
    };
    for (path, is_memory_file) in [(target.state_path(), false), (target.memory_path(), true)] {
        let mut m = mv(&path, false);
        m.step(MoveEvent::NotFound);
        assert_eq!(m.sid.as_deref(), Some("uvm-0a.1"));
        assert_eq!(m.is_memory_file, is_memory_file);

        // and they still are where they were moved to
        let mut again = MoveFile::new(m.dst.clone(), "/c", false).unwrap();
        again.step(MoveEvent::NotFound);
        assert_eq!(again.sid, m.sid);
        assert_eq!(again.is_memory_file, is_memory_file);
    }
    let mut m = mv("/a/.memory", false);
    m.step(MoveEvent::NotFound);
    assert!(matches!(m.phase, MovePhase::Over(Err(_))));
}

/// Copies `src` as the machines say, with a kernel that copies at most `at_once` bytes with each
/// call and gives up after `calls` of them.
fn sent(src: &[u8], at_once: u64, calls: usize) -> Vec<u8> {
    let mut dst = Vec::new();
    let mut send = SendFile::new(src.len() as u64);
    let mut left = calls;
    while let SendPhase::Send(want) = send.phase {
        send.step(if left == 0 {
            SendOutcome::Unsupported
        } else {
            left -= 1;
            let n = want.min(at_once);
            let at = dst.len();
            dst.extend_from_slice(&src[at..at + n as usize]);
            SendOutcome::Sent(n)
        });
    }
    if matches!(send.phase, SendPhase::CopyAll) {
        let mut chunks = CopyChunks::new(src.len() as u64);
        let mut at = 0;
        while let Some(n) = chunks.next_chunk() {
            let end = at + n as usize;
            dst.resize(dst.len().max(end), 0);
            dst[at..end].copy_from_slice(&src[at..end]);
            at = end;
        }
    }
    dst
}

#[test]
fn copies_are_the_source() {
    let src: Vec<u8> = (0..PMD_SIZE * 2 + 77).map(|i| (i % 251) as u8).collect();
    assert_eq!(sent(&src, PMD_SIZE, 9), src);
    assert_eq!(sent(&src, 1000, 3), src);
    assert_eq!(sent(&src, PMD_SIZE + 1, 1), src);
    assert_eq!(sent(&src, 1, 0), src);
    assert_eq!(sent(&[], 1, 0), Vec::<u8>::new());
}

#[test]
fn faults_speak_of_the_file_that_was_moved() {
    let mut m = mv("/a/s1.memory", true);
    m.step(MoveEvent::NotFound);
    m.step(MoveEvent::Inode(7));
    m.step(MoveEvent::NotFound);
    assert_eq!(m.sid.as_deref(), Some("s1"));
    assert!(m.is_memory_file);
}
