use faascell::faasctl::cli::{Address, Runtime};
use faascell::faasctl::counts::Counts;
use faascell::faasctl::funcreg::{
    deregister_outcome, register_outcome, DeregisterCmd, DeregisterTarget, RequestOutcome,
};
use faascell::faasctl::sandbox::{
    destroy_request, keepalive_hint, snapshot_fate, DestroyCmd, KeepaliveHint, PrepareCmd,
    ProvisioningMode, SnapshotFate,
};
use faascell::faasctl::seed::{
    function_id_of, read_counts, read_stats, SandboxInfo, SeedAction, SeedCmd, SeedError,
    SeedEvent, SeedFault, SeedOne, SeedPhase, SeedSource, SeedTally,
};
use faascell::status::StatusCode;

fn seed(func_counts: Option<&str>, sb_stats: Option<&str>) -> SeedCmd {
    SeedCmd {
        func_counts: func_counts.map(str::to_string),
        sb_stats: sb_stats.map(str::to_string),
        also_snapshot: false,
        no_force_fresh: false,
        initial_keepalive_hint: None,
    }
}

#[test]
fn runtimes_go_by_their_names() {
    assert_eq!(Runtime::default(), Runtime::FirecrackerContainerd);
    assert_eq!(Runtime::from_str("fc").unwrap(), Runtime::Firecracker);
    assert_eq!(Runtime::from_str("fcctrd").unwrap(), Runtime::FirecrackerContainerd);
    assert_eq!(Runtime::from_str("firecracker-containerd").unwrap(), Runtime::FirecrackerContainerd);
    let err = Runtime::from_str("docker").unwrap_err();
    assert_eq!(err.message(), "unknown faascell runtime 'docker'");
}

#[test]
fn addresses_become_endpoints() {
    assert_eq!(Address::Net("localhost:50051".to_string()).endpoint(), "http://localhost:50051");
    assert_eq!(Address::Uds("/run/cell.sock".to_string()).endpoint(), "unix:///run/cell.sock");
    assert_eq!(Address::Uds("cell.sock".to_string()).endpoint(), "unix:cell.sock");
    assert_eq!(Address::Uds(String::new()).endpoint(), "unix:");
}

#[test]
fn deregistration_finds_its_target() {
    let cmd = |f: Option<&str>, id: Option<&str>| DeregisterCmd {
        functions: f.map(str::to_string),
        function_id: id.map(str::to_string),
    };
    assert!(matches!(
        cmd(Some("f.json"), Some("id")).target(),
        Ok(DeregisterTarget::All(path)) if path == "f.json"
    ));
    assert!(matches!(cmd(None, Some("id")).target(), Ok(DeregisterTarget::One(id)) if id == "id"));
    let err = cmd(None, None).target().unwrap_err();
    assert_eq!(err.message(), "Neither Function ID nor `--functions <FILE_PATH>` provided");
}

#[test]
fn repeated_requests_are_no_failures() {
    assert_eq!(register_outcome(Ok(())), RequestOutcome::Success);
    assert_eq!(register_outcome(Err(StatusCode::AlreadyExists)), RequestOutcome::Unchanged);
    assert_eq!(
        register_outcome(Err(StatusCode::NotFound)),
        RequestOutcome::Failed(StatusCode::NotFound)
    );
    assert_eq!(deregister_outcome(Ok(())), RequestOutcome::Success);
    assert_eq!(deregister_outcome(Err(StatusCode::NotFound)), RequestOutcome::Unchanged);
    assert_eq!(
        deregister_outcome(Err(StatusCode::AlreadyExists)),
        RequestOutcome::Failed(StatusCode::AlreadyExists)
    );
}

#[test]
fn sandboxes_are_requested() {
    assert_eq!(ProvisioningMode::default(), ProvisioningMode::PreferSnapshot);
    assert_eq!(
        ProvisioningMode::from_name("require_snapshot"),
        Some(ProvisioningMode::RequireSnapshot)
    );
    assert_eq!(ProvisioningMode::from_name("force_fresh"), Some(ProvisioningMode::ForceFresh));
    assert_eq!(ProvisioningMode::from_name("prefer_snapshot"), Some(ProvisioningMode::PreferSnapshot));
    assert_eq!(ProvisioningMode::from_name("fresh"), None);
    let mut cmd = PrepareCmd {
        function_id: "f-1".to_string(),
        mode: ProvisioningMode::ForceFresh,
        initial_keepalive_hint: Some(KeepaliveHint { secs: 90, nanos: 5 }),
    };
    let req = cmd.request().unwrap();
    assert_eq!(req.function_id, "f-1");
    assert_eq!(req.mode, ProvisioningMode::ForceFresh);
    let hint = req.initial_keepalive_hint.unwrap();
    assert_eq!((hint.seconds, hint.nanos), (90, 5));
    cmd.initial_keepalive_hint = Some(KeepaliveHint { secs: 1 << 63, nanos: 0 });
    assert!(cmd.request().is_err());
    cmd.initial_keepalive_hint = None;
    assert!(cmd.request().unwrap().initial_keepalive_hint.is_none());
}

#[test]
fn destruction_says_only_what_it_was_told() {
    let cmd = DestroyCmd { no_active: false, remove_snapshot: false, sandbox_id: "s".to_string() };
    let req = cmd.request();
    assert_eq!((req.allow_if_active, req.remove_persisted_snapshot), (None, None));
    let cmd = DestroyCmd { no_active: true, remove_snapshot: true, sandbox_id: "s".to_string() };
    let req = cmd.request();
    assert_eq!((req.allow_if_active, req.remove_persisted_snapshot), (Some(false), Some(true)));
    let req = destroy_request(false, false, &"s".to_string());
    assert_eq!(req.sandbox_id, "s");
    assert_eq!((req.allow_if_active, req.remove_persisted_snapshot), (Some(false), Some(false)));
    assert_eq!(snapshot_fate(false, true), SnapshotFate::Kept);
    assert_eq!(snapshot_fate(true, true), SnapshotFate::StillThere);
    assert_eq!(snapshot_fate(true, false), SnapshotFate::Removed);
}

#[test]
fn seeding_needs_exactly_one_file() {
    let err = seed(Some("a"), Some("b")).source().unwrap_err();
    assert_eq!(
        err.message(),
        "Both function counts and sandbox stats JSON files provided; choose one"
    );
    let err = seed(None, None).validate_args(Ok(true)).unwrap_err();
    assert_eq!(err.message(), "Provide either a function counts or a sandbox stats JSON files");
    assert_eq!(seed(Some("a"), None).source().unwrap(), SeedSource::FuncCounts);
    assert_eq!(seed(None, Some("b")).source().unwrap(), SeedSource::SbStats);
    assert!(seed(None, Some("b")).validate_args(Ok(true)).is_ok());
    let err = seed(None, Some("b")).validate_args(Ok(false)).unwrap_err();
    assert_eq!(err.message(), "`--sb-stats` does not point to a normal file");
    let err = seed(Some("a"), None).validate_args(Ok(false)).unwrap_err();
    assert_eq!(err.message(), "`--func-counts` does not point to a normal file");
    let err = seed(Some("a"), None).validate_args(Err("ENOENT".to_string())).unwrap_err();
    assert_eq!(err.message(), "failed to stat(2) path 'a'");
    let mut cmd = seed(Some("a"), None);
    assert_eq!(cmd.mode(), ProvisioningMode::ForceFresh);
    cmd.no_force_fresh = true;
    assert_eq!(cmd.mode(), ProvisioningMode::PreferSnapshot);
}

#[test]
fn counts_are_read_line_by_line() {
    let path = "counts.json".to_string();
    let counts =
        read_counts(&path, "{\"f-1\": 2, \"f-2\": 7}\r\n  {\"f-1\": 5}  \n").unwrap();
    assert_eq!(counts.get(&"f-1".to_string()), Some(5));
    assert_eq!(counts.get(&"f-2".to_string()), Some(7));
    assert_eq!(counts.get(&"f-3".to_string()), None);
    assert_eq!(counts.entries().len(), 2);
    match read_counts(&path, "{\"f-1\": 2}\n{\"f-1\": -2}\n").unwrap_err() {
        err @ SeedError::BadLine { .. } => assert_eq!(
            err.message(),
            "failed to JSON-deserialize line in 'counts.json': '{\"f-1\": -2}'"
        ),
        other => panic!("{other:?}"),
    }
    assert_eq!(read_counts(&path, "").unwrap().entries().len(), 0);
}

#[test]
fn stats_are_tallied() {
    let path = "stats.json".to_string();
    let contents = "{\"fid\": \"f-1\", \"sid\": \"s\"}\n{\"fid\": \"f-2\"}\n{\"fid\": \"f-1\"}";
    let counts = read_stats(&path, contents).unwrap();
    assert_eq!(counts.get(&"f-1".to_string()), Some(2));
    assert_eq!(counts.get(&"f-2".to_string()), Some(1));
    let err = read_stats(&path, "[1]").unwrap_err();
    assert_eq!(err.message(), "Expected JSON object; found line: '[1]'");
    let err = read_stats(&path, "{\"fid\": 1}").unwrap_err();
    assert_eq!(err.message(), "Function ID key 'fid' not found in line: '{\"fid\": 1}'");
    assert!(matches!(read_stats(&path, "oops").unwrap_err(), SeedError::BadLine { .. }));
    let id = function_id_of(&path, "l".to_string(), Ok(Some(Some("f-9".to_string()))));
    assert_eq!(id.unwrap(), "f-9");
}

#[test]
fn counts_grow() {
    let mut counts = Counts::new();
    counts.add_one("f".to_string());
    counts.add_one("f".to_string());
    counts.add_one("g".to_string());
    assert_eq!(counts.get(&"f".to_string()), Some(2));
    counts.insert("f".to_string(), 9);
    assert_eq!(counts.get(&"f".to_string()), Some(9));
    counts.extend(vec![("g".to_string(), 4), ("h".to_string(), 1), ("g".to_string(), 6)]);
    assert_eq!(counts.get(&"g".to_string()), Some(6));
    assert_eq!(counts.entries().len(), 3);
}

#[test]
fn sandbox_is_seeded_with_its_snapshot() {
    let info = || SandboxInfo { sandbox_id: "s-1".to_string() };
    let mut one = SeedOne::new(true, false);
    assert_eq!(one.action(), Some(SeedAction::Prepare(ProvisioningMode::ForceFresh)));
    one.step(SeedEvent::Status(StatusCode::Unavailable, "busy".to_string()));
    assert_eq!(one.action(), Some(SeedAction::Sleep(1)));
    one.step(SeedEvent::Done);
    one.step(SeedEvent::Prepared(info()));
    assert_eq!(one.action(), Some(SeedAction::CreateSnapshot));
    one.step(SeedEvent::Failed("full".to_string()));
    assert_eq!(one.action(), Some(SeedAction::Sleep(1)));
    one.step(SeedEvent::Done);
    one.step(SeedEvent::Done);
    assert_eq!(one.action(), Some(SeedAction::Destroy));
    one.step(SeedEvent::Done);
    assert!(matches!(&one.phase, SeedPhase::Over(Ok(i)) if i.sandbox_id == "s-1"));

    // without a snapshot, the sandbox stays
    let mut one = SeedOne::new(false, true);
    assert_eq!(one.action(), Some(SeedAction::Prepare(ProvisioningMode::PreferSnapshot)));
    one.step(SeedEvent::Prepared(info()));
    assert!(one.action().is_none());
}

#[test]
fn seeding_is_given_up_after_so_many_tries() {
    let mut one = SeedOne::new(true, false);
    let mut tries = 0;
    while let Some(action) = one.action() {
        one.step(match action {
            SeedAction::Prepare(_) => {
                tries += 1;
                SeedEvent::Status(StatusCode::Unavailable, String::new())
            }
            _ => SeedEvent::Done,
        });
    }
    assert_eq!(tries, 4);
    assert!(matches!(
        one.phase,
        SeedPhase::Over(Err(SeedFault::Status(StatusCode::Unavailable)))
    ));

    let mut one = SeedOne::new(true, false);
    one.step(SeedEvent::Prepared(SandboxInfo { sandbox_id: "s".to_string() }));
    let mut tries = 0;
    while let Some(action) = one.action() {
        one.step(match action {
            SeedAction::CreateSnapshot => {
                tries += 1;
                SeedEvent::Failed("full".to_string())
            }
            _ => SeedEvent::Done,
        });
    }
    assert_eq!(tries, 3);
    assert!(matches!(&one.phase, SeedPhase::Over(Err(SeedFault::Snapshot(err))) if err == "full"));

    let mut one = SeedOne::new(false, false);
    one.step(SeedEvent::Failed("down".to_string()));
    assert!(matches!(one.phase, SeedPhase::Over(Err(SeedFault::Prepare(_)))));
}

#[test]
fn incomplete_functions_are_tallied() {
    let mut tally = SeedTally::new();
    assert!(tally.record(3, 3));
    assert!(tally.finish().is_ok());
    assert!(!tally.record(1, 2));
    assert!(!tally.record(0, 2));
    assert_eq!(tally.prepared, 4);
    let err = tally.finish().unwrap_err();
    assert_eq!(err.message(), "Partial or total failure for 2 Functions");
}

#[test]
fn keepalive_hints_are_read() {
    assert_eq!(keepalive_hint("1m 1ms").unwrap(), KeepaliveHint { secs: 60, nanos: 1_000_000 });
    assert!(keepalive_hint("a while").is_err());
    assert_eq!(
        keepalive_hint("10000000000000000ns").unwrap(),
        KeepaliveHint { secs: 10_000_000, nanos: 0 }
    );
    let err = keepalive_hint("18446744073709551615s 1000ms").unwrap_err();
    assert!(err.starts_with("number is too large"));
}
