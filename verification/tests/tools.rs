use std::collections::HashMap;

use faascell::durations::{check_range, read_duration, Span, TOO_LARGE};
use faascell::metadata::SandboxStats;
use faascell::runtime::net::{Ipv4Addr, TapInfo};
use faascell::runtime::registration::{
    decode_request, decoded_info, to_mebibytes, EncodedInfo, FunctionInfoMessage,
    RegisterFunctionRequest, RegistrationError, RuntimeSpecific,
};
use faascell::runtime::toy::noop::{NoOpFunctionInfo, NoOpRt, RuntimeInfoForNoOp};
use faascell::runtime::toy::toy_rt::{ToyFunctionInfo, ToyRt};
use faascell::runtime::Sandbox;
use faascell::status::StatusCode;
use faascell::tools::grpc_client::{
    json_snap_reqs, payload_bytes, perceived_latency, with_payload, JsonSnaplaceGrpcRequest,
    Payload, RequestError,
};
use faascell::tools::noop_faascell::{
    init_keepalive, init_placement, init_tracing, needs_making, placement_path, startup,
    KeepAliveConfig, PlacementConfig, SpanEvents, Startup,
};
use faascell::tools::snaplace_toy::toy_functions;
use faascell::tools::sysinfo::{header_row, interval_ms, row, Memory, ShownLoad};
use faascell::tools::warmup::{
    duration_arg, first_occurrences, invocation_ids, parse_dur, prepare_requests, requests_for, totals,
    WarmupError, WarmupRow,
};
use faascell::tools::worker_grpcli::{header_duration, json_func_req, RequestInput};
use faascell::worker::issuer::{Request, ToyIssuer};

const IN_STR: &str = r#"{
    "function_id": "chameleon-61939efde6a3f9",
    "invocation_id": "skata",
    "payload": "{\"ncol\":76,\"nrow\":76}"
}"#;
const IN_OBJ: &str = r#"{
    "function_id": "chameleon-61939efde6a3f9",
    "invocation_id": "skata",
    "payload": { "ncol": 76, "nrow": 76 }
}"#;
const IN_BYTES: &str = r#"{
    "function_id": "chameleon-61939efde6a3f9",
    "invocation_id": "skata",
    "payload": [123, 34, 110, 99, 111, 108, 34, 58, 55, 54, 44, 34, 110, 114, 111, 119, 34, 58, 55, 54, 125]
}"#;

fn deserialize(text: &str) -> JsonSnaplaceGrpcRequest {
    let value: serde_json::Value = serde_json::from_str(text).unwrap();
    JsonSnaplaceGrpcRequest {
        invocation_id: value.get("invocation_id").and_then(|v| v.as_str()).map(str::to_string),
        function_id: value["function_id"].as_str().unwrap().to_string(),
        headers: None,
        payload: value["payload"].to_string(),
    }
}

fn jreq(id: Option<&str>, payload: &str) -> JsonSnaplaceGrpcRequest {
    JsonSnaplaceGrpcRequest {
        invocation_id: id.map(str::to_string),
        function_id: "f-1".to_string(),
        headers: None,
        payload: payload.to_string(),
    }
}

#[test]
fn test_parse_json_snap_reqs() {
    let jreq_str = JsonSnaplaceGrpcRequest {
        function_id: String::from("chameleon-61939efde6a3f9"),
        invocation_id: Some(String::from("skata")),
        headers: None,
        payload: serde_json::Value::String(String::from("{\"ncol\":76,\"nrow\":76}")).to_string(),
    };

    let input_str = deserialize(IN_STR);
    assert_eq!(input_str, jreq_str);
    assert_eq!(input_str.payload, jreq_str.payload);

    let sreq_str = jreq_str.try_into_request().unwrap();
    assert_eq!(sreq_str.invocation_id, "skata");
    assert_eq!(sreq_str.function_id, "chameleon-61939efde6a3f9");
    assert_eq!(sreq_str.payload, b"{\"ncol\":76,\"nrow\":76}");
    assert!(sreq_str.metadata_map.is_empty());

    let sreq_obj = deserialize(IN_OBJ).try_into_request().unwrap();
    assert_eq!(sreq_obj, sreq_str);

    let sreq_bytes = deserialize(IN_BYTES).try_into_request().unwrap();
    assert_eq!(sreq_bytes, sreq_str);
}

#[test]
fn payloads_that_cannot_be_sent_are_refused() {
    let shown = |payload: &str| jreq(Some("i"), payload).try_into_request().unwrap_err().message();
    assert_eq!(shown("[1, -2]"), "JSON value '-2' in payload array is not unsigned integer");
    assert_eq!(shown("[1, {\"a\":2}]"), "JSON value '{\"a\":2}' in payload array is not unsigned integer");
    assert_eq!(shown("true"), "invalid payload 'Bool(true)'");
    assert!(shown("[255, 32]").starts_with("failed to convert byte array '[255, 32]' to String: "));
    assert!(matches!(
        jreq(Some("i"), "{").try_into_request(),
        Err(RequestError::BrokenPayload(_))
    ));
    assert_eq!(jreq(Some("i"), "null").try_into_request().unwrap().payload, b"");
    // only eight bits of a number are sent
    assert_eq!(jreq(Some("i"), "[321]").try_into_request().unwrap().payload, b"A");
    assert_eq!(payload_bytes(Payload::Text("\u{e9}".to_string())).unwrap(), [0xc3, 0xa9]);
    assert_eq!(
        jreq(None, "null").try_into_request().unwrap_err().message(),
        "InvocationID still unset"
    );
}

#[test]
fn requests_without_a_name_are_numbered() {
    let reqs = json_snap_reqs(vec![
        jreq(None, "null"),
        jreq(Some("mine"), "\"x\""),
        jreq(None, "{}"),
    ])
    .unwrap();
    assert_eq!(reqs[0].invocation_id, "00000000000000000000");
    assert_eq!(reqs[1].invocation_id, "mine");
    assert_eq!(reqs[2].invocation_id, "00000000000000000002");
    assert_eq!(reqs[2].payload, b"{}");
    let err = json_snap_reqs(vec![jreq(None, "1"), jreq(None, "true")]).unwrap_err();
    assert!(err.message().starts_with("invalid payload 'Number("));
    let mut with_headers = jreq(Some("i"), "null");
    with_headers.headers = Some(HashMap::from([("k".to_string(), "v".to_string())]));
    let req = with_payload(with_headers, Payload::Object(vec![1, 2])).unwrap();
    assert_eq!(req.metadata_map["k"], "v");
    assert_eq!(req.payload, [1, 2]);
}

#[test]
fn latency_is_perceived() {
    assert_eq!(perceived_latency(Some(5), Some(9)), Some(4));
    assert_eq!(perceived_latency(Some(9), Some(5)), Some(0));
    assert_eq!(perceived_latency(None, Some(5)), None);
    assert_eq!(perceived_latency(Some(5), None), None);
}

#[test]
fn input_is_a_file_after_an_at_sign() {
    assert!(matches!(json_func_req("@/tmp/in.json"), RequestInput::File(p) if p == "/tmp/in.json"));
    assert!(matches!(json_func_req("{}"), RequestInput::Inline(t) if t == "{}"));
    assert!(matches!(json_func_req("@"), RequestInput::File(p) if p.is_empty()));
    assert!(matches!(json_func_req(""), RequestInput::Inline(t) if t.is_empty()));
    assert_eq!(header_duration(Some("1500")), 1500);
    assert_eq!(header_duration(Some("1.5s")), 0);
    assert_eq!(header_duration(None), 0);
}

#[test]
fn the_longest_durations_are_read() {
    for (text, secs, nanos) in [
        ("18446744073709551615s", u64::MAX, 0),
        ("18446744073709551615s 999ms", u64::MAX, 999_000_000),
        ("18446744073709551615.5s", u64::MAX, 500_000_000),
        ("18446744073709551615 s 1us1ns", u64::MAX, 1_001),
        ("18446744073709551615ns", 18_446_744_073, 709_551_615),
        ("1w 1.5d 1M 1\u{b5}s", 604_800 + 129_600 + 2_630_016, 1_000),
        ("0", 0, 0),
    ] {
        assert!(check_range(text), "{text}");
        assert_eq!(read_duration(text).unwrap(), Span { secs, nanos }, "{text}");
    }
    // more time than a duration holds
    for text in [
        "18446744073709551616s",
        "18446744073709551615s 1000ms",
        "18446744073709551615s 999ms 999us 1000ns",
        "18446744073709551614.5s 1.5s",
        "18446744073709551615s 1s",
        "584542046091y",
        "99999999999999999999999999999999999999999s",
    ] {
        assert!(!check_range(text), "{text}");
        assert_eq!(read_duration(text).unwrap_err(), TOO_LARGE, "{text}");
    }
    // what is no duration for another reason
    for (text, why) in [
        ("99999999999999999999ns", TOO_LARGE),
        ("18446744073709551615us", TOO_LARGE),
        ("1.00000000000000000001s", TOO_LARGE),
        ("99999999999999y,5s", "invalid character at 15"),
        ("99999999999999.y", "invalid character at 14"),
        ("", "value was empty"),
        ("18446744073709551615", "time unit needed, for example 18446744073709551615sec or 18446744073709551615ms"),
    ] {
        assert!(check_range(text), "{text}");
        assert_eq!(read_duration(text).unwrap_err(), why, "{text}");
    }
}

#[test]
fn durations_are_read() {
    assert_eq!(parse_dur("2m 30s").unwrap(), Span { secs: 150, nanos: 0 });
    assert_eq!(parse_dur("1500us").unwrap(), Span { secs: 0, nanos: 1_500_000 });
    assert_eq!(parse_dur("10000000000000000ns").unwrap(), Span { secs: 10_000_000, nanos: 0 });
    assert_eq!(read_duration("00000000000000001s").unwrap(), Span { secs: 1, nanos: 0 });
    assert_eq!(read_duration("4.2s").unwrap(), Span { secs: 4, nanos: 200_000_000 });
    assert_eq!(
        read_duration("584542046090y 999ms 1ms").unwrap(),
        Span { secs: 584_542_046_090 * 31_557_600 + 1, nanos: 0 }
    );
    assert_eq!(
        parse_dur("18446744073709551615s 1000ms").unwrap_err(),
        format!("CLI failed to parse duration '18446744073709551615s 1000ms': {TOO_LARGE}")
    );
    let err = parse_dur("soon").unwrap_err();
    assert!(err.starts_with("CLI failed to parse duration 'soon': "));
    assert_eq!(
        duration_arg("x", Err("bad".to_string())).unwrap_err(),
        "CLI failed to parse duration 'x': bad"
    );
}

#[test]
fn busiest_minute_decides() {
    assert_eq!(requests_for(0, &vec![1, 9, 3], 1, 5), Ok(Some(5)));
    assert_eq!(requests_for(0, &vec![1, 4, 3], 1, 5), Ok(Some(4)));
    assert_eq!(requests_for(0, &vec![0, 0], 1, 5), Ok(None));
    assert_eq!(requests_for(3, &vec![], 1, 5), Err(WarmupError::EmptyRpm(3)));
    assert_eq!(WarmupError::EmptyRpm(3).message(), "found empty RPM array (Function 3)");
}

#[test]
fn warm_up_invocations_are_named() {
    assert_eq!(
        invocation_ids(1_700_000_000, "cnn", 2),
        ["WARMUP-1700000000-cnn-000", "WARMUP-1700000000-cnn-001"]
    );
    assert_eq!(invocation_ids(5, "b", 1), ["WARMUP-0000000005-b-000"]);
    let benches: Vec<String> = ["a", "b", "a", "c", "b"].iter().map(|s| s.to_string()).collect();
    let first = first_occurrences(&benches);
    assert_eq!(first, [true, true, false, true, false]);
    assert_eq!(totals(&first, &vec![1, 2, 4, 8, 16]), (11, 31));
}

#[test]
fn noop_orchestrator_takes_fixed_policies() {
    assert_eq!(init_keepalive(&KeepAliveConfig::Fixed { duration: Some(7) }).unwrap(), Some(7));
    assert_eq!(
        init_keepalive(&KeepAliveConfig::Other).unwrap_err().message(),
        "Configuration error: not a KeepAliveConfig::Fixed"
    );
    let fixed = |p: Option<&str>| PlacementConfig::Fixed { path: p.map(str::to_string) };
    assert_eq!(placement_path(&fixed(Some("/s"))).unwrap().as_deref(), Some("/s"));
    assert_eq!(placement_path(&fixed(Some(""))).unwrap(), None);
    assert_eq!(placement_path(&fixed(None)).unwrap(), None);
    assert_eq!(
        placement_path(&PlacementConfig::Other).unwrap_err().message(),
        "Configuration error: not a PlacementConfig::Fixed"
    );
    assert!(needs_making(Ok(false)).unwrap());
    assert!(!needs_making(Ok(true)).unwrap());
    assert_eq!(
        needs_making(Err("EIO".to_string())).unwrap_err().message(),
        "Fixed Placement Algorithm: failed to check if path {p:?} exists"
    );
    assert_eq!(init_placement("/s".to_string(), Ok(())).unwrap(), "/s");
    assert_eq!(
        init_placement("/s".to_string(), Err("EROFS".to_string())).unwrap_err().message(),
        "Fixed Placement Algorithm: failed to recursively mkdir {p:?}"
    );
}

#[test]
fn toy_functions_leave_the_last_request_out() {
    let fns = toy_functions(4);
    assert_eq!(fns.len(), 3);
    assert_eq!(fns[2].id, "req000000002");
    assert_eq!(fns[2].memory, 20 << 20);
    assert_eq!(fns[2].image_ref, "docker.io/ckatsak/nonexistent:0.0.2");
    assert!(toy_functions(1).is_empty());
}

fn register(specific: Option<RuntimeSpecific>) -> RegisterFunctionRequest {
    RegisterFunctionRequest { function_info: Some(FunctionInfoMessage { runtime_specific: specific }) }
}

#[test]
fn registration_requests_are_decoded() {
    let b64 = |s: &[u8]| register(Some(RuntimeSpecific::B64Json(s.to_vec())));
    match decode_request(b64(b"eyJhIjoxfQ==")) {
        Ok(EncodedInfo::Json(json)) => assert_eq!(json, b"{\"a\":1}"),
        other => panic!("{other:?}"),
    }
    assert!(matches!(decode_request(b64(b"?")), Err(RegistrationError::DecodeB64(_))));
    match decode_request(register(Some(RuntimeSpecific::Proto3(vec![8, 1])))) {
        Ok(EncodedInfo::Proto3(any)) => assert_eq!(any, [8, 1]),
        other => panic!("{other:?}"),
    }
    assert_eq!(
        decode_request(register(None)).unwrap_err().message(),
        "RegisterFunctionRequest.function_info.runtime_specific"
    );
    assert_eq!(
        decode_request(RegisterFunctionRequest { function_info: None }).unwrap_err().message(),
        "RegisterFunctionRequest.function_info"
    );
    assert!(matches!(decoded_info(Ok(vec![1])), Ok(EncodedInfo::Json(j)) if j == [1]));
    assert_eq!(to_mebibytes((5 << 20) + 7), 5);
}

#[test]
fn noop_runtime_does_nothing() {
    let sb = NoOpRt::new().create_sandbox(&"f".to_string(), 42);
    assert_eq!(sb.id(), "000000000000000000000042");
    assert_eq!(sb.function_id(), "f");
    assert_eq!(sb.stats(), SandboxStats::default());
    assert!(sb.monitor_targets().is_empty());
    let info = RuntimeInfoForNoOp { function_id: "f".to_string(), memory_mib: 3 };
    let info = NoOpFunctionInfo::from_proto3(Ok(info)).unwrap();
    assert_eq!((info.id().as_str(), info.memory()), ("f", 3 << 20));
    let err = NoOpFunctionInfo::from_proto3(Err("eof".to_string())).unwrap_err();
    assert_eq!(
        err.message(),
        "pb::function_info::RuntimeSpecific::Proto3 -> RuntimeInfoForNoOp: decode failed"
    );
    let err = NoOpFunctionInfo::from_json(Err("eof".to_string())).unwrap_err();
    assert_eq!(err.message(), "failed to deserialize JSON: eof");
    let err = NoOpFunctionInfo::encoded(register(None)).unwrap_err();
    assert_eq!(err.message(), "RegisterFunctionRequest -> NoOpFunctionInfo: empty request");
    let bad = register(Some(RuntimeSpecific::B64Json(b"?".to_vec())));
    let err = NoOpFunctionInfo::encoded(bad).unwrap_err();
    assert!(err.message().starts_with("failed to decode base64: "));
}

#[test]
fn toy_runtime_keeps_its_device() {
    let tap = || TapInfo {
        name: "tap1".to_string(),
        ip_addr: Ipv4Addr { a: 10, b: 0, c: 0, d: 9 },
        gateway: Ipv4Addr { a: 10, b: 0, c: 0, d: 1 },
        prefix_len: 24,
    };
    let rt = ToyRt::new();
    let sb = rt.create_sandbox(&"f".to_string(), tap());
    assert_eq!(sb.id(), "tap1");
    assert_eq!(sb.ip_addr().to_text(), "10.0.0.9");
    assert_eq!(rt.destroy_sandbox(sb).name, "tap1");
    let err = ToyFunctionInfo::encoded(register(None)).unwrap_err();
    assert_eq!(
        err.message(),
        "toy error: RegisterFunctionRequest -> ToyFunctionInfo: empty request"
    );
    let err = ToyFunctionInfo::encoded(register(Some(RuntimeSpecific::Proto3(vec![])))).unwrap_err();
    assert_eq!(err.0, "RegisterFunctionRequest -> ToyFunctionInfo: protobuf not supported");
    let err = ToyFunctionInfo::from_json(Err("eof".to_string())).unwrap_err();
    assert_eq!(err.0, "failed to deserialize JSON: eof");
    assert_eq!(ToyFunctionInfo::default().memory(), 0);
}

#[test]
fn toy_issuer_echoes() {
    let req = Request {
        invocation_id: "i".to_string(),
        function_id: "f".to_string(),
        metadata_map: HashMap::new(),
        payload: vec![1, 2, 3],
    };
    let resp = ToyIssuer::new().issue_request(req);
    assert_eq!(resp.resp.payload, [1, 2, 3]);
    assert_eq!(resp.resp.status_code, StatusCode::Success);
    assert_eq!(resp.connection_duration, 0);
}

#[test]
fn orchestrator_is_started_as_told() {
    let cfg = || Some("c.json".to_string());
    assert!(matches!(startup(true, true, cfg()), Startup::ShowVersion));
    assert!(matches!(startup(false, true, cfg()), Startup::ShowShortVersion));
    assert!(matches!(startup(false, false, cfg()), Startup::Run(path) if path == "c.json"));
    assert!(matches!(startup(false, false, None), Startup::NoConfig));
    assert_eq!(
        Startup::no_config_message(),
        "Required option '--config' not provided; see '--help'"
    );
}

#[test]
fn logs_go_where_they_are_told() {
    let path = |p: &str| Some(p.to_string());
    let plan = init_tracing(true, &path("/var/log/cell.log"), &path("flame.folded"), false).unwrap();
    assert_eq!(plan.span_events, SpanEvents { new_and_close: false, active: true });
    assert!(plan.stderr);
    let file = plan.file.unwrap();
    assert_eq!((file.dir.as_str(), file.name.as_str()), ("/var/log", "cell.log"));
    let flame = plan.flame.unwrap();
    assert_eq!((flame.dir.as_str(), flame.name.as_str()), ("", "flame.folded"));
    let plan = init_tracing(false, &None, &None, true).unwrap();
    assert!(plan.file.is_none() && plan.flame.is_none() && !plan.stderr);
    assert_eq!(plan.span_events, SpanEvents { new_and_close: true, active: false });
    let err = init_tracing(false, &path("/"), &None, true).unwrap_err();
    assert_eq!(err.message(), "failed to extract dirname from '/'");
    let err = init_tracing(false, &path("/a"), &path("/a/.."), true).unwrap_err();
    assert_eq!(err.message(), "failed to extract basename from '/a/..'");
}

#[test]
fn system_table_is_tabbed() {
    assert_eq!(
        header_row(),
        format!(
            "{: >20}\t{: >20}\t{: >7}\t{: >7}\t{: >7}\t{: >7}\t{: >13}\t{: >13}\t{: >13}",
            "nanos_epoch",
            "nanos_since_start",
            "cpu",
            "load1",
            "load5",
            "load15",
            "mem_used",
            "mem_free",
            "mem_avail",
        )
    );
    let load = ShownLoad {
        cpu: format!("{: >.5}", 12.5f32),
        one: format!("{: >.5}", 0.25f64),
        five: format!("{: >.5}", 1.0f64),
        fifteen: format!("{: >.5}", 2.0f64),
    };
    let memory = Memory { used: 5, free: 6, available: 7 };
    assert_eq!(
        row(1_700_000_000_000_000_000, 42, &load, &memory),
        format!(
            "{: >20}\t{: >20}\t12.50000\t0.25000\t1.00000\t2.00000\t{: >13}\t{: >13}\t{: >13}",
            1_700_000_000_000_000_000u64, 42, 5, 6, 7
        )
    );
    assert_eq!(interval_ms(Some("250")), Some(250));
    assert_eq!(interval_ms(Some("soon")), None);
    assert_eq!(interval_ms(None), None);
}

#[test]
fn warm_up_takes_the_busy_functions() {
    let row = |rpm: Vec<u32>, bench: &str| WarmupRow { rpm, bench: Ok(bench.to_string()) };
    let broken =
        |rpm: Vec<u32>| WarmupRow { rpm, bench: Err(("\"{\"".to_string(), "eof".to_string())) };

    // what is not sent need not be readable
    let rows = vec![row(vec![0, 2], "a"), broken(vec![1]), row(vec![9], "b")];
    let all = prepare_requests(rows, 2, 3, 17).unwrap();
    assert_eq!(all.len(), 2);
    assert_eq!((all[0].row, all[0].bench.as_str()), (0, "a"));
    assert_eq!(all[0].invocation_ids, ["WARMUP-0000000017-a-000", "WARMUP-0000000017-a-001"]);
    assert_eq!((all[1].row, all[1].bench.as_str()), (2, "b"));
    assert_eq!(all[1].invocation_ids.len(), 3);

    // the first that is wrong is reported
    let rows = vec![row(vec![5], "a"), broken(vec![5]), row(vec![], "b")];
    let err = prepare_requests(rows, 2, 3, 17).unwrap_err();
    assert_eq!(err, WarmupError::BadRequest(1, "\"{\"".to_string(), "eof".to_string()));
    assert_eq!(
        err.message(),
        "failed to deserialize WorkloadRequest from \"{\" (Function 1)"
    );
    let rows = vec![row(vec![], "b"), broken(vec![5])];
    assert_eq!(prepare_requests(rows, 2, 3, 17).unwrap_err(), WarmupError::EmptyRpm(0));
    assert!(prepare_requests(vec![], 2, 3, 17).unwrap().is_empty());
}
