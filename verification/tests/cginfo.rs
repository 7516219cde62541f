use faascell::cginfo::{
    cpu_share, header_row, is_ws, parse_args, parse_cpu_stat_times, parse_u64_trim, CgroupMonitor,
    CpuTimes, Error, Sample,
};

fn stat(usage: u64) -> String {
    format!(
        "usage_usec {usage}\nuser_usec {}\nsystem_usec {}\nnr_periods 3\nthrottled_usec 7\n",
        usage / 2,
        usage / 4
    )
}

#[test]
fn numbers_are_trimmed() {
    assert_eq!(parse_u64_trim(b"  4096\n"), Some(4096));
    assert_eq!(parse_u64_trim(b"0"), Some(0));
    assert_eq!(parse_u64_trim(b"18446744073709551615\n"), Some(u64::MAX));
    assert_eq!(parse_u64_trim(b"18446744073709551616"), None);
    assert_eq!(parse_u64_trim(b""), None);
    assert_eq!(parse_u64_trim(b"max\n"), None);
    assert!(is_ws(b' ') && is_ws(b'\n') && is_ws(b'\t') && is_ws(b'\r'));
    assert!(!is_ws(b'0'));
}

#[test]
fn times_are_found_by_name() {
    let times = parse_cpu_stat_times(stat(400).as_bytes()).unwrap();
    assert_eq!(times, CpuTimes { usage: 400, user: 200, system: 100, throttled: 7 });
    let times = parse_cpu_stat_times(b"user_usec 1\n\n system_usec 2 3\nuser_usec 5").unwrap();
    assert_eq!(times, CpuTimes { usage: 0, user: 5, system: 2, throttled: 0 });
    let err = parse_cpu_stat_times(b"usage_usec 1\nuser_usec max\n").unwrap_err();
    assert_eq!(err.message(), "failed while parsing cgroup file 'cpu.stat'");
}

#[test]
fn shares_are_hundredths_of_a_per_cent() {
    // one processor, busy for the whole time
    assert_eq!(cpu_share(0, 200_000, 200_000), 10_000);
    // two and a half processors
    assert_eq!(cpu_share(1_000, 501_000, 200_000), 25_000);
    assert_eq!(cpu_share(5, 5, 200_000), 0);
    assert_eq!(cpu_share(9, 5, 200_000), 0);
    assert_eq!(cpu_share(0, 5, 0), 0);
}

#[test]
fn samples_are_taken_one_after_another() {
    let mut mon = CgroupMonitor::new(5_000, stat(1_000).as_bytes()).unwrap();
    let s = mon.sample(17, 1_005_000, b"4096\n", stat(2_000).as_bytes()).unwrap();
    assert_eq!(s.ts_unix_ns, 17);
    assert_eq!(s.mem_curr_bytes, 4096);
    assert_eq!(s.cpu_core_eq_pct_x100, 10_000);
    assert_eq!(s.cpu_user_core_eq_pct_x100, 5_000);
    assert_eq!(s.cpu_system_core_eq_pct_x100, 2_500);
    assert_eq!(s.cpu_throttled_core_eq_pct_x100, 0);
    let s = mon.sample(18, 2_005_000, b"1", stat(2_000).as_bytes()).unwrap();
    assert_eq!(s.cpu_core_eq_pct_x100, 0);
    let err = mon.sample(19, 3_005_000, b"max", stat(2_000).as_bytes()).unwrap_err();
    assert_eq!(err.message(), "failed while parsing cgroup file 'memory.current'");
    let err = mon.sample(20, 4_005_000, b"1", b"usage_usec x").unwrap_err();
    assert_eq!(err.message(), "failed while parsing cgroup file 'cpu.stat'");
    // what failed in between does not count: a third of the time since the last sample
    let s = mon.sample(21, 5_005_999, b"1", stat(3_000).as_bytes()).unwrap();
    assert_eq!(s.cpu_core_eq_pct_x100, 3_333);
    let s = mon.sample(22, 5_006_000, b"1", stat(4_000).as_bytes()).unwrap();
    assert_eq!(s.cpu_core_eq_pct_x100, 0);
    assert!(CgroupMonitor::new(0, b"usage_usec -1").is_err());
    assert_eq!(CgroupMonitor::new(0, b"").unwrap().last.usage, 0);
}

#[test]
fn rows_are_aligned() {
    assert_eq!(
        header_row(),
        format!(
            "{: >20}{: >21}{: >12}{: >12}{: >12}{: >15}",
            "nanos_epoch",
            "memory_current_bytes",
            "cpu%",
            "cpu%_user",
            "cpu%_system",
            "cpu%_throttled"
        )
    );
    let s = Sample {
        ts_unix_ns: 1_700_000_000_000_000_000,
        mem_curr_bytes: 4096,
        cpu_core_eq_pct_x100: 12345,
        cpu_user_core_eq_pct_x100: 9,
        cpu_system_core_eq_pct_x100: 0,
        cpu_throttled_core_eq_pct_x100: 1,
    };
    assert_eq!(
        s.to_row(),
        format!(
            "{: >20}{: >21}{: >12}{: >12}{: >12}{: >15}",
            1_700_000_000_000_000_000u64, 4096, 12345, 9, 0, 1
        )
    );
}

#[test]
fn arguments_are_read() {
    let args = |a: &[&str]| parse_args(&a.iter().map(|s| s.to_string()).collect());
    let a = args(&["--period-ms", "200", "--cgroup", "/cg"]).unwrap();
    assert_eq!((a.period_ms, a.cgroup.as_str()), (200, "/cg"));
    let a = args(&["-T", "5"]).unwrap();
    assert_eq!((a.period_ms, a.cgroup.as_str()), (5, "/sys/fs/cgroup"));
    assert!(args(&[]).is_none());
    assert!(args(&["-T"]).is_none());
    assert!(args(&["-T", "soon"]).is_none());
    assert!(args(&["-h", "-T", "5"]).is_none());
    assert!(args(&["--what"]).is_none());
}

#[test]
fn errors_name_the_file() {
    let err = Error::Open { path: "/cg/cpu.stat".to_string(), source: "ENOENT".to_string() };
    assert_eq!(err.message(), "failed to open file '/cg/cpu.stat'");
    let err = Error::Read { name: "cpu.stat", source: "EIO".to_string() };
    assert_eq!(err.message(), "failed to read cgroup file 'cpu.stat'");
}
