use kestrel::system_monitor::{
    attribute, busy_percent, cpu_counters, is_card_name, memory_counters, network_counters,
    parse_u8, sample_capability, CpuCounters, Metric, RawSystemSample, SourceIssue,
};
use kestrel::capability::CapabilityStatus;

#[test]
fn proc_texts_parse_into_counters() {
    let cpu = cpu_counters(
        "cpu  10 0 5 80 5 0 0 0\ncpu0 5 0 2 40 2 0 0 0\ncpu1 5 0 3 40 3 0 0 0\n",
    );
    assert!(matches!(&cpu, Metric::Available(cpu) if cpu.logical_cpus == 2 && cpu.total == 100 && cpu.idle == 85));
    let memory = memory_counters(
        "MemTotal: 1000 kB\nMemAvailable: 400 kB\nCached: 100 kB\nBuffers: 50 kB\nSwapTotal: 200 kB\nSwapFree: 50 kB\n",
    );
    assert!(matches!(
        &memory,
        Metric::Available(memory)
            if memory.available_bytes == 409_600
                && memory.cached_bytes == 102_400
                && memory.buffers_bytes == 51_200
    ));
    let network = network_counters(
        "Inter-| Receive | Transmit\n face |bytes packets errs drop fifo frame compressed multicast|bytes packets errs drop fifo colls carrier compressed\n  lo: 100 1 0 0 0 0 0 0 200 1 0 0 0 0 0 0\n",
    );
    assert!(matches!(
        &network,
        Metric::Available(interfaces)
            if interfaces[0].transmitted_bytes == 200 && interfaces[0].interface == "lo"
    ));
    assert_eq!(parse_u8("87"), Some(87));
    assert_eq!(busy_percent(&Some("155".to_string())), Some(100));
    assert!(is_card_name("card0"));
    assert!(!is_card_name("card0-eDP-1"));
    assert!(!is_card_name("card"));
}

#[test]
fn malformed_sources_are_unavailable_with_reasons() {
    assert!(matches!(
        cpu_counters("intr 1 2 3\n"),
        Metric::Unavailable(issue) if issue.reason == "aggregate CPU line is missing"
    ));
    assert!(matches!(
        cpu_counters("cpu 1 2 x 4\n"),
        Metric::Unavailable(issue) if issue.reason == "aggregate CPU counters are malformed"
    ));
    assert!(matches!(
        memory_counters("MemAvailable: 3 kB\n"),
        Metric::Unavailable(issue) if issue.reason == "MemTotal is missing"
    ));
    assert!(matches!(
        network_counters("a\nb\n"),
        Metric::Unavailable(issue) if issue.source == "/proc/net/dev"
    ));
    assert_eq!(attribute(Some("  Battery \n".to_string())), Some("Battery".to_string()));
    assert_eq!(attribute(Some(" \n".to_string())), None);
    assert_eq!(parse_u8("+7"), Some(7));
    assert_eq!(parse_u8("256"), None);
    assert_eq!(parse_u8("-1"), None);
}

#[test]
fn capability_counts_available_families() {
    fn unavailable<T>() -> Metric<T> {
        Metric::Unavailable(SourceIssue {
            source: "x".to_string(),
            reason: "missing".to_string(),
        })
    }
    let sample = RawSystemSample {
        cpu: Metric::Available(CpuCounters { total: 1, idle: 0, logical_cpus: 1 }),
        memory: unavailable(),
        network: unavailable(),
        temperatures: unavailable(),
        power_supplies: unavailable(),
        disk_usage: unavailable(),
        disk_io: unavailable(),
        gpu: unavailable(),
    };
    let report = sample_capability(&sample);
    assert!(matches!(report.status, CapabilityStatus::Limited { .. }));
    assert_eq!(
        report.summary,
        "1/3 core and 0/5 optional monitor source families are available."
    );
    assert_eq!(report.evidence[3].value, "false");
    assert!(report.remediation.is_some());
}
