use kestrel::monitor_service::{
    collect_issues, counter_delta, cpu_busy, power_supply_snapshot, used_bytes,
    validate_settings, InvalidHistoryCapacity, MonitorSchedule, SystemMonitorConfigError,
    MAX_REFRESH_INTERVAL_MILLIS, MIN_REFRESH_INTERVAL_MILLIS,
};
use kestrel::system_monitor::{
    CpuCounters, Metric, PowerSupplyReading, RawSystemSample, SourceIssue, SystemMonitorSource,
};

#[test]
fn validates_refresh_interval_bounds() {
    assert!(matches!(
        MonitorSchedule::<u64>::new(MIN_REFRESH_INTERVAL_MILLIS - 1, 1),
        Err(SystemMonitorConfigError::RefreshInterval(_))
    ));
    assert!(matches!(
        MonitorSchedule::<u64>::new(MAX_REFRESH_INTERVAL_MILLIS + 1, 1),
        Err(SystemMonitorConfigError::RefreshInterval(_))
    ));
    assert!(MonitorSchedule::<u64>::new(MIN_REFRESH_INTERVAL_MILLIS, 1).is_ok());
}

#[test]
fn invalid_history_capacity_is_rejected() {
    let result = MonitorSchedule::<u64>::new(1_000, 0);
    match result {
        Err(SystemMonitorConfigError::HistoryCapacity(error)) => {
            assert_eq!(error.requested(), 0);
            assert_eq!(error.describe(), "history capacity 0 is outside 1..=600");
        }
        _ => panic!("capacity zero must be rejected"),
    }
    let _unused: Option<InvalidHistoryCapacity> = None;
    assert!(validate_settings(1_000, 601).is_err());
}

#[test]
fn history_is_bounded_and_skips_are_not_recorded() {
    let mut schedule = MonitorSchedule::new(1_000, 2).expect("valid settings");
    for at in [0_u64, 500, 1_000, 2_000, 3_000] {
        if schedule.is_due(at) {
            schedule.record(at, at);
        }
    }
    assert_eq!(schedule.history(), &[2_000, 3_000]);
    assert!(!schedule.is_due(3_999));
    assert!(!schedule.is_due(1_000));
    assert!(schedule.is_due(4_000));
}

#[test]
fn reconfigure_drops_the_oldest_samples() {
    let mut schedule = MonitorSchedule::new(1_000, 3).expect("valid settings");
    for at in [0_u64, 1_000, 2_000] {
        schedule.record(at, at);
    }
    schedule.reconfigure(250, 1).expect("valid settings");
    assert_eq!(schedule.history(), &[2_000]);
    assert_eq!(schedule.refresh_interval(), 250);
    assert!(schedule.reconfigure(10, 1).is_err());
    assert_eq!(schedule.history_capacity(), 1);
}

fn battery(energy: Option<u64>, power: Option<u64>) -> PowerSupplyReading {
    PowerSupplyReading {
        name: "BAT0".to_string(),
        kind: Some("Battery".to_string()),
        scope: Some("System".to_string()),
        capacity_percent: Some(50),
        status: None,
        health: None,
        cycle_count: None,
        energy_now_microwatt_hours: energy,
        energy_full_microwatt_hours: None,
        power_microwatts: power,
    }
}

#[test]
fn remaining_seconds_requires_positive_power() {
    assert_eq!(power_supply_snapshot(&battery(Some(5_000), Some(0))).remaining_seconds, None);
    assert_eq!(
        power_supply_snapshot(&battery(Some(5_000), Some(1_000))).remaining_seconds,
        Some(18_000)
    );
    assert_eq!(power_supply_snapshot(&battery(Some(u64::MAX), Some(1))).remaining_seconds, None);
}

#[test]
fn unavailable_issue_order_is_stable() {
    fn unavailable<T>(name: &str) -> Metric<T> {
        Metric::Unavailable(SourceIssue {
            source: name.to_string(),
            reason: "missing".to_string(),
        })
    }
    let raw = RawSystemSample {
        cpu: unavailable("cpu"),
        memory: unavailable("memory"),
        network: unavailable("network"),
        temperatures: unavailable("temperatures"),
        power_supplies: unavailable("power"),
        disk_usage: unavailable("disk_usage"),
        disk_io: unavailable("disk_io"),
        gpu: unavailable("gpu"),
    };
    let order = collect_issues(&raw)
        .iter()
        .map(|issue| issue.source.clone())
        .collect::<Vec<_>>();
    assert_eq!(
        order,
        ["cpu", "memory", "network", "temperatures", "power", "disk_usage", "disk_io", "gpu"]
    );
}

#[test]
fn counter_resets_produce_missing_rates_instead_of_underflow() {
    let earlier = CpuCounters { total: 100, idle: 80, logical_cpus: 4 };
    let later = CpuCounters { total: 200, idle: 120, logical_cpus: 4 };
    assert_eq!(cpu_busy(&later, &earlier), Some((60, 100)));
    assert_eq!(cpu_busy(&earlier, &later), None);
    assert_eq!(counter_delta(100, Some(1_000)), None);
    assert_eq!(counter_delta(1_300, Some(1_000)), Some(300));
    assert_eq!(used_bytes(1_000, 250), 750);
    assert_eq!(used_bytes(10, 20), 0);
}

struct CountingSource {
    samples: u64,
}

impl SystemMonitorSource for CountingSource {
    fn sample(&mut self) -> RawSystemSample {
        self.samples += 1;
        let missing = |name: &str| SourceIssue { source: name.to_string(), reason: "missing".to_string() };
        RawSystemSample {
            cpu: Metric::Unavailable(missing("cpu")),
            memory: Metric::Unavailable(missing("memory")),
            network: Metric::Unavailable(missing("network")),
            temperatures: Metric::Unavailable(missing("temperatures")),
            power_supplies: Metric::Unavailable(missing("power")),
            disk_usage: Metric::Unavailable(missing("disk_usage")),
            disk_io: Metric::Unavailable(missing("disk_io")),
            gpu: Metric::Unavailable(missing("gpu")),
        }
    }
}

#[test]
fn refresh_samples_only_when_due_and_records_the_summary() {
    let mut schedule = MonitorSchedule::<u64>::new(1_000, 2).expect("valid settings");
    let mut source = CountingSource { samples: 0 };
    for (at, expected) in [(0, true), (500, false), (1_000, true), (1_999, false), (2_000, true), (3_500, true)] {
        let sampled = schedule.refresh(&mut source, at, |_| at);
        assert_eq!(sampled.is_some(), expected);
    }
    assert_eq!(source.samples, 4);
    assert_eq!(schedule.history(), &[2_000, 3_500]);
}
