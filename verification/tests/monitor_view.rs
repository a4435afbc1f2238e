use kestrel::monitor_config::{MonitorReadout, MONITOR_READOUTS};
use kestrel::monitor_service::{GpuSnapshot, PowerSupplySnapshot};
use kestrel::monitor_view::{
    busiest_gpu, hottest_temperature, issue_reason, lowest_battery, readout_settings, unavailable_detail,
};
use kestrel::system_monitor::{SourceIssue, TemperatureReading};

#[test]
fn monitoring_configured_order_and_hidden_readouts_are_honoured() {
    let settings = readout_settings(&[MonitorReadout::Gpu, MonitorReadout::Cpu]);
    assert!(
        !settings
            .iter()
            .find(|setting| setting.readout == MonitorReadout::Memory)
            .expect("all settings are represented")
            .visible
    );
    assert_eq!(settings[0].readout, MonitorReadout::Gpu);
    assert_eq!(settings[1].readout, MonitorReadout::Cpu);
    assert!(!settings[0].can_move_up && settings[0].can_move_down);
    assert!(settings[1].can_move_up && !settings[1].can_move_down);
    assert_eq!(settings.len(), MONITOR_READOUTS.len());
    for hidden in settings.iter().skip(2) {
        assert!(!hidden.visible && !hidden.can_move_up && !hidden.can_move_down);
    }
    assert_eq!(settings[2].readout, MonitorReadout::Memory);
    assert_eq!(settings[0].label, "GPU");
}

#[test]
fn unavailable_readout_never_borrows_another_family_reason() {
    let issues = vec![SourceIssue::new("/proc/diskstats", "no whole-disk statistics are readable")];
    assert_eq!(issue_reason(&issues, MonitorReadout::Cpu), None);
    assert_eq!(unavailable_detail(Some(&issues), MonitorReadout::Cpu), "CPU usage is unavailable.");
    assert_eq!(
        unavailable_detail(Some(&issues), MonitorReadout::Disk),
        "no whole-disk statistics are readable"
    );
}

#[test]
fn monitoring_unavailable_readout_keeps_source_reason() {
    let issues = vec![SourceIssue::new("/proc/meminfo", "MemAvailable is missing")];
    assert_eq!(unavailable_detail(Some(&issues), MonitorReadout::Memory), "MemAvailable is missing");
    assert_eq!(unavailable_detail(Some(&issues), MonitorReadout::Swap), "MemAvailable is missing");
    assert_eq!(
        unavailable_detail(None, MonitorReadout::Memory),
        "No system snapshot is available yet."
    );
    let mounts = vec![SourceIssue::new("/proc/self/mounts + statvfs", "no filesystem")];
    assert_eq!(issue_reason(&mounts, MonitorReadout::Disk), Some("no filesystem".to_owned()));
}

fn temperature(label: &str, millidegrees_celsius: i64) -> TemperatureReading {
    TemperatureReading { stable_key: label.to_owned(), label: label.to_owned(), millidegrees_celsius }
}

fn supply(name: &str, kind: &str, capacity: Option<u8>) -> PowerSupplySnapshot {
    PowerSupplySnapshot {
        name: name.to_owned(),
        kind: Some(kind.to_owned()),
        scope: None,
        capacity_percent: capacity,
        status: None,
        health: None,
        cycle_count: None,
        energy_now_microwatt_hours: None,
        energy_full_microwatt_hours: None,
        power_microwatts: None,
        remaining_seconds: None,
    }
}

#[test]
fn readouts_pick_the_hottest_sensor_lowest_battery_and_busiest_gpu() {
    let readings = vec![temperature("a", 40_000), temperature("b", 55_000), temperature("c", 55_000)];
    assert_eq!(hottest_temperature(&readings), Some(2));
    assert_eq!(hottest_temperature(&[]), None);

    let supplies = vec![
        supply("AC", "Mains", Some(3)),
        supply("BAT0", "Battery", Some(40)),
        supply("BAT1", "BATTERY", Some(20)),
        supply("BAT2", "battery", Some(20)),
        supply("BAT3", "battery", None),
    ];
    assert_eq!(lowest_battery(&supplies), Some(2));
    assert_eq!(lowest_battery(&supplies[..1]), None);

    let gpus = vec![
        GpuSnapshot { device: "card0".to_owned(), label: None, busy_percent: Some(30) },
        GpuSnapshot { device: "card1".to_owned(), label: None, busy_percent: None },
        GpuSnapshot { device: "card2".to_owned(), label: None, busy_percent: Some(70) },
    ];
    assert_eq!(busiest_gpu(&gpus), Some(70));
    assert_eq!(busiest_gpu(&gpus[1..2]), None);
}
