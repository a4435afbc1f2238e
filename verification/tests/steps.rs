use kestrel::alerts::{AlertEngine, AlertEvent, AlertKind, AlertObservation, AlertPolicy, AlertRule, ALERT_KINDS};
use kestrel::capability::{CapabilityReport, CapabilityStatus, FeatureSpec};
use kestrel::clipboard::{ClipboardError, ClipboardErrorKind, ClipboardProvider};
use kestrel::clipboard_history::{ClipboardLifecycle, ClipboardPolicy, ClipboardWorker};
use kestrel::configuration::{validate_feature_id, ApplicationConfiguration};
use kestrel::controller::{ControllerEffects, ControllerState};
use kestrel::proc_monitor::{
    disk_usage_metric, gpu_metric, power_supply_reading, DrmEntry, MountEntry, SupplyAttributes,
};
use kestrel::quick_toggles::ALL_QUICK_TOGGLES;
use kestrel::registry::{FeatureRegistry, StaticCapabilityProbe};
use kestrel::runtime::FeaturePreset;
use kestrel::system_monitor::Metric;
use kestrel::toggle_service::QuickToggleCommand;

fn card(name: &str, directory: bool, device: Option<&str>, busy: Option<&str>) -> DrmEntry {
    DrmEntry {
        name: name.to_string(),
        directory,
        device: device.map(str::to_string),
        busy: busy.map(str::to_string),
    }
}

#[test]
fn gpu_metric_keeps_cards_with_a_device_and_caps_busy_at_one_hundred() {
    let entries = vec![
        card("card0", true, Some("devices/pci0000:00/0000:00:02.0"), Some("155")),
        card("card0-eDP-1", true, Some("devices/connector"), Some("10")),
        card("card1", true, None, Some("40")),
        card("renderD128", true, Some("devices/render"), Some("20")),
        card("card2", true, Some("devices/pci0000:00/0000:01:00.0"), None),
        card("card3", false, Some("devices/file"), Some("30")),
    ];
    match gpu_metric(&entries) {
        Metric::Available(gpus) => {
            assert_eq!(gpus.len(), 2);
            assert_eq!(gpus[0].device, "devices/pci0000:00/0000:00:02.0");
            assert_eq!(gpus[0].busy_percent, Some(100));
            assert_eq!(gpus[0].label.as_deref(), Some("card0"));
            assert_eq!(gpus[1].device, "devices/pci0000:00/0000:01:00.0");
            assert_eq!(gpus[1].busy_percent, None);
        }
        other => panic!("expected readings, got {other:?}"),
    }
}

#[test]
fn gpu_metric_without_busy_values_names_the_missing_adapter() {
    let entries = vec![card("card0", true, Some("devices/gpu"), None), card("card1", true, None, Some("12"))];
    match gpu_metric(&entries) {
        Metric::Unavailable(issue) => {
            assert_eq!(issue.source, "/sys/class/drm");
            assert_eq!(
                issue.reason,
                "no GPU exposes gpu_busy_percent; NVIDIA requires an NVML adapter that is not registered yet"
            );
        }
        other => panic!("expected an unavailable metric, got {other:?}"),
    }
}

#[test]
fn gpu_metric_reads_at_most_eight_cards() {
    let entries: Vec<DrmEntry> = (0..10)
        .map(|index| DrmEntry {
            name: format!("card{index}"),
            directory: true,
            device: Some(format!("devices/gpu{index}")),
            busy: Some("5".to_string()),
        })
        .collect();
    match gpu_metric(&entries) {
        Metric::Available(gpus) => {
            assert_eq!(gpus.len(), 8);
            assert_eq!(gpus[7].label.as_deref(), Some("card7"));
        }
        other => panic!("expected readings, got {other:?}"),
    }
}

fn mount(device: &str, mount_point: &str) -> MountEntry {
    MountEntry { device: device.to_string(), mount_point: mount_point.to_string(), filesystem: "ext4".to_string() }
}

#[test]
fn disk_usage_keeps_the_mounts_that_could_be_queried() {
    let mounts = vec![mount("/dev/sda1", "/"), mount("/dev/sdb1", "/data")];
    match disk_usage_metric(mounts, &[None, Some((100, 4096, 25))]) {
        Metric::Available(usages) => {
            assert_eq!(usages.len(), 1);
            assert_eq!(usages[0].device, "/dev/sdb1");
            assert_eq!(usages[0].mount_point, "/data");
            assert_eq!(usages[0].total_bytes, 409_600);
            assert_eq!(usages[0].available_bytes, 102_400);
        }
        other => panic!("expected usages, got {other:?}"),
    }
    match disk_usage_metric(vec![mount("/dev/sda1", "/")], &[Some((u64::MAX, 2, 1))]) {
        Metric::Available(usages) => assert_eq!(usages[0].total_bytes, u64::MAX),
        other => panic!("expected usages, got {other:?}"),
    }
    match disk_usage_metric(vec![mount("/dev/sda1", "/")], &[None]) {
        Metric::Unavailable(issue) => {
            assert_eq!(issue.reason, "no mounted /dev/ filesystem could be read with statvfs")
        }
        other => panic!("expected an unavailable metric, got {other:?}"),
    }
}

#[test]
fn power_supply_attributes_parse_within_their_types() {
    let attributes = SupplyAttributes {
        kind: Some("Battery".to_string()),
        scope: None,
        capacity: Some("87".to_string()),
        status: Some("Discharging".to_string()),
        health: None,
        cycle_count: Some("4294967296".to_string()),
        energy_now: Some("41000000".to_string()),
        energy_full: Some("many".to_string()),
        power_now: None,
    };
    let reading = power_supply_reading("BAT0", attributes);
    assert_eq!(reading.name, "BAT0");
    assert_eq!(reading.kind.as_deref(), Some("Battery"));
    assert_eq!(reading.capacity_percent, Some(87));
    assert_eq!(reading.status.as_deref(), Some("Discharging"));
    assert_eq!(reading.cycle_count, None);
    assert_eq!(reading.energy_now_microwatt_hours, Some(41_000_000));
    assert_eq!(reading.energy_full_microwatt_hours, None);
    let oversized = power_supply_reading(
        "BAT1",
        SupplyAttributes {
            kind: None,
            scope: None,
            capacity: Some("300".to_string()),
            status: None,
            health: None,
            cycle_count: Some("12".to_string()),
            energy_now: None,
            energy_full: None,
            power_now: Some("15000000".to_string()),
        },
    );
    assert_eq!(oversized.capacity_percent, None);
    assert_eq!(oversized.cycle_count, Some(12));
    assert_eq!(oversized.power_microwatts, Some(15_000_000));
}

fn small_policy() -> ClipboardPolicy {
    ClipboardPolicy { max_item_bytes: 8, ..ClipboardPolicy::default() }
}

#[test]
fn a_fresh_selection_written_back_is_captured_and_owned() {
    let mut worker = ClipboardWorker::new(small_policy(), ClipboardProvider::X11);
    let take = worker.take_selection(Ok(Some("hello".to_string())), 1_000);
    assert_eq!(take.as_deref(), Some("hello"));
    worker.record_take_over(take.unwrap(), Ok(()), 1_000);
    let snapshot = worker.snapshot(ClipboardLifecycle::Running, 1_000);
    assert_eq!(snapshot.items.len(), 1);
    assert_eq!(snapshot.items[0].size_bytes, 5);
    assert_eq!(worker.take_selection(Ok(Some("hello".to_string())), 1_500), None);
    assert_eq!(worker.snapshot(ClipboardLifecycle::Running, 1_500).items.len(), 1);
}

#[test]
fn an_oversized_selection_is_only_counted() {
    let mut worker = ClipboardWorker::new(small_policy(), ClipboardProvider::X11);
    assert_eq!(worker.take_selection(Ok(Some("far too long".to_string())), 10), None);
    let snapshot = worker.snapshot(ClipboardLifecycle::Running, 10);
    assert!(snapshot.items.is_empty());
    assert_eq!(snapshot.rejected_oversize_items, 1);
    assert_eq!(worker.take_selection(Ok(Some(String::new())), 20), None);
    assert_eq!(worker.snapshot(ClipboardLifecycle::Running, 20).rejected_oversize_items, 1);
}

#[test]
fn a_failed_write_back_captures_nothing_and_is_reported() {
    let mut worker = ClipboardWorker::new(small_policy(), ClipboardProvider::WaylandDataControl);
    let take = worker.take_selection(Ok(Some("secret".to_string())), 5).expect("fresh text is taken over");
    worker.record_take_over(take, Err(ClipboardError::new(ClipboardErrorKind::WriteFailed, "selection is busy")), 5);
    let snapshot = worker.snapshot(ClipboardLifecycle::Running, 5);
    assert!(snapshot.items.is_empty());
    assert_eq!(snapshot.last_error.as_deref(), Some("selection is busy"));
    assert_eq!(worker.take_selection(Ok(Some("secret".to_string())), 6), None);
}

#[test]
fn configurable_ids_and_running_state_follow_the_registrations() {
    let mut registry: FeatureRegistry<StaticCapabilityProbe> = FeatureRegistry::new();
    for (id, configurable) in [("kestrel.command-surface", false), ("system.monitor", true), ("audio.mixer", true)] {
        let feature = FeatureSpec::new(id, "Feature", CapabilityStatus::Supported).with_configurable(configurable);
        let probe = StaticCapabilityProbe::new(CapabilityReport::new(id, CapabilityStatus::Supported, "ok"));
        registry.register_probe(feature, id != "audio.mixer", probe).expect("fresh feature");
    }
    assert_eq!(registry.configurable_feature_ids(), vec!["system.monitor", "audio.mixer"]);
    assert!(!registry.is_running("system.monitor"));
    registry.start_enabled();
    assert!(registry.is_running("system.monitor"));
    assert!(!registry.is_running("audio.mixer"));
    assert!(!registry.is_running("display.brightness"));
}

#[test]
fn every_quick_toggle_id_is_valid_and_unique() {
    let ids: Vec<&str> = ALL_QUICK_TOGGLES.iter().map(|toggle| toggle.feature_id()).collect();
    for id in &ids {
        assert!(validate_feature_id(id).is_ok(), "{id}");
    }
    for (i, first) in ids.iter().enumerate() {
        for second in &ids[i + 1..] {
            assert_ne!(first, second);
        }
    }
    assert_eq!(ids[5], "radio.wifi");
    assert_eq!(ids[11], "power.battery-alerts");
}

struct QuietEffects;

impl ControllerEffects for QuietEffects {
    fn refresh_capabilities(&mut self) -> Result<(), String> {
        Ok(())
    }

    fn execute_quick_toggle(&mut self, _command: QuickToggleCommand) -> Option<Result<(), String>> {
        None
    }

    fn apply_configuration(&mut self, _configuration: &ApplicationConfiguration) -> Result<(), String> {
        Ok(())
    }

    fn configurable_features(&self) -> Vec<&'static str> {
        Vec::new()
    }

    fn persist(&mut self, _configuration: &ApplicationConfiguration) -> Result<(), String> {
        Ok(())
    }

    fn set_autostart(&mut self, _enabled: bool) -> Result<(), String> {
        Ok(())
    }

    fn read_configuration(&mut self, _path: &str) -> Result<String, String> {
        Err("unused".to_string())
    }

    fn export_configuration(&mut self, _path: &str, _configuration: &ApplicationConfiguration) -> Result<(), String> {
        Ok(())
    }
}

#[test]
fn a_preset_decides_exactly_the_given_features() {
    let mut configuration = ApplicationConfiguration::default();
    configuration.set_feature_enabled("radio.wifi", false).unwrap();
    let mut state = ControllerState::new(configuration, Vec::new());
    let message = state
        .apply_preset_to(&mut QuietEffects, FeaturePreset::Essentials, &["system.monitor", "clipboard.history"])
        .unwrap();
    assert_eq!(message, "Essentials preset applied");
    assert!(state.configuration.feature_enabled("system.monitor"));
    assert!(!state.configuration.feature_enabled("clipboard.history"));
    assert!(!state.configuration.feature_enabled("radio.wifi"));
    assert_eq!(state.configuration.features.len(), 3);
    assert_eq!(state.preset_snapshot.as_ref().map(|snapshot| snapshot.features.len()), Some(1));
}

#[test]
fn an_import_that_is_not_toml_is_refused_with_its_reason() {
    let mut state = ControllerState::new(ApplicationConfiguration::default(), Vec::new());
    let error = state.import_contents(&mut QuietEffects, "/x.toml", "[ui").unwrap_err();
    assert!(error.starts_with("Could not import /x.toml: configuration is not valid TOML: "), "{error}");
    let error = state.import_contents(&mut QuietEffects, "/x.toml", "schema_version = -1").unwrap_err();
    assert_eq!(error, "Could not import /x.toml: schema_version must be a non-negative integer");
    let message = state
        .import_contents(&mut QuietEffects, "/x.toml", "schema_version = 3\n[ui]\nappearance = \"dark\"\n")
        .unwrap();
    assert_eq!(message, "Imported configuration from /x.toml");
    assert!(state.warnings.is_empty());
}

fn cpu_policy(sustain: u32) -> AlertPolicy<u32> {
    let rules = ALERT_KINDS
        .iter()
        .map(|kind| AlertRule {
            kind: *kind,
            enabled: true,
            threshold: 90,
            sustain_samples: if *kind == AlertKind::Cpu { sustain } else { 1 },
            cooldown_millis: 60_000,
        })
        .collect();
    AlertPolicy::from_rules(rules).expect("rules in kind order")
}

fn crossing(value: u32) -> Option<AlertObservation<u32>> {
    Some(AlertObservation { value, subject: None, crossing: true, recovered: false })
}

#[test]
fn alerts_come_once_per_kind_in_kind_order_after_sustained_crossings() {
    let mut engine = AlertEngine::new(cpu_policy(3));
    let observations = || vec![crossing(95), None, crossing(96), None, crossing(4)];
    let first = engine.evaluate(observations(), 1_000);
    let kinds: Vec<AlertKind> = first.iter().map(|event| event.kind()).collect();
    assert_eq!(kinds, vec![AlertKind::Memory, AlertKind::Battery]);
    assert!(engine.evaluate(vec![crossing(95), None, None, None, None], 2_000).is_empty());
    let third = engine.evaluate(vec![crossing(97), None, None, None, None], 3_000);
    assert_eq!(third.len(), 1);
    assert!(matches!(third[0], AlertEvent::Raised { kind: AlertKind::Cpu, value: 97, .. }));
    let mut interrupted = AlertEngine::new(cpu_policy(2));
    assert!(interrupted.evaluate(vec![crossing(95), None, None, None, None], 1).is_empty());
    assert!(interrupted.evaluate(vec![None, None, None, None, None], 2).is_empty());
    assert!(interrupted.evaluate(vec![crossing(95), None, None, None, None], 3).is_empty());
    assert_eq!(interrupted.evaluate(vec![crossing(95), None, None, None, None], 4).len(), 1);
}

#[test]
fn releasing_gives_up_exactly_the_owned_selection() {
    let mut worker = ClipboardWorker::new(small_policy(), ClipboardProvider::X11);
    assert_eq!(worker.release_owned(), None);
    let take = worker.take_selection(Ok(Some("mine".to_string())), 1).expect("fresh text is taken over");
    worker.record_take_over(take, Ok(()), 1);
    assert_eq!(worker.release_owned().as_deref(), Some("mine"));
    assert_eq!(worker.release_owned(), None);
    assert_eq!(worker.snapshot(ClipboardLifecycle::Running, 1).items.len(), 1);
}

#[test]
fn a_monitoring_change_to_an_invalid_configuration_is_refused() {
    let mut configuration = ApplicationConfiguration::default();
    configuration.schema_version = 2;
    let mut state = ControllerState::new(configuration, Vec::new());
    let error = state
        .run(
            &mut QuietEffects,
            kestrel::controller::ControllerOperation::SetAlertEnabled { kind: AlertKind::Cpu, enabled: false },
        )
        .unwrap_err();
    assert_eq!(error, "Invalid monitoring configuration: UnsupportedSchemaVersion { version: 2 }");
    assert!(state.configuration.monitoring.alerts.cpu.enabled);
}

#[test]
fn only_running_quick_toggles_are_observed() {
    let mut registry: FeatureRegistry<StaticCapabilityProbe> = FeatureRegistry::new();
    for (id, enabled) in [("radio.wifi", true), ("session.lock", false), ("power.keep-awake", true)] {
        let feature = FeatureSpec::new(id, "Toggle", CapabilityStatus::Supported);
        let probe = StaticCapabilityProbe::new(CapabilityReport::new(id, CapabilityStatus::Supported, "ok"));
        registry.register_probe(feature, enabled, probe).expect("fresh feature");
    }
    assert!(kestrel::runtime::running_toggles(&registry).is_empty());
    registry.start_enabled();
    assert_eq!(
        kestrel::runtime::running_toggles(&registry),
        vec![kestrel::quick_toggles::QuickToggleId::KeepAwake, kestrel::quick_toggles::QuickToggleId::Wifi]
    );
}
