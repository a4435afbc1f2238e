use serde::Deserialize;
use kestrel::config_import::{import_string, ConfigurationLoadError};
use kestrel::configuration::{
    AppearancePreference, PanelSection, CURRENT_CONFIGURATION_SCHEMA_VERSION,
};
use kestrel::monitor_config::{AlertThreshold, MonitorConfiguration, MonitorReadout};
use kestrel::monitor_service::DEFAULT_HISTORY_SAMPLES;

fn parse(contents: &str) -> Result<kestrel::config_import::LoadedConfiguration, ConfigurationLoadError> {
    import_string(contents)
}

#[test]
fn migrates_legacy_enabled_features() {
    let loaded = parse("enabled_features = [\"audio.mixer\"]").expect("legacy config migrates");
    assert!(loaded.configuration.feature_enabled("audio.mixer"));
    assert_eq!(
        loaded.configuration.schema_version,
        CURRENT_CONFIGURATION_SCHEMA_VERSION
    );
}

#[test]
fn migrates_v1_and_parses_v2_globals() {
    let loaded = parse(
        r#"
schema_version = 1
[features."audio.mixer"]
enabled = true
"#,
    )
    .expect("v1 config migrates");
    assert!(loaded.configuration.feature_enabled("audio.mixer"));
    assert_eq!(
        loaded.configuration.ui.appearance,
        AppearancePreference::System
    );

    let loaded = parse(
        r#"
schema_version = 2
[ui]
appearance = "dark"
[[ui.panel_sections]]
section = "feature_hub"
visible = false
[[ui.panel_sections]]
section = "quick_controls"
visible = true
[startup]
autostart = true
"#,
    )
    .expect("v2 config parses");
    assert_eq!(
        loaded.configuration.ui.appearance,
        AppearancePreference::Dark
    );
    assert!(!loaded.configuration.ui.panel_sections[0].visible);
    assert!(loaded.configuration.startup.autostart);
}

#[test]
fn malformed_v2_siblings_are_isolated() {
    let loaded = parse(
        r#"
schema_version = 2
[features."audio.mixer"]
enabled = true
[features.clipboard]
enabled = "yes"
[ui]
appearance = "invalid"
[[ui.panel_sections]]
section = "quick_controls"
visible = false
[[ui.panel_sections]]
section = "quick_controls"
visible = true
[startup]
autostart = "yes"
"#,
    )
    .expect("document itself is valid TOML");
    assert!(loaded.configuration.feature_enabled("audio.mixer"));
    assert_eq!(
        loaded.configuration.ui.panel_sections[0].section,
        PanelSection::QuickControls
    );
    assert!(!loaded.configuration.ui.panel_sections[0].visible);
    assert!(!loaded.configuration.startup.autostart);
    assert!(loaded
        .warnings
        .iter()
        .any(|warning| warning.feature_id == "features.clipboard"));
    assert!(loaded
        .warnings
        .iter()
        .any(|warning| warning.feature_id == "ui.appearance"));
    assert!(loaded
        .warnings
        .iter()
        .any(|warning| warning.feature_id == "ui.panel_sections[1]"));
    assert!(loaded
        .warnings
        .iter()
        .any(|warning| warning.feature_id == "startup.autostart"));
}

#[test]
fn missing_sections_are_restored_in_default_order_with_warnings() {
    let loaded = parse(
        r#"
schema_version = 3
[[ui.panel_sections]]
section = "feature_hub"
visible = false
"#,
    )
    .expect("valid TOML");
    let sections = &loaded.configuration.ui.panel_sections;
    assert_eq!(sections.len(), 3);
    assert_eq!(sections[0].section, PanelSection::FeatureHub);
    assert!(!sections[0].visible);
    assert_eq!(sections[1].section, PanelSection::QuickControls);
    assert!(sections[1].visible);
    assert_eq!(sections[2].section, PanelSection::Monitoring);
    assert!(sections[2].visible);
    assert_eq!(loaded.warnings.len(), 2);
    assert_eq!(loaded.warnings[0].feature_id, "ui.panel_sections");
    assert_eq!(
        loaded.warnings[0].reason,
        "Missing QuickControls panel section; its default was restored."
    );
    assert_eq!(
        loaded.warnings[1].reason,
        "Missing Monitoring panel section; its default was restored."
    );
}

#[test]
fn document_level_errors_stop_the_import() {
    assert!(matches!(
        parse("schema_version = 9"),
        Err(ConfigurationLoadError::UnsupportedSchemaVersion(9))
    ));
    assert!(matches!(
        parse("schema_version = -1"),
        Err(ConfigurationLoadError::InvalidSchemaVersion)
    ));
    assert!(matches!(
        parse("schema_version = \"2\""),
        Err(ConfigurationLoadError::InvalidSchemaVersion)
    ));
    assert!(matches!(
        parse("this is = = not toml"),
        Err(ConfigurationLoadError::InvalidToml { .. })
    ));
}

#[test]
fn legacy_entries_are_checked_one_by_one() {
    let loaded = parse(r#"enabled_features = ["audio.mixer", 3, "audio.mixer", "bad id"]"#)
        .expect("valid TOML");
    assert!(loaded.configuration.feature_enabled("audio.mixer"));
    let locations: Vec<&str> = loaded
        .warnings
        .iter()
        .map(|warning| warning.feature_id.as_str())
        .collect();
    assert_eq!(
        locations,
        vec!["enabled_features[1]", "features.audio.mixer", "features.bad id"]
    );
    assert_eq!(
        loaded.warnings[2].reason,
        "Feature settings were ignored: InvalidFeatureId { feature_id: \"bad id\" }"
    );
    let loaded = parse("enabled_features = \"audio.mixer\"").expect("valid TOML");
    assert_eq!(loaded.warnings[0].feature_id, "enabled_features");
    assert!(loaded.configuration.features.is_empty());
}

#[test]
fn non_table_sections_are_reported_and_defaults_kept() {
    let loaded = parse("schema_version = 3\nfeatures = 1\nui = true\nstartup = []\nmonitoring = 5\n")
        .expect("valid TOML");
    let locations: Vec<&str> = loaded
        .warnings
        .iter()
        .map(|warning| warning.feature_id.as_str())
        .collect();
    assert_eq!(locations, vec!["features", "ui", "startup", "monitoring"]);
    assert_eq!(loaded.configuration.ui.panel_sections.len(), 3);
}

#[test]
fn empty_document_is_the_default_configuration() {
    let loaded = parse("").expect("empty document is valid");
    assert!(loaded.warnings.is_empty());
    assert_eq!(
        loaded.configuration,
        kestrel::configuration::ApplicationConfiguration::default()
    );
}

#[test]
fn migrates_v2_with_monitoring_defaults_and_restored_panel() {
    let loaded = parse(
        r#"
schema_version = 2
[ui]
[[ui.panel_sections]]
section = "quick_controls"
visible = false
[[ui.panel_sections]]
section = "feature_hub"
visible = true
"#,
    )
    .expect("v2 config migrates");
    assert_eq!(loaded.configuration.monitoring, MonitorConfiguration::default());
    assert_eq!(
        loaded
            .configuration
            .ui
            .panel_sections
            .last()
            .map(|entry| entry.section),
        Some(PanelSection::Monitoring)
    );
    assert!(loaded.warnings.iter().any(|warning| warning.feature_id == "ui.panel_sections"
        && warning.reason == "Missing Monitoring panel section; its default was restored."));
}

#[test]
fn malformed_monitoring_fields_are_isolated() {
    let loaded = parse(
        r#"
schema_version = 3
[monitoring]
refresh_interval_millis = 500
history_samples = 0
readouts = ["network", "unknown", "network", "cpu"]
[monitoring.alerts.cpu]
enabled = false
threshold = 101.0
sustain_samples = 7
cooldown_seconds = 42
[monitoring.alerts.temperature]
threshold = 125.0
sustain_samples = "bad"
"#,
    )
    .expect("document itself is valid TOML");
    assert_eq!(loaded.configuration.monitoring.refresh_interval_millis, 500);
    assert_eq!(loaded.configuration.monitoring.history_samples, DEFAULT_HISTORY_SAMPLES);
    assert_eq!(
        loaded.configuration.monitoring.readouts,
        vec![MonitorReadout::Network, MonitorReadout::Cpu]
    );
    assert!(!loaded.configuration.monitoring.alerts.cpu.enabled);
    assert_eq!(
        loaded.configuration.monitoring.alerts.cpu.threshold,
        AlertThreshold::FloatBits(90.0f64.to_bits())
    );
    assert_eq!(loaded.configuration.monitoring.alerts.cpu.sustain_samples, 7);
    assert_eq!(loaded.configuration.monitoring.alerts.cpu.cooldown_seconds, 42);
    assert_eq!(
        loaded.configuration.monitoring.alerts.temperature.threshold,
        AlertThreshold::FloatBits(125.0f64.to_bits())
    );
    assert_eq!(loaded.configuration.monitoring.alerts.temperature.sustain_samples, 3);
    for location in [
        "monitoring.history_samples",
        "monitoring.readouts[1]",
        "monitoring.readouts[2]",
        "monitoring.alerts.cpu.threshold",
        "monitoring.alerts.temperature.sustain_samples",
    ] {
        assert!(loaded.warnings.iter().any(|warning| warning.feature_id == location));
    }
}

#[test]
fn monitoring_reasons_and_unknown_kinds_are_reported_in_order() {
    let loaded = parse(
        r#"
schema_version = 3
[monitoring]
refresh_interval_millis = 60001
readouts = []
[monitoring.alerts]
gpu = 1
[monitoring.alerts.battery]
threshold = 20
cooldown_seconds = 86401
[monitoring.alerts.disk]
threshold = -0.0
"#,
    )
    .expect("valid TOML");
    let warnings: Vec<(&str, &str)> = loaded
        .warnings
        .iter()
        .map(|warning| (warning.feature_id.as_str(), warning.reason.as_str()))
        .collect();
    assert_eq!(
        warnings,
        vec![
            (
                "monitoring.refresh_interval_millis",
                "Refresh interval must be between 250 and 60000 milliseconds; the default was retained."
            ),
            (
                "monitoring.readouts",
                "Monitor readouts were empty or invalid; the default list was retained."
            ),
            (
                "monitoring.alerts.disk.threshold",
                "Alert threshold must be finite, greater than zero, and no greater than 100; the default was retained."
            ),
            (
                "monitoring.alerts.battery.cooldown_seconds",
                "Alert cooldown must be no greater than 86400 seconds; the default was retained."
            ),
            ("monitoring.alerts.gpu", "Unknown alert kind was ignored."),
        ]
    );
    assert_eq!(loaded.configuration.monitoring.alerts.battery.threshold, AlertThreshold::Whole(20));
    assert_eq!(loaded.configuration.monitoring.readouts.len(), 8);
}

#[test]
fn version_one_gets_no_monitoring_warning_and_version_two_names_it_once() {
    let loaded = parse("schema_version = 1\n").expect("valid TOML");
    assert!(loaded.warnings.is_empty());
    let loaded = parse("schema_version = 2\n").expect("valid TOML");
    assert_eq!(loaded.warnings.len(), 1);
    assert_eq!(loaded.configuration.ui.panel_sections.len(), 3);
    let loaded = parse(
        "schema_version = 2\n[[ui.panel_sections]]\nsection = \"quick_controls\"\nvisible = true\n",
    )
    .expect("valid TOML");
    let restored = loaded
        .warnings
        .iter()
        .filter(|warning| warning.reason == "Missing Monitoring panel section; its default was restored.")
        .count();
    assert_eq!(restored, 1);
}

#[test]
fn setting_reasons_carry_the_deserializer_messages() {
    let loaded = parse(
        "schema_version = 3\n[features.\"audio.mixer\"]\nenabled = 5\n[startup]\nautostart = \"yes\"\n[ui]\nappearance = 1.0\n[monitoring]\nreadouts = [\"fan\"]\n",
    )
    .expect("valid TOML");
    let reasons: Vec<String> = loaded.warnings.iter().map(|warning| warning.reason.clone()).collect();
    let bool_error = bool::deserialize(toml::Value::String("yes".to_owned())).unwrap_err();
    assert_eq!(
        reasons,
        vec![
            "Feature settings are invalid and were ignored: invalid type: integer `5`, expected a boolean\nin `enabled`\n"
                .to_owned(),
            "Appearance preference is invalid and defaults were retained: invalid type: unit variant, expected string only\n"
                .to_owned(),
            format!("Autostart preference is invalid and defaults were retained: {bool_error}"),
            "Monitor readout is unknown or invalid and was ignored: unknown variant `fan`, expected one of `cpu`, `memory`, `swap`, `disk`, `network`, `temperature`, `battery`, `gpu`\n"
                .to_owned(),
            "Monitor readouts were empty or invalid; the default list was retained.".to_owned(),
        ]
    );
    assert_eq!(
        format!("{bool_error}"),
        "invalid type: string \"yes\", expected a boolean\n"
    );
}
