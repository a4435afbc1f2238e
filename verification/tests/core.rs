use kestrel::text_parse::search_matches;
use kestrel::capability::{
    CapabilityEvidence, CapabilityReport, CapabilityStatus, CostLevel, FeatureSpec, ResourceCost,
};
use kestrel::configuration::{
    AppearancePreference, ApplicationConfiguration, ConfigurationError, PanelSection,
    PanelSectionConfiguration, CURRENT_CONFIGURATION_SCHEMA_VERSION, validate_feature_id,
};

#[test]
fn feature_spec_preserves_its_capability_status() {
    let feature = FeatureSpec::new("audio.mixer", "Audio mixer", CapabilityStatus::Supported);

    assert_eq!(feature.id, "audio.mixer");
    assert_eq!(feature.capability, CapabilityStatus::Supported);
}

#[test]
fn capability_report_preserves_status_and_remediation() {
    let report = CapabilityReport::new(
        "clipboard.history",
        CapabilityStatus::Limited {
            reason: "History is disabled by default.".to_string(),
        },
        "Clipboard history requires opt-in.",
    )
    .with_selected_backend("Wayland data-control")
    .with_remediation("Enable history after configuring retention bounds.")
    .with_alternative("X11 selection")
    .with_evidence(CapabilityEvidence::new("clipboard_content_read", "false"));

    assert!(matches!(report.status, CapabilityStatus::Limited { .. }));
    assert_eq!(
        report.remediation.as_deref(),
        Some("Enable history after configuring retention bounds.")
    );
    assert_eq!(report.evidence[0].key, "clipboard_content_read");
    assert_eq!(report.selected_backend.as_deref(), Some("Wayland data-control"));
    assert_eq!(report.alternatives_considered, vec!["X11 selection".to_string()]);
}

#[test]
fn configuration_tracks_enablement_by_stable_feature_id() {
    let mut configuration = ApplicationConfiguration::default();

    configuration
        .set_feature_enabled("audio.mixer", true)
        .expect("valid feature ID");

    assert!(configuration.feature_enabled("audio.mixer"));
    assert!(!configuration.feature_enabled("clipboard.history"));
    assert_eq!(
        configuration.schema_version,
        CURRENT_CONFIGURATION_SCHEMA_VERSION
    );
}

#[test]
fn configuration_rejects_malformed_feature_ids() {
    let mut configuration = ApplicationConfiguration::default();

    let error = configuration
        .set_feature_enabled("not a feature", true)
        .expect_err("spaces are not valid in stable feature IDs");

    assert_eq!(
        error,
        ConfigurationError::InvalidFeatureId {
            feature_id: "not a feature".to_string(),
        }
    );
}

#[test]
fn defaults_cover_presentation_and_static_cost_contracts() {
    let configuration = ApplicationConfiguration::default();
    assert_eq!(configuration.ui.appearance, AppearancePreference::System);
    assert_eq!(configuration.ui.panel_sections.len(), 3);
    assert!(
        configuration
            .ui
            .panel_sections
            .iter()
            .all(|section| section.visible)
    );
    assert!(!configuration.startup.autostart);

    let feature = FeatureSpec::new(
        "system.monitor",
        "System monitor",
        CapabilityStatus::Supported,
    )
    .with_configurable(false)
    .with_cost(ResourceCost {
        idle: CostLevel::Low,
        interaction: CostLevel::Moderate,
        polling: CostLevel::Low,
    });
    assert!(!feature.configurable);
    assert_eq!(feature.cost.polling, CostLevel::Low);
}

#[test]
fn feature_snapshot_restores_absence_and_values_exactly() {
    let mut configuration = ApplicationConfiguration::default();
    configuration
        .set_feature_enabled("audio.mixer", true)
        .expect("valid feature ID");
    let snapshot = configuration.snapshot_features();
    configuration.features.clear();
    configuration
        .set_feature_enabled("clipboard.history", false)
        .expect("valid feature ID");
    configuration.restore_feature_snapshot(snapshot);
    assert!(configuration.feature_enabled("audio.mixer"));
    assert!(!configuration.features.contains_key("clipboard.history"));
}

#[test]
fn feature_ids_follow_the_segment_rules() {
    for valid in ["audio.mixer", "a", "power.keep-awake", "x_1.y-2.z"] {
        assert!(validate_feature_id(valid).is_ok(), "{valid}");
    }
    for invalid in ["", ".", "audio.", ".audio", "audio..mixer", "audio mixer", "audio/mixer", "é"] {
        assert_eq!(
            validate_feature_id(invalid),
            Err(ConfigurationError::InvalidFeatureId {
                feature_id: invalid.to_string()
            }),
            "{invalid}"
        );
    }
}

#[test]
fn feature_map_keeps_keys_in_order_and_replaces_values() {
    let mut configuration = ApplicationConfiguration::default();
    configuration.set_feature_enabled("zeta", true).unwrap();
    configuration.set_feature_enabled("alpha", false).unwrap();
    configuration.set_feature_enabled("mid.dle", true).unwrap();
    configuration.set_feature_enabled("alpha", true).unwrap();
    let keys: Vec<&str> = configuration
        .features
        .entries()
        .iter()
        .map(|(key, _)| key.as_str())
        .collect();
    assert_eq!(keys, vec!["alpha", "mid.dle", "zeta"]);
    assert!(configuration.feature_enabled("alpha"));
    assert_eq!(configuration.features.len(), 3);
}

#[test]
fn restore_by_reference_keeps_the_snapshot() {
    let mut configuration = ApplicationConfiguration::default();
    configuration.set_feature_enabled("audio.mixer", false).unwrap();
    let snapshot = configuration.feature_configuration_snapshot();
    configuration.set_feature_enabled("audio.mixer", true).unwrap();
    configuration.restore_features(&snapshot);
    assert!(configuration.features.contains_key("audio.mixer"));
    assert!(!configuration.feature_enabled("audio.mixer"));
    assert!(snapshot.features.contains_key("audio.mixer"));
}

#[test]
fn validation_reports_schema_ids_and_panel_shape() {
    let mut configuration = ApplicationConfiguration::default();
    assert_eq!(configuration.validate(), Ok(()));

    configuration.schema_version = 7;
    assert_eq!(
        configuration.validate(),
        Err(ConfigurationError::UnsupportedSchemaVersion { version: 7 })
    );
    configuration.schema_version = CURRENT_CONFIGURATION_SCHEMA_VERSION;

    configuration.ui.panel_sections.push(PanelSectionConfiguration {
        section: PanelSection::FeatureHub,
        visible: false,
    });
    assert_eq!(
        configuration.validate(),
        Err(ConfigurationError::DuplicatePanelSection)
    );
    configuration.ui.panel_sections.truncate(1);
    assert_eq!(
        configuration.validate(),
        Err(ConfigurationError::MissingPanelSection)
    );
}

#[test]
fn settings_search_trims_and_ignores_case() {
    assert!(search_matches("   ", "Feature Hub"));
    assert!(search_matches("  HUB ", "Feature Hub"));
    assert!(search_matches("ÉTÉ", "Un été chaud"));
    assert!(!search_matches("clipboard", "Feature Hub"));
    assert!(!search_matches("feature hub and more", "Feature Hub"));
}
