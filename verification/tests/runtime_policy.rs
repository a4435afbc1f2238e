use kestrel::capability::{CapabilityStatus, CostLevel};
use kestrel::configuration::{ApplicationConfiguration, PanelSection, PanelSectionConfiguration};
use kestrel::quick_toggles::QuickToggleId;
use kestrel::runtime::{
    apply_preset_features, builtin_features, default_enabled, move_panel_section,
    preset_enabled, quick_toggle_cost, undo_preset_features, FeaturePreset, PanelMoveDirection,
};

#[test]
fn panel_movement_is_bounded_and_deterministic() {
    let mut sections = vec![
        PanelSectionConfiguration {
            section: PanelSection::QuickControls,
            visible: true,
        },
        PanelSectionConfiguration {
            section: PanelSection::FeatureHub,
            visible: false,
        },
    ];
    assert!(!move_panel_section(&mut sections, PanelSection::QuickControls, PanelMoveDirection::Up));
    assert!(move_panel_section(&mut sections, PanelSection::QuickControls, PanelMoveDirection::Down));
    assert_eq!(sections[0].section, PanelSection::FeatureHub);
    assert_eq!(sections[1].section, PanelSection::QuickControls);
    assert!(!move_panel_section(&mut sections, PanelSection::QuickControls, PanelMoveDirection::Down));
    assert!(move_panel_section(&mut sections, PanelSection::QuickControls, PanelMoveDirection::Up));
    assert_eq!(sections[0].section, PanelSection::QuickControls);
    assert!(!sections[1].visible);
}

#[test]
fn preset_policy_is_observable_and_undo_restores_the_exact_feature_map() {
    let mut configuration = ApplicationConfiguration::default();
    configuration.set_feature_enabled("clipboard.history", true).unwrap();
    configuration.set_feature_enabled("unrelated.feature", false).unwrap();
    let configurable = ["system.monitor", "audio.mixer", "clipboard.history", "global.shortcuts", "power.keep-awake"];
    let before = configuration.features.entries().to_vec();

    let snapshot = apply_preset_features(&mut configuration, &configurable, FeaturePreset::Essentials);
    assert!(configuration.feature_enabled("system.monitor"));
    assert!(configuration.feature_enabled("audio.mixer"));
    assert!(!configuration.feature_enabled("clipboard.history"));
    assert!(!configuration.feature_enabled("global.shortcuts"));
    assert!(configuration.feature_enabled("power.keep-awake"));
    assert!(configuration.features.contains_key("unrelated.feature"));

    undo_preset_features(&mut configuration, snapshot);
    assert_eq!(configuration.features.entries(), before.as_slice());
    assert!(!configuration.features.contains_key("system.monitor"));
}

#[test]
fn presets_name_their_policy() {
    assert!(preset_enabled(FeaturePreset::Balanced, "audio.mixer"));
    assert!(!preset_enabled(FeaturePreset::Balanced, "clipboard.history"));
    assert!(preset_enabled(FeaturePreset::Everything, "global.shortcuts"));
    assert!(!preset_enabled(FeaturePreset::Essentials, "radio.wifi"));
    assert_eq!(FeaturePreset::Balanced.label(), "Balanced");
    assert_eq!(
        FeaturePreset::Essentials.description(),
        "Core monitoring, audio, power, and session controls."
    );
    assert!(default_enabled("radio.wifi"));
    assert!(!default_enabled("audio.mixer"));
    assert_eq!(quick_toggle_cost(QuickToggleId::BatteryAlerts).polling, CostLevel::Low);
}

#[test]
fn builtin_features_follow_configuration() {
    let mut configuration = ApplicationConfiguration::default();
    configuration.set_feature_enabled("audio.mixer", true).unwrap();
    configuration.set_feature_enabled("radio.wifi", false).unwrap();
    let features = builtin_features(&configuration, CapabilityStatus::Supported);
    assert_eq!(features.len(), 18);
    assert_eq!(features[0].feature.id, "app.command-surface");
    assert!(features[0].enabled && !features[0].feature.configurable);
    assert!(features[1].enabled);
    assert!(!features[2].enabled);
    assert!(features[3].enabled);
    let wifi = features.iter().find(|entry| entry.feature.id == "radio.wifi").unwrap();
    assert!(!wifi.enabled);
    let bluetooth = features.iter().find(|entry| entry.feature.id == "radio.bluetooth").unwrap();
    assert!(bluetooth.enabled);
    let tray_unavailable = builtin_features(
        &configuration,
        CapabilityStatus::Unsupported { reason: "none".to_string() },
    );
    assert!(!tray_unavailable[1].enabled);
}
