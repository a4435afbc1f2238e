use kestrel::capability::{
    CapabilityReport, CapabilityStatus, CostLevel, FeatureSpec, Permission, ResourceCost,
};
use kestrel::config_import::ConfigurationWarning;
use kestrel::configuration::{
    AppearancePreference, ApplicationConfiguration, PanelSection, PanelSectionConfiguration,
};
use kestrel::quick_toggles::QuickToggleId;
use kestrel::registry::ServiceRegistration;
use kestrel::toggle_service::{QuickToggleSnapshot, ToggleStateSource};
use kestrel::view_model::{
    feature_subtitle, ApplicationViewModel, CapabilityKindViewModel, CapabilityStatusViewModel,
    FeatureLifecycleViewModel, FeatureViewModel, ResourceCostViewModel,
};

#[test]
fn extracts_disabled_supported_feature_without_runtime_ownership() {
    let feature = FeatureSpec::new("test.feature", "Test feature", CapabilityStatus::Supported);
    let report = CapabilityReport::new(
        "test.feature",
        CapabilityStatus::Supported,
        "The feature is ready.",
    )
    .with_selected_backend("Test backend");
    let registration =
        ServiceRegistration::new(feature, report, false).expect("matching feature IDs");

    let view_model = FeatureViewModel::from(&registration);

    assert_eq!(view_model.id, "test.feature");
    assert!(!view_model.enabled);
    assert!(view_model.registered);
    assert!(view_model.configurable);
    assert_eq!(view_model.lifecycle, FeatureLifecycleViewModel::Registered);
    assert_eq!(view_model.lifecycle.label(), "Disabled");
    assert_eq!(
        view_model.capability.status.kind,
        CapabilityKindViewModel::Supported
    );
    assert_eq!(view_model.capability.status.label, "Supported");
    assert_eq!(
        view_model.capability.selected_backend.as_deref(),
        Some("Test backend")
    );
}

#[test]
fn preserves_unavailable_capability_detail_and_remediation() {
    let feature = FeatureSpec::new(
        "test.shortcuts",
        "Shortcuts",
        CapabilityStatus::NeedsPermission {
            permission: Permission::GlobalShortcut,
        },
    );
    let report = CapabilityReport::new(
        "test.shortcuts",
        CapabilityStatus::NeedsPermission {
            permission: Permission::GlobalShortcut,
        },
        "Shortcut permission is required.",
    )
    .with_remediation("Grant access or use the normal window.");
    let registration =
        ServiceRegistration::new(feature, report, true).expect("matching feature IDs");

    let view_model = FeatureViewModel::from(&registration);

    assert_eq!(view_model.lifecycle, FeatureLifecycleViewModel::Unavailable);
    assert_eq!(
        view_model.capability.status.kind,
        CapabilityKindViewModel::NeedsPermission
    );
    assert_eq!(view_model.capability.status.label, "Needs permission");
    assert_eq!(
        view_model.capability.status.detail.as_deref(),
        Some("Global shortcut")
    );
    assert_eq!(
        view_model
            .capability
            .remediation
            .as_ref()
            .map(|value| (value.title, value.message.as_str())),
        Some((
            "Permission required",
            "Grant access or use the normal window."
        ))
    );
}

#[test]
fn maps_limited_and_missing_dependency_details() {
    assert_eq!(
        CapabilityStatusViewModel::from(&CapabilityStatus::Limited {
            reason: "Only one provider is available.".to_string(),
        }),
        CapabilityStatusViewModel {
            kind: CapabilityKindViewModel::Limited,
            label: "Limited",
            detail: Some("Only one provider is available.".to_string()),
        }
    );
    assert_eq!(
        CapabilityStatusViewModel::from(&CapabilityStatus::MissingDependency {
            name: "example-service".to_string(),
        }),
        CapabilityStatusViewModel {
            kind: CapabilityKindViewModel::MissingDependency,
            label: "Missing dependency",
            detail: Some("example-service".to_string()),
        }
    );
}

#[test]
fn unavailable_quick_toggle_uses_its_capability_summary() {
    let id = QuickToggleId::Brightness;
    let status = CapabilityStatus::Unsupported {
        reason: "No internal backlight was found.".to_owned(),
    };
    let report = CapabilityReport::new(id.feature_id(), status.clone(), "No backlight adapter exists.");
    let feature = FeatureSpec::new(id.feature_id(), id.label(), status);
    let registration =
        ServiceRegistration::new(feature, report, true).expect("matching feature IDs");
    let snapshot = QuickToggleSnapshot {
        id,
        label: id.label(),
        requirement: id.requirement(),
        observation: None,
        source: ToggleStateSource::ProviderObserved,
        error: None,
    };
    let configuration = ApplicationConfiguration::default();
    let view_model = ApplicationViewModel::new(
        std::slice::from_ref(&registration),
        std::slice::from_ref(&snapshot),
        &[],
        &configuration,
        false,
    );
    assert!(!view_model.quick_toggles[0].available);
    assert_eq!(
        view_model.quick_toggles[0].detail,
        "No backlight adapter exists."
    );
    assert_eq!(view_model.quick_toggles[0].source, "Provider-observed state");
}

#[test]
fn copies_configuration_warnings_into_owned_presentation_state() {
    let warnings = vec![ConfigurationWarning {
        feature_id: "audio.mixer".to_string(),
        reason: "Invalid volume preference.".to_string(),
    }];
    let configuration = ApplicationConfiguration::default();
    let view_model = ApplicationViewModel::new(&[], &[], &warnings, &configuration, false);
    assert!(view_model.features.is_empty());
    assert_eq!(view_model.warnings[0].feature_id, "audio.mixer");
    assert_eq!(view_model.warnings[0].message, "Invalid volume preference.");
}

#[test]
fn exposes_presentation_preferences_and_reversible_state() {
    let mut configuration = ApplicationConfiguration::default();
    configuration.ui.appearance = AppearancePreference::Dark;
    configuration.startup.autostart = true;
    configuration.ui.panel_sections = vec![
        PanelSectionConfiguration {
            section: PanelSection::FeatureHub,
            visible: false,
        },
        PanelSectionConfiguration {
            section: PanelSection::QuickControls,
            visible: true,
        },
    ];
    let view_model = ApplicationViewModel::new(&[], &[], &[], &configuration, true);
    assert_eq!(view_model.appearance, AppearancePreference::Dark);
    assert!(view_model.autostart);
    assert!(view_model.can_undo);
    assert_eq!(view_model.panel_sections[0].section, PanelSection::FeatureHub);
    assert!(!view_model.panel_sections[0].visible);
}

#[test]
fn cost_summary_names_each_level() {
    let cost = ResourceCostViewModel::from(ResourceCost::new(
        CostLevel::Zero,
        CostLevel::Moderate,
        CostLevel::Low,
    ));
    assert_eq!(cost.summary(), "Idle: none; interaction: moderate; polling: low");
    assert_eq!(FeatureLifecycleViewModel::Running.label(), "Running");
    assert_eq!(FeatureLifecycleViewModel::Available.label(), "Ready");
}

#[test]
fn feature_hub_subtitle_names_state_cost_capability_and_backend() {
    let feature = FeatureSpec::new("test.feature", "Test feature", CapabilityStatus::Supported);
    let report = CapabilityReport::new("test.feature", CapabilityStatus::Supported, "The feature is ready.")
        .with_selected_backend("Test backend");
    let registration = ServiceRegistration::new(feature, report, false).expect("matching feature IDs");
    let view_model = FeatureViewModel::from(&registration);
    assert_eq!(
        feature_subtitle(&view_model),
        "The feature is ready.\nState: Disabled (registered yes, enabled no, available yes, running no, configurable yes)\nCost: Idle: none; interaction: none; polling: none. Capability: Supported. Backend: Test backend."
    );
    let limited = FeatureSpec::new("test.other", "Other", CapabilityStatus::Supported);
    let report = CapabilityReport::new(
        "test.other",
        CapabilityStatus::NeedsPermission { permission: Permission::Camera },
        "Needs the camera.",
    )
    .with_remediation("Grant camera access.");
    let registration = ServiceRegistration::new(limited, report, true).expect("matching feature IDs");
    let text = feature_subtitle(&FeatureViewModel::from(&registration));
    assert!(text.ends_with(". Remediation: Grant camera access."), "{text}");
}
