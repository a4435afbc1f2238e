use kestrel::configuration::ApplicationConfiguration;
use kestrel::runtime::{apply_feature_configuration, refresh_all_capabilities};
use kestrel::capability::{CapabilityReport, CapabilityStatus, FeatureSpec};
use kestrel::registry::{
    CapabilityProbe, FeatureRegistry, RegistryError, ServiceLifecycle, ServiceRegistration,
    StaticCapabilityProbe,
};

#[test]
fn static_probe_returns_a_copy_of_its_report() {
    let probe = StaticCapabilityProbe::new(CapabilityReport::new(
        "capture.screenshot",
        CapabilityStatus::Supported,
        "A test report.",
    ));

    assert_eq!(probe.probe().feature_id, "capture.screenshot");
}

#[test]
fn registration_tracks_enablement_separately_from_availability() {
    let registration = ServiceRegistration::new(
        FeatureSpec::new(
            "system.monitor",
            "System monitor",
            CapabilityStatus::Supported,
        ),
        CapabilityReport::new(
            "system.monitor",
            CapabilityStatus::Supported,
            "A test report.",
        ),
        false,
    )
    .expect("feature and report IDs match");

    assert!(!registration.enabled);
    assert!(registration.available);
    assert_eq!(registration.lifecycle(), ServiceLifecycle::Registered);
}

#[test]
fn registry_retains_unavailable_features_for_remediation() {
    let mut registry = FeatureRegistry::default();
    let probe = StaticCapabilityProbe::new(
        CapabilityReport::new(
            "audio.mixer",
            CapabilityStatus::Unsupported {
                reason: "No adapter has been selected.".to_string(),
            },
            "Audio is unavailable.",
        )
        .with_remediation("Install a supported PulseAudio-compatible service."),
    );

    registry
        .register_probe(
            FeatureSpec::new(
                "audio.mixer",
                "Audio mixer",
                CapabilityStatus::Unsupported {
                    reason: "No adapter has been selected.".to_string(),
                },
            ),
            true,
            probe,
        )
        .expect("feature and report IDs match");
    registry.start_enabled();
    let registration = registry.registrations().next().expect("one registration");

    assert!(!registration.available);
    assert!(!registration.running);
    assert_eq!(registration.lifecycle(), ServiceLifecycle::Unavailable);
    assert!(registration.capability.remediation.is_some());
}

#[test]
fn registration_rejects_mismatched_feature_ids() {
    let error = ServiceRegistration::new(
        FeatureSpec::new("audio.mixer", "Audio mixer", CapabilityStatus::Supported),
        CapabilityReport::new(
            "system.monitor",
            CapabilityStatus::Supported,
            "A test report.",
        ),
        false,
    )
    .expect_err("mismatched IDs are invalid");

    assert_eq!(
        error,
        RegistryError::FeatureIdMismatch {
            feature_id: "audio.mixer",
            report_feature_id: "system.monitor",
        }
    );
}

#[test]
fn refresh_updates_cached_availability_and_stops_running_features() {
    let mut registry = FeatureRegistry::default();
    let probe = StaticCapabilityProbe::new(CapabilityReport::new(
        "audio.mixer",
        CapabilityStatus::Unsupported {
            reason: "Service disappeared.".to_string(),
        },
        "Audio service is unavailable.",
    ));

    registry
        .register_probe(
            FeatureSpec::new("audio.mixer", "Audio mixer", CapabilityStatus::Supported),
            true,
            probe,
        )
        .expect("feature registers");
    registry.start_enabled();
    let registration = registry
        .refresh_capability("audio.mixer")
        .expect("registered feature refreshes");

    assert!(!registration.available);
    assert!(!registration.running);
    assert_eq!(registration.lifecycle(), ServiceLifecycle::Unavailable);
}

#[test]
fn disabling_a_running_feature_stops_it_without_discarding_its_report() {
    let mut registry = FeatureRegistry::default();
    let probe = StaticCapabilityProbe::new(CapabilityReport::new(
        "system.monitor",
        CapabilityStatus::Supported,
        "Monitoring is available.",
    ));
    registry
        .register_probe(
            FeatureSpec::new(
                "system.monitor",
                "System monitor",
                CapabilityStatus::Supported,
            ),
            true,
            probe,
        )
        .expect("feature registers");
    registry.start_enabled();

    let registration = registry
        .set_enabled("system.monitor", false)
        .expect("registered feature is configurable");

    assert!(!registration.enabled);
    assert!(!registration.running);
    assert_eq!(registration.capability.summary, "Monitoring is available.");
}

#[test]
fn duplicate_and_unknown_features_are_rejected() {
    let mut registry = FeatureRegistry::default();
    let report = || CapabilityReport::new("audio.mixer", CapabilityStatus::Supported, "ok");
    registry
        .register_probe(
            FeatureSpec::new("audio.mixer", "Audio mixer", CapabilityStatus::Supported),
            false,
            StaticCapabilityProbe::new(report()),
        )
        .unwrap();
    assert_eq!(
        registry.register_probe(
            FeatureSpec::new("audio.mixer", "Audio mixer", CapabilityStatus::Supported),
            false,
            StaticCapabilityProbe::new(report()),
        ),
        Err(RegistryError::DuplicateFeature {
            feature_id: "audio.mixer"
        })
    );
    assert_eq!(
        registry.set_enabled("missing", true).err(),
        Some(RegistryError::UnknownFeature {
            feature_id: "missing".to_string()
        })
    );
    assert_eq!(registry.registrations().count(), 1);
    let running = registry.start_enabled();
    assert_eq!(running, ());
    assert!(!registry.registration_list()[0].running);
    assert_eq!(
        registry.registration_list()[0].lifecycle(),
        ServiceLifecycle::Registered
    );
    registry.set_enabled("audio.mixer", true).unwrap();
    assert_eq!(
        registry.registration_list()[0].lifecycle(),
        ServiceLifecycle::Available
    );
    registry.start_enabled();
    assert_eq!(
        registry.registration_list()[0].lifecycle(),
        ServiceLifecycle::Running
    );
}

#[test]
fn a_probe_that_reports_another_feature_is_refused() {
    let mut registry = FeatureRegistry::default();
    let error = registry
        .register_probe(
            FeatureSpec::new("audio.mixer", "Audio mixer", CapabilityStatus::Supported),
            true,
            StaticCapabilityProbe::new(CapabilityReport::new(
                "clipboard.history",
                CapabilityStatus::Supported,
                "wrong",
            )),
        )
        .unwrap_err();
    assert_eq!(
        error,
        RegistryError::FeatureIdMismatch {
            feature_id: "audio.mixer",
            report_feature_id: "clipboard.history"
        }
    );
    assert_eq!(registry.registrations().count(), 0);
}

fn supported_probe(id: &'static str) -> StaticCapabilityProbe {
    StaticCapabilityProbe::new(CapabilityReport::new(id, CapabilityStatus::Supported, "A test report."))
}

#[test]
fn applying_a_feature_map_touches_only_configurable_features() {
    let mut registry = FeatureRegistry::default();
    registry
        .register_probe(FeatureSpec::new("system.monitor", "System monitor", CapabilityStatus::Supported), true, supported_probe("system.monitor"))
        .expect("matching report");
    registry
        .register_probe(FeatureSpec::new("radio.wifi", "Wi-Fi", CapabilityStatus::Supported), false, supported_probe("radio.wifi"))
        .expect("matching report");
    registry
        .register_probe(
            FeatureSpec::new("app.command-surface", "Command surface", CapabilityStatus::Supported).with_configurable(false),
            false,
            supported_probe("app.command-surface"),
        )
        .expect("matching report");
    let mut configuration = ApplicationConfiguration::default();
    configuration.set_feature_enabled("system.monitor", false).expect("valid id");
    apply_feature_configuration(&mut registry, &configuration);
    let list = registry.registration_list();
    assert!(!list[0].enabled && !list[0].running);
    assert!(list[1].enabled && list[1].running, "quick toggles default to enabled");
    assert!(!list[2].enabled, "a feature that is not configurable keeps its enablement");
    assert!(refresh_all_capabilities(&mut registry).is_ok());
    assert!(registry.registration_list()[1].running);
}
