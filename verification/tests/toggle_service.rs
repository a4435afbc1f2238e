use std::collections::BTreeMap;

use kestrel::capability::{CapabilityReport, CapabilityStatus};
use kestrel::quick_toggles::{
    MutationConfirmation, QuickToggleBackend, QuickToggleControl, QuickToggleError,
    QuickToggleErrorKind, QuickToggleId, QuickToggleMutation, QuickToggleObservation,
};
use kestrel::toggle_service::{battery_alert_rule_enabled, QuickToggleCommand, QuickToggleService, ToggleStateSource};

struct FakeBackend {
    controls: BTreeMap<QuickToggleId, QuickToggleControl>,
}

impl FakeBackend {
    fn new() -> Self {
        let controls = [
            (
                QuickToggleId::Wifi,
                QuickToggleControl::Switch {
                    enabled: true,
                    confirmation: Some(MutationConfirmation {
                        scope: "Turn off Wi-Fi".to_owned(),
                        token: "wifi-off".to_owned(),
                    }),
                },
            ),
            (
                QuickToggleId::KeepAwake,
                QuickToggleControl::Switch {
                    enabled: false,
                    confirmation: None,
                },
            ),
            (
                QuickToggleId::BatteryAlerts,
                QuickToggleControl::Switch {
                    enabled: false,
                    confirmation: None,
                },
            ),
        ]
        .into_iter()
        .collect();
        Self { controls }
    }
}

impl QuickToggleBackend for FakeBackend {
    fn capability(&self, id: QuickToggleId) -> CapabilityReport {
        CapabilityReport::new(id.feature_id(), CapabilityStatus::Supported, "available")
    }

    fn observe(&self, id: QuickToggleId) -> Result<QuickToggleObservation, QuickToggleError> {
        self.controls
            .get(&id)
            .cloned()
            .map(|control| QuickToggleObservation {
                control,
                detail: "observed".to_owned(),
            })
            .ok_or_else(|| QuickToggleError {
                kind: QuickToggleErrorKind::Unavailable,
                message: "not available".to_owned(),
            })
    }

    fn confirmation(
        &self,
        id: QuickToggleId,
        mutation: &QuickToggleMutation,
    ) -> Result<Option<MutationConfirmation>, QuickToggleError> {
        if id == QuickToggleId::Wifi && matches!(mutation, QuickToggleMutation::SetEnabled(false)) {
            Ok(Some(MutationConfirmation {
                scope: "Turn off Wi-Fi".to_owned(),
                token: "wifi-off".to_owned(),
            }))
        } else {
            Ok(None)
        }
    }

    fn apply(
        &mut self,
        id: QuickToggleId,
        mutation: QuickToggleMutation,
        confirmation_token: Option<&str>,
    ) -> Result<QuickToggleObservation, QuickToggleError> {
        if let Some(expected) = self.confirmation(id, &mutation)? {
            if confirmation_token != Some(expected.token.as_str()) {
                return Err(QuickToggleError {
                    kind: QuickToggleErrorKind::ConfirmationRequired,
                    message: expected.scope,
                });
            }
        }
        let enabled = match mutation {
            QuickToggleMutation::SetEnabled(enabled) => enabled,
            _ => {
                return Err(QuickToggleError {
                    kind: QuickToggleErrorKind::InvalidRequest,
                    message: "wrong command".to_owned(),
                });
            }
        };
        let control = QuickToggleControl::Switch {
            enabled,
            confirmation: None,
        };
        self.controls.insert(id, control.clone());
        Ok(QuickToggleObservation {
            control,
            detail: "updated".to_owned(),
        })
    }
}

#[test]
fn disruptive_radio_change_requires_matching_confirmation() {
    let mut service = QuickToggleService::new(FakeBackend::new());
    service.refresh(QuickToggleId::Wifi);

    let failure = service
        .execute(QuickToggleCommand {
            id: QuickToggleId::Wifi,
            mutation: QuickToggleMutation::SetEnabled(false),
            confirmation_token: None,
        })
        .expect_err("confirmation is mandatory");

    assert_eq!(failure.kind, QuickToggleErrorKind::ConfirmationRequired);
    let snapshot = service
        .snapshots()
        .find(|snapshot| snapshot.id == QuickToggleId::Wifi)
        .expect("Wi-Fi snapshot");
    assert!(matches!(
        snapshot.observation.as_ref().unwrap().control,
        QuickToggleControl::Switch { enabled: true, .. }
    ));
}

#[test]
fn refresh_reports_a_provider_change_after_kestrel_mutation() {
    let mut service = QuickToggleService::new(FakeBackend::new());
    service
        .execute(QuickToggleCommand {
            id: QuickToggleId::Wifi,
            mutation: QuickToggleMutation::SetEnabled(false),
            confirmation_token: Some("wifi-off".to_owned()),
        })
        .expect("confirmed command succeeds");
    service.backend.controls.insert(
        QuickToggleId::Wifi,
        QuickToggleControl::Switch {
            enabled: true,
            confirmation: None,
        },
    );

    let snapshot = service.refresh(QuickToggleId::Wifi);

    assert_eq!(snapshot.source, ToggleStateSource::ChangedElsewhere);
}

#[test]
fn provider_changes_remain_external_when_state_returns_to_a_prior_request() {
    let mut service = QuickToggleService::new(FakeBackend::new());
    service
        .execute(QuickToggleCommand {
            id: QuickToggleId::Wifi,
            mutation: QuickToggleMutation::SetEnabled(false),
            confirmation_token: Some("wifi-off".to_owned()),
        })
        .expect("confirmed command succeeds");
    for enabled in [true, true, false] {
        service.backend.controls.insert(
            QuickToggleId::Wifi,
            QuickToggleControl::Switch {
                enabled,
                confirmation: None,
            },
        );

        let snapshot = service.refresh(QuickToggleId::Wifi);

        assert_eq!(snapshot.source, ToggleStateSource::ChangedElsewhere);
    }
}

#[test]
fn one_unavailable_adapter_does_not_erase_other_toggle_state() {
    let mut service = QuickToggleService::new(FakeBackend::new());
    service.refresh(QuickToggleId::Wifi);
    service.refresh(QuickToggleId::Appearance);

    let wifi = service
        .snapshots()
        .find(|snapshot| snapshot.id == QuickToggleId::Wifi)
        .expect("Wi-Fi snapshot");
    let appearance = service
        .snapshots()
        .find(|snapshot| snapshot.id == QuickToggleId::Appearance)
        .expect("appearance snapshot");
    assert!(wifi.observation.is_some());
    assert!(appearance.error.is_some());
}

#[test]
fn snapshots_follow_presentation_order_and_ownership() {
    let mut service = QuickToggleService::new(FakeBackend::new());
    let ids: Vec<QuickToggleId> = service.snapshots().map(|snapshot| snapshot.id).collect();
    assert_eq!(ids.len(), 12);
    assert_eq!(ids[0], QuickToggleId::KeepAwake);
    assert_eq!(ids[11], QuickToggleId::BatteryAlerts);
    service.refresh_all();
    let keep_awake = &service.snapshot_list()[0];
    assert_eq!(keep_awake.source, ToggleStateSource::KestrelOwned);
    assert_eq!(keep_awake.label, "Keep awake");
    let wifi = &service.snapshot_list()[5];
    assert_eq!(wifi.source, ToggleStateSource::ProviderObserved);
    service.set_runtime_error(
        QuickToggleId::Wifi,
        Some(QuickToggleError::new(QuickToggleErrorKind::Io, "boom")),
    );
    assert_eq!(
        service.snapshot_list()[5].error.as_ref().map(|e| e.message.as_str()),
        Some("boom")
    );
    service.stop();
    assert!(service.snapshot_list()[5].error.is_some());
}

#[test]
fn quick_toggle_ids_have_stable_names() {
    assert_eq!(QuickToggleId::Wifi.feature_id(), "radio.wifi");
    assert_eq!(QuickToggleId::Wifi.label(), "Wi-Fi");
    assert_eq!(
        QuickToggleId::ScreenLock.requirement(),
        "A current logind graphical session."
    );
}

#[test]
fn the_battery_toggle_only_narrows_the_configured_alert_rule() {
    let mut service = QuickToggleService::new(FakeBackend::new());
    service.refresh(QuickToggleId::BatteryAlerts);
    assert!(!battery_alert_rule_enabled(true, service.snapshot_list()));
    service
        .execute(QuickToggleCommand {
            id: QuickToggleId::BatteryAlerts,
            mutation: QuickToggleMutation::SetEnabled(true),
            confirmation_token: None,
        })
        .expect("battery alerts switch on");
    assert!(battery_alert_rule_enabled(true, service.snapshot_list()));
    assert!(!battery_alert_rule_enabled(false, service.snapshot_list()));
}
