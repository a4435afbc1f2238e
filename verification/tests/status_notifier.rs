use kestrel::capability::CapabilityStatus;
use kestrel::status_notifier::{registered_capability, unavailable_capability, FEATURE_ID};

#[test]
fn unavailable_tray_keeps_the_normal_window_as_remediation() {
    let report = unavailable_capability("No tray host is available.");

    assert_eq!(report.feature_id, FEATURE_ID);
    assert!(matches!(report.status, CapabilityStatus::Unsupported { .. }));
    assert!(report.summary.contains("normal Kestrel window"));
    assert!(report
        .remediation
        .as_deref()
        .is_some_and(|message| message.contains("GNOME")));
}

#[test]
fn registered_tray_is_supported() {
    let report = registered_capability();
    assert_eq!(report.status, CapabilityStatus::Supported);
    assert_eq!(
        report.selected_backend.as_deref(),
        Some("StatusNotifierItem over the user session D-Bus")
    );
}
