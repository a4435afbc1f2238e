use kestrel::capability::{CapabilityStatus, Permission};
use kestrel::quick_toggles::{
    BatteryReading, QuickToggleControl, QuickToggleError, QuickToggleErrorKind, QuickToggleId,
    QuickToggleMutation,
};
use kestrel::session_rules::{
    appearance_capability, appearance_observation, appearance_request, bluetooth_capability,
    bluetooth_observation, c_string, eject_capability, eject_detail, eject_target, ejectable_drives,
    keep_awake_capability, keep_awake_observation, missing_settings, screen_lock_capability,
    screen_lock_observation, setting_capability, setting_observation, wifi_capability, wifi_observation,
    wifi_request, BlockFacts, DriveFacts, UdisksObject,
};
use kestrel::toggle_rules::{battery_absence_report, battery_alerts_detail, battery_notification_report};

fn denied() -> QuickToggleError {
    QuickToggleError::new(QuickToggleErrorKind::PermissionDenied, "denied")
}

fn missing() -> QuickToggleError {
    QuickToggleError::new(QuickToggleErrorKind::Unavailable, "not running")
}

#[test]
fn session_services_decide_their_reports() {
    assert_eq!(keep_awake_capability(Ok(())).status, CapabilityStatus::Supported);
    assert_eq!(
        keep_awake_capability(Err(missing())).status,
        CapabilityStatus::MissingDependency { name: "systemd-logind".to_string() }
    );
    assert_eq!(
        bluetooth_capability(Err(denied())).status,
        CapabilityStatus::NeedsPermission { permission: Permission::NetworkControl }
    );
    let report = bluetooth_capability(Ok("/org/bluez/hci0".to_string()));
    assert_eq!(report.evidence[0].value, "hci0");
    assert_eq!(
        wifi_capability(Ok((true, false))).status,
        CapabilityStatus::Unsupported { reason: "NetworkManager reports that no Wi-Fi hardware is enabled".to_string() }
    );
    assert_eq!(wifi_capability(Ok((false, true))).status, CapabilityStatus::Supported);
    assert_eq!(
        screen_lock_capability(Ok("c2".to_string())).evidence[0].value,
        "c2"
    );
}

#[test]
fn observations_describe_the_session_state() {
    assert_eq!(keep_awake_observation(true).detail, "Kestrel owns an active idle and sleep inhibitor.");
    let bluetooth = bluetooth_observation("/org/bluez/hci0", true);
    assert_eq!(bluetooth.detail, "Bluetooth adapter hci0 is powered.");
    assert!(matches!(
        bluetooth.control,
        QuickToggleControl::Switch { enabled: true, confirmation: Some(ref confirmation) } if confirmation.token == "radio-off:bluetooth"
    ));
    assert_eq!(wifi_observation(false, false).detail, "NetworkManager reports that Wi-Fi hardware is disabled.");
    assert_eq!(wifi_observation(true, true).detail, "NetworkManager reports Wi-Fi is enabled.");
    assert!(wifi_request(&QuickToggleMutation::SetEnabled(true), false).is_err());
    assert_eq!(wifi_request(&QuickToggleMutation::SetEnabled(false), false), Ok(false));
    let lock = screen_lock_observation("c2");
    assert_eq!(lock.detail, "Lock the current graphical session (c2).");
    assert_eq!(appearance_observation("prefer-dark").control, QuickToggleControl::Switch { enabled: true, confirmation: None });
    assert_eq!(appearance_request(&QuickToggleMutation::SetEnabled(false)), Ok("default"));
    assert_eq!(
        setting_observation("Hidden files", "org.gtk.Settings.FileChooser", false).detail,
        "Hidden files are hidden through org.gtk.Settings.FileChooser."
    );
}

#[test]
fn desktop_settings_reports_follow_the_lookup() {
    let report = setting_capability(
        QuickToggleId::HiddenFiles,
        Ok(("org.gnome.nautilus.preferences".to_string(), "show-hidden-files".to_string(), true)),
        "Hidden-file visibility can be changed for the selected file-manager backend.",
    );
    assert_eq!(report.selected_backend.as_deref(), Some("GSettings org.gnome.nautilus.preferences"));
    let read_only = setting_capability(
        QuickToggleId::HiddenFiles,
        Ok(("org.gnome.nautilus.preferences".to_string(), "show-hidden-files".to_string(), false)),
        "unused",
    );
    assert_eq!(read_only.summary, "The org.gnome.nautilus.preferences setting is present but read-only.");
    let error = missing_settings(&[("a.b", "c"), ("d.e", "f")]);
    assert_eq!(error.message, "none of the supported settings keys are installed: a.b:c, d.e:f");
    assert_eq!(
        appearance_capability(Err(missing())).summary,
        "Dark appearance is unavailable for this desktop."
    );
}

#[test]
fn removable_drives_are_filtered_and_ordered_by_label() {
    let drive = |path: &str, removable: bool| UdisksObject {
        path: path.to_string(),
        drive: Some(DriveFacts { removable: Some(removable), ejectable: Some(true) }),
        block: None,
        mount_points: None,
    };
    let block = |path: &str, drive_path: &str, label: Option<&str>, mounted: bool| UdisksObject {
        path: path.to_string(),
        drive: None,
        block: Some(BlockFacts {
            hint_system: Some(false),
            drive: Ok(drive_path.to_string()),
            id_label: label.map(str::to_string),
            device: Some(b"/dev/sdz1\0".to_vec()),
        }),
        mount_points: Some(Ok(if mounted { vec![b"/media/x".to_vec()] } else { Vec::new() })),
    };
    let objects = vec![
        drive("/d/usb", true),
        drive("/d/internal", false),
        block("/b/2", "/d/usb", Some("Zeta"), true),
        block("/b/1", "/d/usb", Some("Alpha"), true),
        block("/b/3", "/d/internal", Some("System"), true),
        block("/b/4", "/d/usb", None, true),
        block("/b/5", "/d/usb", Some("Unmounted"), false),
    ];
    let drives = ejectable_drives(&objects).expect("valid properties");
    let labels: Vec<&str> = drives.iter().map(|drive| drive.label.as_str()).collect();
    assert_eq!(labels, vec!["/dev/sdz1", "Alpha", "Zeta"]);
    assert_eq!(drives[1].target, "/b/1|/d/usb");
    assert_eq!(eject_capability(Ok(2)).summary, "UDisks2 is available; 2 mounted removable drive(s) are currently eligible.");
    assert_eq!(eject_detail(0), "No mounted removable, non-system drive is currently eligible for ejection.");
    assert_eq!(
        eject_target(&QuickToggleMutation::Activate { target: Some("/b/1|/d/usb".to_string()) }),
        Ok("/b/1|/d/usb".to_string())
    );
    assert_eq!(c_string(b"abc\0def"), "abc");
}

#[test]
fn batteryless_system_reports_actionable_remediation() {
    let report = battery_absence_report(&Ok(Vec::new())).expect("no battery");
    assert!(matches!(report.status, CapabilityStatus::Unsupported { .. }));
    assert!(report.remediation.unwrap().contains("/sys/class/power_supply"));
    let battery = BatteryReading { name: "BAT0".to_string(), capacity: Some(42), status: None };
    assert!(battery_absence_report(&Ok(vec![battery.clone()])).is_none());
    assert_eq!(
        battery_notification_report(1, Err(denied())).status,
        CapabilityStatus::NeedsPermission { permission: Permission::Notifications }
    );
    assert_eq!(battery_notification_report(1, Ok(())).evidence[0].value, "1");
    assert_eq!(
        battery_alerts_detail(true, Some(&battery)),
        "Alerts are enabled; BAT0 is at 42% (unknown state)."
    );
    assert_eq!(battery_alerts_detail(false, None), "No system battery is available.");
}

#[test]
fn undecodable_drive_properties_end_the_listing() {
    let usb = || UdisksObject {
        path: "/d/usb".to_string(),
        drive: Some(DriveFacts { removable: Some(true), ejectable: Some(true) }),
        block: None,
        mount_points: None,
    };
    let block = |drive: Result<String, String>, points: Result<Vec<Vec<u8>>, String>, system: Option<bool>| UdisksObject {
        path: "/b/1".to_string(),
        drive: None,
        block: Some(BlockFacts { hint_system: system, drive, id_label: None, device: None }),
        mount_points: Some(points),
    };
    let bad_drive = vec![usb(), block(Err("decoding Drive failed".to_string()), Ok(Vec::new()), Some(false))];
    let error = ejectable_drives(&bad_drive).expect_err("undecodable drive path");
    assert_eq!(error.kind, QuickToggleErrorKind::Protocol);
    assert_eq!(error.message, "decoding Drive failed");
    let bad_points = vec![usb(), block(Ok("/d/usb".to_string()), Err("decoding MountPoints failed".to_string()), Some(false))];
    let error = ejectable_drives(&bad_points).expect_err("undecodable mount points");
    assert_eq!(error.message, "decoding MountPoints failed");
    let unknown_system = vec![usb(), block(Err("never read".to_string()), Ok(Vec::new()), None)];
    assert!(ejectable_drives(&unknown_system).expect("system hint absent skips").is_empty());
    let named_by_path = vec![usb(), block(Ok("/d/usb".to_string()), Ok(vec![b"/media/y".to_vec()]), Some(false))];
    let drives = ejectable_drives(&named_by_path).expect("listed");
    assert_eq!(drives[0].label, "1");
    assert_eq!(drives[0].mount_points, vec![b"/media/y".to_vec()]);
}
