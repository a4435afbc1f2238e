use kestrel::capability::{CapabilityStatus, Permission};
use kestrel::notifications::{classify_query_failure, NotificationError, NotificationErrorKind};
use kestrel::quick_toggles::{
    MutationConfirmation, QuickToggleControl, QuickToggleError, QuickToggleErrorKind, QuickToggleId,
    QuickToggleMutation,
};
use kestrel::toggle_rules::{
    backlight_capability, batteries_by_name, battery_reading, brightness_value, io_failure, is_backlight_candidate,
    no_backlight, trash_capability, trash_scan_step, ControlAccess, TrashScan, MAX_TRASH_ENTRIES,
    backlight_level, backlight_observation, bus_capability_error, bus_error, check_confirmation,
    notification_error, object_leaf, percentage, radio_confirmation, screen_lock_confirmation_for,
    trash_observation, trash_scope_confirmation, unavailable_capability, untargeted_action, DeviceKind,
};

#[test]
fn display_brightness_never_writes_a_black_screen_level() {
    assert_eq!(backlight_level(DeviceKind::Display, &QuickToggleMutation::SetLevel(0), 1_000), Ok(10));
    assert_eq!(backlight_level(DeviceKind::Display, &QuickToggleMutation::SetLevel(0), 10), Ok(1));
    assert_eq!(backlight_level(DeviceKind::Keyboard, &QuickToggleMutation::SetLevel(0), 3), Ok(0));
    assert_eq!(backlight_level(DeviceKind::Keyboard, &QuickToggleMutation::SetLevel(100), 3), Ok(3));
    let error = backlight_level(DeviceKind::Display, &QuickToggleMutation::SetLevel(101), 10).unwrap_err();
    assert_eq!(error.message, "brightness 101% is outside the supported 0..=100% range");
    let error = backlight_level(DeviceKind::Display, &QuickToggleMutation::SetEnabled(true), 10).unwrap_err();
    assert_eq!(error.kind, QuickToggleErrorKind::InvalidRequest);
    assert_eq!(percentage(50, 100), 50);
    assert_eq!(percentage(1, 3), 33);
    assert_eq!(percentage(5, 0), 0);
    let observation = backlight_observation("intel_backlight", 2, 3);
    assert_eq!(observation.detail, "intel_backlight is at 67%.");
    assert_eq!(observation.control, QuickToggleControl::Level { percentage: 67 });
}

#[test]
fn trash_confirmation_changes_when_scope_changes() {
    let first = trash_scope_confirmation(2, 10, 0xabc);
    let second = trash_scope_confirmation(3, 10, 0xabc);
    assert_ne!(first.token, second.token);
    assert_eq!(first.token, "trash:2:10:0000000000000abc");
    assert_eq!(
        first.scope,
        "Permanently delete 2 top-level items (10 bytes) from this user's local Trash. Remote Trash locations are excluded."
    );
    let empty = trash_observation(0, 0, 0);
    assert_eq!(empty.detail, "The current user's local Trash is empty.");
    assert!(matches!(empty.control, QuickToggleControl::Actions(ref actions) if actions.is_empty()));
    let full = trash_observation(2, 10, 0xabc);
    assert!(matches!(full.control, QuickToggleControl::Actions(ref actions) if actions.len() == 1));
}

#[test]
fn radios_confirm_only_when_turned_off() {
    let confirmation = radio_confirmation("Wi-Fi", &QuickToggleMutation::SetEnabled(false))
        .unwrap()
        .unwrap();
    assert_eq!(confirmation.token, "radio-off:wi-fi");
    assert_eq!(
        confirmation.scope,
        "Turn off Wi-Fi; active connections and devices may disconnect."
    );
    assert_eq!(radio_confirmation("Bluetooth", &QuickToggleMutation::SetEnabled(true)), Ok(None));
    let error = radio_confirmation("Bluetooth", &QuickToggleMutation::SetLevel(3)).unwrap_err();
    assert_eq!(error.message, "Bluetooth accepts only an enabled/disabled value");
}

#[test]
fn confirmations_must_be_echoed_exactly() {
    let needed = MutationConfirmation {
        scope: "Lock now".to_string(),
        token: "lock:2".to_string(),
    };
    assert!(check_confirmation(QuickToggleId::ScreenLock, Some(needed.clone()), Some("lock:2")).is_ok());
    let error = check_confirmation(QuickToggleId::ScreenLock, Some(needed), Some("lock:3")).unwrap_err();
    assert_eq!(error.kind, QuickToggleErrorKind::ConfirmationRequired);
    assert_eq!(error.message, "Lock screen requires confirmation for: Lock now");
    assert!(check_confirmation(QuickToggleId::Wifi, None, None).is_ok());
    let lock = screen_lock_confirmation_for("c2");
    assert_eq!(lock.token, "lock:c2");
    assert!(untargeted_action(&QuickToggleMutation::Activate { target: None }, "no").is_ok());
    assert_eq!(
        untargeted_action(&QuickToggleMutation::SetEnabled(true), "no").unwrap_err().message,
        "no"
    );
}

#[test]
fn bus_errors_are_classified_by_their_text() {
    assert_eq!(
        bus_error("changing Wi-Fi state", "org.freedesktop.DBus.Error.AccessDenied: no").kind,
        QuickToggleErrorKind::PermissionDenied
    );
    assert_eq!(
        bus_error("x", "org.freedesktop.DBus.Error.ServiceUnknown").kind,
        QuickToggleErrorKind::Unavailable
    );
    let error = bus_error("x", "boom");
    assert_eq!(error.kind, QuickToggleErrorKind::Protocol);
    assert_eq!(error.message, "x: boom");
    let report = bus_capability_error(QuickToggleId::Wifi, "probing", "NotAuthorized", Permission::NetworkControl);
    assert_eq!(
        report.status,
        CapabilityStatus::NeedsPermission { permission: Permission::NetworkControl }
    );
    let report = unavailable_capability(
        QuickToggleId::Bluetooth,
        "BlueZ",
        QuickToggleError::new(QuickToggleErrorKind::Unavailable, "no adapter"),
    );
    assert_eq!(report.status, CapabilityStatus::MissingDependency { name: "BlueZ".to_string() });
    assert_eq!(report.summary, "Bluetooth is unavailable on this session.");
    assert_eq!(report.remediation.as_deref(), Some("no adapter"));
}

#[test]
fn object_paths_name_their_leaf() {
    assert_eq!(object_leaf("/org/bluez/hci0"), "hci0");
    assert_eq!(object_leaf("/org/bluez/hci0/"), "hci0");
    assert_eq!(object_leaf("/"), "unknown");
    assert_eq!(object_leaf(""), "unknown");
    assert_eq!(object_leaf("plain"), "plain");
}

#[test]
fn notification_failures_keep_their_kind() {
    let converted = notification_error(NotificationError::unavailable("no bus"));
    assert_eq!(converted.kind, QuickToggleErrorKind::Unavailable);
    assert_eq!(converted.message, "no bus");
    assert_eq!(
        classify_query_failure("org.freedesktop.DBus.Error.AccessDenied"),
        NotificationErrorKind::PermissionDenied
    );
    assert_eq!(classify_query_failure("timeout"), NotificationErrorKind::Unavailable);
    assert_eq!(NotificationError::protocol("x").kind(), NotificationErrorKind::Protocol);
}

#[test]
fn backlight_discovery_decisions() {
    assert!(is_backlight_candidate(DeviceKind::Display, "intel_backlight"));
    assert!(is_backlight_candidate(DeviceKind::Keyboard, "platform::KBD_Backlight"));
    assert!(!is_backlight_candidate(DeviceKind::Keyboard, "input3::capslock"));
    assert_eq!(no_backlight(DeviceKind::Keyboard).message, "no keyboard backlight device was detected");
    assert_eq!(no_backlight(DeviceKind::Display).kind, QuickToggleErrorKind::Unavailable);
    assert_eq!(brightness_value("/sys/b", " 937\n"), Ok(937));
    let error = brightness_value("/sys/b/max_brightness", "high").unwrap_err();
    assert_eq!(error.kind, QuickToggleErrorKind::Protocol);
    assert_eq!(error.message, "/sys/b/max_brightness did not contain an unsigned brightness value");
    let denied = io_failure("reading a backlight value", true, "Permission denied (os error 13)");
    assert_eq!(denied.kind, QuickToggleErrorKind::PermissionDenied);
    assert_eq!(denied.message, "reading a backlight value: Permission denied (os error 13)");
    assert_eq!(io_failure("x", false, "gone").kind, QuickToggleErrorKind::Io);
}

#[test]
fn backlight_reports_follow_discovery_and_access() {
    let writable = backlight_capability(QuickToggleId::Brightness, DeviceKind::Display, Ok("intel_backlight".to_string()), ControlAccess::Writable);
    assert_eq!(writable.status, CapabilityStatus::Supported);
    assert_eq!(writable.summary, "Internal brightness can be changed for the detected device.");
    assert_eq!(writable.evidence[0].value, "intel_backlight");
    let denied = backlight_capability(QuickToggleId::Brightness, DeviceKind::Display, Ok("intel_backlight".to_string()), ControlAccess::Denied);
    assert_eq!(denied.status, CapabilityStatus::NeedsPermission { permission: Permission::HardwareControl });
    let failed = backlight_capability(
        QuickToggleId::KeyboardLight,
        DeviceKind::Keyboard,
        Ok("kbd".to_string()),
        ControlAccess::Failed("Read-only file system".to_string()),
    );
    assert_eq!(failed.status, CapabilityStatus::Unsupported { reason: "the brightness control cannot be opened: Read-only file system".to_string() });
    assert!(failed.evidence.is_empty());
    let missing = backlight_capability(QuickToggleId::KeyboardLight, DeviceKind::Keyboard, Err(no_backlight(DeviceKind::Keyboard)), ControlAccess::Writable);
    assert_eq!(missing.remediation.as_deref(), Some("Use the keyboard firmware or desktop control when no sysfs LED is exposed."));
    assert!(missing.summary.ends_with(" hardware was not detected."));
}

#[test]
fn power_supplies_become_batteries_in_name_order() {
    let read = |text: &str| Some(text.to_string());
    assert!(battery_reading("AC", read("Mains\n"), None, None).is_none());
    assert!(battery_reading("BAT9", None, read("50"), None).is_none());
    let full = battery_reading("BAT1", read("Battery\n"), read(" 250\n"), read("Full\n")).unwrap();
    assert_eq!(full.capacity, Some(100));
    assert_eq!(full.status.as_deref(), Some("Full"));
    let odd = battery_reading("BAT0", read("Battery"), read("300"), None).unwrap();
    assert_eq!(odd.capacity, None);
    assert_eq!(odd.status, None);
    let sorted = batteries_by_name(vec![full, odd]);
    assert_eq!(sorted[0].name, "BAT0");
    assert_eq!(sorted[1].name, "BAT1");
}

#[test]
fn trash_inspection_is_bounded_and_reported() {
    let scan = trash_scan_step(TrashScan { visited: 0, bytes: u64::MAX - 1 }, 10).unwrap();
    assert_eq!(scan, TrashScan { visited: 1, bytes: u64::MAX });
    let error = trash_scan_step(TrashScan { visited: MAX_TRASH_ENTRIES, bytes: 0 }, 1).unwrap_err();
    assert_eq!(error.kind, QuickToggleErrorKind::InvalidRequest);
    assert_eq!(error.message, "the local Trash exceeds the bounded inspection limit of 100000 entries");
    let report = trash_capability(Ok(3));
    assert_eq!(report.summary, "The current user's local Trash is accessible (3 items).");
    assert_eq!(report.evidence[0].value, "local-user-trash");
    let denied = trash_capability(Err(QuickToggleError::new(QuickToggleErrorKind::PermissionDenied, "no")));
    assert_eq!(denied.status, CapabilityStatus::NeedsPermission { permission: Permission::FileDeletion });
    let broken = trash_capability(Err(QuickToggleError::new(QuickToggleErrorKind::Io, "reading the local Trash: gone")));
    assert_eq!(broken.remediation.as_deref(), Some("reading the local Trash: gone"));
}

#[test]
fn built_in_toggle_ids_are_valid_and_distinct() {
    let ids: Vec<&str> = kestrel::quick_toggles::ALL_QUICK_TOGGLES.iter().map(|id| id.feature_id()).collect();
    for id in &ids {
        assert!(kestrel::configuration::validate_feature_id(id).is_ok());
    }
    for (i, first) in ids.iter().enumerate() {
        for second in &ids[i + 1..] {
            assert_ne!(first, second);
        }
    }
    assert_eq!(ids.len(), 12);
}
