use std::cell::RefCell;

use kestrel::battery_alerts::{battery_decision, process_readings, BatteryAlertState, BatteryDecision};
use kestrel::quick_toggles::{BatteryAlertSource, BatteryReading, QuickToggleError, QuickToggleErrorKind};

#[derive(Default)]
struct FakeSource {
    notifications: RefCell<Vec<String>>,
    fail: bool,
}

impl BatteryAlertSource for FakeSource {
    fn battery_readings(&self) -> Result<Vec<BatteryReading>, QuickToggleError> {
        Ok(Vec::new())
    }

    fn notify_low_battery(&self, summary: &str, body: &str) -> Result<(), QuickToggleError> {
        assert_eq!(summary, "Low battery");
        if self.fail {
            return Err(QuickToggleError::new(QuickToggleErrorKind::Unavailable, "no notifier"));
        }
        self.notifications.borrow_mut().push(body.to_owned());
        Ok(())
    }
}

fn reading(capacity: u8, status: &str) -> BatteryReading {
    BatteryReading {
        name: "BAT0".to_owned(),
        capacity: Some(capacity),
        status: Some(status.to_owned()),
    }
}

#[test]
fn battery_alerts_low_discharging_battery_does_not_repeat_while_unchanged() {
    let source = FakeSource::default();
    let mut state = BatteryAlertState::new();
    process_readings(&source, &[reading(10, "Discharging")], &mut state).expect("first poll");
    process_readings(&source, &[reading(10, "Discharging")], &mut state).expect("second poll");
    assert_eq!(
        source.notifications.borrow().as_slice(),
        ["BAT0 is at 10% and discharging. Connect power."]
    );
}

#[test]
fn battery_alerts_charging_battery_does_not_alert() {
    let source = FakeSource::default();
    let mut state = BatteryAlertState::new();
    process_readings(&source, &[reading(5, "Charging")], &mut state).expect("poll");
    assert!(source.notifications.borrow().is_empty());
}

#[test]
fn recovery_rearms_and_case_is_ignored() {
    let source = FakeSource::default();
    let mut state = BatteryAlertState::new();
    process_readings(&source, &[reading(12, "DISCHARGING")], &mut state).unwrap();
    assert!(state.contains("BAT0"));
    process_readings(&source, &[reading(18, "discharging")], &mut state).unwrap();
    assert!(state.contains("BAT0"));
    process_readings(&source, &[reading(21, "discharging")], &mut state).unwrap();
    assert!(!state.contains("BAT0"));
    process_readings(&source, &[reading(15, "discharging")], &mut state).unwrap();
    assert_eq!(source.notifications.borrow().len(), 2);
    assert_eq!(
        battery_decision(
            &BatteryReading {
                name: "BAT1".to_owned(),
                capacity: None,
                status: Some("Discharging".to_owned())
            },
            false
        ),
        BatteryDecision::Keep
    );
}

#[test]
fn failed_notification_is_returned_and_not_marked() {
    let source = FakeSource {
        fail: true,
        ..FakeSource::default()
    };
    let mut state = BatteryAlertState::new();
    let error = process_readings(&source, &[reading(3, "Discharging")], &mut state).unwrap_err();
    assert_eq!(error.kind, QuickToggleErrorKind::Unavailable);
    assert!(!state.contains("BAT0"));
}

#[test]
fn quiet_pass_succeeds_without_a_working_notifier() {
    let source = FakeSource {
        fail: true,
        ..FakeSource::default()
    };
    let mut state = BatteryAlertState::new();
    state.insert("BAT0");
    let readings = [reading(4, "Discharging"), reading(80, "Charging")];
    assert!(process_readings(&source, &readings, &mut state).is_ok());
    assert!(!state.contains("BAT0"));
}

#[test]
fn a_failed_notification_stops_the_pass_at_once() {
    let source = FakeSource {
        fail: true,
        ..FakeSource::default()
    };
    let mut state = BatteryAlertState::new();
    state.insert("BAT1");
    let other = BatteryReading {
        name: "BAT1".to_owned(),
        capacity: Some(90),
        status: Some("Charging".to_owned()),
    };
    let readings = [reading(4, "Discharging"), other];
    assert!(process_readings(&source, &readings, &mut state).is_err());
    assert!(state.contains("BAT1"));
    assert!(!state.contains("BAT0"));
}
