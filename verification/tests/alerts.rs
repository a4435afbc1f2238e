use kestrel::alerts::{
    AlertEngine, AlertEvent, AlertKind, AlertObservation, AlertPolicy, AlertRule, ALERT_KINDS,
};

const HYSTERESIS: f64 = 5.0;

fn policy(kind: AlertKind, threshold: f64, sustain: u32, cooldown_seconds: u64) -> AlertPolicy<f64> {
    let rules = ALERT_KINDS
        .iter()
        .map(|candidate| AlertRule {
            kind: *candidate,
            enabled: *candidate == kind,
            threshold: if *candidate == kind { threshold } else { 50.0 },
            sustain_samples: if *candidate == kind { sustain } else { 3 },
            cooldown_millis: if *candidate == kind { cooldown_seconds * 1_000 } else { 900_000 },
        })
        .collect();
    AlertPolicy::from_rules(rules).expect("rules in kind order")
}

/// One sample: the value observed for `kind`, compared with its rule as the
/// application does.
fn sample(engine: &AlertEngine<f64>, kind: AlertKind, value: Option<f64>) -> Vec<Option<AlertObservation<f64>>> {
    let snapshot = engine.snapshot();
    ALERT_KINDS
        .iter()
        .map(|candidate| {
            if *candidate != kind {
                return None;
            }
            let rule = engine.policy().rule(kind);
            let active = snapshot.active.iter().any(|alert| alert.kind == kind);
            value.map(|value| {
                let above = kind.alerts_above();
                AlertObservation {
                    value,
                    subject: None,
                    crossing: if above { value >= rule.threshold } else { value <= rule.threshold },
                    recovered: active
                        && if above {
                            value <= rule.threshold - HYSTERESIS
                        } else {
                            value >= rule.threshold + HYSTERESIS
                        },
                }
            })
        })
        .collect()
}

fn evaluate(engine: &mut AlertEngine<f64>, kind: AlertKind, value: Option<f64>, seconds: u64) -> Vec<AlertEvent<f64>> {
    let observations = sample(engine, kind, value);
    engine.evaluate(observations, seconds * 1_000)
}

#[test]
fn sustained_requirement_honoured() {
    let mut engine = AlertEngine::new(policy(AlertKind::Cpu, 80.0, 2, 900));
    assert!(evaluate(&mut engine, AlertKind::Cpu, Some(90.0), 1).is_empty());
    assert!(matches!(
        evaluate(&mut engine, AlertKind::Cpu, Some(90.0), 2).as_slice(),
        [AlertEvent::Raised { .. }]
    ));
}

#[test]
fn counter_resets_on_non_crossing_sample() {
    let mut engine = AlertEngine::new(policy(AlertKind::Cpu, 80.0, 2, 900));
    assert!(evaluate(&mut engine, AlertKind::Cpu, Some(90.0), 1).is_empty());
    assert!(evaluate(&mut engine, AlertKind::Cpu, Some(70.0), 2).is_empty());
    assert!(evaluate(&mut engine, AlertKind::Cpu, Some(90.0), 3).is_empty());
}

#[test]
fn repeat_limited_by_cooldown_and_allowed_after_it() {
    let mut engine = AlertEngine::new(policy(AlertKind::Cpu, 80.0, 1, 10));
    assert_eq!(evaluate(&mut engine, AlertKind::Cpu, Some(90.0), 1).len(), 1);
    assert!(evaluate(&mut engine, AlertKind::Cpu, Some(90.0), 2).is_empty());
    assert_eq!(evaluate(&mut engine, AlertKind::Cpu, Some(90.0), 11).len(), 1);
}

#[test]
fn recovery_past_hysteresis_clears_and_rearms() {
    let mut engine = AlertEngine::new(policy(AlertKind::Cpu, 80.0, 1, 900));
    assert!(evaluate(&mut engine, AlertKind::Cpu, Some(90.0), 1)[0].is_raised());
    assert!(matches!(
        evaluate(&mut engine, AlertKind::Cpu, Some(74.0), 2).as_slice(),
        [AlertEvent::Cleared { .. }]
    ));
    assert!(evaluate(&mut engine, AlertKind::Cpu, Some(90.0), 3)[0].is_raised());
}

#[test]
fn alerts_charging_battery_does_not_alert() {
    let mut engine = AlertEngine::new(policy(AlertKind::Battery, 15.0, 1, 900));
    // A charging battery offers no discharging reading to the engine.
    assert!(evaluate(&mut engine, AlertKind::Battery, None, 1).is_empty());
}

#[test]
fn alerts_low_discharging_battery_does_not_repeat_while_unchanged() {
    let mut engine = AlertEngine::new(policy(AlertKind::Battery, 15.0, 1, 900));
    assert_eq!(evaluate(&mut engine, AlertKind::Battery, Some(10.0), 1).len(), 1);
    assert!(evaluate(&mut engine, AlertKind::Battery, Some(10.0), 2).is_empty());
}

#[test]
fn battery_clears_when_it_stops_discharging() {
    let mut engine = AlertEngine::new(policy(AlertKind::Battery, 15.0, 1, 900));
    assert!(evaluate(&mut engine, AlertKind::Battery, Some(5.0), 1)[0].is_raised());
    assert!(evaluate(&mut engine, AlertKind::Battery, None, 2).is_empty());
    assert!(engine.snapshot().active.len() == 1);
}

#[test]
fn unavailable_metric_neither_raises_nor_clears_or_disturbs_other_kinds() {
    let mut engine = AlertEngine::new(policy(AlertKind::Cpu, 80.0, 2, 900));
    assert!(evaluate(&mut engine, AlertKind::Cpu, Some(90.0), 1).is_empty());
    assert!(evaluate(&mut engine, AlertKind::Cpu, None, 2).is_empty());
    assert!(evaluate(&mut engine, AlertKind::Cpu, Some(90.0), 3).is_empty());
}

#[test]
fn disabled_rule_is_inert() {
    let mut engine = AlertEngine::new(policy(AlertKind::Cpu, 80.0, 1, 1));
    engine.set_rule_enabled(AlertKind::Cpu, false);
    assert!(evaluate(&mut engine, AlertKind::Cpu, Some(100.0), 1).is_empty());
    assert!(evaluate(&mut engine, AlertKind::Cpu, Some(100.0), 2).is_empty());
    assert!(engine.snapshot().active.is_empty());
    engine.set_rule_enabled(AlertKind::Cpu, true);
    assert!(matches!(
        evaluate(&mut engine, AlertKind::Cpu, Some(100.0), 3).as_slice(),
        [AlertEvent::Raised { .. }]
    ));
    engine.set_rule_enabled(AlertKind::Cpu, false);
    assert!(evaluate(&mut engine, AlertKind::Cpu, Some(100.0), 4).is_empty());
    assert_eq!(engine.snapshot().active.len(), 1);
    engine.set_rule_enabled(AlertKind::Cpu, true);
    assert!(matches!(
        evaluate(&mut engine, AlertKind::Cpu, Some(100.0), 5).as_slice(),
        [AlertEvent::Raised { .. }]
    ));
}

#[test]
fn delivery_failures_are_per_kind_and_do_not_suppress_alerts() {
    let mut engine = AlertEngine::new(policy(AlertKind::Cpu, 80.0, 1, 1));
    engine.record_delivery_failure(AlertKind::Cpu, "unavailable");
    assert!(evaluate(&mut engine, AlertKind::Cpu, Some(90.0), 1)[0].is_raised());
    let snapshot = engine.snapshot();
    assert_eq!(snapshot.delivery_failures[0].message, "unavailable");
    assert_eq!(snapshot.active.len(), 1);
    engine.clear_delivery_failure(AlertKind::Cpu);
    assert!(engine.snapshot().delivery_failures.is_empty());
}

#[test]
fn snapshot_lists_only_active_kinds_in_order() {
    let rules = ALERT_KINDS
        .iter()
        .map(|kind| AlertRule {
            kind: *kind,
            enabled: true,
            threshold: 1.0,
            sustain_samples: 1,
            cooldown_millis: 1_000,
        })
        .collect();
    let mut engine = AlertEngine::new(AlertPolicy::from_rules(rules).expect("ordered"));
    let observations = ALERT_KINDS
        .iter()
        .map(|kind| {
            (*kind != AlertKind::Battery).then(|| AlertObservation {
                value: 10.0,
                subject: None,
                crossing: true,
                recovered: false,
            })
        })
        .collect();
    assert_eq!(engine.evaluate(observations, 1_000).len(), 4);
    let active = engine.snapshot().active;
    let kinds: Vec<AlertKind> = active.iter().map(|alert| alert.kind).collect();
    assert_eq!(
        kinds,
        vec![AlertKind::Cpu, AlertKind::Temperature, AlertKind::Memory, AlertKind::Disk]
    );
}

#[test]
fn rules_out_of_order_are_refused() {
    let mut rules: Vec<AlertRule<f64>> = ALERT_KINDS
        .iter()
        .map(|kind| AlertRule {
            kind: *kind,
            enabled: true,
            threshold: 1.0,
            sustain_samples: 1,
            cooldown_millis: 0,
        })
        .collect();
    rules.swap(0, 1);
    assert!(AlertPolicy::from_rules(rules).is_none());
    assert!(!AlertKind::Battery.alerts_above());
    assert!(AlertKind::Temperature.alerts_above());
}
