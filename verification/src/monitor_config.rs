//! The monitoring preferences: refresh interval, history length, the
//! readouts shown and their order, and one alert rule per kind.

use vstd::prelude::*;

use crate::alerts::AlertKind;
use crate::monitor_service::{DEFAULT_HISTORY_SAMPLES, DEFAULT_REFRESH_INTERVAL_MILLIS};
use crate::runtime::PanelMoveDirection;

verus! {

/// The fewest consecutive crossing samples an alert rule may ask for.
pub const MIN_ALERT_SUSTAIN_SAMPLES: u32 = 1;

/// The most consecutive crossing samples an alert rule may ask for.
pub const MAX_ALERT_SUSTAIN_SAMPLES: u32 = 600;

/// The longest cooldown between repeated alerts, in seconds.
pub const MAX_ALERT_COOLDOWN_SECONDS: u64 = 86_400;

/// The default cooldown between repeated alerts, in seconds.
pub const DEFAULT_ALERT_COOLDOWN_SECONDS: u64 = 900;

/// The default number of consecutive crossing samples.
pub const DEFAULT_ALERT_SUSTAIN_SAMPLES: u32 = 3;

/// The largest percentage threshold, as a whole number.
pub const MAX_ALERT_THRESHOLD_PERCENT: u32 = 100;

/// The largest temperature threshold in degrees Celsius, as a whole number.
pub const MAX_TEMPERATURE_ALERT_THRESHOLD_CELSIUS: u32 = 150;

/// The bits of the `f64` 100.0.
pub const PERCENT_LIMIT_BITS: u64 = 0x4059_0000_0000_0000;

/// The bits of the `f64` 150.0.
pub const CELSIUS_LIMIT_BITS: u64 = 0x4062_c000_0000_0000;

/// The bits of the `f64` 90.0, the default threshold of the high-value kinds.
pub const DEFAULT_HIGH_THRESHOLD_BITS: u64 = 0x4056_8000_0000_0000;

/// The bits of the `f64` 15.0, the default battery threshold.
pub const DEFAULT_BATTERY_THRESHOLD_BITS: u64 = 0x402e_0000_0000_0000;

/// One readout of the Monitoring panel section.
#[derive(Debug, Clone, Copy, PartialEq, Eq, Hash, Structural)]
pub enum MonitorReadout {
    Cpu,
    Memory,
    Swap,
    Disk,
    Network,
    Temperature,
    Battery,
    Gpu,
}

/// The number of readouts.
pub const MONITOR_READOUT_COUNT: usize = 8;

/// Every readout, in default order.
pub const MONITOR_READOUTS: [MonitorReadout; 8] = [
    MonitorReadout::Cpu,
    MonitorReadout::Memory,
    MonitorReadout::Swap,
    MonitorReadout::Disk,
    MonitorReadout::Network,
    MonitorReadout::Temperature,
    MonitorReadout::Battery,
    MonitorReadout::Gpu,
];

/// Every readout, in default order.
pub open spec fn all_readouts() -> Seq<MonitorReadout> {
    seq![
        MonitorReadout::Cpu,
        MonitorReadout::Memory,
        MonitorReadout::Swap,
        MonitorReadout::Disk,
        MonitorReadout::Network,
        MonitorReadout::Temperature,
        MonitorReadout::Battery,
        MonitorReadout::Gpu,
    ]
}

/// The name a readout is shown by.
pub open spec fn readout_label(readout: MonitorReadout) -> &'static str {
    match readout {
        MonitorReadout::Cpu => "CPU",
        MonitorReadout::Memory => "Memory",
        MonitorReadout::Swap => "Swap",
        MonitorReadout::Disk => "Disk",
        MonitorReadout::Network => "Network",
        MonitorReadout::Temperature => "Temperature",
        MonitorReadout::Battery => "Battery",
        MonitorReadout::Gpu => "GPU",
    }
}

impl MonitorReadout {
    /// The name this readout is shown by.
    pub fn label(self) -> (label: &'static str)
        ensures
            label == readout_label(self),
    {
        match self {
            MonitorReadout::Cpu => "CPU",
            MonitorReadout::Memory => "Memory",
            MonitorReadout::Swap => "Swap",
            MonitorReadout::Disk => "Disk",
            MonitorReadout::Network => "Network",
            MonitorReadout::Temperature => "Temperature",
            MonitorReadout::Battery => "Battery",
            MonitorReadout::Gpu => "GPU",
        }
    }
}

/// A threshold as the TOML document wrote it: the bits of an `f64`
/// (`f64::to_bits`), or a whole number, which reads as the same `f64`. For
/// non-negative `f64` values the bits order as the numbers do.
#[derive(Debug, Clone, Copy, PartialEq, Eq, Structural)]
pub enum AlertThreshold {
    FloatBits(u64),
    Whole(u32),
}

/// One alert kind's configured rule.
#[derive(Debug, Clone, Copy, PartialEq, Eq, Structural)]
pub struct AlertRuleConfiguration {
    pub enabled: bool,
    pub threshold: AlertThreshold,
    pub sustain_samples: u32,
    pub cooldown_seconds: u64,
}

/// The rule of every alert kind.
#[derive(Debug, Clone, Copy, PartialEq, Eq, Structural)]
pub struct MonitorAlertConfiguration {
    pub cpu: AlertRuleConfiguration,
    pub temperature: AlertRuleConfiguration,
    pub memory: AlertRuleConfiguration,
    pub disk: AlertRuleConfiguration,
    pub battery: AlertRuleConfiguration,
}

/// The rule of `kind`.
pub open spec fn rule_of(alerts: MonitorAlertConfiguration, kind: AlertKind) -> AlertRuleConfiguration {
    match kind {
        AlertKind::Cpu => alerts.cpu,
        AlertKind::Temperature => alerts.temperature,
        AlertKind::Memory => alerts.memory,
        AlertKind::Disk => alerts.disk,
        AlertKind::Battery => alerts.battery,
    }
}

/// The rules with the rule of `kind` replaced.
pub open spec fn with_rule(
    alerts: MonitorAlertConfiguration,
    kind: AlertKind,
    rule: AlertRuleConfiguration,
) -> MonitorAlertConfiguration {
    match kind {
        AlertKind::Cpu => MonitorAlertConfiguration { cpu: rule, ..alerts },
        AlertKind::Temperature => MonitorAlertConfiguration { temperature: rule, ..alerts },
        AlertKind::Memory => MonitorAlertConfiguration { memory: rule, ..alerts },
        AlertKind::Disk => MonitorAlertConfiguration { disk: rule, ..alerts },
        AlertKind::Battery => MonitorAlertConfiguration { battery: rule, ..alerts },
    }
}

/// The default rule of `kind`: enabled, 90 (15 for the battery), three
/// samples, fifteen minutes between repeats.
pub open spec fn default_rule(kind: AlertKind) -> AlertRuleConfiguration {
    AlertRuleConfiguration {
        enabled: true,
        threshold: AlertThreshold::FloatBits(
            if kind == AlertKind::Battery { DEFAULT_BATTERY_THRESHOLD_BITS } else { DEFAULT_HIGH_THRESHOLD_BITS },
        ),
        sustain_samples: DEFAULT_ALERT_SUSTAIN_SAMPLES,
        cooldown_seconds: DEFAULT_ALERT_COOLDOWN_SECONDS,
    }
}

/// The default rules.
pub open spec fn default_alerts() -> MonitorAlertConfiguration {
    MonitorAlertConfiguration {
        cpu: default_rule(AlertKind::Cpu),
        temperature: default_rule(AlertKind::Temperature),
        memory: default_rule(AlertKind::Memory),
        disk: default_rule(AlertKind::Disk),
        battery: default_rule(AlertKind::Battery),
    }
}

fn default_rule_for(kind: AlertKind) -> (rule: AlertRuleConfiguration)
    ensures
        rule == default_rule(kind),
{
    AlertRuleConfiguration {
        enabled: true,
        threshold: AlertThreshold::FloatBits(
            if matches!(kind, AlertKind::Battery) { DEFAULT_BATTERY_THRESHOLD_BITS } else { DEFAULT_HIGH_THRESHOLD_BITS },
        ),
        sustain_samples: DEFAULT_ALERT_SUSTAIN_SAMPLES,
        cooldown_seconds: DEFAULT_ALERT_COOLDOWN_SECONDS,
    }
}

impl Default for MonitorAlertConfiguration {
    fn default() -> (alerts: Self)
        ensures
            alerts == default_alerts(),
    {
        MonitorAlertConfiguration {
            cpu: default_rule_for(AlertKind::Cpu),
            temperature: default_rule_for(AlertKind::Temperature),
            memory: default_rule_for(AlertKind::Memory),
            disk: default_rule_for(AlertKind::Disk),
            battery: default_rule_for(AlertKind::Battery),
        }
    }
}

impl MonitorAlertConfiguration {
    /// The rule of `kind`.
    pub fn rule(&self, kind: AlertKind) -> (rule: AlertRuleConfiguration)
        ensures
            rule == rule_of(*self, kind),
    {
        match kind {
            AlertKind::Cpu => self.cpu,
            AlertKind::Temperature => self.temperature,
            AlertKind::Memory => self.memory,
            AlertKind::Disk => self.disk,
            AlertKind::Battery => self.battery,
        }
    }

    /// Replaces the rule of `kind`.
    pub fn set_rule(&mut self, kind: AlertKind, rule: AlertRuleConfiguration)
        ensures
            *final(self) == with_rule(*old(self), kind, rule),
    {
        match kind {
            AlertKind::Cpu => self.cpu = rule,
            AlertKind::Temperature => self.temperature = rule,
            AlertKind::Memory => self.memory = rule,
            AlertKind::Disk => self.disk = rule,
            AlertKind::Battery => self.battery = rule,
        }
    }
}

/// Monitoring preferences owned by the application.
#[derive(Debug, Clone, PartialEq, Eq)]
pub struct MonitorConfiguration {
    pub refresh_interval_millis: u64,
    pub history_samples: u32,
    pub readouts: Vec<MonitorReadout>,
    pub alerts: MonitorAlertConfiguration,
}

/// The content of the monitoring preferences.
pub struct MonitorSettings {
    pub refresh_interval_millis: u64,
    pub history_samples: u32,
    pub readouts: Seq<MonitorReadout>,
    pub alerts: MonitorAlertConfiguration,
}

impl View for MonitorConfiguration {
    type V = MonitorSettings;

    open spec fn view(&self) -> MonitorSettings {
        MonitorSettings {
            refresh_interval_millis: self.refresh_interval_millis,
            history_samples: self.history_samples,
            readouts: self.readouts@,
            alerts: self.alerts,
        }
    }
}

/// The default monitoring preferences: one second, 120 samples, every
/// readout in default order, the default rules.
pub open spec fn default_monitoring() -> MonitorSettings {
    MonitorSettings {
        refresh_interval_millis: DEFAULT_REFRESH_INTERVAL_MILLIS,
        history_samples: DEFAULT_HISTORY_SAMPLES,
        readouts: all_readouts(),
        alerts: default_alerts(),
    }
}

impl Default for MonitorConfiguration {
    fn default() -> (monitoring: Self)
        ensures
            monitoring@ == default_monitoring(),
    {
        let readouts = vec![
            MonitorReadout::Cpu,
            MonitorReadout::Memory,
            MonitorReadout::Swap,
            MonitorReadout::Disk,
            MonitorReadout::Network,
            MonitorReadout::Temperature,
            MonitorReadout::Battery,
            MonitorReadout::Gpu,
        ];
        assert(readouts@ =~= all_readouts());
        MonitorConfiguration {
            refresh_interval_millis: DEFAULT_REFRESH_INTERVAL_MILLIS,
            history_samples: DEFAULT_HISTORY_SAMPLES,
            readouts,
            alerts: MonitorAlertConfiguration::default(),
        }
    }
}

impl MonitorConfiguration {
    /// A copy with equal contents.
    pub fn duplicate(&self) -> (copy: Self)
        ensures
            copy@ == self@,
    {
        MonitorConfiguration {
            refresh_interval_millis: self.refresh_interval_millis,
            history_samples: self.history_samples,
            readouts: self.readouts.clone(),
            alerts: self.alerts,
        }
    }
}

/// The first position of `readout` in `readouts`.
pub open spec fn readout_position(readouts: Seq<MonitorReadout>, readout: MonitorReadout) -> Option<int>
    decreases readouts.len(),
{
    if readouts.len() == 0 {
        None
    } else if readouts.last() == readout && readout_position(readouts.drop_last(), readout) is None {
        Some(readouts.len() - 1)
    } else {
        readout_position(readouts.drop_last(), readout)
    }
}

/// The readouts after moving `readout` one place, if it can move that way.
pub open spec fn readout_moved(readouts: Seq<MonitorReadout>, readout: MonitorReadout, direction: PanelMoveDirection) -> Option<Seq<MonitorReadout>> {
    match readout_position(readouts, readout) {
        None => None,
        Some(i) => {
            let j = match direction {
                PanelMoveDirection::Up => i - 1,
                PanelMoveDirection::Down => i + 1,
            };
            if 0 <= j < readouts.len() {
                Some(readouts.update(i, readouts[j]).update(j, readouts[i]))
            } else {
                None
            }
        },
    }
}

/// The readouts without any entry for `readout`.
pub open spec fn without_readout(readouts: Seq<MonitorReadout>, readout: MonitorReadout) -> Seq<MonitorReadout>
    decreases readouts.len(),
{
    if readouts.len() == 0 {
        readouts
    } else if readouts.last() == readout {
        without_readout(readouts.drop_last(), readout)
    } else {
        without_readout(readouts.drop_last(), readout).push(readouts.last())
    }
}

/// The readouts with `readout` shown (appended unless already there) or
/// hidden (every entry for it removed).
pub open spec fn with_readout_visibility(readouts: Seq<MonitorReadout>, readout: MonitorReadout, visible: bool) -> Seq<MonitorReadout> {
    if visible {
        if readouts.contains(readout) { readouts } else { readouts.push(readout) }
    } else {
        without_readout(readouts, readout)
    }
}

pub(crate) proof fn lemma_readout_position(readouts: Seq<MonitorReadout>, readout: MonitorReadout)
    ensures
        readout_position(readouts, readout) matches Some(i) ==> 0 <= i < readouts.len() && readouts[i] == readout
            && forall|j: int| 0 <= j < i ==> readouts[j] != readout,
        readout_position(readouts, readout) is None ==> !readouts.contains(readout),
    decreases readouts.len(),
{
    if readouts.len() > 0 {
        let rest = readouts.drop_last();
        lemma_readout_position(rest, readout);
        assert forall|j: int| 0 <= j < rest.len() implies rest[j] == readouts[j] by {}
        if readout_position(readouts, readout) is None {
            assert forall|j: int| 0 <= j < readouts.len() implies readouts[j] != readout by {
                if j < rest.len() {
                    assert(!rest.contains(readout));
                    assert(rest[j] == readouts[j]);
                }
            }
        }
    }
}

pub(crate) proof fn lemma_readout_position_of(readouts: Seq<MonitorReadout>, readout: MonitorReadout, i: int)
    requires
        0 <= i < readouts.len(),
        readouts[i] == readout,
        forall|j: int| 0 <= j < i ==> readouts[j] != readout,
    ensures
        readout_position(readouts, readout) == Some(i),
    decreases readouts.len(),
{
    if i < readouts.len() - 1 {
        lemma_readout_position_of(readouts.drop_last(), readout, i);
    } else {
        lemma_readout_position(readouts.drop_last(), readout);
    }
}

/// Moving a readout up and then down again restores the list.
pub proof fn lemma_readout_up_then_down_restores(readouts: Seq<MonitorReadout>, readout: MonitorReadout)
    requires
        readout_moved(readouts, readout, PanelMoveDirection::Up) is Some,
    ensures
        readout_moved(readout_moved(readouts, readout, PanelMoveDirection::Up)->0, readout, PanelMoveDirection::Down)
            == Some(readouts),
{
    lemma_readout_position(readouts, readout);
    let i = readout_position(readouts, readout)->0;
    let up = readouts.update(i, readouts[i - 1]).update(i - 1, readouts[i]);
    assert forall|j: int| 0 <= j < i - 1 implies up[j] != readout by {
        assert(up[j] == readouts[j]);
    }
    assert(up[i - 1] == readout);
    lemma_readout_position_of(up, readout, i - 1);
    assert(up.update(i - 1, up[i]).update(i, up[i - 1]) =~= readouts);
}

/// Hiding a readout removes it; showing it again puts it back at the end.
pub proof fn lemma_hidden_readout_is_gone(readouts: Seq<MonitorReadout>, readout: MonitorReadout)
    ensures
        !with_readout_visibility(readouts, readout, false).contains(readout),
        with_readout_visibility(with_readout_visibility(readouts, readout, false), readout, true).last() == readout,
    decreases readouts.len(),
{
    if readouts.len() > 0 {
        lemma_hidden_readout_is_gone(readouts.drop_last(), readout);
    }
}

fn find_readout(readouts: &[MonitorReadout], readout: MonitorReadout) -> (found: Option<usize>)
    ensures
        found matches Some(index) ==> readout_position(readouts@, readout) == Some(index as int)
            && index < readouts@.len(),
        found is None ==> readout_position(readouts@, readout) is None && !readouts@.contains(readout),
{
    proof {
        lemma_readout_position(readouts@, readout);
    }
    let mut index: usize = 0;
    while index < readouts.len()
        invariant
            index <= readouts@.len(),
            forall|j: int| 0 <= j < index ==> readouts@[j] != readout,
        decreases readouts@.len() - index,
    {
        if readouts[index] == readout {
            proof {
                lemma_readout_position_of(readouts@, readout, index as int);
            }
            return Some(index);
        }
        index += 1;
    }
    proof {
        if readout_position(readouts@, readout) is Some {
            let i = readout_position(readouts@, readout)->0;
            assert(readouts@[i] != readout);
        }
    }
    None
}

/// Moves a readout one place up or down; returns whether it moved.
pub fn move_monitor_readout(
    readouts: &mut Vec<MonitorReadout>,
    readout: MonitorReadout,
    direction: PanelMoveDirection,
) -> (changed: bool)
    ensures
        changed == readout_moved(old(readouts)@, readout, direction) is Some,
        changed ==> final(readouts)@ == readout_moved(old(readouts)@, readout, direction)->0,
        !changed ==> final(readouts)@ == old(readouts)@,
{
    let index = match find_readout(readouts.as_slice(), readout) {
        Some(index) => index,
        None => {
            return false;
        },
    };
    let target = match direction {
        PanelMoveDirection::Up => {
            if index == 0 {
                return false;
            }
            index - 1
        },
        PanelMoveDirection::Down => {
            if index >= readouts.len() - 1 {
                return false;
            }
            index + 1
        },
    };
    let first = readouts[index];
    let second = readouts[target];
    readouts.set(index, second);
    readouts.set(target, first);
    assert(readouts@ =~= old(readouts)@.update(index as int, old(readouts)@[target as int]).update(
        target as int,
        old(readouts)@[index as int],
    ));
    true
}

/// Shows or hides a readout.
pub fn set_readout_visible(readouts: &mut Vec<MonitorReadout>, readout: MonitorReadout, visible: bool)
    ensures
        final(readouts)@ == with_readout_visibility(old(readouts)@, readout, visible),
{
    let found = find_readout(readouts.as_slice(), readout);
    if visible {
        if found.is_none() {
            readouts.push(readout);
        } else {
            proof {
                let i = readout_position(old(readouts)@, readout)->0;
                lemma_readout_position(old(readouts)@, readout);
                assert(old(readouts)@[i] == readout);
            }
        }
        return;
    }
    let ghost all = readouts@;
    let mut kept: Vec<MonitorReadout> = Vec::new();
    let mut index: usize = 0;
    while index < readouts.len()
        invariant
            all == readouts@,
            index <= all.len(),
            kept@ == without_readout(all.subrange(0, index as int), readout),
        decreases all.len() - index,
    {
        let ghost prefix = all.subrange(0, index + 1);
        assert(prefix.drop_last() =~= all.subrange(0, index as int));
        assert(prefix.last() == all[index as int]);
        if readouts[index] != readout {
            kept.push(readouts[index]);
        }
        index += 1;
    }
    assert(all.subrange(0, all.len() as int) =~= all);
    *readouts = kept;
}

} // verus!
