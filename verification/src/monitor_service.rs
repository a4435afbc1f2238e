//! Sampling policy for the system monitor: settings, scheduling, bounded
//! history and the integer parts of each snapshot.

use vstd::prelude::*;

use crate::system_monitor::{
    CpuCounters, GpuReading, Metric, PowerSupplyReading, RawSystemSample, SourceIssue, SystemMonitorSource,
};
use crate::text::{decimal, owned, push_decimal};

verus! {

pub const MIN_REFRESH_INTERVAL_MILLIS: u64 = 250;

pub const MAX_REFRESH_INTERVAL_MILLIS: u64 = 60_000;

pub const DEFAULT_REFRESH_INTERVAL_MILLIS: u64 = 1_000;

pub const DEFAULT_HISTORY_SAMPLES: u32 = 120;

pub const MAX_HISTORY_SAMPLES: u32 = 600;

/// A refresh interval outside the supported bounds.
#[derive(Debug, Clone, Copy, PartialEq, Eq, Structural)]
pub struct InvalidRefreshInterval {
    requested_millis: u64,
}

impl InvalidRefreshInterval {
    /// The interval that was asked for, in milliseconds.
    pub closed spec fn requested_spec(self) -> u64 {
        self.requested_millis
    }

    /// The interval that was asked for, in milliseconds.
    pub fn requested(self) -> (millis: u64)
        ensures
            millis == self.requested_spec(),
    {
        self.requested_millis
    }
}

/// A history capacity outside the supported bounds.
#[derive(Debug, Clone, Copy, PartialEq, Eq, Structural)]
pub struct InvalidHistoryCapacity {
    requested: u32,
}

impl InvalidHistoryCapacity {
    /// The capacity that was asked for.
    pub closed spec fn requested_spec(self) -> u32 {
        self.requested
    }

    /// The capacity that was asked for.
    pub fn requested(self) -> (capacity: u32)
        ensures
            capacity == self.requested_spec(),
    {
        self.requested
    }

    /// The user-facing description of this error.
    pub fn describe(self) -> (text: String)
        ensures
            text@ == "history capacity "@ + decimal(self.requested_spec() as nat) + " is outside 1..=600"@,
    {
        let mut text = owned("history capacity ");
        push_decimal(&mut text, self.requested as u64);
        text.append(" is outside 1..=600");
        text
    }
}

/// Monitor settings outside their bounds.
#[derive(Debug, Clone, Copy, PartialEq, Eq, Structural)]
pub enum SystemMonitorConfigError {
    RefreshInterval(InvalidRefreshInterval),
    HistoryCapacity(InvalidHistoryCapacity),
}

/// Whether a refresh interval is within bounds.
pub open spec fn valid_interval(millis: u64) -> bool {
    MIN_REFRESH_INTERVAL_MILLIS <= millis <= MAX_REFRESH_INTERVAL_MILLIS
}

/// Whether a history capacity is within bounds.
pub open spec fn valid_capacity(capacity: u32) -> bool {
    1 <= capacity <= MAX_HISTORY_SAMPLES
}

/// Checks monitor settings: the interval first, then the capacity.
pub fn validate_settings(refresh_interval_millis: u64, history_capacity: u32) -> (result: Result<(), SystemMonitorConfigError>)
    ensures
        !valid_interval(refresh_interval_millis) ==> (result matches Err(SystemMonitorConfigError::RefreshInterval(error))
            && error.requested_spec() == refresh_interval_millis),
        valid_interval(refresh_interval_millis) && !valid_capacity(history_capacity) ==> (result matches Err(
            SystemMonitorConfigError::HistoryCapacity(error),
        ) && error.requested_spec() == history_capacity),
        valid_interval(refresh_interval_millis) && valid_capacity(history_capacity) ==> result is Ok,
{
    if refresh_interval_millis < MIN_REFRESH_INTERVAL_MILLIS || refresh_interval_millis > MAX_REFRESH_INTERVAL_MILLIS {
        return Err(SystemMonitorConfigError::RefreshInterval(InvalidRefreshInterval { requested_millis: refresh_interval_millis }));
    }
    if history_capacity < 1 || history_capacity > MAX_HISTORY_SAMPLES {
        return Err(SystemMonitorConfigError::HistoryCapacity(InvalidHistoryCapacity { requested: history_capacity }));
    }
    Ok(())
}

/// Whether a refresh took a sample.
#[derive(Debug, Clone, Copy, PartialEq, Eq, Structural)]
pub enum RefreshOutcome {
    Skipped,
    Updated,
}

/// Whether a sample is due at `observed_at`: always at first, and then once
/// a full interval has passed since the last sample; a clock that went back
/// is not due.
pub open spec fn sample_due(last: Option<u64>, observed_at: u64, interval: u64) -> bool {
    match last {
        None => true,
        Some(previous) => observed_at >= previous && observed_at - previous >= interval,
    }
}

/// The history after recording a sample: the oldest gives way once the
/// history is full.
pub open spec fn recorded<T>(history: Seq<T>, sample: T, capacity: nat) -> Seq<T> {
    if history.len() >= capacity && history.len() > 0 {
        history.drop_first().push(sample)
    } else {
        history.push(sample)
    }
}

/// The newest `capacity` samples.
pub open spec fn newest_samples<T>(history: Seq<T>, capacity: nat) -> Seq<T> {
    if history.len() > capacity {
        history.subrange(history.len() - capacity, history.len() as int)
    } else {
        history
    }
}

/// The sampling schedule and bounded history of the system monitor.
pub struct MonitorSchedule<T> {
    refresh_interval_millis: u64,
    history_capacity: u32,
    last_sampled_at: Option<u64>,
    history: Vec<T>,
}

impl<T> MonitorSchedule<T> {
    /// The interval between samples, in milliseconds.
    pub closed spec fn interval_spec(&self) -> u64 {
        self.refresh_interval_millis
    }

    /// How many samples the history keeps.
    pub closed spec fn capacity_spec(&self) -> u32 {
        self.history_capacity
    }

    /// When the last sample was taken.
    pub closed spec fn last_sampled_spec(&self) -> Option<u64> {
        self.last_sampled_at
    }

    /// The kept samples, oldest first.
    pub closed spec fn history_spec(&self) -> Seq<T> {
        self.history@
    }

    /// Settings within bounds and a history within its capacity.
    pub open spec fn wf(&self) -> bool {
        &&& valid_interval(self.interval_spec())
        &&& valid_capacity(self.capacity_spec())
        &&& self.history_spec().len() <= self.capacity_spec()
    }

    /// A schedule that has not sampled yet, if the settings are within bounds.
    pub fn new(refresh_interval_millis: u64, history_capacity: u32) -> (result: Result<Self, SystemMonitorConfigError>)
        ensures
            match validate_settings_spec(refresh_interval_millis, history_capacity) {
                true => result matches Ok(schedule) && schedule.wf() && schedule.interval_spec() == refresh_interval_millis
                    && schedule.capacity_spec() == history_capacity && schedule.last_sampled_spec() is None
                    && schedule.history_spec().len() == 0,
                false => result is Err,
            },
            !valid_interval(refresh_interval_millis) ==> (result matches Err(SystemMonitorConfigError::RefreshInterval(error))
                && error.requested_spec() == refresh_interval_millis),
            valid_interval(refresh_interval_millis) && !valid_capacity(history_capacity) ==> (result matches Err(
                SystemMonitorConfigError::HistoryCapacity(error),
            ) && error.requested_spec() == history_capacity),
    {
        match validate_settings(refresh_interval_millis, history_capacity) {
            Err(error) => Err(error),
            Ok(()) => Ok(MonitorSchedule {
                refresh_interval_millis,
                history_capacity,
                last_sampled_at: None,
                history: Vec::new(),
            }),
        }
    }

    /// Changes the settings; a smaller capacity drops the oldest samples.
    pub fn reconfigure(&mut self, refresh_interval_millis: u64, history_capacity: u32) -> (result: Result<(), SystemMonitorConfigError>)
        requires
            old(self).wf(),
        ensures
            final(self).wf(),
            !validate_settings_spec(refresh_interval_millis, history_capacity) ==> result is Err && *final(self) == *old(self),
            validate_settings_spec(refresh_interval_millis, history_capacity) ==> {
                &&& result is Ok
                &&& final(self).interval_spec() == refresh_interval_millis
                &&& final(self).capacity_spec() == history_capacity
                &&& final(self).last_sampled_spec() == old(self).last_sampled_spec()
                &&& final(self).history_spec() == newest_samples(old(self).history_spec(), history_capacity as nat)
            },
    {
        match validate_settings(refresh_interval_millis, history_capacity) {
            Err(error) => {
                return Err(error);
            },
            Ok(()) => {},
        }
        self.refresh_interval_millis = refresh_interval_millis;
        self.history_capacity = history_capacity;
        let ghost all = self.history@;
        while self.history.len() > history_capacity as usize
            invariant
                self.history_capacity == history_capacity,
                self.refresh_interval_millis == refresh_interval_millis,
                self.last_sampled_at == old(self).last_sampled_at,
                all == old(self).history@,
                self.history@.len() <= all.len(),
                forall|i: int| 0 <= i < self.history@.len() ==> self.history@[i] == all[i + all.len() - self.history@.len()],
                self.history@.len() >= history_capacity || self.history@ == all,
            decreases self.history@.len(),
        {
            self.history.remove(0);
        }
        proof {
            if all.len() > history_capacity {
                assert(self.history@ =~= newest_samples(all, history_capacity as nat));
            }
        }
        Ok(())
    }

    /// The interval between samples, in milliseconds.
    pub fn refresh_interval(&self) -> (millis: u64)
        ensures
            millis == self.interval_spec(),
    {
        self.refresh_interval_millis
    }

    /// How many samples the history keeps.
    pub fn history_capacity(&self) -> (capacity: u32)
        ensures
            capacity == self.capacity_spec(),
    {
        self.history_capacity
    }

    /// The kept samples, oldest first.
    pub fn history(&self) -> (samples: &[T])
        ensures
            samples@ == self.history_spec(),
    {
        self.history.as_slice()
    }

    /// Whether a sample is due at `observed_at`.
    pub fn is_due(&self, observed_at: u64) -> (due: bool)
        ensures
            due == sample_due(self.last_sampled_spec(), observed_at, self.interval_spec()),
    {
        match self.last_sampled_at {
            None => true,
            Some(previous) => observed_at >= previous && observed_at - previous >= self.refresh_interval_millis,
        }
    }

    /// Records a sample taken at `observed_at`; the oldest sample gives way
    /// once the history is full.
    pub fn record(&mut self, observed_at: u64, sample: T)
        requires
            old(self).wf(),
        ensures
            final(self).wf(),
            final(self).interval_spec() == old(self).interval_spec(),
            final(self).capacity_spec() == old(self).capacity_spec(),
            final(self).last_sampled_spec() == Some(observed_at),
            final(self).history_spec() == recorded(old(self).history_spec(), sample, old(self).capacity_spec() as nat),
    {
        if self.history.len() >= self.history_capacity as usize && self.history.len() > 0 {
            self.history.remove(0);
        }
        self.history.push(sample);
        self.last_sampled_at = Some(observed_at);
    }
}

impl<T> MonitorSchedule<T> {
    /// One refresh at `observed_at`: when no sample is due the source is not
    /// asked and nothing changes; when one is due the source is sampled once,
    /// `summarize` turns the sample into a history entry, which is recorded,
    /// and the sample is handed back.
    pub fn refresh<S: SystemMonitorSource, F: Fn(&RawSystemSample) -> T>(
        &mut self,
        source: &mut S,
        observed_at: u64,
        summarize: F,
    ) -> (sampled: Option<RawSystemSample>)
        requires
            old(self).wf(),
            forall|sample: &RawSystemSample| summarize.requires((sample,)),
        ensures
            final(self).wf(),
            final(self).interval_spec() == old(self).interval_spec(),
            final(self).capacity_spec() == old(self).capacity_spec(),
            sampled is None <==> !sample_due(old(self).last_sampled_spec(), observed_at, old(self).interval_spec()),
            sampled is None ==> *final(self) == *old(self),
            sampled matches Some(sample) ==> final(self).last_sampled_spec() == Some(observed_at)
                && final(self).history_spec() == recorded(
                    old(self).history_spec(),
                    final(self).history_spec().last(),
                    old(self).capacity_spec() as nat,
                )
                && summarize.ensures((&sample,), final(self).history_spec().last()),
    {
        if !self.is_due(observed_at) {
            return None;
        }
        let sample = source.sample();
        let entry = summarize(&sample);
        self.record(observed_at, entry);
        proof {
            lemma_history_bounded(old(self).history_spec(), entry, old(self).capacity_spec() as nat);
        }
        Some(sample)
    }
}

/// Whether monitor settings are within bounds.
pub open spec fn validate_settings_spec(refresh_interval_millis: u64, history_capacity: u32) -> bool {
    valid_interval(refresh_interval_millis) && valid_capacity(history_capacity)
}

/// A recorded history never exceeds its capacity, and the newest sample is
/// always the last one kept.
pub proof fn lemma_history_bounded<T>(history: Seq<T>, sample: T, capacity: nat)
    requires
        capacity >= 1,
        history.len() <= capacity,
    ensures
        recorded(history, sample, capacity).len() <= capacity,
        recorded(history, sample, capacity).last() == sample,
        history.len() < capacity ==> recorded(history, sample, capacity).drop_last() == history,
        history.len() == capacity ==> recorded(history, sample, capacity).drop_last() == history.drop_first(),
{
    if history.len() >= capacity && history.len() > 0 {
        assert(history.drop_first().push(sample).drop_last() =~= history.drop_first());
    } else {
        assert(history.push(sample).drop_last() =~= history);
    }
}

/// A power supply as shown, with the time left at the present draw.
#[derive(Debug, Clone, PartialEq, Eq)]
pub struct PowerSupplySnapshot {
    pub name: String,
    pub kind: Option<String>,
    pub scope: Option<String>,
    pub capacity_percent: Option<u8>,
    pub status: Option<String>,
    pub health: Option<String>,
    pub cycle_count: Option<u32>,
    pub energy_now_microwatt_hours: Option<u64>,
    pub energy_full_microwatt_hours: Option<u64>,
    pub power_microwatts: Option<u64>,
    pub remaining_seconds: Option<u64>,
}

/// Seconds left: remaining energy over present draw, when both are positive
/// and the energy in microwatt-seconds fits.
pub open spec fn remaining_time(energy: Option<u64>, power: Option<u64>) -> Option<u64> {
    match (energy, power) {
        (Some(stored), Some(draw)) => if stored > 0 && draw > 0 && stored as int * 3600 <= u64::MAX {
            Some(((stored as int * 3600) / draw as int) as u64)
        } else {
            None
        },
        _ => None,
    }
}

fn copy_optional(value: &Option<String>) -> (copy: Option<String>)
    ensures
        copy == *value,
{
    match value {
        Some(text) => Some(text.clone()),
        None => None,
    }
}

/// How a power supply reading is shown.
pub fn power_supply_snapshot(reading: &PowerSupplyReading) -> (snapshot: PowerSupplySnapshot)
    ensures
        snapshot.name == reading.name,
        snapshot.kind == reading.kind,
        snapshot.scope == reading.scope,
        snapshot.capacity_percent == reading.capacity_percent,
        snapshot.status == reading.status,
        snapshot.health == reading.health,
        snapshot.cycle_count == reading.cycle_count,
        snapshot.energy_now_microwatt_hours == reading.energy_now_microwatt_hours,
        snapshot.energy_full_microwatt_hours == reading.energy_full_microwatt_hours,
        snapshot.power_microwatts == reading.power_microwatts,
        snapshot.remaining_seconds == remaining_time(reading.energy_now_microwatt_hours, reading.power_microwatts),
{
    let remaining_seconds = match (reading.energy_now_microwatt_hours, reading.power_microwatts) {
        (Some(energy), Some(power)) => {
            if energy > 0 && power > 0 {
                match energy.checked_mul(3_600) {
                    Some(energy_seconds) => Some(energy_seconds / power),
                    None => None,
                }
            } else {
                None
            }
        },
        _ => None,
    };
    PowerSupplySnapshot {
        name: reading.name.clone(),
        kind: copy_optional(&reading.kind),
        scope: copy_optional(&reading.scope),
        capacity_percent: reading.capacity_percent,
        status: copy_optional(&reading.status),
        health: copy_optional(&reading.health),
        cycle_count: reading.cycle_count,
        energy_now_microwatt_hours: reading.energy_now_microwatt_hours,
        energy_full_microwatt_hours: reading.energy_full_microwatt_hours,
        power_microwatts: reading.power_microwatts,
        remaining_seconds,
    }
}

/// A GPU as shown.
#[derive(Debug, Clone, PartialEq, Eq)]
pub struct GpuSnapshot {
    pub device: String,
    pub label: Option<String>,
    pub busy_percent: Option<u8>,
}

/// How a GPU reading is shown.
pub fn gpu_snapshot(reading: &GpuReading) -> (snapshot: GpuSnapshot)
    ensures
        snapshot.device == reading.device,
        snapshot.label == reading.label,
        snapshot.busy_percent == reading.busy_percent,
{
    GpuSnapshot { device: reading.device.clone(), label: copy_optional(&reading.label), busy_percent: reading.busy_percent }
}

/// The issue of an unavailable metric.
pub open spec fn issue_of<T>(metric: Metric<T>) -> Seq<SourceIssue> {
    match metric {
        Metric::Available(_) => seq![],
        Metric::Unavailable(issue) => seq![issue],
    }
}

/// Every source family's issue, in family order.
pub open spec fn sample_issues(sample: RawSystemSample) -> Seq<SourceIssue> {
    issue_of(sample.cpu) + issue_of(sample.memory) + issue_of(sample.network) + issue_of(sample.temperatures)
        + issue_of(sample.power_supplies) + issue_of(sample.disk_usage) + issue_of(sample.disk_io) + issue_of(sample.gpu)
}

fn push_issue<T>(issues: &mut Vec<SourceIssue>, metric: &Metric<T>)
    ensures
        final(issues)@ == old(issues)@ + issue_of(*metric),
{
    match metric {
        Metric::Available(_) => {
            assert(old(issues)@ + issue_of(*metric) =~= old(issues)@);
        },
        Metric::Unavailable(issue) => {
            issues.push(SourceIssue { source: issue.source.clone(), reason: issue.reason.clone() });
            assert(issues@ =~= old(issues)@ + issue_of(*metric));
        },
    }
}

/// Collects the issue of every unavailable source family, in family order.
pub fn collect_issues(sample: &RawSystemSample) -> (issues: Vec<SourceIssue>)
    ensures
        issues@ == sample_issues(*sample),
{
    let mut issues: Vec<SourceIssue> = Vec::new();
    push_issue(&mut issues, &sample.cpu);
    push_issue(&mut issues, &sample.memory);
    push_issue(&mut issues, &sample.network);
    push_issue(&mut issues, &sample.temperatures);
    push_issue(&mut issues, &sample.power_supplies);
    push_issue(&mut issues, &sample.disk_usage);
    push_issue(&mut issues, &sample.disk_io);
    push_issue(&mut issues, &sample.gpu);
    assert(issues@ =~= sample_issues(*sample));
    issues
}

/// The busy and total time between two CPU readings, when the counters
/// moved forward consistently.
pub open spec fn cpu_deltas(current: CpuCounters, previous: CpuCounters) -> Option<(u64, u64)> {
    if current.total < previous.total || current.idle < previous.idle {
        None
    } else {
        let total = (current.total - previous.total) as u64;
        let idle = (current.idle - previous.idle) as u64;
        if total == 0 || idle > total {
            None
        } else {
            Some(((total - idle) as u64, total))
        }
    }
}

/// The busy and total time between two CPU readings.
pub fn cpu_busy(current: &CpuCounters, previous: &CpuCounters) -> (deltas: Option<(u64, u64)>)
    ensures
        deltas == cpu_deltas(*current, *previous),
{
    if current.total < previous.total || current.idle < previous.idle {
        return None;
    }
    let total = current.total - previous.total;
    let idle = current.idle - previous.idle;
    if total == 0 || idle > total {
        None
    } else {
        Some((total - idle, total))
    }
}

/// How far a counter advanced, when it did not go back.
pub fn counter_delta(current: u64, previous: Option<u64>) -> (delta: Option<u64>)
    ensures
        delta == match previous {
            Some(before) => if current >= before { Some((current - before) as u64) } else { None },
            None => None::<u64>,
        },
{
    match previous {
        Some(before) => if current >= before { Some(current - before) } else { None },
        None => None,
    }
}

/// Bytes in use: the total less what is available, never below zero.
pub fn used_bytes(total: u64, available: u64) -> (used: u64)
    ensures
        used == if total >= available { (total - available) as u64 } else { 0 },
{
    if total >= available { total - available } else { 0 }
}

} // verus!
