//! What the Monitoring panel section shows, as far as no number is
//! formatted: the settings rows of the readouts, which reading a readout
//! shows, and why an unavailable readout is unavailable.

use vstd::prelude::*;

use crate::monitor_config::{
    MonitorReadout, all_readouts, lemma_readout_position, readout_label, readout_position,
};
use crate::monitor_service::{GpuSnapshot, PowerSupplySnapshot};
use crate::system_monitor::{SourceIssue, TemperatureReading};
use crate::text::{owned, str_equal};
use crate::text_parse::{has_prefix, starts_with};
use crate::toggle_rules::{ascii_lowercase, push_lowercase};

verus! {

/// One settings row of a readout.
#[derive(Debug, Clone, Copy, PartialEq, Eq)]
pub struct ReadoutSetting {
    pub readout: MonitorReadout,
    pub label: &'static str,
    pub visible: bool,
    pub can_move_up: bool,
    pub can_move_down: bool,
}

/// The settings row of `readout` among the configured `readouts`: shown
/// when configured, movable up unless first and down unless last.
pub open spec fn readout_setting(readouts: Seq<MonitorReadout>, readout: MonitorReadout) -> ReadoutSetting {
    let position = readout_position(readouts, readout);
    ReadoutSetting {
        readout,
        label: readout_label(readout),
        visible: position is Some,
        can_move_up: position matches Some(i) && i > 0,
        can_move_down: position matches Some(i) && i + 1 < readouts.len(),
    }
}

/// Whether a readout is hidden: not among the configured `readouts`.
pub open spec fn hidden_from(readouts: Seq<MonitorReadout>) -> spec_fn(MonitorReadout) -> bool {
    |readout: MonitorReadout| !readouts.contains(readout)
}

/// The settings row of each readout among the configured `readouts`.
pub open spec fn setting_among(readouts: Seq<MonitorReadout>) -> spec_fn(MonitorReadout) -> ReadoutSetting {
    |readout: MonitorReadout| readout_setting(readouts, readout)
}

/// The rows in the order they are listed: the configured readouts first, in
/// their order, then every hidden readout in default order.
pub open spec fn settings_order(readouts: Seq<MonitorReadout>) -> Seq<MonitorReadout> {
    readouts + all_readouts().filter(hidden_from(readouts))
}

/// The settings rows of the configured `readouts`.
pub open spec fn readout_settings_spec(readouts: Seq<MonitorReadout>) -> Seq<ReadoutSetting> {
    settings_order(readouts).map_values(setting_among(readouts))
}

fn contains_readout(readouts: &[MonitorReadout], readout: MonitorReadout) -> (found: Option<usize>)
    ensures
        found matches Some(index) ==> readout_position(readouts@, readout) == Some(index as int)
            && index < readouts@.len() && readouts@.contains(readout),
        found is None ==> readout_position(readouts@, readout) is None && !readouts@.contains(readout),
{
    proof {
        lemma_readout_position(readouts@, readout);
    }
    let mut index: usize = 0;
    while index < readouts.len()
        invariant
            index <= readouts@.len(),
            forall|j: int| 0 <= j < index ==> readouts@[j] != readout,
        decreases readouts@.len() - index,
    {
        if readouts[index] == readout {
            proof {
                crate::monitor_config::lemma_readout_position_of(readouts@, readout, index as int);
                assert(readouts@[index as int] == readout);
            }
            return Some(index);
        }
        index += 1;
    }
    proof {
        if readout_position(readouts@, readout) is Some {
            let i = readout_position(readouts@, readout)->0;
            assert(readouts@[i] != readout);
        }
    }
    None
}

fn setting_for(readouts: &[MonitorReadout], readout: MonitorReadout) -> (setting: ReadoutSetting)
    ensures
        setting == readout_setting(readouts@, readout),
{
    let position = contains_readout(readouts, readout);
    ReadoutSetting {
        readout,
        label: readout.label(),
        visible: position.is_some(),
        can_move_up: match position {
            Some(index) => index > 0,
            None => false,
        },
        can_move_down: match position {
            Some(index) => index < readouts.len() - 1,
            None => false,
        },
    }
}

/// The settings rows of the configured readouts: configured ones first, then
/// the hidden ones, each with whether it is shown and can move.
pub fn readout_settings(readouts: &[MonitorReadout]) -> (settings: Vec<ReadoutSetting>)
    ensures
        settings@ == readout_settings_spec(readouts@),
{
    let ghost all = all_readouts();
    let ghost hidden = hidden_from(readouts@);
    let ghost row = setting_among(readouts@);
    let mut settings: Vec<ReadoutSetting> = Vec::new();
    let mut index: usize = 0;
    while index < readouts.len()
        invariant
            index <= readouts@.len(),
            row == setting_among(readouts@),
            settings@ == readouts@.subrange(0, index as int).map_values(row),
        decreases readouts@.len() - index,
    {
        let ghost before = readouts@.subrange(0, index as int);
        let setting = setting_for(readouts, readouts[index]);
        settings.push(setting);
        assert(readouts@.subrange(0, index + 1) =~= before.push(readouts@[index as int]));
        assert(before.push(readouts@[index as int]).map_values(row) =~= before.map_values(row).push(row(readouts@[index as int])));
        index += 1;
    }
    assert(readouts@.subrange(0, readouts@.len() as int) =~= readouts@);
    let defaults: [MonitorReadout; 8] = crate::monitor_config::MONITOR_READOUTS;
    assert(defaults@ =~= all);
    assert(all.subrange(0, 0).filter(hidden) =~= Seq::<MonitorReadout>::empty());
    assert(readouts@ + all.subrange(0, 0).filter(hidden) =~= readouts@);
    let mut position: usize = 0;
    while position < 8
        invariant
            position <= 8,
            defaults@ == all,
            all == all_readouts(),
            hidden == hidden_from(readouts@),
            row == setting_among(readouts@),
            settings@ == (readouts@ + all.subrange(0, position as int).filter(hidden)).map_values(row),
        decreases 8 - position,
    {
        let readout = defaults[position];
        let ghost before = all.subrange(0, position as int);
        let ghost kept = before.filter(hidden);
        assert(all.subrange(0, position + 1) =~= before.push(readout));
        proof {
            before.lemma_filter_push(readout, hidden);
        }
        if contains_readout(readouts, readout).is_none() {
            let ghost earlier = settings@;
            settings.push(setting_for(readouts, readout));
            assert((readouts@ + kept.push(readout)) =~= (readouts@ + kept).push(readout));
            assert((readouts@ + kept).push(readout).map_values(row) =~= earlier.push(row(readout)));
        }
        position += 1;
    }
    assert(all.subrange(0, 8) =~= all);
    settings
}

/// Whether a source issue belongs to a readout: the exact source of its
/// family (disk usage also any source under `/proc/self/mounts`).
pub open spec fn issue_source_of(readout: MonitorReadout, source: Seq<char>) -> bool {
    match readout {
        MonitorReadout::Cpu => source == "/proc/stat"@,
        MonitorReadout::Memory | MonitorReadout::Swap => source == "/proc/meminfo"@,
        MonitorReadout::Network => source == "/proc/net/dev"@,
        MonitorReadout::Temperature => source == "/sys/class/hwmon + /sys/class/thermal"@,
        MonitorReadout::Battery => source == "/sys/class/power_supply"@,
        MonitorReadout::Disk => source == "/proc/diskstats"@ || starts_with(source, "/proc/self/mounts"@),
        MonitorReadout::Gpu => source == "/sys/class/drm"@,
    }
}

/// The reason of the first issue that belongs to `readout`.
pub open spec fn issue_reason_spec(issues: Seq<SourceIssue>, readout: MonitorReadout) -> Option<Seq<char>>
    decreases issues.len(),
{
    if issues.len() == 0 {
        None
    } else if issue_source_of(readout, issues[0].source@) {
        Some(issues[0].reason@)
    } else {
        issue_reason_spec(issues.drop_first(), readout)
    }
}

fn is_issue_source_of(readout: MonitorReadout, source: &str) -> (found: bool)
    ensures
        found == issue_source_of(readout, source@),
{
    match readout {
        MonitorReadout::Cpu => str_equal(source, "/proc/stat"),
        MonitorReadout::Memory | MonitorReadout::Swap => str_equal(source, "/proc/meminfo"),
        MonitorReadout::Network => str_equal(source, "/proc/net/dev"),
        MonitorReadout::Temperature => str_equal(source, "/sys/class/hwmon + /sys/class/thermal"),
        MonitorReadout::Battery => str_equal(source, "/sys/class/power_supply"),
        MonitorReadout::Disk => str_equal(source, "/proc/diskstats") || has_prefix(source, "/proc/self/mounts"),
        MonitorReadout::Gpu => str_equal(source, "/sys/class/drm"),
    }
}

/// Why `readout` is unavailable, from the first issue of its own family; a
/// failure of another family is never borrowed.
pub fn issue_reason(issues: &[SourceIssue], readout: MonitorReadout) -> (reason: Option<String>)
    ensures
        crate::text::optional_text(reason) == issue_reason_spec(issues@, readout),
{
    let mut index: usize = 0;
    assert(issues@.subrange(0, issues@.len() as int) =~= issues@);
    while index < issues.len()
        invariant
            index <= issues@.len(),
            issue_reason_spec(issues@, readout) == issue_reason_spec(issues@.subrange(index as int, issues@.len() as int), readout),
        decreases issues@.len() - index,
    {
        let ghost rest = issues@.subrange(index as int, issues@.len() as int);
        assert(rest.drop_first() =~= issues@.subrange(index + 1, issues@.len() as int));
        assert(rest[0] == issues@[index as int]);
        if is_issue_source_of(readout, issues[index].source.as_str()) {
            return Some(issues[index].reason.clone());
        }
        index += 1;
    }
    None
}

/// What an unavailable readout says when no issue of its family explains it.
pub open spec fn unavailable_fallback(readout: MonitorReadout) -> Seq<char> {
    match readout {
        MonitorReadout::Cpu => "CPU usage is unavailable."@,
        MonitorReadout::Memory => "Memory usage is unavailable."@,
        MonitorReadout::Swap => "Swap usage is unavailable."@,
        MonitorReadout::Disk => "Disk usage is unavailable."@,
        MonitorReadout::Network => "Network rate is unavailable."@,
        MonitorReadout::Temperature => "Temperature readings are unavailable."@,
        MonitorReadout::Battery => "Battery capacity is unavailable."@,
        MonitorReadout::Gpu => "GPU activity is unavailable."@,
    }
}

/// The detail of an unavailable readout: without a snapshot, that none was
/// sampled yet; else the reason of its family's first issue, or the fallback.
pub open spec fn unavailable_detail_spec(issues: Option<Seq<SourceIssue>>, readout: MonitorReadout) -> Seq<char> {
    match issues {
        None => "No system snapshot is available yet."@,
        Some(found) => match issue_reason_spec(found, readout) {
            Some(reason) => reason,
            None => unavailable_fallback(readout),
        },
    }
}

fn fallback_text(readout: MonitorReadout) -> (text: &'static str)
    ensures
        text@ == unavailable_fallback(readout),
{
    match readout {
        MonitorReadout::Cpu => "CPU usage is unavailable.",
        MonitorReadout::Memory => "Memory usage is unavailable.",
        MonitorReadout::Swap => "Swap usage is unavailable.",
        MonitorReadout::Disk => "Disk usage is unavailable.",
        MonitorReadout::Network => "Network rate is unavailable.",
        MonitorReadout::Temperature => "Temperature readings are unavailable.",
        MonitorReadout::Battery => "Battery capacity is unavailable.",
        MonitorReadout::Gpu => "GPU activity is unavailable.",
    }
}

/// The detail of an unavailable readout, given the issues of the latest
/// snapshot, if there is one.
pub fn unavailable_detail(issues: Option<&[SourceIssue]>, readout: MonitorReadout) -> (detail: String)
    ensures
        detail@ == unavailable_detail_spec(
            match issues {
                Some(found) => Some(found@),
                None => None,
            },
            readout,
        ),
{
    match issues {
        None => owned("No system snapshot is available yet."),
        Some(found) => match issue_reason(found, readout) {
            Some(reason) => reason,
            None => owned(fallback_text(readout)),
        },
    }
}

/// Whether `index` is the reading the temperature readout shows: a hottest
/// one, the last of several equally hot.
pub open spec fn is_hottest(readings: Seq<TemperatureReading>, index: int) -> bool {
    &&& 0 <= index < readings.len()
    &&& forall|j: int| 0 <= j < readings.len() ==> readings[j].millidegrees_celsius <= readings[index].millidegrees_celsius
    &&& forall|j: int| index < j < readings.len() ==> readings[j].millidegrees_celsius < readings[index].millidegrees_celsius
}

/// The reading the temperature readout shows, if there is any.
pub fn hottest_temperature(readings: &[TemperatureReading]) -> (found: Option<usize>)
    ensures
        found matches Some(index) ==> is_hottest(readings@, index as int),
        found is None <==> readings@.len() == 0,
{
    if readings.len() == 0 {
        return None;
    }
    let mut best: usize = 0;
    let mut index: usize = 1;
    while index < readings.len()
        invariant
            1 <= index <= readings@.len(),
            best < index,
            forall|j: int| 0 <= j < index ==> readings@[j].millidegrees_celsius <= readings@[best as int].millidegrees_celsius,
            forall|j: int| best < j < index ==> readings@[j].millidegrees_celsius < readings@[best as int].millidegrees_celsius,
        decreases readings@.len() - index,
    {
        if readings[index].millidegrees_celsius >= readings[best].millidegrees_celsius {
            best = index;
        }
        index += 1;
    }
    Some(best)
}

/// Whether a power supply counts for the battery readout: its type is
/// `battery` in any letter case and it reports a capacity.
pub open spec fn battery_candidate(supply: PowerSupplySnapshot) -> bool {
    &&& supply.kind matches Some(kind) && ascii_lowercase(kind@) == "battery"@
    &&& supply.capacity_percent is Some
}

/// Whether `index` is the supply the battery readout shows: the first of
/// the batteries with the lowest capacity.
pub open spec fn is_lowest_battery(supplies: Seq<PowerSupplySnapshot>, index: int) -> bool {
    &&& 0 <= index < supplies.len()
    &&& battery_candidate(supplies[index])
    &&& forall|j: int| 0 <= j < supplies.len() && battery_candidate(supplies[j])
        ==> supplies[index].capacity_percent->0 <= supplies[j].capacity_percent->0
    &&& forall|j: int| 0 <= j < index && battery_candidate(supplies[j])
        ==> supplies[index].capacity_percent->0 < supplies[j].capacity_percent->0
}

fn is_battery(supply: &PowerSupplySnapshot) -> (found: bool)
    ensures
        found == battery_candidate(*supply),
{
    if supply.capacity_percent.is_none() {
        return false;
    }
    match &supply.kind {
        Some(kind) => {
            let mut lowered = String::new();
            push_lowercase(&mut lowered, kind.as_str());
            assert(lowered@ =~= ascii_lowercase(kind@));
            str_equal(lowered.as_str(), "battery")
        },
        None => false,
    }
}

/// The supply the battery readout shows, if any battery reports a capacity.
pub fn lowest_battery(supplies: &[PowerSupplySnapshot]) -> (found: Option<usize>)
    ensures
        found matches Some(index) ==> is_lowest_battery(supplies@, index as int),
        found is None <==> forall|j: int| 0 <= j < supplies@.len() ==> !battery_candidate(#[trigger] supplies@[j]),
{
    let mut best: Option<usize> = None;
    let mut index: usize = 0;
    while index < supplies.len()
        invariant
            index <= supplies@.len(),
            best matches Some(b) ==> b < index && battery_candidate(supplies@[b as int])
                && (forall|j: int| 0 <= j < index && battery_candidate(supplies@[j])
                    ==> supplies@[b as int].capacity_percent->0 <= supplies@[j].capacity_percent->0)
                && (forall|j: int| 0 <= j < b && battery_candidate(supplies@[j])
                    ==> supplies@[b as int].capacity_percent->0 < supplies@[j].capacity_percent->0),
            best is None ==> forall|j: int| 0 <= j < index ==> !battery_candidate(#[trigger] supplies@[j]),
        decreases supplies@.len() - index,
    {
        if is_battery(&supplies[index]) {
            let capacity = match supplies[index].capacity_percent {
                Some(capacity) => capacity,
                None => 0,
            };
            let lower = match best {
                None => true,
                Some(b) => match supplies[b].capacity_percent {
                    Some(current) => capacity < current,
                    None => false,
                },
            };
            if lower {
                best = Some(index);
            }
        }
        index += 1;
    }
    best
}

/// The busiest GPU's activity, if any GPU reports one.
pub open spec fn busiest_spec(gpus: Seq<GpuSnapshot>) -> Option<u8>
    decreases gpus.len(),
{
    if gpus.len() == 0 {
        None
    } else {
        let rest = busiest_spec(gpus.drop_last());
        match gpus.last().busy_percent {
            None => rest,
            Some(busy) => match rest {
                None => Some(busy),
                Some(other) => Some(if busy > other { busy } else { other }),
            },
        }
    }
}

/// The GPU readout shows the maximum: its value is reported by some GPU and
/// is at least every value any GPU reports; it is absent exactly when no GPU
/// reports one.
pub proof fn lemma_busiest_is_maximum(gpus: Seq<GpuSnapshot>)
    ensures
        busiest_spec(gpus) is None <==> forall|i: int| 0 <= i < gpus.len() ==> (#[trigger] gpus[i]).busy_percent is None,
        busiest_spec(gpus) matches Some(busiest) ==> (exists|i: int| 0 <= i < gpus.len() && (#[trigger] gpus[i]).busy_percent
            == Some(busiest)),
        busiest_spec(gpus) matches Some(busiest) ==> (forall|i: int| 0 <= i < gpus.len() && (#[trigger] gpus[i]).busy_percent
            is Some ==> gpus[i].busy_percent->0 <= busiest),
    decreases gpus.len(),
{
    if gpus.len() > 0 {
        let rest = gpus.drop_last();
        lemma_busiest_is_maximum(rest);
        assert forall|i: int| 0 <= i < rest.len() implies rest[i] == gpus[i] by {}
        let last = gpus.len() - 1;
        if busiest_spec(rest) is Some {
            let other = busiest_spec(rest)->0;
            let k = choose|i: int| 0 <= i < rest.len() && (#[trigger] rest[i]).busy_percent == Some(other);
            assert(gpus[k] == rest[k]);
        }
        assert forall|i: int| 0 <= i < gpus.len() && (#[trigger] gpus[i]).busy_percent is Some implies busiest_spec(gpus) is Some
            && gpus[i].busy_percent->0 <= busiest_spec(gpus)->0 by {
            if i < last {
                assert(gpus[i] == rest[i]);
            }
        }
        if busiest_spec(gpus) is None {
            assert forall|i: int| 0 <= i < gpus.len() implies (#[trigger] gpus[i]).busy_percent is None by {
                if i < last {
                    assert(gpus[i] == rest[i]);
                }
            }
        }
    }
}

/// The activity the GPU readout shows: the highest any GPU reports.
pub fn busiest_gpu(gpus: &[GpuSnapshot]) -> (busy: Option<u8>)
    ensures
        busy == busiest_spec(gpus@),
        busy is None <==> forall|i: int| 0 <= i < gpus@.len() ==> (#[trigger] gpus@[i]).busy_percent is None,
        busy matches Some(busiest) ==> (exists|i: int| 0 <= i < gpus@.len() && (#[trigger] gpus@[i]).busy_percent
            == Some(busiest)) && (forall|i: int| 0 <= i < gpus@.len() && (#[trigger] gpus@[i]).busy_percent is Some
            ==> gpus@[i].busy_percent->0 <= busiest),
{
    proof {
        lemma_busiest_is_maximum(gpus@);
    }
    let mut best: Option<u8> = None;
    let mut index: usize = 0;
    while index < gpus.len()
        invariant
            index <= gpus@.len(),
            best == busiest_spec(gpus@.subrange(0, index as int)),
        decreases gpus@.len() - index,
    {
        let ghost prefix = gpus@.subrange(0, index + 1);
        assert(prefix.drop_last() =~= gpus@.subrange(0, index as int));
        assert(prefix.last() == gpus@[index as int]);
        match gpus[index].busy_percent {
            None => {},
            Some(busy) => {
                best = match best {
                    None => Some(busy),
                    Some(other) => Some(if busy > other { busy } else { other }),
                };
            },
        }
        index += 1;
    }
    assert(gpus@.subrange(0, gpus@.len() as int) =~= gpus@);
    best
}

/// The detail of the CPU readout: the number of logical CPUs, when known.
pub open spec fn cpu_detail_spec(logical_cpus: Option<usize>) -> Seq<char> {
    match logical_cpus {
        Some(cpus) => crate::text::decimal(cpus as nat) + " logical CPUs"@,
        None => "Current CPU utilization"@,
    }
}

/// The detail of the CPU readout.
pub fn cpu_detail(logical_cpus: Option<usize>) -> (detail: String)
    ensures
        detail@ == cpu_detail_spec(logical_cpus),
{
    match logical_cpus {
        Some(cpus) => {
            let mut detail = crate::text::decimal_text(cpus as u64);
            detail.append(" logical CPUs");
            detail
        },
        None => owned("Current CPU utilization"),
    }
}

/// The detail of the disk readout: the fullest filesystem and where it is
/// mounted.
pub fn disk_detail(filesystem: &str, mount_point: &str) -> (detail: String)
    ensures
        detail@ == filesystem@ + " mounted at "@ + mount_point@,
{
    let mut detail = owned(filesystem);
    detail.append(" mounted at ");
    detail.append(mount_point);
    detail
}

/// The detail of the network readout: how many interfaces were sampled.
pub fn network_detail(interfaces: usize) -> (detail: String)
    ensures
        detail@ == crate::text::decimal(interfaces as nat) + " interfaces"@,
{
    let mut detail = crate::text::decimal_text(interfaces as u64);
    detail.append(" interfaces");
    detail
}

} // verus!
