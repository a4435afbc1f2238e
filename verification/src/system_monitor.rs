//! Read-only Linux system-monitor sources: what each procfs or sysfs text
//! says, and how available the monitor is.

use vstd::prelude::*;

use crate::capability::{CapabilityEvidence, CapabilityReport, CapabilityStatus, StatusModel};
use crate::text::{decimal, decimal_text, owned};
use crate::text_parse::{
    all_digits, lines, parse_u64, parsed_u64, split_first, split_once, starts_with, text_lines,
    text_words, trim_text, trimmed, words, has_prefix,
};

verus! {

pub const MAX_FILESYSTEMS: usize = 16;

pub const MAX_DISK_DEVICES: usize = 16;

pub const MAX_GPUS: usize = 8;

/// The stable feature ID of the system monitor.
pub const FEATURE_ID: &'static str = "system.monitor";

/// Why one source could not be read.
#[derive(Debug, Clone, PartialEq, Eq)]
pub struct SourceIssue {
    pub source: String,
    pub reason: String,
}

impl SourceIssue {
    /// An issue with `source` for `reason`.
    pub fn new(source: &str, reason: &str) -> (issue: Self)
        ensures
            issue.source@ == source@,
            issue.reason@ == reason@,
    {
        SourceIssue { source: owned(source), reason: owned(reason) }
    }
}

/// A reading, or why it is missing.
#[derive(Debug, Clone, PartialEq, Eq)]
pub enum Metric<T> {
    Available(T),
    Unavailable(SourceIssue),
}

impl<T> Metric<T> {
    /// Whether the reading is present.
    pub fn is_available(&self) -> (available: bool)
        ensures
            available == (*self is Available),
    {
        match self {
            Metric::Available(_) => true,
            Metric::Unavailable(_) => false,
        }
    }
}

#[derive(Debug, Clone, PartialEq, Eq)]
pub struct CpuCounters {
    pub total: u64,
    pub idle: u64,
    pub logical_cpus: usize,
}

#[derive(Debug, Clone, PartialEq, Eq)]
pub struct MemoryCounters {
    pub total_bytes: u64,
    pub available_bytes: u64,
    pub cached_bytes: u64,
    pub buffers_bytes: u64,
    pub swap_total_bytes: u64,
    pub swap_free_bytes: u64,
}

#[derive(Debug, Clone, PartialEq, Eq)]
pub struct NetworkCounters {
    pub interface: String,
    pub received_bytes: u64,
    pub transmitted_bytes: u64,
}

#[derive(Debug, Clone, PartialEq, Eq)]
pub struct TemperatureReading {
    pub stable_key: String,
    pub label: String,
    pub millidegrees_celsius: i64,
}

#[derive(Debug, Clone, PartialEq, Eq)]
pub struct PowerSupplyReading {
    pub name: String,
    pub kind: Option<String>,
    pub scope: Option<String>,
    pub capacity_percent: Option<u8>,
    pub status: Option<String>,
    pub health: Option<String>,
    pub cycle_count: Option<u32>,
    pub energy_now_microwatt_hours: Option<u64>,
    pub energy_full_microwatt_hours: Option<u64>,
    pub power_microwatts: Option<u64>,
}

#[derive(Debug, Clone, PartialEq, Eq)]
pub struct FilesystemUsage {
    pub device: String,
    pub mount_point: String,
    pub filesystem: String,
    pub total_bytes: u64,
    pub available_bytes: u64,
}

#[derive(Debug, Clone, PartialEq, Eq)]
pub struct DiskCounters {
    pub device: String,
    pub read_bytes: u64,
    pub written_bytes: u64,
}

#[derive(Debug, Clone, PartialEq, Eq)]
pub struct GpuReading {
    pub device: String,
    pub busy_percent: Option<u8>,
    pub label: Option<String>,
}

/// One reading of every source family.
#[derive(Debug, Clone, PartialEq, Eq)]
pub struct RawSystemSample {
    pub cpu: Metric<CpuCounters>,
    pub memory: Metric<MemoryCounters>,
    pub network: Metric<Vec<NetworkCounters>>,
    pub temperatures: Metric<Vec<TemperatureReading>>,
    pub power_supplies: Metric<Vec<PowerSupplyReading>>,
    pub disk_usage: Metric<Vec<FilesystemUsage>>,
    pub disk_io: Metric<Vec<DiskCounters>>,
    pub gpu: Metric<Vec<GpuReading>>,
}

/// Takes one reading of every source family.
pub trait SystemMonitorSource {
    fn sample(&mut self) -> RawSystemSample;
}

/// `a + b`, capped at the largest `u64`.
pub open spec fn add_capped(a: u64, b: u64) -> u64 {
    if a as int + b as int > u64::MAX { u64::MAX } else { (a + b) as u64 }
}

/// `a * b`, capped at the largest `u64`.
pub open spec fn mul_capped(a: u64, b: u64) -> u64 {
    if a as int * b as int > u64::MAX { u64::MAX } else { (a * b) as u64 }
}

fn add_saturating(a: u64, b: u64) -> (sum: u64)
    ensures
        sum == add_capped(a, b),
{
    a.checked_add(b).unwrap_or(u64::MAX)
}

fn mul_saturating(a: u64, b: u64) -> (product: u64)
    ensures
        product == mul_capped(a, b),
{
    a.checked_mul(b).unwrap_or(u64::MAX)
}

/// Every word parsed as a `u64`, or nothing if one does not parse.
pub open spec fn parsed_all(fields: Seq<Seq<char>>) -> Option<Seq<u64>>
    decreases fields.len(),
{
    if fields.len() == 0 {
        Some(seq![])
    } else {
        match (parsed_all(fields.drop_last()), parsed_u64(fields.last())) {
            (Some(values), Some(value)) => Some(values.push(value)),
            _ => None,
        }
    }
}

/// Parses every word as a `u64`.
pub fn parse_fields(fields: &[String]) -> (values: Option<Vec<u64>>)
    ensures
        match parsed_all(fields@.map_values(|field: String| field@)) {
            Some(expected) => values matches Some(found) && found@ == expected,
            None => values is None,
        },
{
    let ghost texts = fields@.map_values(|field: String| field@);
    let mut values: Vec<u64> = Vec::new();
    let mut index: usize = 0;
    assert(texts.subrange(0, 0) =~= Seq::<Seq<char>>::empty());
    while index < fields.len()
        invariant
            texts == fields@.map_values(|field: String| field@),
            index <= fields@.len(),
            parsed_all(texts.subrange(0, index as int)) == Some(values@),
        decreases fields@.len() - index,
    {
        let ghost next = texts.subrange(0, index + 1);
        assert(next.drop_last() =~= texts.subrange(0, index as int));
        match parse_u64(fields[index].as_str()) {
            Some(value) => {
                values.push(value);
            },
            None => {
                proof {
                    lemma_parsed_all_fails(texts, index as int);
                }
                return None;
            },
        }
        index += 1;
    }
    assert(texts.subrange(0, texts.len() as int) =~= texts);
    Some(values)
}

proof fn lemma_parsed_all_fails(texts: Seq<Seq<char>>, index: int)
    requires
        0 <= index < texts.len(),
        parsed_u64(texts[index]) is None,
    ensures
        parsed_all(texts) is None,
    decreases texts.len(),
{
    if index < texts.len() - 1 {
        lemma_parsed_all_fails(texts.drop_last(), index);
    }
}

/// The saturating total of some counters.
pub open spec fn capped_total(values: Seq<u64>) -> u64
    decreases values.len(),
{
    if values.len() == 0 {
        0
    } else {
        add_capped(capped_total(values.drop_last()), values.last())
    }
}

/// Whether a `/proc/stat` line is one CPU's: `cpu` followed by digits.
pub open spec fn numbered_cpu_line(line: Seq<char>) -> bool {
    words(line).len() > 0 && starts_with(words(line)[0], "cpu"@) && words(line)[0].len() > 3
        && all_digits(words(line)[0].subrange(3, words(line)[0].len() as int))
}

/// The lines that start with `cpu`, in order.
pub open spec fn cpu_lines_of(all: Seq<Seq<char>>) -> Seq<Seq<char>>
    decreases all.len(),
{
    if all.len() == 0 {
        seq![]
    } else if starts_with(all.last(), "cpu"@) {
        cpu_lines_of(all.drop_last()).push(all.last())
    } else {
        cpu_lines_of(all.drop_last())
    }
}

/// How many lines are numbered CPU lines.
pub open spec fn numbered_count(all: Seq<Seq<char>>) -> nat
    decreases all.len(),
{
    if all.len() == 0 {
        0
    } else {
        numbered_count(all.drop_last()) + if numbered_cpu_line(all.last()) { 1nat } else { 0nat }
    }
}

/// The CPU lines of `/proc/stat`, the aggregate line first.
pub open spec fn cpu_lines(text: Seq<char>) -> Seq<Seq<char>> {
    cpu_lines_of(lines(text))
}

/// What `/proc/stat` says: the aggregate line's counters must all parse and
/// be at least four; idle time counts idle and I/O wait; each numbered CPU
/// line after the aggregate counts one logical CPU.
pub open spec fn cpu_reading(text: Seq<char>) -> Result<(u64, u64, nat), Seq<char>> {
    let found = cpu_lines(text);
    if found.len() == 0 {
        Err("aggregate CPU line is missing"@)
    } else {
        match if words(found[0]).len() == 0 { None } else { parsed_all(words(found[0]).drop_first()) } {
            Some(values) => if values.len() >= 4 {
                Ok((
                    capped_total(values),
                    add_capped(values[3], if values.len() > 4 { values[4] } else { 0 }),
                    numbered_count(found.drop_first()),
                ))
            } else {
                Err("aggregate CPU counters are malformed"@)
            },
            None => Err("aggregate CPU counters are malformed"@),
        }
    }
}

fn is_numbered_cpu_line(line: &str) -> (numbered: bool)
    ensures
        numbered == numbered_cpu_line(line@),
{
    let fields = text_words(line);
    if fields.len() == 0 {
        return false;
    }
    assert(fields@.map_values(|word: String| word@)[0] == fields@[0]@);
    let first = fields[0].as_str();
    if !has_prefix(first, "cpu") {
        return false;
    }
    let characters = crate::text::chars_of(first);
    if characters.len() <= 3 {
        return false;
    }
    let mut index: usize = 3;
    while index < characters.len()
        invariant
            characters@ == first@,
            words(line@).len() > 0 && words(line@)[0] == first@,
            3 <= index <= characters@.len(),
            forall|j: int| 3 <= j < index ==> '0' <= #[trigger] characters@[j] && characters@[j] <= '9',
        decreases characters@.len() - index,
    {
        let c = characters[index];
        if c < '0' || c > '9' {
            assert(first@.subrange(3, first@.len() as int)[index - 3] == c);
            return false;
        }
        index += 1;
    }
    assert forall|j: int| 0 <= j < first@.len() - 3 implies '0' <= #[trigger] first@.subrange(3, first@.len() as int)[j]
        && first@.subrange(3, first@.len() as int)[j] <= '9' by {
        assert(first@.subrange(3, first@.len() as int)[j] == characters@[j + 3]);
    }
    true
}

/// Reads `/proc/stat`.
pub fn cpu_counters(text: &str) -> (metric: Metric<CpuCounters>)
    ensures
        match cpu_reading(text@) {
            Ok((total, idle, count)) => metric matches Metric::Available(counters) && counters.total == total
                && counters.idle == idle && counters.logical_cpus == count,
            Err(reason) => metric matches Metric::Unavailable(issue) && issue.source@ == "/proc/stat"@
                && issue.reason@ == reason,
        },
{
    let all = text_lines(text);
    let ghost all_view = all@.map_values(|line: String| line@);
    let mut cpu: Vec<String> = Vec::new();
    let mut index: usize = 0;
    assert(all_view.subrange(0, 0) =~= Seq::<Seq<char>>::empty());
    assert(cpu@.map_values(|line: String| line@) =~= Seq::<Seq<char>>::empty());
    while index < all.len()
        invariant
            all_view == all@.map_values(|line: String| line@),
            all_view == lines(text@),
            index <= all@.len(),
            cpu@.map_values(|line: String| line@) == cpu_lines_of(all_view.subrange(0, index as int)),
        decreases all@.len() - index,
    {
        let ghost next = all_view.subrange(0, index + 1);
        assert(next.drop_last() =~= all_view.subrange(0, index as int));
        assert(next.last() == all@[index as int]@);
        if has_prefix(all[index].as_str(), "cpu") {
            let ghost before = cpu@.map_values(|line: String| line@);
            cpu.push(all[index].clone());
            assert(cpu@.map_values(|line: String| line@) =~= before.push(all@[index as int]@));
        }
        index += 1;
    }
    assert(all_view.subrange(0, all_view.len() as int) =~= all_view);
    let ghost found = cpu@.map_values(|line: String| line@);
    if cpu.len() == 0 {
        return Metric::Unavailable(SourceIssue::new("/proc/stat", "aggregate CPU line is missing"));
    }
    let fields = text_words(cpu[0].as_str());
    assert(found[0] == cpu@[0]@);
    if fields.len() == 0 {
        return Metric::Unavailable(SourceIssue::new("/proc/stat", "aggregate CPU counters are malformed"));
    }
    let rest = &fields.as_slice()[1..fields.len()];
    assert(rest@.map_values(|field: String| field@) =~= words(found[0]).drop_first());
    let values = match parse_fields(rest) {
        Some(values) => values,
        None => {
            return Metric::Unavailable(SourceIssue::new("/proc/stat", "aggregate CPU counters are malformed"));
        },
    };
    if values.len() < 4 {
        return Metric::Unavailable(SourceIssue::new("/proc/stat", "aggregate CPU counters are malformed"));
    }
    let mut total: u64 = 0;
    let mut position: usize = 0;
    assert(values@.subrange(0, 0) =~= Seq::<u64>::empty());
    while position < values.len()
        invariant
            position <= values@.len(),
            total == capped_total(values@.subrange(0, position as int)),
        decreases values@.len() - position,
    {
        assert(values@.subrange(0, position + 1).drop_last() =~= values@.subrange(0, position as int));
        total = add_saturating(total, values[position]);
        position += 1;
    }
    assert(values@.subrange(0, values@.len() as int) =~= values@);
    let waiting: u64 = if values.len() > 4 { values[4] } else { 0 };
    let idle = add_saturating(values[3], waiting);
    let mut count: usize = 0;
    let mut line: usize = 1;
    assert(found.drop_first().subrange(0, 0) =~= Seq::<Seq<char>>::empty());
    while line < cpu.len()
        invariant
            found == cpu@.map_values(|line: String| line@),
            found.len() >= 1,
            1 <= line <= cpu@.len(),
            count as nat == numbered_count(found.drop_first().subrange(0, line - 1)),
            count < line,
        decreases cpu@.len() - line,
    {
        let ghost next = found.drop_first().subrange(0, line as int);
        assert(next.drop_last() =~= found.drop_first().subrange(0, line - 1));
        assert(next.last() == cpu@[line as int]@);
        if is_numbered_cpu_line(cpu[line].as_str()) {
            count += 1;
        }
        line += 1;
    }
    assert(found.drop_first().subrange(0, found.len() - 1) =~= found.drop_first());
    Metric::Available(CpuCounters { total, idle, logical_cpus: count })
}

/// One `/proc/meminfo` line: a key before `:` and a kibibyte count, in bytes.
pub open spec fn meminfo_entry(line: Seq<char>) -> Option<(Seq<char>, u64)> {
    match split_first(line, ':') {
        Some((key, value)) => if words(value).len() > 0 && parsed_u64(words(value)[0]) is Some {
            Some((key, mul_capped(parsed_u64(words(value)[0])->0, 1024)))
        } else {
            None
        },
        None => None,
    }
}

/// The readable entries of some `/proc/meminfo` lines, in order.
pub open spec fn meminfo_entries(all: Seq<Seq<char>>) -> Seq<(Seq<char>, u64)>
    decreases all.len(),
{
    if all.len() == 0 {
        seq![]
    } else {
        match meminfo_entry(all.last()) {
            Some(entry) => meminfo_entries(all.drop_last()).push(entry),
            None => meminfo_entries(all.drop_last()),
        }
    }
}

/// The value of the last entry for `key`.
pub open spec fn last_value(entries: Seq<(Seq<char>, u64)>, key: Seq<char>) -> Option<u64>
    decreases entries.len(),
{
    if entries.len() == 0 {
        None
    } else if entries.last().0 == key {
        Some(entries.last().1)
    } else {
        last_value(entries.drop_last(), key)
    }
}

/// What `/proc/meminfo` says: the total and the available memory are
/// required; cache, buffers and swap default to zero.
pub open spec fn memory_reading(text: Seq<char>) -> Result<MemoryCounters, Seq<char>> {
    let entries = meminfo_entries(lines(text));
    let value = |key: Seq<char>| match last_value(entries, key) {
        Some(found) => found,
        None => 0u64,
    };
    if last_value(entries, "MemTotal"@) is None {
        Err("MemTotal is missing"@)
    } else if last_value(entries, "MemAvailable"@) is None {
        Err("MemAvailable is missing"@)
    } else {
        Ok(MemoryCounters {
            total_bytes: value("MemTotal"@),
            available_bytes: value("MemAvailable"@),
            cached_bytes: value("Cached"@),
            buffers_bytes: value("Buffers"@),
            swap_total_bytes: value("SwapTotal"@),
            swap_free_bytes: value("SwapFree"@),
        })
    }
}

/// Whether `value` is what the entries say for `key`: the value of its last
/// entry, or zero when no entry has that key.
pub open spec fn says_for(entries: Seq<(Seq<char>, u64)>, key: Seq<char>, value: u64) -> bool {
    ||| exists|i: int| 0 <= i < entries.len() && #[trigger] entries[i] == (key, value)
        && forall|j: int| i < j < entries.len() ==> (#[trigger] entries[j]).0 != key
    ||| value == 0 && forall|i: int| 0 <= i < entries.len() ==> (#[trigger] entries[i]).0 != key
}

proof fn lemma_last_value_says(entries: Seq<(Seq<char>, u64)>, key: Seq<char>)
    ensures
        last_value(entries, key) matches Some(found) ==> exists|i: int| 0 <= i < entries.len()
            && #[trigger] entries[i] == (key, found) && forall|j: int| i < j < entries.len() ==> (#[trigger] entries[j]).0 != key,
        last_value(entries, key) is None ==> forall|i: int| 0 <= i < entries.len() ==> (#[trigger] entries[i]).0 != key,
        says_for(entries, key, match last_value(entries, key) {
            Some(found) => found,
            None => 0u64,
        }),
    decreases entries.len(),
{
    if entries.len() > 0 {
        let rest = entries.drop_last();
        lemma_last_value_says(rest, key);
        let last = entries.len() - 1;
        if entries.last().0 == key {
            assert(entries[last] == (key, entries.last().1));
        } else if last_value(rest, key) is Some {
            let found = last_value(rest, key)->0;
            let i = choose|i: int| 0 <= i < rest.len() && #[trigger] rest[i] == (key, found)
                && forall|j: int| i < j < rest.len() ==> (#[trigger] rest[j]).0 != key;
            assert(rest[i] == entries[i]);
            assert forall|j: int| i < j < entries.len() implies (#[trigger] entries[j]).0 != key by {
                if j < last {
                    assert(rest[j] == entries[j]);
                }
            }
        } else {
            assert forall|i: int| 0 <= i < entries.len() implies (#[trigger] entries[i]).0 != key by {
                if i < last {
                    assert(rest[i] == entries[i]);
                }
            }
        }
    }
}

proof fn lemma_key_present(entries: Seq<(Seq<char>, u64)>, key: Seq<char>)
    ensures
        last_value(entries, key) is Some <==> !forall|i: int| 0 <= i < entries.len() ==> (#[trigger] entries[i]).0 != key,
{
    lemma_last_value_says(entries, key);
    if last_value(entries, key) is Some {
        let found = last_value(entries, key)->0;
        let i = choose|i: int| 0 <= i < entries.len() && #[trigger] entries[i] == (key, found)
            && forall|j: int| i < j < entries.len() ==> (#[trigger] entries[j]).0 != key;
        assert(entries[i].0 == key);
    }
}

/// Each memory counter is what `/proc/meminfo` says for its own key (in
/// bytes, the kibibyte count times 1024): the last entry with that key, or
/// zero without one; the reading fails exactly when `MemTotal` or
/// `MemAvailable` is missing.
pub proof fn lemma_memory_counters_follow_their_keys(text: Seq<char>)
    ensures
        memory_reading(text) matches Ok(counters) ==> {
            let entries = meminfo_entries(lines(text));
            &&& says_for(entries, "MemTotal"@, counters.total_bytes)
            &&& says_for(entries, "MemAvailable"@, counters.available_bytes)
            &&& says_for(entries, "Cached"@, counters.cached_bytes)
            &&& says_for(entries, "Buffers"@, counters.buffers_bytes)
            &&& says_for(entries, "SwapTotal"@, counters.swap_total_bytes)
            &&& says_for(entries, "SwapFree"@, counters.swap_free_bytes)
        },
        memory_reading(text) is Err <==> (forall|i: int| 0 <= i < meminfo_entries(lines(text)).len()
            ==> (#[trigger] meminfo_entries(lines(text))[i]).0 != "MemTotal"@) || (forall|i: int| 0 <= i
            < meminfo_entries(lines(text)).len() ==> (#[trigger] meminfo_entries(lines(text))[i]).0 != "MemAvailable"@),
{
    let entries = meminfo_entries(lines(text));
    lemma_last_value_says(entries, "MemTotal"@);
    lemma_last_value_says(entries, "MemAvailable"@);
    lemma_last_value_says(entries, "Cached"@);
    lemma_last_value_says(entries, "Buffers"@);
    lemma_last_value_says(entries, "SwapTotal"@);
    lemma_last_value_says(entries, "SwapFree"@);
    lemma_key_present(entries, "MemTotal"@);
    lemma_key_present(entries, "MemAvailable"@);
}

fn meminfo_line(line: &str) -> (entry: Option<(String, u64)>)
    ensures
        match meminfo_entry(line@) {
            Some((key, value)) => entry matches Some((found_key, found_value)) && found_key@ == key && found_value == value,
            None => entry is None,
        },
{
    let (key, value) = match split_once(line, ':') {
        Some(parts) => parts,
        None => {
            return None;
        },
    };
    let fields = text_words(value.as_str());
    if fields.len() == 0 {
        return None;
    }
    assert(fields@.map_values(|word: String| word@)[0] == fields@[0]@);
    match parse_u64(fields[0].as_str()) {
        Some(kibibytes) => Some((key, mul_saturating(kibibytes, 1024))),
        None => None,
    }
}

fn find_last(entries: &Vec<(String, u64)>, key: &str) -> (found: Option<u64>)
    ensures
        found == last_value(entries@.map_values(|entry: (String, u64)| (entry.0@, entry.1)), key@),
{
    let ghost view = entries@.map_values(|entry: (String, u64)| (entry.0@, entry.1));
    let mut index: usize = entries.len();
    assert(view.subrange(0, view.len() as int) =~= view);
    while index > 0
        invariant
            view == entries@.map_values(|entry: (String, u64)| (entry.0@, entry.1)),
            index <= entries@.len(),
            last_value(view, key@) == last_value(view.subrange(0, index as int), key@),
        decreases index,
    {
        let ghost prefix = view.subrange(0, index as int);
        assert(prefix.drop_last() =~= view.subrange(0, index - 1));
        assert(prefix.last() == view[index - 1]);
        if crate::text::str_equal(entries[index - 1].0.as_str(), key) {
            return Some(entries[index - 1].1);
        }
        index -= 1;
    }
    None
}

/// Reads `/proc/meminfo`.
pub fn memory_counters(text: &str) -> (metric: Metric<MemoryCounters>)
    ensures
        match memory_reading(text@) {
            Ok(counters) => metric == Metric::<MemoryCounters>::Available(counters),
            Err(reason) => metric matches Metric::Unavailable(issue) && issue.source@ == "/proc/meminfo"@
                && issue.reason@ == reason,
        },
{
    let all = text_lines(text);
    let ghost all_view = all@.map_values(|line: String| line@);
    let mut entries: Vec<(String, u64)> = Vec::new();
    let mut index: usize = 0;
    assert(all_view.subrange(0, 0) =~= Seq::<Seq<char>>::empty());
    assert(entries@.map_values(|entry: (String, u64)| (entry.0@, entry.1)) =~= Seq::<(Seq<char>, u64)>::empty());
    while index < all.len()
        invariant
            all_view == all@.map_values(|line: String| line@),
            all_view == lines(text@),
            index <= all@.len(),
            entries@.map_values(|entry: (String, u64)| (entry.0@, entry.1)) == meminfo_entries(all_view.subrange(0, index as int)),
        decreases all@.len() - index,
    {
        let ghost next = all_view.subrange(0, index + 1);
        assert(next.drop_last() =~= all_view.subrange(0, index as int));
        assert(next.last() == all@[index as int]@);
        let ghost before = entries@.map_values(|entry: (String, u64)| (entry.0@, entry.1));
        match meminfo_line(all[index].as_str()) {
            Some(entry) => {
                let ghost pair = (entry.0@, entry.1);
                entries.push(entry);
                assert(entries@.map_values(|entry: (String, u64)| (entry.0@, entry.1)) =~= before.push(pair));
            },
            None => {},
        }
        index += 1;
    }
    assert(all_view.subrange(0, all_view.len() as int) =~= all_view);
    let total = match find_last(&entries, "MemTotal") {
        Some(value) => value,
        None => {
            return Metric::Unavailable(SourceIssue::new("/proc/meminfo", "MemTotal is missing"));
        },
    };
    let available = match find_last(&entries, "MemAvailable") {
        Some(value) => value,
        None => {
            return Metric::Unavailable(SourceIssue::new("/proc/meminfo", "MemAvailable is missing"));
        },
    };
    let cached = match find_last(&entries, "Cached") { Some(value) => value, None => 0 };
    let buffers = match find_last(&entries, "Buffers") { Some(value) => value, None => 0 };
    let swap_total = match find_last(&entries, "SwapTotal") { Some(value) => value, None => 0 };
    let swap_free = match find_last(&entries, "SwapFree") { Some(value) => value, None => 0 };
    Metric::Available(MemoryCounters {
        total_bytes: total,
        available_bytes: available,
        cached_bytes: cached,
        buffers_bytes: buffers,
        swap_total_bytes: swap_total,
        swap_free_bytes: swap_free,
    })
}

/// One `/proc/net/dev` line: an interface name before `:` and at least
/// sixteen counters, of which the first is received and the ninth
/// transmitted bytes.
pub open spec fn interface_entry(line: Seq<char>) -> Option<(Seq<char>, u64, u64)> {
    match split_first(line, ':') {
        Some((name, counters)) => match parsed_all(words(counters)) {
            Some(values) => if values.len() >= 16 {
                Some((trimmed(name), values[0], values[8]))
            } else {
                None
            },
            None => None,
        },
        None => None,
    }
}

/// The interfaces that some `/proc/net/dev` lines describe, in order.
pub open spec fn interface_entries(all: Seq<Seq<char>>) -> Seq<(Seq<char>, u64, u64)>
    decreases all.len(),
{
    if all.len() == 0 {
        seq![]
    } else {
        match interface_entry(all.last()) {
            Some(entry) => interface_entries(all.drop_last()).push(entry),
            None => interface_entries(all.drop_last()),
        }
    }
}

/// The interfaces `/proc/net/dev` lists below its two header lines.
pub open spec fn network_reading(text: Seq<char>) -> Seq<(Seq<char>, u64, u64)> {
    let all = lines(text);
    interface_entries(if all.len() > 2 { all.subrange(2, all.len() as int) } else { seq![] })
}

/// The content of parsed interface counters.
pub open spec fn interfaces_view(interfaces: Seq<NetworkCounters>) -> Seq<(Seq<char>, u64, u64)> {
    interfaces.map_values(|entry: NetworkCounters| (entry.interface@, entry.received_bytes, entry.transmitted_bytes))
}

fn interface_line(line: &str) -> (entry: Option<NetworkCounters>)
    ensures
        match interface_entry(line@) {
            Some((name, received, transmitted)) => entry matches Some(found) && found.interface@ == name
                && found.received_bytes == received && found.transmitted_bytes == transmitted,
            None => entry is None,
        },
{
    let (name, counters) = match split_once(line, ':') {
        Some(parts) => parts,
        None => {
            return None;
        },
    };
    let fields = text_words(counters.as_str());
    let values = match parse_fields(fields.as_slice()) {
        Some(values) => values,
        None => {
            return None;
        },
    };
    if values.len() < 16 {
        return None;
    }
    Some(NetworkCounters { interface: trim_text(name.as_str()), received_bytes: values[0], transmitted_bytes: values[8] })
}

/// Reads `/proc/net/dev`.
pub fn network_counters(text: &str) -> (metric: Metric<Vec<NetworkCounters>>)
    ensures
        network_reading(text@).len() > 0 ==> (metric matches Metric::Available(interfaces) && interfaces_view(interfaces@) == network_reading(text@)),
        network_reading(text@).len() == 0 ==> (metric matches Metric::Unavailable(issue) && issue.source@ == "/proc/net/dev"@
            && issue.reason@ == "no network interfaces were parsed"@),
{
    let all = text_lines(text);
    let ghost all_view = all@.map_values(|line: String| line@);
    let ghost body = if all_view.len() > 2 { all_view.subrange(2, all_view.len() as int) } else { Seq::<Seq<char>>::empty() };
    let mut interfaces: Vec<NetworkCounters> = Vec::new();
    if all.len() > 2 {
        let mut index: usize = 2;
        assert(body.subrange(0, 0) =~= Seq::<Seq<char>>::empty());
        assert(interfaces_view(interfaces@) =~= Seq::<(Seq<char>, u64, u64)>::empty());
        while index < all.len()
            invariant
                all_view == all@.map_values(|line: String| line@),
                all_view.len() > 2,
                body == all_view.subrange(2, all_view.len() as int),
                2 <= index <= all@.len(),
                interfaces_view(interfaces@) == interface_entries(body.subrange(0, index - 2)),
            decreases all@.len() - index,
        {
            let ghost next = body.subrange(0, index - 1);
            assert(next.drop_last() =~= body.subrange(0, index - 2));
            assert(next.last() == all@[index as int]@);
            let ghost before = interfaces_view(interfaces@);
            match interface_line(all[index].as_str()) {
                Some(entry) => {
                    let ghost triple = (entry.interface@, entry.received_bytes, entry.transmitted_bytes);
                    interfaces.push(entry);
                    assert(interfaces_view(interfaces@) =~= before.push(triple));
                },
                None => {},
            }
            index += 1;
        }
        assert(body.subrange(0, body.len() as int) =~= body);
    } else {
        assert(interfaces_view(interfaces@) =~= Seq::<(Seq<char>, u64, u64)>::empty());
    }
    if interfaces.len() == 0 {
        Metric::Unavailable(SourceIssue::new("/proc/net/dev", "no network interfaces were parsed"))
    } else {
        Metric::Available(interfaces)
    }
}

/// How many of the three core source families are available.
pub open spec fn core_families(sample: RawSystemSample) -> nat {
    (if sample.cpu is Available { 1nat } else { 0nat }) + (if sample.memory is Available { 1nat } else { 0nat })
        + (if sample.network is Available { 1nat } else { 0nat })
}

/// How many of the five optional source families are available.
pub open spec fn optional_families(sample: RawSystemSample) -> nat {
    (if sample.temperatures is Available { 1nat } else { 0nat }) + (if sample.power_supplies is Available { 1nat } else { 0nat })
        + (if sample.disk_usage is Available { 1nat } else { 0nat }) + (if sample.disk_io is Available { 1nat } else { 0nat })
        + (if sample.gpu is Available { 1nat } else { 0nat })
}

/// How a boolean is written.
pub open spec fn bool_text(value: bool) -> Seq<char> {
    if value { "true"@ } else { "false"@ }
}

fn bool_word(value: bool) -> (text: &'static str)
    ensures
        text@ == bool_text(value),
{
    if value { "true" } else { "false" }
}

/// Whether `report` is the monitor's capability for `sample`: supported
/// when every family is available, limited while a core family is, else
/// unsupported; the counts, the disk and GPU availability and the absence of
/// per-process metrics are evidence; a remediation accompanies any gap.
pub open spec fn describes_sample(report: CapabilityReport, sample: RawSystemSample) -> bool {
    let core = core_families(sample);
    let optional = optional_families(sample);
    &&& report.feature_id == FEATURE_ID
    &&& report.status@ == if core == 3 && optional == 5 {
        StatusModel::Supported
    } else if core > 0 {
        StatusModel::Limited("Some monitor sources are unavailable."@)
    } else {
        StatusModel::Unsupported("No core procfs monitor sources are readable."@)
    }
    &&& report.summary@ == decimal(core) + "/3 core and "@ + decimal(optional) + "/5 optional monitor source families are available."@
    &&& report.selected_backend matches Some(text) && text@ == "/proc + /sys"@
    &&& report.evidence@.len() == 5
    &&& report.evidence@[0]@ == ("core_source_families_available"@, decimal(core))
    &&& report.evidence@[1]@ == ("optional_source_families_available"@, decimal(optional))
    &&& report.evidence@[2]@ == ("disk_usage_sources_available"@, bool_text(sample.disk_usage is Available))
    &&& report.evidence@[3]@ == ("gpu_sources_available"@, bool_text(sample.gpu is Available))
    &&& report.evidence@[4]@ == ("per_process_metrics"@, "not_collected"@)
    &&& if core < 3 || optional < 5 {
        report.remediation matches Some(text) && text@ == "Unavailable metrics stay visible; verify procfs/sysfs mounts and kernel hardware drivers. NVIDIA GPU readings need an NVML adapter, and per-process metrics are not collected."@
    } else {
        report.remediation is None
    }
}

fn count_of(flag: bool) -> (count: u64)
    ensures
        count == if flag { 1u64 } else { 0u64 },
{
    if flag { 1 } else { 0 }
}

/// The monitor's capability for one reading of every source family.
pub fn sample_capability(sample: &RawSystemSample) -> (report: CapabilityReport)
    ensures
        describes_sample(report, *sample),
{
    let core = count_of(sample.cpu.is_available()) + count_of(sample.memory.is_available())
        + count_of(sample.network.is_available());
    let optional = count_of(sample.temperatures.is_available()) + count_of(sample.power_supplies.is_available())
        + count_of(sample.disk_usage.is_available()) + count_of(sample.disk_io.is_available())
        + count_of(sample.gpu.is_available());
    let status = if core == 3 && optional == 5 {
        CapabilityStatus::Supported
    } else if core > 0 {
        CapabilityStatus::Limited { reason: owned("Some monitor sources are unavailable.") }
    } else {
        CapabilityStatus::Unsupported { reason: owned("No core procfs monitor sources are readable.") }
    };
    let core_text = decimal_text(core);
    let optional_text = decimal_text(optional);
    let mut summary = core_text.clone();
    summary.append("/3 core and ");
    summary.append(optional_text.as_str());
    summary.append("/5 optional monitor source families are available.");
    let mut report = CapabilityReport::new(FEATURE_ID, status, summary.as_str())
        .with_selected_backend("/proc + /sys")
        .with_evidence(CapabilityEvidence::new("core_source_families_available", core_text.as_str()))
        .with_evidence(CapabilityEvidence::new("optional_source_families_available", optional_text.as_str()))
        .with_evidence(CapabilityEvidence::new("disk_usage_sources_available", bool_word(sample.disk_usage.is_available())))
        .with_evidence(CapabilityEvidence::new("gpu_sources_available", bool_word(sample.gpu.is_available())))
        .with_evidence(CapabilityEvidence::new("per_process_metrics", "not_collected"));
    if core < 3 || optional < 5 {
        report = report.with_remediation(
            "Unavailable metrics stay visible; verify procfs/sysfs mounts and kernel hardware drivers. NVIDIA GPU readings need an NVML adapter, and per-process metrics are not collected.",
        );
    }
    report
}

/// A sysfs attribute's value: trimmed, and absent when empty.
pub open spec fn attribute_value(contents: Option<Seq<char>>) -> Option<Seq<char>> {
    match contents {
        Some(text) => if trimmed(text).len() > 0 { Some(trimmed(text)) } else { None },
        None => None,
    }
}

/// Reads a sysfs attribute's value from the file's contents, if it was read.
pub fn attribute(contents: Option<String>) -> (value: Option<String>)
    ensures
        attribute_value(crate::text::optional_text(contents)) == crate::text::optional_text(value),
{
    match contents {
        Some(text) => {
            let value = trim_text(text.as_str());
            if value.as_str().is_empty() {
                None
            } else {
                Some(value)
            }
        },
        None => None,
    }
}

/// A number no larger than `limit`, as `FromStr` for a narrower unsigned
/// type parses it.
pub open spec fn parsed_bounded(text: Seq<char>, limit: u64) -> Option<u64> {
    match parsed_u64(text) {
        Some(value) => if value <= limit { Some(value) } else { None },
        None => None,
    }
}

/// Parses a `u8`.
pub fn parse_u8(text: &str) -> (value: Option<u8>)
    ensures
        match parsed_bounded(text@, 255) {
            Some(expected) => value == Some(expected as u8),
            None => value is None,
        },
{
    match parse_u64(text) {
        Some(value) => if value <= 255 { Some(value as u8) } else { None },
        None => None,
    }
}

/// Parses a `u16`.
pub fn parse_u16(text: &str) -> (value: Option<u16>)
    ensures
        match parsed_bounded(text@, 65535) {
            Some(expected) => value == Some(expected as u16),
            None => value is None,
        },
{
    match parse_u64(text) {
        Some(value) => if value <= 65535 { Some(value as u16) } else { None },
        None => None,
    }
}

/// Parses a `u32`.
pub fn parse_u32(text: &str) -> (value: Option<u32>)
    ensures
        match parsed_bounded(text@, 4294967295) {
            Some(expected) => value == Some(expected as u32),
            None => value is None,
        },
{
    match parse_u64(text) {
        Some(value) => if value <= 4294967295 { Some(value as u32) } else { None },
        None => None,
    }
}

/// Whether a DRM entry is a card: `card` followed by digits.
pub open spec fn is_card(name: Seq<char>) -> bool {
    starts_with(name, "card"@) && name.len() > 4 && all_digits(name.subrange(4, name.len() as int))
}

/// Whether a DRM entry is a card.
pub fn is_card_name(name: &str) -> (card: bool)
    ensures
        card == is_card(name@),
{
    if !has_prefix(name, "card") {
        return false;
    }
    let characters = crate::text::chars_of(name);
    if characters.len() <= 4 {
        return false;
    }
    let mut index: usize = 4;
    while index < characters.len()
        invariant
            characters@ == name@,
            starts_with(name@, "card"@),
            4 <= index <= characters@.len(),
            forall|j: int| 4 <= j < index ==> '0' <= #[trigger] characters@[j] && characters@[j] <= '9',
        decreases characters@.len() - index,
    {
        let c = characters[index];
        if c < '0' || c > '9' {
            assert(name@.subrange(4, name@.len() as int)[index - 4] == c);
            return false;
        }
        index += 1;
    }
    assert forall|j: int| 0 <= j < name@.len() - 4 implies '0' <= #[trigger] name@.subrange(4, name@.len() as int)[j]
        && name@.subrange(4, name@.len() as int)[j] <= '9' by {
        assert(name@.subrange(4, name@.len() as int)[j] == characters@[j + 4]);
    }
    true
}

/// A GPU's busy percentage from its attribute: a `u16`, capped at one hundred.
pub open spec fn busy_value(value: Option<Seq<char>>) -> Option<u8> {
    match value {
        Some(text) => match parsed_bounded(text, 65535) {
            Some(busy) => Some(if busy > 100 { 100u8 } else { busy as u8 }),
            None => None,
        },
        None => None,
    }
}

/// Reads a GPU's busy percentage from its attribute's value.
pub fn busy_percent(value: &Option<String>) -> (busy: Option<u8>)
    ensures
        busy == busy_value(crate::text::optional_text(*value)),
{
    match value {
        Some(text) => match parse_u16(text.as_str()) {
            Some(busy) => Some(if busy > 100 { 100 } else { busy as u8 }),
            None => None,
        },
        None => None,
    }
}

} // verus!
