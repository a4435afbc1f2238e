//! The procfs and sysfs monitor: which files each source family reads and
//! how their contents become readings.

use vstd::prelude::*;

use crate::registry::CapabilityProbe;
use crate::capability::CapabilityReport;
use crate::sorting::{SortKey, lemma_sorted_by_key_map, sort_by_key, sorted_by, sorted_by_key};
use crate::system_monitor::{
    CpuCounters, DiskCounters, FilesystemUsage, GpuReading, MAX_DISK_DEVICES, MAX_FILESYSTEMS,
    MAX_GPUS, MemoryCounters, Metric, NetworkCounters, PowerSupplyReading, RawSystemSample,
    SourceIssue, SystemMonitorSource, TemperatureReading, attribute, busy_percent, cpu_counters,
    attribute_value, busy_value, describes_sample, is_card, is_card_name, memory_counters, network_counters, parse_u32, parse_u8, sample_capability, cpu_reading,
    memory_reading, network_reading, interfaces_view,
};
use crate::text::{chars_of, join_path, owned, str_equal, text_less, text_precedes};
use crate::text_parse::{has_prefix, parse_u64, text_lines, text_words, trim_text};

verus! {

/// Read access to procfs and sysfs.
pub trait SystemFiles {
    /// The contents of a file, or the kind of the error that prevented reading it.
    fn read_text(&self, path: &str) -> Result<String, String>;

    /// The names of a directory's entries, in order; none if it cannot be read.
    fn entry_names(&self, path: &str) -> Vec<String>;

    /// The path with every link resolved, if it exists.
    fn canonical_path(&self, path: &str) -> Option<String>;

    /// Whether the path is a directory.
    fn is_directory(&self, path: &str) -> bool;

    /// The block count, fragment size and available block count of the
    /// filesystem mounted at a path, if it can be queried.
    fn filesystem_blocks(&self, mount_point: &str) -> Option<(u64, u64, u64)>;
}

/// The parsed value of a signed decimal number, as `i64::from_str` accepts it.
pub open spec fn parsed_i64(text: Seq<char>) -> Option<i64> {
    if text.len() > 0 && text[0] == '-' {
        match crate::text_parse::parsed_u64(seq!['+'] + text.drop_first()) {
            Some(magnitude) => if magnitude <= 9223372036854775808u64 {
                Some((0 - magnitude) as i64)
            } else {
                None
            },
            None => None,
        }
    } else {
        match crate::text_parse::parsed_u64(text) {
            Some(value) => if value <= 9223372036854775807u64 { Some(value as i64) } else { None },
            None => None,
        }
    }
}

/// Parses a signed decimal number.
pub fn parse_i64(text: &str) -> (value: Option<i64>)
    ensures
        value == parsed_i64(text@),
{
    let characters = chars_of(text);
    if characters.len() > 0 && characters[0] == '-' {
        let mut unsigned = owned("+");
        let mut index: usize = 1;
        proof {
            reveal_strlit("+");
            assert(seq!['+'] + text@.subrange(1, 1) =~= unsigned@);
        }
        while index < characters.len()
            invariant
                characters@ == text@,
                1 <= index <= characters@.len(),
                unsigned@ == seq!['+'] + text@.subrange(1, index as int),
            decreases characters@.len() - index,
        {
            crate::text::push_char(&mut unsigned, characters[index]);
            assert(seq!['+'] + text@.subrange(1, index + 1) =~= (seq!['+'] + text@.subrange(1, index as int)).push(text@[index as int]));
            index += 1;
        }
        assert(text@.subrange(1, text@.len() as int) =~= text@.drop_first());
        match parse_u64(unsigned.as_str()) {
            Some(magnitude) => if magnitude <= 9223372036854775808u64 {
                if magnitude == 9223372036854775808u64 {
                    Some(i64::MIN)
                } else {
                    Some(0 - (magnitude as i64))
                }
            } else {
                None
            },
            None => None,
        }
    } else {
        match parse_u64(text) {
            Some(value) => if value <= 9223372036854775807u64 { Some(value as i64) } else { None },
            None => None,
        }
    }
}

/// How a failed read is reported.
pub open spec fn read_failure(source: Seq<char>, kind: Seq<char>) -> (Seq<char>, Seq<char>) {
    (source, "read failed: "@ + kind)
}

/// Whether each unavailable family of `sample` names the source it was read
/// from, and each listed family keeps within its cap.
pub open spec fn names_its_sources(sample: RawSystemSample) -> bool {
    &&& sample.cpu matches Metric::Unavailable(issue) ==> issue.source@ == "/proc/stat"@
    &&& sample.memory matches Metric::Unavailable(issue) ==> issue.source@ == "/proc/meminfo"@
    &&& sample.network matches Metric::Unavailable(issue) ==> issue.source@ == "/proc/net/dev"@
    &&& sample.temperatures matches Metric::Unavailable(issue) ==> issue.source@ == "/sys/class/hwmon + /sys/class/thermal"@
    &&& sample.power_supplies matches Metric::Unavailable(issue) ==> issue.source@ == "/sys/class/power_supply"@
    &&& sample.disk_usage matches Metric::Unavailable(issue) ==> issue.source@ == "/proc/self/mounts + statvfs"@
    &&& sample.disk_io matches Metric::Unavailable(issue) ==> issue.source@ == "/proc/diskstats"@
    &&& sample.gpu matches Metric::Unavailable(issue) ==> issue.source@ == "/sys/class/drm"@
    &&& sample.disk_usage matches Metric::Available(usages) ==> usages@.len() <= MAX_FILESYSTEMS
    &&& sample.disk_io matches Metric::Available(disks) ==> disks@.len() <= MAX_DISK_DEVICES
    &&& sample.gpu matches Metric::Available(gpus) ==> gpus@.len() <= MAX_GPUS
}

/// The procfs and sysfs monitor.
pub struct ProcSysMonitor<F> {
    pub proc_root: String,
    pub sys_root: String,
    pub files: F,
}

impl<F> ProcSysMonitor<F> {
    /// A monitor reading `proc_root` and `sys_root` through `files`.
    pub fn new(proc_root: &str, sys_root: &str, files: F) -> (monitor: Self)
        ensures
            monitor.proc_root@ == proc_root@,
            monitor.sys_root@ == sys_root@,
            monitor.files == files,
    {
        ProcSysMonitor { proc_root: owned(proc_root), sys_root: owned(sys_root), files }
    }
}

/// A mount of a `/dev/` device, before its filesystem is queried.
#[derive(Debug)]
pub struct MountEntry {
    pub device: String,
    pub mount_point: String,
    pub filesystem: String,
}

impl SortKey for MountEntry {
    open spec fn sort_key(&self) -> Seq<char> {
        self.mount_point@
    }

    fn key_text(&self) -> (key: &str) {
        self.mount_point.as_str()
    }
}

impl SortKey for DiskCounters {
    open spec fn sort_key(&self) -> Seq<char> {
        self.device@
    }

    fn key_text(&self) -> (key: &str) {
        self.device.as_str()
    }
}

impl SortKey for TemperatureReading {
    open spec fn sort_key(&self) -> Seq<char> {
        self.stable_key@
    }

    fn key_text(&self) -> (key: &str) {
        self.stable_key.as_str()
    }
}

/// The first record of each run of equal keys.
pub open spec fn first_of_runs<T: SortKey>(items: Seq<T>) -> Seq<T>
    decreases items.len(),
{
    if items.len() == 0 {
        items
    } else if items.len() > 1 && items.last().sort_key() == items.drop_last().last().sort_key() {
        first_of_runs(items.drop_last())
    } else {
        first_of_runs(items.drop_last()).push(items.last())
    }
}

/// Keeps the first record of each run of equal keys, as `Vec::dedup_by` does.
pub fn dedup_by_key<T: SortKey>(items: Vec<T>) -> (kept: Vec<T>)
    ensures
        kept@ == first_of_runs(items@),
{
    let ghost all = items@;
    let mut remaining = items;
    let mut kept: Vec<T> = Vec::new();
    let mut taken: usize = 0;
    let length = remaining.len();
    let mut previous_key: Option<String> = None;
    assert(all.subrange(0, 0) =~= Seq::<T>::empty());
    while remaining.len() > 0
        invariant
            length == all.len(),
            taken + remaining@.len() == length,
            remaining@ == all.subrange(taken as int, length as int),
            kept@ == first_of_runs(all.subrange(0, taken as int)),
            taken == 0 <==> previous_key is None,
            previous_key matches Some(key) ==> taken > 0 && key@ == all[taken - 1].sort_key(),
        decreases remaining@.len(),
    {
        let item = remaining.remove(0);
        let key = owned(item.key_text());
        let repeated = match &previous_key {
            Some(last) => str_equal(last.as_str(), key.as_str()),
            None => false,
        };
        proof {
            let next = all.subrange(0, taken + 1);
            assert(next.drop_last() =~= all.subrange(0, taken as int));
            assert(next.last() == item);
            if taken > 0 {
                assert(next.drop_last().last() == all[taken - 1]);
            }
        }
        if !repeated {
            kept.push(item);
        }
        previous_key = Some(key);
        taken += 1;
        proof {
            assert(remaining@ =~= all.subrange(taken as int, length as int));
        }
    }
    assert(all.subrange(0, length as int) =~= all);
    kept
}

/// What `String::from_utf8_lossy` makes of some bytes.
pub uninterp spec fn utf8_lossy(bytes: Seq<u8>) -> Seq<char>;

/// Decodes bytes as UTF-8, replacing invalid sequences.
///
/// Trusted: calls `String::from_utf8_lossy`, whose result depends on the
/// bytes alone; which replacement it makes is not stated.
#[verifier::external_body]
pub(crate) fn text_from_bytes(bytes: &[u8]) -> (text: String)
    ensures
        text@ == utf8_lossy(bytes@),
{
    String::from_utf8_lossy(bytes).into_owned()
}

/// An ASCII digit byte.
pub open spec fn digit_byte(byte: u8) -> bool {
    48 <= byte <= 57
}

/// The byte a `\ooo` escape stands for, modulo 256.
pub open spec fn octal_byte(a: u8, b: u8, c: u8) -> u8 {
    (((a - 48) * 64 + (b - 48) * 8 + (c - 48)) % 256) as u8
}

/// The bytes of a mount-table field with its octal escapes decoded.
pub open spec fn decoded_bytes(bytes: Seq<u8>) -> Seq<u8>
    decreases bytes.len(),
{
    if bytes.len() == 0 {
        seq![]
    } else if bytes.len() > 3 && bytes[0] == 92 && digit_byte(bytes[1]) && digit_byte(bytes[2]) && digit_byte(bytes[3]) {
        seq![octal_byte(bytes[1], bytes[2], bytes[3])] + decoded_bytes(bytes.subrange(4, bytes.len() as int))
    } else {
        seq![bytes[0]] + decoded_bytes(bytes.drop_first())
    }
}

/// A mount-table field with its octal escapes decoded.
pub open spec fn decoded_field(field: Seq<char>) -> Seq<char> {
    utf8_lossy(decoded_bytes(vstd::utf8::encode_utf8(field)))
}

/// Decodes the octal escapes (`\040` for a space) of a mount-table field.
pub fn decode_mount_field(field: &str) -> (decoded: String)
    ensures
        decoded@ == decoded_field(field@),
{
    let bytes = field.as_bytes();
    let ghost all = bytes@;
    let mut decoded: Vec<u8> = Vec::new();
    let mut index: usize = 0;
    assert(all.subrange(0, all.len() as int) =~= all);
    while index < bytes.len()
        invariant
            bytes@ == all,
            index <= all.len(),
            decoded@ + decoded_bytes(all.subrange(index as int, all.len() as int)) == decoded_bytes(all),
        decreases all.len() - index,
    {
        let ghost rest = all.subrange(index as int, all.len() as int);
        if bytes.len() - index > 3 && bytes[index] == 92 && 48 <= bytes[index + 1] && bytes[index + 1] <= 57
            && 48 <= bytes[index + 2] && bytes[index + 2] <= 57 && 48 <= bytes[index + 3] && bytes[index + 3] <= 57 {
            let value = (((bytes[index + 1] - 48) as u32) * 64 + ((bytes[index + 2] - 48) as u32) * 8 + ((bytes[index + 3] - 48) as u32)) % 256;
            let ghost before = decoded@;
            decoded.push(value as u8);
            proof {
                assert(rest[0] == bytes[index as int]);
                assert(rest[1] == bytes[index + 1]);
                assert(rest[2] == bytes[index + 2]);
                assert(rest[3] == bytes[index + 3]);
                assert(rest.subrange(4, rest.len() as int) =~= all.subrange(index + 4, all.len() as int));
                assert(decoded@ =~= before.push(octal_byte(rest[1], rest[2], rest[3])));
                assert(decoded@ + decoded_bytes(all.subrange(index + 4, all.len() as int)) =~= before + decoded_bytes(rest));
            }
            index += 4;
        } else {
            let ghost before = decoded@;
            decoded.push(bytes[index]);
            proof {
                assert(rest[0] == bytes[index as int]);
                assert(rest.drop_first() =~= all.subrange(index + 1, all.len() as int));
                assert(decoded@ + decoded_bytes(all.subrange(index + 1, all.len() as int)) =~= before + decoded_bytes(rest));
            }
            index += 1;
        }
    }
    assert(decoded@ + decoded_bytes(all.subrange(all.len() as int, all.len() as int)) =~= decoded@);
    text_from_bytes(decoded.as_slice())
}

/// The content of a mount entry: device, mount point and filesystem type.
pub open spec fn mount_view(entry: MountEntry) -> (Seq<char>, Seq<char>, Seq<char>) {
    (entry.device@, entry.mount_point@, entry.filesystem@)
}

/// The view of each mount entry.
pub open spec fn mount_views() -> spec_fn(MountEntry) -> (Seq<char>, Seq<char>, Seq<char>) {
    |entry: MountEntry| mount_view(entry)
}

/// The mount point a mount view is ordered by.
pub open spec fn mount_key() -> spec_fn((Seq<char>, Seq<char>, Seq<char>)) -> Seq<char> {
    |mount: (Seq<char>, Seq<char>, Seq<char>)| mount.1
}

/// At most the first `limit` items.
pub open spec fn leading<A>(items: Seq<A>, limit: int) -> Seq<A> {
    if items.len() > limit {
        items.subrange(0, limit)
    } else {
        items
    }
}

/// A mount-table line of a `/dev/` device: its device, decoded mount point
/// and filesystem type.
pub open spec fn mount_line(line: Seq<char>) -> Option<(Seq<char>, Seq<char>, Seq<char>)> {
    let fields = crate::text_parse::words(line);
    if fields.len() >= 3 && crate::text_parse::starts_with(fields[0], "/dev/"@) {
        Some((fields[0], decoded_field(fields[1]), fields[2]))
    } else {
        None
    }
}

/// The mounts by device, in device order, after one more mount: a device's
/// first mount is kept unless a later one has a smaller mount point.
pub open spec fn merge_mount(
    list: Seq<(Seq<char>, Seq<char>, Seq<char>)>,
    mount: (Seq<char>, Seq<char>, Seq<char>),
) -> Seq<(Seq<char>, Seq<char>, Seq<char>)>
    decreases list.len(),
{
    if list.len() == 0 {
        seq![mount]
    } else if list[0].0 == mount.0 {
        if text_less(mount.1, list[0].1) {
            seq![mount] + list.drop_first()
        } else {
            list
        }
    } else if text_less(mount.0, list[0].0) {
        seq![mount] + list
    } else {
        seq![list[0]] + merge_mount(list.drop_first(), mount)
    }
}

/// The chosen mount of each `/dev/` device in some mount-table lines, in device order.
pub open spec fn mounts_by_device(lines: Seq<Seq<char>>) -> Seq<(Seq<char>, Seq<char>, Seq<char>)>
    decreases lines.len(),
{
    if lines.len() == 0 {
        seq![]
    } else {
        match mount_line(lines.last()) {
            Some(mount) => merge_mount(mounts_by_device(lines.drop_last()), mount),
            None => mounts_by_device(lines.drop_last()),
        }
    }
}

fn mount_of_line(line: &str) -> (mount: Option<MountEntry>)
    ensures
        match mount_line(line@) {
            Some(expected) => mount matches Some(found) && mount_view(found) == expected,
            None => mount is None,
        },
{
    let fields = text_words(line);
    if fields.len() < 3 {
        return None;
    }
    let ghost views = fields@.map_values(|word: String| word@);
    assert(views[0] == fields@[0]@ && views[1] == fields@[1]@ && views[2] == fields@[2]@);
    if !has_prefix(fields[0].as_str(), "/dev/") {
        return None;
    }
    Some(MountEntry {
        device: fields[0].clone(),
        mount_point: decode_mount_field(fields[1].as_str()),
        filesystem: fields[2].clone(),
    })
}

proof fn lemma_merge_prefix(
    list: Seq<(Seq<char>, Seq<char>, Seq<char>)>,
    mount: (Seq<char>, Seq<char>, Seq<char>),
    index: int,
)
    requires
        0 <= index <= list.len(),
        forall|j: int| 0 <= j < index ==> list[j].0 != mount.0 && !text_less(mount.0, #[trigger] list[j].0),
    ensures
        merge_mount(list, mount) == list.subrange(0, index) + merge_mount(list.subrange(index, list.len() as int), mount),
    decreases index,
{
    if index == 0 {
        assert(list.subrange(0, 0) + merge_mount(list.subrange(0, list.len() as int), mount) =~= merge_mount(list, mount)) by {
            assert(list.subrange(0, list.len() as int) =~= list);
        }
    } else {
        let rest = list.drop_first();
        assert forall|j: int| 0 <= j < index - 1 implies rest[j].0 != mount.0 && !text_less(mount.0, #[trigger] rest[j].0) by {
            assert(rest[j] == list[j + 1]);
        }
        lemma_merge_prefix(rest, mount, index - 1);
        assert(list[0].0 != mount.0);
        assert(merge_mount(list, mount) == seq![list[0]] + merge_mount(rest, mount));
        assert(rest.subrange(index - 1, rest.len() as int) =~= list.subrange(index, list.len() as int));
        assert(seq![list[0]] + (rest.subrange(0, index - 1) + merge_mount(list.subrange(index, list.len() as int), mount))
            =~= list.subrange(0, index) + merge_mount(list.subrange(index, list.len() as int), mount));
    }
}

fn merge_into(list: &mut Vec<MountEntry>, mount: MountEntry)
    ensures
        final(list)@.map_values(|entry: MountEntry| mount_view(entry)) == merge_mount(
            old(list)@.map_values(|entry: MountEntry| mount_view(entry)),
            mount_view(mount),
        ),
{
    let ghost before = list@.map_values(|entry: MountEntry| mount_view(entry));
    let ghost wanted = mount_view(mount);
    let mut index: usize = 0;
    while index < list.len() && !str_equal(list[index].device.as_str(), mount.device.as_str())
        && !text_precedes(mount.device.as_str(), list[index].device.as_str())
        invariant
            before == list@.map_values(|entry: MountEntry| mount_view(entry)),
            wanted == mount_view(mount),
            index <= list@.len(),
            forall|j: int| 0 <= j < index ==> before[j].0 != wanted.0 && !text_less(wanted.0, #[trigger] before[j].0),
        decreases list@.len() - index,
    {
        assert(before[index as int] == mount_view(list@[index as int]));
        index += 1;
    }
    proof {
        lemma_merge_prefix(before, wanted, index as int);
    }
    let ghost rest = before.subrange(index as int, before.len() as int);
    if index == list.len() {
        list.push(mount);
        proof {
            assert(rest =~= Seq::<(Seq<char>, Seq<char>, Seq<char>)>::empty());
            assert(list@.map_values(|entry: MountEntry| mount_view(entry)) =~= before.subrange(0, index as int) + seq![wanted]);
        }
    } else if str_equal(list[index].device.as_str(), mount.device.as_str()) {
        proof {
            assert(rest[0] == before[index as int]);
            assert(before[index as int] == mount_view(list@[index as int]));
        }
        if text_precedes(mount.mount_point.as_str(), list[index].mount_point.as_str()) {
            list.remove(index);
            list.insert(index, mount);
            proof {
                assert(rest.drop_first() =~= before.subrange(index + 1, before.len() as int));
                assert(list@.map_values(|entry: MountEntry| mount_view(entry)) =~= before.subrange(0, index as int) + (seq![wanted] + rest.drop_first()));
            }
        } else {
            proof {
                assert(before.subrange(0, index as int) + rest =~= before);
            }
        }
    } else {
        proof {
            assert(rest[0] == before[index as int]);
            assert(before[index as int] == mount_view(list@[index as int]));
        }
        list.insert(index, mount);
        proof {
            assert(list@.map_values(|entry: MountEntry| mount_view(entry)) =~= before.subrange(0, index as int) + (seq![wanted] + rest));
        }
    }
}

/// The filesystems of `/dev/` devices in a mount table, one per device at
/// its least mount point, ordered by mount point (devices in order on a
/// tie), at most [`MAX_FILESYSTEMS`] of them.
pub fn mount_entries(text: &str) -> (entries: Vec<MountEntry>)
    ensures
        entries@.map_values(mount_views()) == leading(
            sorted_by(mounts_by_device(crate::text_parse::lines(text@)), mount_key()),
            MAX_FILESYSTEMS as int,
        ),
        entries@.len() <= MAX_FILESYSTEMS,
{
    let all = text_lines(text);
    let ghost all_view = all@.map_values(|line: String| line@);
    let mut by_device: Vec<MountEntry> = Vec::new();
    let mut index: usize = 0;
    assert(all_view.subrange(0, 0) =~= Seq::<Seq<char>>::empty());
    assert(by_device@.map_values(|entry: MountEntry| mount_view(entry)) =~= Seq::<(Seq<char>, Seq<char>, Seq<char>)>::empty());
    while index < all.len()
        invariant
            all_view == all@.map_values(|line: String| line@),
            all_view == crate::text_parse::lines(text@),
            index <= all@.len(),
            by_device@.map_values(|entry: MountEntry| mount_view(entry)) == mounts_by_device(all_view.subrange(0, index as int)),
        decreases all@.len() - index,
    {
        let ghost next = all_view.subrange(0, index + 1);
        assert(next.drop_last() =~= all_view.subrange(0, index as int));
        assert(next.last() == all@[index as int]@);
        match mount_of_line(all[index].as_str()) {
            Some(mount) => {
                merge_into(&mut by_device, mount);
            },
            None => {},
        }
        index += 1;
    }
    assert(all_view.subrange(0, all_view.len() as int) =~= all_view);
    let ghost chosen = by_device@;
    let mut sorted = sort_by_key(by_device);
    let ghost full = sorted@;
    sorted.truncate(MAX_FILESYSTEMS);
    proof {
        assert(chosen.map_values(mount_views()) =~= chosen.map_values(|entry: MountEntry| mount_view(entry)));
        lemma_sorted_by_key_map(chosen, mount_views(), mount_key());
        let ordered = sorted_by(mounts_by_device(crate::text_parse::lines(text@)), mount_key());
        assert(full.map_values(mount_views()) == ordered);
        if full.len() > MAX_FILESYSTEMS {
            assert(sorted@.map_values(mount_views()) =~= ordered.subrange(0, MAX_FILESYSTEMS as int));
        } else {
            assert(sorted@ == full);
        }
    }
    sorted
}

/// `text` without its leading slashes.
pub open spec fn without_leading_slashes(text: Seq<char>) -> Seq<char>
    decreases text.len(),
{
    if text.len() > 0 && text[0] == '/' {
        without_leading_slashes(text.drop_first())
    } else {
        text
    }
}

/// A device's identity below the sysfs root: the canonical device path
/// relative to the canonical root, when it lies strictly below it.
pub open spec fn identity_below(device: Seq<char>, root: Seq<char>) -> Option<Seq<char>> {
    let relative = if root == "/"@ && crate::text_parse::starts_with(device, "/"@) {
        Some(device.drop_first())
    } else if device == root {
        Some(seq![])
    } else if crate::text_parse::starts_with(device, root + "/"@) {
        Some(device.subrange(root.len() as int + 1, device.len() as int))
    } else {
        None
    };
    match relative {
        Some(path) => if without_leading_slashes(path).len() > 0 {
            Some(without_leading_slashes(path))
        } else {
            None
        },
        None => None,
    }
}

fn suffix_from(characters: &Vec<char>, start: usize) -> (text: String)
    requires
        start <= characters@.len(),
    ensures
        text@ == characters@.subrange(start as int, characters@.len() as int),
{
    crate::text::string_from_chars(&characters.as_slice()[start..characters.len()])
}

/// A device's identity below the sysfs root.
pub fn device_identity(device: &str, root: &str) -> (identity: Option<String>)
    ensures
        crate::text::optional_text(identity) == identity_below(device@, root@),
{
    let characters = chars_of(device);
    let mut joined_root = owned(root);
    joined_root.append("/");
    proof {
        reveal_strlit("/");
    }
    let start: usize;
    if str_equal(root, "/") && has_prefix(device, "/") {
        start = 1;
        proof {
            reveal_strlit("/");
            assert(characters@.subrange(1, characters@.len() as int) =~= device@.drop_first());
        }
    } else if str_equal(device, root) {
        start = characters.len();
        assert(characters@.subrange(start as int, characters@.len() as int) =~= Seq::<char>::empty());
    } else if has_prefix(device, joined_root.as_str()) {
        start = chars_of(joined_root.as_str()).len();
        assert(start == root@.len() + 1);
        assert(device@.subrange(root@.len() as int + 1, device@.len() as int) =~= characters@.subrange(start as int, characters@.len() as int));
    } else {
        return None;
    }
    let ghost relative = characters@.subrange(start as int, characters@.len() as int);
    proof {
        assert(characters@ == device@);
        assert(identity_below(device@, root@) == (if without_leading_slashes(relative).len() > 0 {
            Some(without_leading_slashes(relative))
        } else {
            None
        }));
    }
    let mut index = start;
    while index < characters.len() && characters[index] == '/'
        invariant
            relative == characters@.subrange(start as int, characters@.len() as int),
            identity_below(device@, root@) == (if without_leading_slashes(relative).len() > 0 {
                Some(without_leading_slashes(relative))
            } else {
                None
            }),
            characters@ == device@,
            start <= index <= characters@.len(),
            without_leading_slashes(characters@.subrange(start as int, characters@.len() as int))
                == without_leading_slashes(characters@.subrange(index as int, characters@.len() as int)),
        decreases characters@.len() - index,
    {
        assert(characters@.subrange(index as int, characters@.len() as int).drop_first()
            =~= characters@.subrange(index + 1, characters@.len() as int));
        index += 1;
    }
    let rest = suffix_from(&characters, index);
    if rest.as_str().is_empty() {
        None
    } else {
        Some(rest)
    }
}

/// Reports a failed read of `source`.
fn read_issue(source: &str, kind: &str) -> (issue: SourceIssue)
    ensures
        (issue.source@, issue.reason@) == read_failure(source@, kind@),
{
    let mut reason = owned("read failed: ");
    reason.append(kind);
    SourceIssue { source: owned(source), reason }
}

/// The hwmon key of a temperature input.
pub open spec fn hwmon_key(device: Seq<char>, chip: Seq<char>, base: Seq<char>, label: Seq<char>) -> Seq<char> {
    "hwmon/"@ + device + "/"@ + chip + "/"@ + base + "/"@ + label
}

/// The thermal-zone key of a temperature.
pub open spec fn thermal_key(device: Seq<char>, kind: Seq<char>) -> Seq<char> {
    "thermal/"@ + device + "/"@ + kind
}

/// Whether `reading` is keyed as an hwmon input of some device and chip,
/// with its label last.
pub open spec fn hwmon_keyed(reading: TemperatureReading) -> bool {
    exists|device: Seq<char>, chip: Seq<char>, base: Seq<char>|
        crate::text_parse::starts_with(base, "temp"@)
            && reading.stable_key@ == #[trigger] hwmon_key(device, chip, base, reading.label@)
}

/// Whether `reading` is keyed as the thermal zone of some device, labelled
/// with the zone's type.
pub open spec fn thermal_keyed(reading: TemperatureReading) -> bool {
    exists|device: Seq<char>| reading.stable_key@ == #[trigger] thermal_key(device, reading.label@)
}

/// Whether `after` is `before` with readings appended, each of which `keyed`
/// accepts.
pub open spec fn appended_with(
    before: Seq<TemperatureReading>,
    after: Seq<TemperatureReading>,
    keyed: spec_fn(TemperatureReading) -> bool,
) -> bool {
    &&& before.len() <= after.len()
    &&& after.subrange(0, before.len() as int) == before
    &&& forall|i: int| before.len() <= i < after.len() ==> keyed(#[trigger] after[i])
}

/// The value of the attribute at `path`: the trimmed contents of the file,
/// when it could be read and is not blank.
fn attribute_at<F: SystemFiles>(files: &F, path: &str) -> (value: Option<String>)
    ensures
        exists|contents: Option<Seq<char>>| #[trigger] attribute_value(contents) == crate::text::optional_text(value),
{
    let contents = match files.read_text(path) {
        Ok(text) => Some(text),
        Err(_) => None,
    };
    let value = attribute(contents);
    assert(attribute_value(crate::text::optional_text(contents)) == crate::text::optional_text(value));
    value
}

/// Whether `metric` reports the sensors `found`: sorted by key with one
/// reading per key, or, when there is none, why.
pub open spec fn reports_temperatures(metric: Metric<Vec<TemperatureReading>>, found: Seq<TemperatureReading>) -> bool {
    let kept = first_of_runs(sorted_by_key(found));
    &&& kept.len() > 0 ==> (metric matches Metric::Available(readings) && readings@ == kept)
    &&& kept.len() == 0 ==> (metric matches Metric::Unavailable(issue)
        && issue.source@ == "/sys/class/hwmon + /sys/class/thermal"@
        && issue.reason@ == "no temperature sensor with a stable device-qualified identity is readable"@)
}

/// Whether each reading is keyed as an hwmon input or a thermal zone.
pub open spec fn sensor_keyed(found: Seq<TemperatureReading>) -> bool {
    forall|i: int| 0 <= i < found.len() ==> hwmon_keyed(#[trigger] found[i]) || thermal_keyed(found[i])
}

/// The readings sorted by key with one reading per key, or why there are none.
pub fn temperature_metric(readings: Vec<TemperatureReading>) -> (metric: Metric<Vec<TemperatureReading>>)
    ensures
        reports_temperatures(metric, readings@),
{
    let sorted = sort_by_key(readings);
    let kept = dedup_by_key(sorted);
    if kept.len() == 0 {
        Metric::Unavailable(SourceIssue::new(
            "/sys/class/hwmon + /sys/class/thermal",
            "no temperature sensor with a stable device-qualified identity is readable",
        ))
    } else {
        Metric::Available(kept)
    }
}

/// What was read of one entry of the DRM class directory.
#[derive(Debug)]
pub struct DrmEntry {
    pub name: String,
    pub directory: bool,
    /// The identity of the device behind the entry, when it resolves below
    /// the sysfs root.
    pub device: Option<String>,
    /// The value of the entry's `device/gpu_busy_percent` attribute, when it
    /// is readable.
    pub busy: Option<String>,
}

/// Whether a DRM entry is a card: a directory named `card` and digits.
pub open spec fn drm_card(entry: DrmEntry) -> bool {
    entry.directory && is_card(entry.name@)
}

/// The cards among the DRM entries, in listing order.
pub open spec fn drm_cards(entries: Seq<DrmEntry>) -> Seq<DrmEntry>
    decreases entries.len(),
{
    if entries.len() == 0 {
        Seq::empty()
    } else {
        let rest = drm_cards(entries.drop_last());
        if drm_card(entries.last()) {
            rest.push(entries.last())
        } else {
            rest
        }
    }
}

/// A GPU reading as plain values: device, busy percentage and label.
pub open spec fn gpu_view(reading: GpuReading) -> (Seq<char>, Option<u8>, Option<Seq<char>>) {
    (reading.device@, reading.busy_percent, crate::text::optional_text(reading.label))
}

/// The readings of the cards that resolve to a device: the device, the busy
/// percentage capped at 100, and the card's name.
pub open spec fn card_readings(cards: Seq<DrmEntry>) -> Seq<(Seq<char>, Option<u8>, Option<Seq<char>>)>
    decreases cards.len(),
{
    if cards.len() == 0 {
        Seq::empty()
    } else {
        let rest = card_readings(cards.drop_last());
        match cards.last().device {
            Some(device) => rest.push(
                (device@, busy_value(crate::text::optional_text(cards.last().busy)), Some(cards.last().name@)),
            ),
            None => rest,
        }
    }
}

/// The GPU readings of the DRM entries: those of the first [`MAX_GPUS`]
/// cards, when at least one of them reports a busy percentage.
pub open spec fn gpu_outcome(entries: Seq<DrmEntry>) -> Option<Seq<(Seq<char>, Option<u8>, Option<Seq<char>>)>> {
    let readings = card_readings(leading(drm_cards(entries), MAX_GPUS as int));
    if exists|i: int| 0 <= i < readings.len() && (#[trigger] readings[i]).1 is Some {
        Some(readings)
    } else {
        None
    }
}

/// Whether `metric` reports the GPU readings `outcome`, or their absence.
pub open spec fn reports_gpus(
    metric: Metric<Vec<GpuReading>>,
    outcome: Option<Seq<(Seq<char>, Option<u8>, Option<Seq<char>>)>>,
) -> bool {
    match outcome {
        Some(readings) => metric matches Metric::Available(gpus) && gpus@.map_values(|gpu: GpuReading| gpu_view(gpu))
            == readings && gpus@.len() <= MAX_GPUS,
        None => metric matches Metric::Unavailable(issue) && issue.source@ == "/sys/class/drm"@ && issue.reason@
            == "no GPU exposes gpu_busy_percent; NVIDIA requires an NVML adapter that is not registered yet"@,
    }
}

proof fn lemma_drm_cards_prefix(entries: Seq<DrmEntry>, k: int)
    requires
        0 <= k <= entries.len(),
    ensures
        drm_cards(entries.subrange(0, k)).len() <= drm_cards(entries).len(),
        drm_cards(entries).subrange(0, drm_cards(entries.subrange(0, k)).len() as int) == drm_cards(entries.subrange(0, k)),
    decreases entries.len(),
{
    if k == entries.len() {
        assert(entries.subrange(0, k) =~= entries);
        assert(drm_cards(entries).subrange(0, drm_cards(entries).len() as int) =~= drm_cards(entries));
    } else {
        let shorter = entries.drop_last();
        assert(shorter.subrange(0, k) =~= entries.subrange(0, k));
        lemma_drm_cards_prefix(shorter, k);
        let prefix = drm_cards(entries.subrange(0, k));
        if drm_card(entries.last()) {
            assert(drm_cards(entries).subrange(0, prefix.len() as int) =~= drm_cards(shorter).subrange(0, prefix.len() as int));
        }
    }
}

/// The GPU metric of the DRM entries: the readings of the first
/// [`MAX_GPUS`] cards, skipping those without a device, with the busy
/// percentage capped at 100; unavailable, for want of an NVML adapter, when
/// none of them reports a busy percentage.
pub fn gpu_metric(entries: &[DrmEntry]) -> (metric: Metric<Vec<GpuReading>>)
    ensures
        reports_gpus(metric, gpu_outcome(entries@)),
{
    let mut readings: Vec<GpuReading> = Vec::new();
    let mut cards: usize = 0;
    let mut any_busy = false;
    let mut index: usize = 0;
    while index < entries.len() && cards < MAX_GPUS
        invariant
            index <= entries@.len(),
            cards == drm_cards(entries@.subrange(0, index as int)).len(),
            cards <= MAX_GPUS,
            readings@.len() <= cards,
            readings@.map_values(|gpu: GpuReading| gpu_view(gpu)) == card_readings(drm_cards(entries@.subrange(0, index as int))),
            any_busy <==> exists|i: int| 0 <= i < readings@.len() && (#[trigger] readings@[i]).busy_percent is Some,
        decreases entries@.len() - index,
    {
        let entry = &entries[index];
        let ghost before = readings@;
        proof {
            let next = entries@.subrange(0, index + 1);
            assert(next.drop_last() =~= entries@.subrange(0, index as int));
            assert(next.last() == entries@[index as int]);
        }
        index += 1;
        if !entry.directory || !is_card_name(entry.name.as_str()) {
            assert(readings@.map_values(|gpu: GpuReading| gpu_view(gpu)) == card_readings(drm_cards(entries@.subrange(0, index as int))));
            continue;
        }
        cards += 1;
        proof {
            let prior = drm_cards(entries@.subrange(0, index - 1));
            assert(drm_cards(entries@.subrange(0, index as int)) == prior.push(*entry));
            assert(prior.push(*entry).drop_last() =~= prior);
        }
        let device = match &entry.device {
            Some(device) => device.clone(),
            None => {
                continue;
            },
        };
        let busy = busy_percent(&entry.busy);
        let label = entry.name.clone();
        readings.push(GpuReading { device, busy_percent: busy, label: Some(label) });
        proof {
            assert(readings@.map_values(|gpu: GpuReading| gpu_view(gpu)) =~= before.map_values(|gpu: GpuReading| gpu_view(gpu)).push(
                gpu_view(readings@[readings@.len() - 1]),
            ));
            if any_busy {
                let i = choose|i: int| 0 <= i < before.len() && (#[trigger] before[i]).busy_percent is Some;
                assert(readings@[i] == before[i]);
            }
            if busy.is_some() {
                assert(readings@[readings@.len() - 1].busy_percent is Some);
            }
            if !any_busy && busy.is_none() {
                assert forall|i: int| 0 <= i < readings@.len() implies (#[trigger] readings@[i]).busy_percent is None by {
                    if i < before.len() {
                        assert(readings@[i] == before[i]);
                    }
                }
            }
        }
        if busy.is_some() {
            any_busy = true;
        }
    }
    proof {
        let all = drm_cards(entries@);
        let seen = drm_cards(entries@.subrange(0, index as int));
        lemma_drm_cards_prefix(entries@, index as int);
        if index == entries@.len() {
            assert(entries@.subrange(0, index as int) =~= entries@);
        }
        assert(leading(all, MAX_GPUS as int) == seen);
        let views = readings@.map_values(|gpu: GpuReading| gpu_view(gpu));
        if any_busy {
            let i = choose|i: int| 0 <= i < readings@.len() && (#[trigger] readings@[i]).busy_percent is Some;
            assert(views[i].1 is Some);
        } else {
            assert forall|i: int| 0 <= i < views.len() implies (#[trigger] views[i]).1 is None by {
                assert(views[i] == gpu_view(readings@[i]));
            }
        }
    }
    if !any_busy {
        Metric::Unavailable(SourceIssue::new(
            "/sys/class/drm",
            "no GPU exposes gpu_busy_percent; NVIDIA requires an NVML adapter that is not registered yet",
        ))
    } else {
        Metric::Available(readings)
    }
}

/// The attributes read of one power supply, each the trimmed contents of its
/// file when that could be read and is not blank.
#[derive(Debug)]
pub struct SupplyAttributes {
    pub kind: Option<String>,
    pub scope: Option<String>,
    pub capacity: Option<String>,
    pub status: Option<String>,
    pub health: Option<String>,
    pub cycle_count: Option<String>,
    pub energy_now: Option<String>,
    pub energy_full: Option<String>,
    pub power_now: Option<String>,
}

/// A number attribute parsed as an unsigned decimal no greater than `limit`.
pub open spec fn bounded_attribute(value: Option<String>, limit: u64) -> Option<u64> {
    match value {
        Some(text) => crate::system_monitor::parsed_bounded(text@, limit),
        None => None,
    }
}

/// Whether `reading` is the power supply `name` with the attributes read:
/// texts as read, numbers parsed (a capacity as a `u8`, a cycle count as a
/// `u32`, energies and power as `u64`), an unparsable number absent.
pub open spec fn supply_read_as(reading: PowerSupplyReading, name: Seq<char>, attributes: SupplyAttributes) -> bool {
    &&& reading.name@ == name
    &&& crate::text::optional_text(reading.kind) == crate::text::optional_text(attributes.kind)
    &&& crate::text::optional_text(reading.scope) == crate::text::optional_text(attributes.scope)
    &&& crate::text::optional_text(reading.status) == crate::text::optional_text(attributes.status)
    &&& crate::text::optional_text(reading.health) == crate::text::optional_text(attributes.health)
    &&& match bounded_attribute(attributes.capacity, 255) {
        Some(value) => reading.capacity_percent == Some(value as u8),
        None => reading.capacity_percent is None,
    }
    &&& match bounded_attribute(attributes.cycle_count, 4294967295) {
        Some(value) => reading.cycle_count == Some(value as u32),
        None => reading.cycle_count is None,
    }
    &&& reading.energy_now_microwatt_hours == bounded_attribute(attributes.energy_now, u64::MAX)
    &&& reading.energy_full_microwatt_hours == bounded_attribute(attributes.energy_full, u64::MAX)
    &&& reading.power_microwatts == bounded_attribute(attributes.power_now, u64::MAX)
}

fn parsed_attribute(value: &Option<String>) -> (number: Option<u64>)
    ensures
        number == bounded_attribute(*value, u64::MAX),
{
    match value {
        Some(text) => parse_u64(text.as_str()),
        None => None,
    }
}

/// The reading of the power supply `name` from its attributes.
pub fn power_supply_reading(name: &str, attributes: SupplyAttributes) -> (reading: PowerSupplyReading)
    ensures
        supply_read_as(reading, name@, attributes),
{
    let capacity_percent = match &attributes.capacity {
        Some(text) => parse_u8(text.as_str()),
        None => None,
    };
    let cycle_count = match &attributes.cycle_count {
        Some(text) => parse_u32(text.as_str()),
        None => None,
    };
    let energy_now = parsed_attribute(&attributes.energy_now);
    let energy_full = parsed_attribute(&attributes.energy_full);
    let power = parsed_attribute(&attributes.power_now);
    let SupplyAttributes { kind, scope, capacity: _, status, health, cycle_count: _, energy_now: _, energy_full: _, power_now: _ } = attributes;
    PowerSupplyReading {
        name: owned(name),
        kind,
        scope,
        capacity_percent,
        status,
        health,
        cycle_count,
        energy_now_microwatt_hours: energy_now,
        energy_full_microwatt_hours: energy_full,
        power_microwatts: power,
    }
}

/// The power-supply metric of the supplies read: all of them, in listing
/// order, or, when there is none, why.
pub fn power_supply_metric(supplies: Vec<PowerSupplyReading>) -> (metric: Metric<Vec<PowerSupplyReading>>)
    ensures
        supplies@.len() > 0 ==> (metric matches Metric::Available(found) && found@ == supplies@),
        supplies@.len() == 0 ==> (metric matches Metric::Unavailable(issue) && issue.source@ == "/sys/class/power_supply"@
            && issue.reason@ == "no power supplies are exposed"@),
{
    if supplies.len() == 0 {
        Metric::Unavailable(SourceIssue::new("/sys/class/power_supply", "no power supplies are exposed"))
    } else {
        Metric::Available(supplies)
    }
}

/// A filesystem's usage as plain values: device, mount point, filesystem
/// type, total and available bytes.
pub open spec fn usage_view(usage: FilesystemUsage) -> (Seq<char>, Seq<char>, Seq<char>, u64, u64) {
    (usage.device@, usage.mount_point@, usage.filesystem@, usage.total_bytes, usage.available_bytes)
}

/// The usage of each mount whose filesystem could be queried, in mount
/// order, from its block count, fragment size and available block count.
pub open spec fn usages_of(
    mounts: Seq<(Seq<char>, Seq<char>, Seq<char>)>,
    blocks: Seq<Option<(u64, u64, u64)>>,
) -> Seq<(Seq<char>, Seq<char>, Seq<char>, u64, u64)>
    decreases mounts.len(),
{
    if mounts.len() == 0 || blocks.len() != mounts.len() {
        Seq::empty()
    } else {
        let rest = usages_of(mounts.drop_last(), blocks.drop_last());
        let mount = mounts.last();
        match blocks.last() {
            Some((total, fragment, available)) => rest.push(
                (
                    mount.0,
                    mount.1,
                    mount.2,
                    crate::system_monitor::mul_capped(total, fragment),
                    crate::system_monitor::mul_capped(available, fragment),
                ),
            ),
            None => rest,
        }
    }
}

/// Whether `metric` reports the filesystem usages `usages`, or, when there
/// is none, why.
pub open spec fn reports_disk_usage(
    metric: Metric<Vec<FilesystemUsage>>,
    usages: Seq<(Seq<char>, Seq<char>, Seq<char>, u64, u64)>,
) -> bool {
    &&& usages.len() > 0 ==> (metric matches Metric::Available(found) && found@.map_values(|usage: FilesystemUsage| usage_view(usage))
        == usages)
    &&& usages.len() == 0 ==> (metric matches Metric::Unavailable(issue) && issue.source@ == "/proc/self/mounts + statvfs"@
        && issue.reason@ == "no mounted /dev/ filesystem could be read with statvfs"@)
}

/// The disk-usage metric of the mounts, given what querying each mount
/// point's filesystem gave.
pub fn disk_usage_metric(mounts: Vec<MountEntry>, blocks: &[Option<(u64, u64, u64)>]) -> (metric: Metric<Vec<FilesystemUsage>>)
    requires
        blocks@.len() == mounts@.len(),
    ensures
        reports_disk_usage(metric, usages_of(mounts@.map_values(mount_views()), blocks@)),
        metric matches Metric::Available(found) ==> found@.len() <= mounts@.len(),
{
    let ghost all = mounts@.map_values(mount_views());
    let mut usages: Vec<FilesystemUsage> = Vec::new();
    let mut rest = mounts;
    let mut index: usize = 0;
    while index < blocks.len()
        invariant
            index <= blocks@.len(),
            all.len() == blocks@.len(),
            rest@.map_values(mount_views()) == all.subrange(index as int, all.len() as int),
            rest@.len() == all.len() - index,
            usages@.len() <= index,
            usages@.map_values(|usage: FilesystemUsage| usage_view(usage)) == usages_of(
                all.subrange(0, index as int),
                blocks@.subrange(0, index as int),
            ),
        decreases blocks@.len() - index,
    {
        let ghost remaining = rest@;
        let mount = rest.remove(0);
        let ghost before = usages@;
        proof {
            assert(remaining.map_values(mount_views())[0] == mount_view(remaining[0]));
            assert(mount_view(mount) == all[index as int]);
            assert forall|i: int| 0 <= i < rest@.len() implies #[trigger] rest@.map_values(mount_views())[i] == all[index + 1 + i] by {
                assert(rest@[i] == remaining[i + 1]);
                assert(remaining.map_values(mount_views())[i + 1] == mount_view(remaining[i + 1]));
                assert(all.subrange(index as int, all.len() as int)[i + 1] == all[index + 1 + i]);
            }
            assert(rest@.map_values(mount_views()) =~= all.subrange(index + 1, all.len() as int));
            assert(all.subrange(0, index + 1).drop_last() =~= all.subrange(0, index as int));
            assert(blocks@.subrange(0, index + 1).drop_last() =~= blocks@.subrange(0, index as int));
        }
        match blocks[index] {
            Some((total, fragment, available)) => {
                usages.push(filesystem_usage(mount, total, fragment, available));
                assert(usages@.map_values(|usage: FilesystemUsage| usage_view(usage)) =~= before.map_values(
                    |usage: FilesystemUsage| usage_view(usage),
                ).push(usage_view(usages@[usages@.len() - 1])));
            },
            None => {},
        }
        index += 1;
    }
    assert(all.subrange(0, all.len() as int) =~= all);
    assert(blocks@.subrange(0, blocks@.len() as int) =~= blocks@);
    if usages.len() == 0 {
        Metric::Unavailable(SourceIssue::new(
            "/proc/self/mounts + statvfs",
            "no mounted /dev/ filesystem could be read with statvfs",
        ))
    } else {
        Metric::Available(usages)
    }
}

/// The usage of one filesystem from its block counts.
pub fn filesystem_usage(mount: MountEntry, blocks: u64, fragment_size: u64, available_blocks: u64) -> (usage: FilesystemUsage)
    ensures
        usage.device == mount.device,
        usage.mount_point == mount.mount_point,
        usage.filesystem == mount.filesystem,
        usage.total_bytes == crate::system_monitor::mul_capped(blocks, fragment_size),
        usage.available_bytes == crate::system_monitor::mul_capped(available_blocks, fragment_size),
{
    FilesystemUsage {
        device: mount.device,
        mount_point: mount.mount_point,
        filesystem: mount.filesystem,
        total_bytes: blocks.checked_mul(fragment_size).unwrap_or(u64::MAX),
        available_bytes: available_blocks.checked_mul(fragment_size).unwrap_or(u64::MAX),
    }
}

/// The texts of some strings, as a set.
pub open spec fn text_set(names: Seq<String>) -> Set<Seq<char>> {
    names.map_values(|name: String| name@).to_set()
}

proof fn lemma_text_set(names: Seq<String>, name: Seq<char>)
    ensures
        text_set(names).contains(name) <==> exists|i: int| 0 <= i < names.len() && (#[trigger] names[i])@ == name,
{
    let views = names.map_values(|item: String| item@);
    if text_set(names).contains(name) {
        let i = choose|i: int| 0 <= i < views.len() && views[i] == name;
        assert(names[i]@ == name);
    }
    if exists|i: int| 0 <= i < names.len() && (#[trigger] names[i])@ == name {
        let i = choose|i: int| 0 <= i < names.len() && (#[trigger] names[i])@ == name;
        assert(views[i] == name);
    }
}

proof fn lemma_text_set_push(names: Seq<String>, name: String)
    ensures
        text_set(names.push(name)) == text_set(names).insert(name@),
{
    assert(names.push(name).map_values(|item: String| item@) =~= names.map_values(|item: String| item@).push(name@));
    assert(text_set(names.push(name)) =~= text_set(names).insert(name@)) by {
        let views = names.map_values(|item: String| item@);
        assert forall|x: Seq<char>| #[trigger] views.push(name@).contains(x) <==> views.contains(x) || x == name@ by {
            if views.push(name@).contains(x) {
                let i = choose|i: int| 0 <= i < views.push(name@).len() && views.push(name@)[i] == x;
                if i < views.len() {
                    assert(views[i] == x);
                }
            }
            if views.contains(x) {
                let i = choose|i: int| 0 <= i < views.len() && views[i] == x;
                assert(views.push(name@)[i] == x);
            }
            if x == name@ {
                assert(views.push(name@)[views.len() as int] == x);
            }
        }
    }
}

/// A count of 512-byte sectors in bytes, capped at the largest `u64`.
pub open spec fn sector_bytes(sectors: u64) -> u64 {
    crate::system_monitor::mul_capped(sectors, 512)
}

/// A `/proc/diskstats` line with at least ten fields: its device name and,
/// when both parse, its read and written sector counts.
pub open spec fn disk_line(line: Seq<char>) -> Option<(Seq<char>, Option<(u64, u64)>)> {
    let fields = crate::text_parse::words(line);
    if fields.len() < 10 {
        None
    } else {
        Some((
            fields[2],
            match (crate::text_parse::parsed_u64(fields[5]), crate::text_parse::parsed_u64(fields[9])) {
                (Some(read), Some(written)) => Some((read, written)),
                _ => None,
            },
        ))
    }
}

/// The devices decided and the disks found after reading some lines of
/// `/proc/diskstats`: a device is decided once it is not a whole disk or
/// once a line for it parses; each whole disk counts from its first line
/// that parses.
pub open spec fn disk_scan(lines: Seq<Seq<char>>, whole: Set<Seq<char>>) -> (Set<Seq<char>>, Seq<(Seq<char>, u64, u64)>)
    decreases lines.len(),
{
    if lines.len() == 0 {
        (Set::empty(), Seq::empty())
    } else {
        let before = disk_scan(lines.drop_last(), whole);
        match disk_line(lines.last()) {
            None => before,
            Some((device, numbers)) => if before.0.contains(device) {
                before
            } else if !whole.contains(device) {
                (before.0.insert(device), before.1)
            } else {
                match numbers {
                    None => before,
                    Some((read, written)) => (
                        before.0.insert(device),
                        before.1.push((device, sector_bytes(read), sector_bytes(written))),
                    ),
                }
            },
        }
    }
}

/// The view of each disk's counters.
pub open spec fn disk_views() -> spec_fn(DiskCounters) -> (Seq<char>, u64, u64) {
    |disk: DiskCounters| (disk.device@, disk.read_bytes, disk.written_bytes)
}

/// The device name a disk view is ordered by.
pub open spec fn disk_key() -> spec_fn((Seq<char>, u64, u64)) -> Seq<char> {
    |disk: (Seq<char>, u64, u64)| disk.0
}

/// The counters of the whole disks in a `/proc/diskstats` text, in the order
/// found, given the names of the devices that are whole disks.
pub fn disk_counters(text: &str, whole_disks: &Vec<String>) -> (disks: Vec<DiskCounters>)
    ensures
        disks@.map_values(disk_views()) == disk_scan(crate::text_parse::lines(text@), text_set(whole_disks@)).1,
{
    let all = text_lines(text);
    let ghost all_view = all@.map_values(|line: String| line@);
    let ghost whole = text_set(whole_disks@);
    let mut seen: Vec<String> = Vec::new();
    let mut disks: Vec<DiskCounters> = Vec::new();
    let mut index: usize = 0;
    assert(all_view.take(0) =~= Seq::<Seq<char>>::empty());
    assert(text_set(seen@) =~= Set::<Seq<char>>::empty());
    assert(disks@.map_values(disk_views()) =~= Seq::<(Seq<char>, u64, u64)>::empty());
    while index < all.len()
        invariant
            all_view == all@.map_values(|line: String| line@),
            all_view == crate::text_parse::lines(text@),
            whole == text_set(whole_disks@),
            index <= all@.len(),
            text_set(seen@) == disk_scan(all_view.take(index as int), whole).0,
            disks@.map_values(disk_views()) == disk_scan(all_view.take(index as int), whole).1,
        decreases all@.len() - index,
    {
        let ghost prefix = all_view.take(index + 1);
        assert(prefix.drop_last() =~= all_view.take(index as int));
        assert(prefix.last() == all@[index as int]@);
        let ghost before = disk_scan(all_view.take(index as int), whole);
        let fields = text_words(all[index].as_str());
        let ghost field_views = fields@.map_values(|word: String| word@);
        index += 1;
        if fields.len() < 10 {
            continue;
        }
        let device = fields[2].as_str();
        assert(field_views[2] == device@);
        proof {
            lemma_text_set(seen@, device@);
            lemma_text_set(whole_disks@, device@);
        }
        if contains_name(&seen, device) {
            continue;
        }
        if !contains_name(whole_disks, device) {
            let name = owned(device);
            proof {
                lemma_text_set_push(seen@, name);
            }
            seen.push(name);
            continue;
        }
        assert(field_views[5] == fields@[5]@);
        assert(field_views[9] == fields@[9]@);
        let read = parse_u64(fields[5].as_str());
        let written = parse_u64(fields[9].as_str());
        match (read, written) {
            (Some(read_sectors), Some(written_sectors)) => {
                let name = owned(device);
                proof {
                    lemma_text_set_push(seen@, name);
                }
                seen.push(name);
                let disk = DiskCounters {
                    device: owned(device),
                    read_bytes: read_sectors.checked_mul(512).unwrap_or(u64::MAX),
                    written_bytes: written_sectors.checked_mul(512).unwrap_or(u64::MAX),
                };
                let ghost views_before = disks@.map_values(disk_views());
                disks.push(disk);
                assert(disks@.map_values(disk_views()) =~= views_before.push(disk_views()(disk)));
            },
            _ => {},
        }
    }
    assert(all_view.take(all_view.len() as int) =~= all_view);
    disks
}

fn contains_name(names: &Vec<String>, name: &str) -> (found: bool)
    ensures
        found == exists|i: int| 0 <= i < names@.len() && (#[trigger] names@[i])@ == name@,
{
    let mut index: usize = 0;
    while index < names.len()
        invariant
            index <= names@.len(),
            forall|j: int| 0 <= j < index ==> (#[trigger] names@[j])@ != name@,
        decreases names@.len() - index,
    {
        if str_equal(names[index].as_str(), name) {
            return true;
        }
        index += 1;
    }
    false
}

impl<F: SystemFiles> ProcSysMonitor<F> {
    fn proc_path(&self, name: &str) -> (path: String)
        ensures
            path@ == crate::text::path_join(self.proc_root@, name@),
    {
        join_path(self.proc_root.as_str(), name)
    }

    fn sys_path(&self, name: &str) -> (path: String)
        ensures
            path@ == crate::text::path_join(self.sys_root@, name@),
    {
        join_path(self.sys_root.as_str(), name)
    }

    /// The CPU counters from `/proc/stat`.
    pub fn read_cpu(&self) -> (metric: Metric<CpuCounters>)
        ensures
            metric matches Metric::Unavailable(issue) ==> issue.source@ == "/proc/stat"@,
            metric matches Metric::Available(counters) ==> exists|text: Seq<char>|
                #[trigger] cpu_reading(text) == Ok::<(u64, u64, nat), Seq<char>>(
                    (counters.total, counters.idle, counters.logical_cpus as nat),
                ),
    {
        match self.files.read_text(self.proc_path("stat").as_str()) {
            Ok(text) => {
                let metric = cpu_counters(text.as_str());
                proof {
                    if metric is Available {
                        assert(cpu_reading(text@) is Ok);
                    }
                }
                metric
            },
            Err(kind) => Metric::Unavailable(read_issue("/proc/stat", kind.as_str())),
        }
    }

    /// The memory counters from `/proc/meminfo`.
    pub fn read_memory(&self) -> (metric: Metric<MemoryCounters>)
        ensures
            metric matches Metric::Unavailable(issue) ==> issue.source@ == "/proc/meminfo"@,
            metric matches Metric::Available(counters) ==> exists|text: Seq<char>|
                #[trigger] memory_reading(text) == Ok::<MemoryCounters, Seq<char>>(counters),
    {
        match self.files.read_text(self.proc_path("meminfo").as_str()) {
            Ok(text) => {
                let metric = memory_counters(text.as_str());
                proof {
                    if metric is Available {
                        assert(memory_reading(text@) is Ok);
                    }
                }
                metric
            },
            Err(kind) => Metric::Unavailable(read_issue("/proc/meminfo", kind.as_str())),
        }
    }

    /// The interface counters from `/proc/net/dev`.
    pub fn read_network(&self) -> (metric: Metric<Vec<NetworkCounters>>)
        ensures
            metric matches Metric::Unavailable(issue) ==> issue.source@ == "/proc/net/dev"@,
            metric matches Metric::Available(interfaces) ==> exists|text: Seq<char>|
                #[trigger] network_reading(text) == interfaces_view(interfaces@),
    {
        match self.files.read_text(self.proc_path("net/dev").as_str()) {
            Ok(text) => {
                let metric = network_counters(text.as_str());
                proof {
                    if metric is Available {
                        assert(network_reading(text@).len() > 0);
                    }
                }
                metric
            },
            Err(kind) => Metric::Unavailable(read_issue("/proc/net/dev", kind.as_str())),
        }
    }

    /// The identity of the device behind a sysfs class entry: its canonical
    /// path relative to the canonical sysfs root.
    fn canonical_device_identity(&self, class_entry: &str) -> (identity: Option<String>)
        ensures
            identity is Some ==> exists|device: Seq<char>, root: Seq<char>|
                #[trigger] identity_below(device, root) == crate::text::optional_text(identity),
    {
        let device = match self.files.canonical_path(join_path(class_entry, "device").as_str()) {
            Some(path) => path,
            None => {
                return None;
            },
        };
        let root = match self.files.canonical_path(self.sys_root.as_str()) {
            Some(path) => path,
            None => {
                return None;
            },
        };
        device_identity(device.as_str(), root.as_str())
    }

    /// Appends the readable `temp*_input` sensors of every hwmon chip.
    fn hwmon_temperatures(&self, readings: &mut Vec<TemperatureReading>)
        ensures
            appended_with(old(readings)@, final(readings)@, |reading: TemperatureReading| hwmon_keyed(reading)),
    {
        let ghost start = readings@;
        let class_root = self.sys_path("class/hwmon");
        let chips = self.files.entry_names(class_root.as_str());
        let mut chip_index: usize = 0;
        assert(readings@.subrange(0, start.len() as int) =~= start);
        while chip_index < chips.len()
            invariant
                start.len() <= readings@.len(),
                readings@.subrange(0, start.len() as int) == start,
                forall|i: int| start.len() <= i < readings@.len() ==> hwmon_keyed(#[trigger] readings@[i]),
            decreases chips@.len() - chip_index,
        {
            let chip = join_path(class_root.as_str(), chips[chip_index].as_str());
            chip_index += 1;
            let chip_name = match attribute_at(&self.files, join_path(chip.as_str(), "name").as_str()) {
                Some(name) => name,
                None => {
                    continue;
                },
            };
            let device = match self.canonical_device_identity(chip.as_str()) {
                Some(device) => device,
                None => {
                    continue;
                },
            };
            let inputs = self.files.entry_names(chip.as_str());
            let mut input_index: usize = 0;
            while input_index < inputs.len()
                invariant
                    start.len() <= readings@.len(),
                    readings@.subrange(0, start.len() as int) == start,
                    forall|i: int| start.len() <= i < readings@.len() ==> hwmon_keyed(#[trigger] readings@[i]),
                decreases inputs@.len() - input_index,
            {
                let filename = inputs[input_index].as_str();
                input_index += 1;
                let characters = chars_of(filename);
                let length = characters.len();
                if length < 6 || !crate::text::str_equal(suffix_from(&characters, length - 6).as_str(), "_input") {
                    continue;
                }
                let base = crate::text::string_from_chars(&characters.as_slice()[0..length - 6]);
                if !has_prefix(base.as_str(), "temp") {
                    continue;
                }
                let input_path = join_path(chip.as_str(), filename);
                let value = match attribute_at(&self.files, input_path.as_str()) {
                    Some(text) => match parse_i64(text.as_str()) {
                        Some(value) => value,
                        None => {
                            continue;
                        },
                    },
                    None => {
                        continue;
                    },
                };
                let mut label_file = base.clone();
                label_file.append("_label");
                let label = match attribute_at(&self.files, join_path(chip.as_str(), label_file.as_str()).as_str()) {
                    Some(label) => label,
                    None => base.clone(),
                };
                let mut key = owned("hwmon/");
                key.append(device.as_str());
                key.append("/");
                key.append(chip_name.as_str());
                key.append("/");
                key.append(base.as_str());
                key.append("/");
                key.append(label.as_str());
                let reading = TemperatureReading { stable_key: key, label, millidegrees_celsius: value };
                assert(reading.stable_key@ == hwmon_key(device@, chip_name@, base@, reading.label@));
                let ghost before = readings@;
                readings.push(reading);
                proof {
                    assert(readings@.subrange(0, start.len() as int) =~= before.subrange(0, start.len() as int));
                    assert forall|i: int| start.len() <= i < readings@.len() implies hwmon_keyed(#[trigger] readings@[i]) by {
                        if i < before.len() {
                            assert(readings@[i] == before[i]);
                        }
                    }
                }
            }
        }
    }

    /// Appends the readable temperature of every thermal zone.
    fn thermal_temperatures(&self, readings: &mut Vec<TemperatureReading>)
        ensures
            appended_with(old(readings)@, final(readings)@, |reading: TemperatureReading| thermal_keyed(reading)),
    {
        let ghost start = readings@;
        let class_root = self.sys_path("class/thermal");
        let zones = self.files.entry_names(class_root.as_str());
        let mut index: usize = 0;
        assert(readings@.subrange(0, start.len() as int) =~= start);
        while index < zones.len()
            invariant
                start.len() <= readings@.len(),
                readings@.subrange(0, start.len() as int) == start,
                forall|i: int| start.len() <= i < readings@.len() ==> thermal_keyed(#[trigger] readings@[i]),
            decreases zones@.len() - index,
        {
            let filename = zones[index].as_str();
            index += 1;
            if !has_prefix(filename, "thermal_zone") {
                continue;
            }
            let zone = join_path(class_root.as_str(), filename);
            let kind = match attribute_at(&self.files, join_path(zone.as_str(), "type").as_str()) {
                Some(kind) => kind,
                None => {
                    continue;
                },
            };
            let device = match self.canonical_device_identity(zone.as_str()) {
                Some(device) => device,
                None => {
                    continue;
                },
            };
            let value = match attribute_at(&self.files, join_path(zone.as_str(), "temp").as_str()) {
                Some(text) => match parse_i64(text.as_str()) {
                    Some(value) => value,
                    None => {
                        continue;
                    },
                },
                None => {
                    continue;
                },
            };
            let mut key = owned("thermal/");
            key.append(device.as_str());
            key.append("/");
            key.append(kind.as_str());
            let reading = TemperatureReading { stable_key: key, label: kind, millidegrees_celsius: value };
            assert(reading.stable_key@ == thermal_key(device@, reading.label@));
            let ghost before = readings@;
            readings.push(reading);
            proof {
                assert(readings@.subrange(0, start.len() as int) =~= before.subrange(0, start.len() as int));
                assert forall|i: int| start.len() <= i < readings@.len() implies thermal_keyed(#[trigger] readings@[i]) by {
                    if i < before.len() {
                        assert(readings@[i] == before[i]);
                    }
                }
            }
        }
    }

    /// The temperature sensors of hwmon and thermal zones, by stable key.
    pub fn read_temperatures(&self) -> (metric: Metric<Vec<TemperatureReading>>)
        ensures
            metric matches Metric::Unavailable(issue) ==> issue.source@ == "/sys/class/hwmon + /sys/class/thermal"@,
            exists|found: Seq<TemperatureReading>| sensor_keyed(found) && #[trigger] reports_temperatures(metric, found),
    {
        let mut readings: Vec<TemperatureReading> = Vec::new();
        self.hwmon_temperatures(&mut readings);
        let ghost hwmon = readings@;
        self.thermal_temperatures(&mut readings);
        let ghost found = readings@;
        proof {
            assert forall|i: int| 0 <= i < found.len() implies hwmon_keyed(#[trigger] found[i]) || thermal_keyed(found[i]) by {
                if i < hwmon.len() {
                    assert(found[i] == found.subrange(0, hwmon.len() as int)[i]);
                }
            }
        }
        let metric = temperature_metric(readings);
        assert(reports_temperatures(metric, found));
        metric
    }

    /// The power supplies sysfs exposes: one reading per entry of
    /// `<sys_root>/class/power_supply`, in listing order, from the attribute
    /// files in the entry's directory.
    pub fn read_power_supplies(&self) -> (metric: Metric<Vec<PowerSupplyReading>>)
        ensures
            metric matches Metric::Unavailable(issue) ==> issue.source@ == "/sys/class/power_supply"@
                && issue.reason@ == "no power supplies are exposed"@,
            metric matches Metric::Available(supplies) ==> supplies@.len() > 0,
            exists|names: Seq<Seq<char>>, attributes: Seq<SupplyAttributes>| {
                &&& names.len() == attributes.len()
                &&& names.len() == 0 ==> metric is Unavailable
                &&& names.len() > 0 ==> (metric matches Metric::Available(supplies) && supplies@.len() == names.len()
                    && forall|i: int| 0 <= i < names.len() ==> supply_read_as(#[trigger] supplies@[i], names[i], attributes[i]))
            },
    {
        let root = self.sys_path("class/power_supply");
        let names = self.files.entry_names(root.as_str());
        let mut supplies: Vec<PowerSupplyReading> = Vec::new();
        let ghost mut read_names: Seq<Seq<char>> = Seq::empty();
        let ghost mut read_attributes: Seq<SupplyAttributes> = Seq::empty();
        let mut index: usize = 0;
        while index < names.len()
            invariant
                index <= names@.len(),
                supplies@.len() == index,
                read_names.len() == index,
                read_attributes.len() == index,
                forall|i: int| 0 <= i < index ==> supply_read_as(#[trigger] supplies@[i], read_names[i], read_attributes[i]),
            decreases names@.len() - index,
        {
            let name = names[index].as_str();
            let path = join_path(root.as_str(), name);
            let attributes = SupplyAttributes {
                kind: attribute_at(&self.files, join_path(path.as_str(), "type").as_str()),
                scope: attribute_at(&self.files, join_path(path.as_str(), "scope").as_str()),
                capacity: attribute_at(&self.files, join_path(path.as_str(), "capacity").as_str()),
                status: attribute_at(&self.files, join_path(path.as_str(), "status").as_str()),
                health: attribute_at(&self.files, join_path(path.as_str(), "health").as_str()),
                cycle_count: attribute_at(&self.files, join_path(path.as_str(), "cycle_count").as_str()),
                energy_now: attribute_at(&self.files, join_path(path.as_str(), "energy_now").as_str()),
                energy_full: attribute_at(&self.files, join_path(path.as_str(), "energy_full").as_str()),
                power_now: attribute_at(&self.files, join_path(path.as_str(), "power_now").as_str()),
            };
            proof {
                read_names = read_names.push(name@);
                read_attributes = read_attributes.push(attributes);
            }
            supplies.push(power_supply_reading(name, attributes));
            index += 1;
        }
        let metric = power_supply_metric(supplies);
        assert(read_names.len() > 0 ==> (metric matches Metric::Available(found) && forall|i: int| 0 <= i < read_names.len()
            ==> supply_read_as(#[trigger] found@[i], read_names[i], read_attributes[i])));
        metric
    }

    /// The usage of each `/dev/` filesystem in the mount table: the mounts
    /// of `<proc_root>/self/mounts`, one per device at its first mount point,
    /// in mount-point order and at most [`MAX_FILESYSTEMS`] of them, each
    /// queried for its block counts.
    pub fn read_disk_usage(&self) -> (metric: Metric<Vec<FilesystemUsage>>)
        ensures
            metric matches Metric::Unavailable(issue) ==> issue.source@ == "/proc/self/mounts + statvfs"@,
            metric matches Metric::Available(usages) ==> 0 < usages@.len() <= MAX_FILESYSTEMS,
            (metric matches Metric::Unavailable(issue) && issue.reason@ == "mount list is unreadable"@)
                || exists|text: Seq<char>, blocks: Seq<Option<(u64, u64, u64)>>| reports_disk_usage(
                    metric,
                    #[trigger] usages_of(
                        leading(sorted_by(mounts_by_device(crate::text_parse::lines(text)), mount_key()), MAX_FILESYSTEMS as int),
                        blocks,
                    ),
                ),
    {
        let text = match self.files.read_text(self.proc_path("self/mounts").as_str()) {
            Ok(text) => text,
            Err(_) => {
                return Metric::Unavailable(SourceIssue::new("/proc/self/mounts + statvfs", "mount list is unreadable"));
            },
        };
        let mounts = mount_entries(text.as_str());
        let mut blocks: Vec<Option<(u64, u64, u64)>> = Vec::new();
        let mut index: usize = 0;
        while index < mounts.len()
            invariant
                index <= mounts@.len(),
                blocks@.len() == index,
            decreases mounts@.len() - index,
        {
            blocks.push(self.files.filesystem_blocks(mounts[index].mount_point.as_str()));
            index += 1;
        }
        let ghost listed = mounts@.map_values(mount_views());
        let metric = disk_usage_metric(mounts, blocks.as_slice());
        assert(reports_disk_usage(metric, usages_of(listed, blocks@)));
        metric
    }

    /// The read and written bytes of each whole disk in `/proc/diskstats`,
    /// by device name, at most [`MAX_DISK_DEVICES`] of them. A device is a
    /// whole disk when the sysfs block directory has an entry for it.
    pub fn read_disk_io(&self) -> (metric: Metric<Vec<DiskCounters>>)
        ensures
            metric matches Metric::Unavailable(issue) ==> issue.source@ == "/proc/diskstats"@,
            metric matches Metric::Available(disks) ==> 0 < disks@.len() <= MAX_DISK_DEVICES
                && exists|text: Seq<char>, whole: Set<Seq<char>>|
                    disks@.map_values(disk_views()) == #[trigger] leading(
                        sorted_by(disk_scan(crate::text_parse::lines(text), whole).1, disk_key()),
                        MAX_DISK_DEVICES as int,
                    ),
    {
        let text = match self.files.read_text(self.proc_path("diskstats").as_str()) {
            Ok(text) => text,
            Err(_) => {
                return Metric::Unavailable(SourceIssue::new("/proc/diskstats", "disk statistics are unreadable"));
            },
        };
        let block_root = self.sys_path("block");
        let all = text_lines(text.as_str());
        let mut asked: Vec<String> = Vec::new();
        let mut whole: Vec<String> = Vec::new();
        let mut index: usize = 0;
        while index < all.len()
            decreases all@.len() - index,
        {
            let fields = text_words(all[index].as_str());
            index += 1;
            if fields.len() < 10 {
                continue;
            }
            let device = fields[2].as_str();
            if contains_name(&asked, device) {
                continue;
            }
            asked.push(owned(device));
            if self.files.is_directory(join_path(block_root.as_str(), device).as_str()) {
                whole.push(owned(device));
            }
        }
        let counters = disk_counters(text.as_str(), &whole);
        let ghost found = counters@;
        let mut sorted = sort_by_key(counters);
        let ghost full = sorted@;
        sorted.truncate(MAX_DISK_DEVICES);
        if sorted.len() == 0 {
            Metric::Unavailable(SourceIssue::new("/proc/diskstats", "no whole-disk statistics are readable"))
        } else {
            proof {
                lemma_sorted_by_key_map(found, disk_views(), disk_key());
                let ordered = sorted_by(disk_scan(crate::text_parse::lines(text@), text_set(whole@)).1, disk_key());
                assert(full.map_values(disk_views()) == ordered);
                if full.len() > MAX_DISK_DEVICES {
                    assert(sorted@.map_values(disk_views()) =~= ordered.subrange(0, MAX_DISK_DEVICES as int));
                } else {
                    assert(sorted@ == full);
                }
                assert(sorted@.map_values(disk_views()) == leading(ordered, MAX_DISK_DEVICES as int));
            }
            Metric::Available(sorted)
        }
    }

    /// The busy percentage of each DRM card, at most [`MAX_GPUS`] of them;
    /// unavailable unless some card reports it. Reads the entries of
    /// `<sys_root>/class/drm` in listing order, whether each is a directory,
    /// and for each card its device identity and, when it has one, its
    /// `device/gpu_busy_percent` attribute, until [`MAX_GPUS`] cards are seen.
    pub fn read_gpu(&self) -> (metric: Metric<Vec<GpuReading>>)
        ensures
            exists|entries: Seq<DrmEntry>| reports_gpus(metric, #[trigger] gpu_outcome(entries)),
            metric matches Metric::Unavailable(issue) ==> issue.source@ == "/sys/class/drm"@,
            metric matches Metric::Available(gpus) ==> gpus@.len() <= MAX_GPUS,
    {
        let root = self.sys_path("class/drm");
        let names = self.files.entry_names(root.as_str());
        let mut entries: Vec<DrmEntry> = Vec::new();
        let mut cards: usize = 0;
        let mut index: usize = 0;
        while index < names.len() && cards < MAX_GPUS
            decreases names@.len() - index,
        {
            let name = names[index].as_str();
            index += 1;
            let card = join_path(root.as_str(), name);
            let directory = self.files.is_directory(card.as_str());
            let mut device: Option<String> = None;
            let mut busy: Option<String> = None;
            if directory && is_card_name(name) {
                cards += 1;
                device = self.canonical_device_identity(card.as_str());
                if device.is_some() {
                    busy = attribute_at(&self.files, join_path(card.as_str(), "device/gpu_busy_percent").as_str());
                }
            }
            entries.push(DrmEntry { name: owned(name), directory, device, busy });
        }
        let metric = gpu_metric(entries.as_slice());
        assert(reports_gpus(metric, gpu_outcome(entries@)));
        metric
    }

    /// One reading of every source family; each unavailable family names
    /// the source it was read from.
    pub fn read_sample(&self) -> (sample: RawSystemSample)
        ensures
            sample.cpu matches Metric::Unavailable(issue) ==> issue.source@ == "/proc/stat"@,
            sample.memory matches Metric::Unavailable(issue) ==> issue.source@ == "/proc/meminfo"@,
            sample.network matches Metric::Unavailable(issue) ==> issue.source@ == "/proc/net/dev"@,
            sample.temperatures matches Metric::Unavailable(issue) ==> issue.source@ == "/sys/class/hwmon + /sys/class/thermal"@,
            sample.power_supplies matches Metric::Unavailable(issue) ==> issue.source@ == "/sys/class/power_supply"@,
            sample.disk_usage matches Metric::Unavailable(issue) ==> issue.source@ == "/proc/self/mounts + statvfs"@,
            sample.disk_io matches Metric::Unavailable(issue) ==> issue.source@ == "/proc/diskstats"@,
            sample.gpu matches Metric::Unavailable(issue) ==> issue.source@ == "/sys/class/drm"@,
            sample.disk_usage matches Metric::Available(usages) ==> usages@.len() <= MAX_FILESYSTEMS,
            sample.disk_io matches Metric::Available(disks) ==> disks@.len() <= MAX_DISK_DEVICES,
            sample.gpu matches Metric::Available(gpus) ==> gpus@.len() <= MAX_GPUS,
            names_its_sources(sample),
    {
        RawSystemSample {
            cpu: self.read_cpu(),
            memory: self.read_memory(),
            network: self.read_network(),
            temperatures: self.read_temperatures(),
            power_supplies: self.read_power_supplies(),
            disk_usage: self.read_disk_usage(),
            disk_io: self.read_disk_io(),
            gpu: self.read_gpu(),
        }
    }
}

impl<F: SystemFiles> SystemMonitorSource for ProcSysMonitor<F> {
    /// One reading of every source family; the monitor itself is unchanged.
    fn sample(&mut self) -> (sample: RawSystemSample)
        ensures
            names_its_sources(sample),
            *final(self) == *old(self),
    {
        self.read_sample()
    }
}

impl<F: SystemFiles> CapabilityProbe for ProcSysMonitor<F> {
    /// The capability that one reading of every source family describes.
    fn probe(&self) -> (report: CapabilityReport)
        ensures
            exists|sample: RawSystemSample| names_its_sources(sample) && #[trigger] describes_sample(report, sample),
    {
        let sample = self.read_sample();
        sample_capability(&sample)
    }
}

} // verus!
