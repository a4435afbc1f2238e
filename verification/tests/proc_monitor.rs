use std::collections::{BTreeMap, BTreeSet};

use kestrel::proc_monitor::{decode_mount_field, device_identity, disk_counters, mount_entries, parse_i64, ProcSysMonitor, SystemFiles};
use kestrel::system_monitor::{Metric, SystemMonitorSource};

#[derive(Default)]
struct FakeFiles {
    files: BTreeMap<String, String>,
    directories: BTreeSet<String>,
    links: BTreeMap<String, String>,
    filesystems: BTreeMap<String, (u64, u64, u64)>,
}

impl FakeFiles {
    fn file(&mut self, path: &str, contents: &str) {
        self.files.insert(path.to_string(), contents.to_string());
        let mut parent = path.to_string();
        while let Some(index) = parent.rfind('/') {
            parent.truncate(index);
            if parent.is_empty() {
                break;
            }
            self.directories.insert(parent.clone());
        }
    }

    fn directory(&mut self, path: &str) {
        self.file(&format!("{path}/.keep"), "");
        self.files.remove(&format!("{path}/.keep"));
        self.directories.insert(path.to_string());
    }
}

impl SystemFiles for FakeFiles {
    fn read_text(&self, path: &str) -> Result<String, String> {
        self.files.get(path).cloned().ok_or_else(|| "entity not found".to_string())
    }

    fn entry_names(&self, path: &str) -> Vec<String> {
        let prefix = format!("{path}/");
        let mut names: BTreeSet<String> = BTreeSet::new();
        for candidate in self.files.keys().chain(self.directories.iter()).chain(self.links.keys()) {
            if let Some(rest) = candidate.strip_prefix(&prefix) {
                if let Some(name) = rest.split('/').next() {
                    if !name.is_empty() {
                        names.insert(name.to_string());
                    }
                }
            }
        }
        names.into_iter().collect()
    }

    fn canonical_path(&self, path: &str) -> Option<String> {
        if let Some(target) = self.links.get(path) {
            return Some(target.clone());
        }
        (self.directories.contains(path) || self.files.contains_key(path)).then(|| path.to_string())
    }

    fn is_directory(&self, path: &str) -> bool {
        self.directories.contains(path) || self.links.contains_key(path)
    }

    fn filesystem_blocks(&self, mount_point: &str) -> Option<(u64, u64, u64)> {
        self.filesystems.get(mount_point).copied()
    }
}

fn fixture() -> ProcSysMonitor<FakeFiles> {
    let mut files = FakeFiles::default();
    files.file("/p/stat", "cpu  10 0 5 80 5 0 0 0\ncpu0 5 0 2 40 2 0 0 0\ncpu1 5 0 3 40 3 0 0 0\n");
    files.file(
        "/p/meminfo",
        "MemTotal: 1000 kB\nMemAvailable: 400 kB\nCached: 100 kB\nBuffers: 50 kB\nSwapTotal: 200 kB\nSwapFree: 50 kB\n",
    );
    files.file(
        "/p/net/dev",
        "Inter-| Receive | Transmit\n face |bytes packets\n  lo: 100 1 0 0 0 0 0 0 200 1 0 0 0 0 0 0\n",
    );
    files.file(
        "/p/self/mounts",
        "/dev/test /mnt/data ext4 rw 0 0\n/dev/test /mnt/data ext4 rw 0 0\nproc /proc proc rw 0 0\n",
    );
    files.filesystems.insert("/mnt/data".to_string(), (100, 4096, 40));
    files.file("/p/diskstats", "8 0 sda 8 0 10 0 20 0 30 0 0\nmalformed diskstats\n8 1 sda1 8 0 99 0 20 0 99 0 0\n");
    files.directory("/s/block/sda");
    files.file("/s/class/hwmon/hwmon7/name", "coretemp\n");
    files.file("/s/class/hwmon/hwmon7/temp1_input", "42000\n");
    files.file("/s/class/hwmon/hwmon7/temp1_label", "Package id 0\n");
    files.directory("/s/devices/platform/coretemp");
    files
        .links
        .insert("/s/class/hwmon/hwmon7/device".to_string(), "/s/devices/platform/coretemp".to_string());
    files.file("/s/class/power_supply/BAT0/type", "Battery\n");
    files.file("/s/class/power_supply/BAT0/scope", "System\n");
    files.file("/s/class/power_supply/BAT0/capacity", "87\n");
    files.file("/s/class/power_supply/BAT0/cycle_count", "42\n");
    files.directory("/s/class/drm/card0");
    files.directory("/s/devices/pci0000:00/0000:00:02.0");
    files.file("/s/devices/pci0000:00/0000:00:02.0/gpu_busy_percent", "155\n");
    files
        .links
        .insert("/s/class/drm/card0/device".to_string(), "/s/devices/pci0000:00/0000:00:02.0".to_string());
    files.file("/s/class/drm/card0/device/gpu_busy_percent", "155\n");
    ProcSysMonitor::new("/p", "/s", files)
}

#[test]
fn parses_independent_proc_and_sys_sources() {
    let mut monitor = fixture();
    let sample = monitor.sample();
    assert!(matches!(&sample.cpu, Metric::Available(cpu) if cpu.logical_cpus == 2));
    assert!(matches!(&sample.memory, Metric::Available(memory) if memory.available_bytes == 409_600));
    assert!(matches!(&sample.network, Metric::Available(interfaces) if interfaces[0].transmitted_bytes == 200));
    assert!(matches!(
        &sample.power_supplies,
        Metric::Available(supplies)
            if supplies[0].capacity_percent == Some(87)
                && supplies[0].scope.as_deref() == Some("System")
                && supplies[0].cycle_count == Some(42)
                && supplies[0].health.is_none()
    ));
    assert!(matches!(
        &sample.disk_usage,
        Metric::Available(filesystems)
            if filesystems.len() == 1
                && filesystems[0].available_bytes <= filesystems[0].total_bytes
                && filesystems[0].device == "/dev/test"
    ));
    assert!(matches!(
        &sample.disk_io,
        Metric::Available(disks)
            if disks.len() == 1 && disks[0].device == "sda" && disks[0].read_bytes == 10 * 512 && disks[0].written_bytes == 30 * 512
    ));
    assert!(matches!(&sample.gpu, Metric::Available(gpus) if gpus.len() == 1 && gpus[0].busy_percent == Some(100)));
}

#[test]
fn sensor_key_uses_canonical_device_and_never_hwmon_index() {
    let mut monitor = fixture();
    let Metric::Available(temperatures) = monitor.sample().temperatures else {
        panic!("temperature fixture must be available");
    };
    assert_eq!(temperatures[0].stable_key, "hwmon/devices/platform/coretemp/coretemp/temp1/Package id 0");
    assert!(!temperatures[0].stable_key.contains("hwmon7"));
}

#[test]
fn gpu_without_busy_attribute_reports_independent_unavailable_metric() {
    let mut monitor = fixture();
    monitor.files.files.remove("/s/class/drm/card0/device/gpu_busy_percent");
    assert!(matches!(monitor.sample().gpu, Metric::Unavailable(_)));
}

#[test]
fn filesystem_statvfs_failures_do_not_hide_readable_mounts() {
    let mut monitor = fixture();
    monitor.files.file(
        "/p/self/mounts",
        "/dev/missing /definitely/not/a/fixture ext4 rw 0 0\n/dev/test /mnt/data ext4 rw 0 0\n",
    );
    assert!(matches!(
        monitor.sample().disk_usage,
        Metric::Available(filesystems) if filesystems.len() == 1 && filesystems[0].device == "/dev/test"
    ));
}

#[test]
fn missing_sources_are_independent_unavailable_metrics() {
    let mut monitor = ProcSysMonitor::new("/p", "/s", FakeFiles::default());
    let sample = monitor.sample();
    assert!(matches!(sample.cpu, Metric::Unavailable(_)));
    assert!(matches!(sample.memory, Metric::Unavailable(_)));
    assert!(matches!(sample.network, Metric::Unavailable(_)));
    assert!(matches!(sample.temperatures, Metric::Unavailable(_)));
    assert!(matches!(sample.power_supplies, Metric::Unavailable(_)));
    assert!(matches!(sample.disk_usage, Metric::Unavailable(_)));
    assert!(matches!(sample.disk_io, Metric::Unavailable(_)));
    assert!(matches!(sample.gpu, Metric::Unavailable(_)));
    assert!(matches!(&sample.cpu, Metric::Unavailable(issue) if issue.reason == "read failed: entity not found"));
}

#[test]
fn mounts_keep_the_least_mount_point_per_device_in_mount_order() {
    let entries = mount_entries(
        "/dev/b /z ext4 rw 0 0\n/dev/a /y xfs rw 0 0\n/dev/b /m\\040point btrfs rw 0 0\ntmpfs /tmp tmpfs rw 0 0\n",
    );
    let rows: Vec<(String, String, String)> = entries
        .iter()
        .map(|entry| (entry.device.clone(), entry.mount_point.clone(), entry.filesystem.clone()))
        .collect();
    assert_eq!(
        rows,
        vec![
            ("/dev/b".to_string(), "/m point".to_string(), "btrfs".to_string()),
            ("/dev/a".to_string(), "/y".to_string(), "xfs".to_string()),
        ]
    );
    assert_eq!(decode_mount_field("a\\011b\\134"), "a\tb\\");
    assert_eq!(decode_mount_field("\\04"), "\\04");
}

#[test]
fn identities_are_relative_to_the_canonical_root() {
    assert_eq!(device_identity("/sys/devices/x", "/sys"), Some("devices/x".to_string()));
    assert_eq!(device_identity("/sys", "/sys"), None);
    assert_eq!(device_identity("/sysfs/x", "/sys"), None);
    assert_eq!(device_identity("/a/b", "/"), Some("a/b".to_string()));
    assert_eq!(parse_i64("-42000"), Some(-42000));
    assert_eq!(parse_i64("-9223372036854775808"), Some(i64::MIN));
    assert_eq!(parse_i64("9223372036854775808"), None);
    assert_eq!(parse_i64("-"), None);
}

#[test]
fn whole_disks_count_from_their_first_parsable_line() {
    let text = "   8       0 sda 1 2 3 4 5 6\n\
                   8       1 sda1 1 2 10 4 5 6 20 8 9\n\
                   8       0 sda 1 2 x 4 5 6 7 8 9\n\
                   8       0 sda 1 2 7 4 5 6 9 8 9\n\
                   8       0 sda 1 2 99 4 5 6 99 8 9\n\
                   8      16 sdb 1 2 18446744073709551615 4 5 6 1 8 9\n";
    let whole = vec!["sda".to_string(), "sdb".to_string()];
    let disks = disk_counters(text, &whole);
    assert_eq!(disks.len(), 2);
    assert_eq!(disks[0].device, "sda");
    assert_eq!(disks[0].read_bytes, 7 * 512);
    assert_eq!(disks[0].written_bytes, 9 * 512);
    assert_eq!(disks[1].device, "sdb");
    assert_eq!(disks[1].read_bytes, u64::MAX);
    assert_eq!(disks[1].written_bytes, 512);
    assert!(disk_counters(text, &Vec::new()).is_empty());
}
