use digsigctl::sysinfo::meminfo::{meminfo_from_text, KIB};
use digsigctl::sysinfo::mount::{mount_from_line, mounts_from_text, root_mounted_ro};
use digsigctl::sysinfo::smart::{check_device_from_text, get_devices_from_text};

const MEMINFO_TEXT: &str = r"MemTotal:        8001412 kB
MemFree:          136304 kB
MemAvailable:     109900 kB
Buffers:            1280 kB
Cached:          1176668 kB
SwapCached:            0 kB
Active:          4266976 kB
Inactive:        2303744 kB
Active(anon):    4200280 kB
Inactive(anon):  2247412 kB
Active(file):      66696 kB
Inactive(file):    56332 kB
Unevictable:      951772 kB
Mlocked:             240 kB
SwapTotal:             0 kB
SwapFree:              0 kB
Zswap:                 0 kB
Zswapped:              0 kB
Dirty:              7808 kB
Writeback:             0 kB
AnonPages:       6343520 kB
Mapped:           177572 kB
Shmem:           1054964 kB
KReclaimable:      92876 kB
Slab:             193904 kB
SReclaimable:      92876 kB
SUnreclaim:       101028 kB
KernelStack:       15280 kB
PageTables:        43684 kB
SecPageTables:      2056 kB
NFS_Unstable:          0 kB
Bounce:                0 kB
WritebackTmp:          0 kB
CommitLimit:     4000704 kB
Committed_AS:   13562732 kB
VmallocTotal:   34359738367 kB
VmallocUsed:       52252 kB
VmallocChunk:          0 kB
Percpu:             2832 kB
HardwareCorrupted:     0 kB
AnonHugePages:   2168832 kB
ShmemHugePages:        0 kB
ShmemPmdMapped:        0 kB
FileHugePages:         0 kB
FilePmdMapped:         0 kB
CmaTotal:              0 kB
CmaFree:               0 kB
Unaccepted:            0 kB
HugePages_Total:       0
HugePages_Free:        0
HugePages_Rsvd:        0
HugePages_Surp:        0
Hugepagesize:       2048 kB
Hugetlb:               0 kB
DirectMap4k:      173940 kB
DirectMap2M:     5986304 kB
DirectMap1G:     2097152 kB
";

#[test]
fn test_meminfo_from_text() {
    let meminfo = meminfo_from_text(MEMINFO_TEXT);

    // Test some samples of the above /proc/meminfo dump.
    assert_eq!(meminfo.get("MemFree"), Some(136_304 * KIB));
    assert_eq!(meminfo.get("MemAvailable"), Some(109_900 * KIB));
    assert_eq!(meminfo.get("Buffers"), Some(1280 * KIB));
    assert_eq!(meminfo.get("Cached"), Some(1_176_668 * KIB));
    assert_eq!(meminfo.get("SwapCached"), Some(0));
    assert_eq!(meminfo.get("HugePages_Total"), Some(0));
    assert_eq!(meminfo.get("DirectMap1G"), Some(2_097_152 * KIB));
    assert_eq!(meminfo.get("NoSuchKey"), None);
}

const SMARTCTL_H: &str =
    "smartctl 7.4 2023-08-01 r5530 [x86_64-linux-6.10.10-arch1-1] (local build)
Copyright (C) 2002-23, Bruce Allen, Christian Franke, www.smartmontools.org

=== START OF READ SMART DATA SECTION ===
SMART overall-health self-assessment test result: PASSED

";

const SMARTCTL_SCAN_OPEN: &str = "/dev/sda -d sat # /dev/sda [SAT], ATA device";

#[test]
fn test_check_device() {
    let status = check_device_from_text(SMARTCTL_H);

    assert_eq!(status.as_deref(), Some("PASSED"));
}

#[test]
fn test_get_devices_from_text() {
    let status = get_devices_from_text(SMARTCTL_SCAN_OPEN);
    let target_value = "/dev/sda";

    assert_eq!(status.len(), 1);

    for item in status {
        assert_eq!(item.as_str(), target_value);
    }
}

#[test]
fn mount_line_parses_six_fields() {
    let mount = mount_from_line("/dev/sda1 / ext4 ro,relatime,data=ordered 0 0").unwrap();
    assert_eq!(mount.device.as_str(), "/dev/sda1");
    assert_eq!(mount.mountpoint.as_str(), "/");
    assert_eq!(mount.filesystem.as_str(), "ext4");
    assert_eq!(mount.flags.len(), 3);
    assert_eq!(mount.flags[0].0.as_str(), "ro");
    assert_eq!(mount.flags[0].1, None);
    assert_eq!(mount.flags[2].0.as_str(), "data");
    assert_eq!(mount.flags[2].1.as_deref(), Some("ordered"));
    assert_eq!(mount.freq, 0);
    assert_eq!(mount.pass_no, 0);
}

#[test]
fn mount_line_with_wrong_shape_is_skipped() {
    assert!(mount_from_line("proc /proc proc rw 0").is_none());
    assert!(mount_from_line("").is_none());
}

#[test]
fn root_read_only_is_read_off_the_root_mount() {
    let table = "proc /proc proc rw,nosuid 0 0\n/dev/sda1 / ext4 ro,relatime 0 0\n";
    let mounts = mounts_from_text(table);
    assert_eq!(mounts.len(), 2);
    assert_eq!(root_mounted_ro(&mounts), Some(true));

    let rw = mounts_from_text("/dev/sda1 / ext4 rw,relatime 0 0\n");
    assert_eq!(root_mounted_ro(&rw), Some(false));

    let none = mounts_from_text("proc /proc proc rw 0 0\n");
    assert_eq!(root_mounted_ro(&none), None);
}

#[test]
fn cmdline_items_split_at_the_first_equals_sign() {
    let items = digsigctl::sysinfo::cmdline::cmdline_from_text(
        "BOOT_IMAGE=/vmlinuz-linux root=UUID=abc rw quiet\n",
    );
    assert_eq!(items.len(), 4);
    assert_eq!(items[0].0.as_str(), "BOOT_IMAGE");
    assert_eq!(items[0].1.as_deref(), Some("/vmlinuz-linux"));
    assert_eq!(items[1].0.as_str(), "root");
    assert_eq!(items[1].1.as_deref(), Some("UUID=abc"));
    assert_eq!(items[2].0.as_str(), "rw");
    assert_eq!(items[2].1, None);
    assert_eq!(items[3].0.as_str(), "quiet");
    assert_eq!(items[3].1, None);
}

#[test]
fn bay_trail_models_are_recognized_by_substring() {
    let names = vec!["Intel(R) Celeron(R) CPU J1900 @ 1.99GHz".to_owned()];
    let cpu = digsigctl::sysinfo::cpuinfo::CpuInfo::from_model_names(&names);
    assert!(cpu.is_bay_trail());
    assert_eq!(cpu.model_name(), Some("Intel(R) Celeron(R) CPU J1900 @ 1.99GHz"));

    let other = vec!["Intel(R) Core(TM) i7-8550U CPU @ 1.80GHz".to_owned()];
    let cpu = digsigctl::sysinfo::cpuinfo::CpuInfo::from_model_names(&other);
    assert!(!cpu.is_bay_trail());

    let empty: Vec<String> = vec![];
    let cpu = digsigctl::sysinfo::cpuinfo::CpuInfo::from_model_names(&empty);
    assert!(!cpu.is_bay_trail());
    assert_eq!(cpu.model_name(), None);
}

#[test]
fn model_names_are_read_off_their_lines() {
    let text = "processor\t: 0\nmodel name\t: Intel(R) Atom(TM) CPU  Z3735F\nprocessor\t: 1\nmodel name\t: Intel(R) Atom(TM) CPU  Z3735F\n";
    let names = digsigctl::sysinfo::cpuinfo::model_names_from_text(text);
    assert_eq!(names.len(), 2);
    assert_eq!(names[0].as_str(), "Intel(R) Atom(TM) CPU  Z3735F");
}
