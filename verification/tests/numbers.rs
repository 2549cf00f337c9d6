use quickfetch::disk::{are_sound, get_disk_usage_info, is_reported_disk, Disk, DiskUsage};
use quickfetch::network::{get_dotted, get_local_ip_info, Address};
use quickfetch::packages::{
    get_count_script, get_manager, get_manager_name, get_package_count, get_package_manager_info,
    Manager, MANAGERS,
};
use quickfetch::uptime::get_uptime_info;

fn disk(mount_point: &str, total: u64, available: u64) -> Disk {
    Disk { mount_point: mount_point.to_string(), total, available }
}

fn shown(uses: &[DiskUsage]) -> Vec<(String, u64, u64)> {
    uses.iter().map(|u| (u.mount_point.clone(), u.total, u.used)).collect()
}

#[test]
fn uptime_is_written_in_hours_minutes_and_seconds() {
    assert_eq!(get_uptime_info(0), "0h 0m 0s");
    assert_eq!(get_uptime_info(59), "0h 0m 59s");
    assert_eq!(get_uptime_info(60), "0h 1m 0s");
    assert_eq!(get_uptime_info(3599), "0h 59m 59s");
    assert_eq!(get_uptime_info(3600), "1h 0m 0s");
    assert_eq!(get_uptime_info(3661), "1h 1m 1s");
    assert_eq!(get_uptime_info(90061), "25h 1m 1s");
    assert_eq!(get_uptime_info(u64::MAX), "5124095576030431h 0m 15s");
}

#[test]
fn uptime_agrees_with_the_formula() {
    let mut seconds: u64 = 0;
    while seconds < 200_000 {
        let expected = format!("{}h {}m {}s", seconds / 3600, (seconds % 3600) / 60, seconds % 60);
        assert_eq!(get_uptime_info(seconds), expected);
        seconds += 7;
    }
}

#[test]
fn disk_usage_is_total_less_available() {
    let disks = vec![disk("/", 1000, 400), disk("/home", 5000, 5000), disk("/boot", 7, 0)];
    assert_eq!(
        shown(&get_disk_usage_info(&disks)),
        vec![
            ("/".to_string(), 1000, 600),
            ("/home".to_string(), 5000, 0),
            ("/boot".to_string(), 7, 7)
        ]
    );
}

#[test]
fn disk_usage_leaves_out_what_is_mounted_under_snap() {
    let disks = vec![
        disk("/snap/core/1", 100, 0),
        disk("/", 1000, 400),
        disk("/snapshots", 10, 1),
        disk("/var/snap", 20, 5),
        disk("/snap", 30, 30),
    ];
    assert_eq!(
        shown(&get_disk_usage_info(&disks)),
        vec![("/".to_string(), 1000, 600), ("/var/snap".to_string(), 20, 15)]
    );
}

#[test]
fn disk_usage_of_no_disks_is_empty() {
    assert!(get_disk_usage_info(&Vec::new()).is_empty());
}

#[test]
fn disk_usage_passes_over_an_unsound_disk_under_snap() {
    let disks = vec![disk("/snap/x", 1, 2), disk("/", 0, 0)];
    assert!(are_sound(&disks));
    assert_eq!(shown(&get_disk_usage_info(&disks)), vec![("/".to_string(), 0, 0)]);
}

#[test]
fn disks_are_sound_where_no_more_is_free_than_there_is() {
    assert!(are_sound(&Vec::new()));
    assert!(are_sound(&vec![disk("/", 10, 10), disk("/home", u64::MAX, 0)]));
    assert!(!are_sound(&vec![disk("/", 10, 11)]));
    assert!(!are_sound(&vec![disk("/", 10, 1), disk("/home", 0, 1)]));
}

#[test]
fn disks_under_snap_are_not_reported() {
    assert!(is_reported_disk(&disk("/", 0, 0)));
    assert!(is_reported_disk(&disk("", 0, 0)));
    assert!(is_reported_disk(&disk("/sna", 0, 0)));
    assert!(is_reported_disk(&disk("snap", 0, 0)));
    assert!(!is_reported_disk(&disk("/snap", 0, 0)));
    assert!(!is_reported_disk(&disk("/snap/firefox/3836", 0, 0)));
}

#[test]
fn addresses_are_written_with_dots() {
    assert_eq!(get_dotted(192, 168, 1, 20), "192.168.1.20");
    assert_eq!(get_dotted(0, 0, 0, 0), "0.0.0.0");
    assert_eq!(get_dotted(255, 255, 255, 255), "255.255.255.255");
    assert_eq!(get_dotted(10, 0, 100, 9), "10.0.100.9");
}

#[test]
fn local_ip_is_the_first_address_that_does_not_loop_back() {
    let addresses = vec![
        Address::V4(127, 0, 0, 1),
        Address::V6,
        Address::V4(192, 168, 1, 20),
        Address::V4(10, 0, 0, 1),
    ];
    assert_eq!(get_local_ip_info(Some(&addresses)), "192.168.1.20");
}

#[test]
fn local_ip_takes_all_of_127_to_loop_back() {
    let addresses = vec![Address::V4(127, 255, 255, 254), Address::V4(128, 0, 0, 1)];
    assert_eq!(get_local_ip_info(Some(&addresses)), "128.0.0.1");
    let addresses = vec![Address::V4(126, 0, 0, 1), Address::V4(128, 0, 0, 1)];
    assert_eq!(get_local_ip_info(Some(&addresses)), "126.0.0.1");
}

#[test]
fn local_ip_without_a_fitting_address_is_unknown() {
    assert_eq!(get_local_ip_info(None), "Unknown");
    assert_eq!(get_local_ip_info(Some(&Vec::new())), "Unknown");
    assert_eq!(get_local_ip_info(Some(&vec![Address::V6, Address::V4(127, 0, 0, 1)])), "Unknown");
}

#[test]
fn managers_come_in_their_order() {
    assert_eq!(MANAGERS, 7);
    let names: Vec<String> = (0..MANAGERS).map(|i| get_manager_name(get_manager(i))).collect();
    assert_eq!(names, vec!["dpkg", "apt", "rpm", "pacman", "dnf", "snap", "flatpak"]);
    assert_eq!(get_manager(100), Manager::Flatpak);
}

#[test]
fn count_scripts_count_lines() {
    assert_eq!(get_count_script(Manager::Dpkg), "dpkg-query -f '.\n' -W 2>/dev/null | wc -l");
    assert_eq!(get_count_script(Manager::Flatpak), "flatpak list 2>/dev/null | wc -l");
}

#[test]
fn package_counts_are_numbers_above_zero() {
    assert_eq!(get_package_count(Some("1234\n")), Some(1234));
    assert_eq!(get_package_count(Some("  7  ")), Some(7));
    assert_eq!(get_package_count(Some("+3\n")), Some(3));
    assert_eq!(get_package_count(Some("0\n")), None);
    assert_eq!(get_package_count(Some("")), None);
    assert_eq!(get_package_count(Some("12 34\n")), None);
    assert_eq!(get_package_count(Some("-1\n")), None);
    assert_eq!(get_package_count(Some("sh: 1: wc: not found\n")), None);
    assert_eq!(get_package_count(Some("18446744073709551616\n")), None);
    assert_eq!(get_package_count(None), None);
}

#[test]
fn package_managers_with_packages_are_listed() {
    let replies = vec![
        Some("2150\n".to_string()),
        Some("2151\n".to_string()),
        Some("0\n".to_string()),
        None,
        Some("oops\n".to_string()),
        Some("12\n".to_string()),
        Some("3\n".to_string()),
    ];
    assert_eq!(
        get_package_manager_info(&replies),
        vec![
            ("dpkg".to_string(), 2150),
            ("apt".to_string(), 2151),
            ("snap".to_string(), 12),
            ("flatpak".to_string(), 3)
        ]
    );
}

#[test]
fn package_managers_without_replies_are_left_out() {
    assert!(get_package_manager_info(&Vec::new()).is_empty());
    assert!(get_package_manager_info(&vec![None, None, None, None, None, None, None]).is_empty());
    let few = vec![None, Some("5".to_string())];
    assert_eq!(get_package_manager_info(&few), vec![("apt".to_string(), 5)]);
    let many: Vec<Option<String>> = (0..9).map(|i| Some(format!("{}", i + 1))).collect();
    assert_eq!(get_package_manager_info(&many).len(), 7);
}
