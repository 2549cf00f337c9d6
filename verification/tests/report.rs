use quickfetch::artwork::{get_color_strip, get_distro_logo, supports_artwork};
use quickfetch::report::{
    get_amount, get_artwork_report, get_closing, get_count_line, get_line, get_opening,
    get_package_lines, get_plain_report, get_report, get_strip_line, get_volume_line,
    get_volume_lines, Amount, Summary, Volume,
};

const LOGO: &str = "\n        \u{2588}\u{2588}\u{2588}\u{2588}\u{2588}\u{2588}\u{2588}\u{2588}\u{2588}\u{2588}        \n    \u{2588}\u{2588}\u{2588}\u{2588}\u{2588}\u{2588}\u{2588}\u{2588}\u{2588}\u{2588}\u{2588}\u{2588}\u{2588}\u{2588}\u{2588}\u{2588}    \n  \u{2588}\u{2588}\u{2588}\u{2588}\u{2588}\u{2588}\u{2588}\u{2588}\u{2588}\u{2588}\u{2588}\u{2588}\u{2588}\u{2588}\u{2588}\u{2588}\u{2588}\u{2588}\u{2588}\u{2588}  \n\u{2588}\u{2588}\u{2588}\u{2588}\u{2588}\u{2588}\u{2588}\u{2588}\u{2588}\u{2588}\u{2588}\u{2588}\u{2588}\u{2588}\u{2588}\u{2588}\u{2588}\u{2588}\u{2588}\u{2588}\u{2588}\u{2588}\u{2588}\u{2588}\n\u{2588}\u{2588}\u{2588}\u{2588}\u{2588}\u{2588}\u{2588}\u{2588}\u{2588}\u{2588}\u{2588}\u{2588}\u{2588}\u{2588}\u{2588}\u{2588}\u{2588}\u{2588}\u{2588}\u{2588}\u{2588}\u{2588}\u{2588}\u{2588}\n\u{2588}\u{2588}\u{2588}\u{2588}\u{2588}\u{2588}\u{2588}\u{2588}\u{2588}\u{2588}\u{2588}\u{2588}\u{2588}\u{2588}\u{2588}\u{2588}\u{2588}\u{2588}\u{2588}\u{2588}\u{2588}\u{2588}\u{2588}\u{2588}\n\u{2588}\u{2588}\u{2588}\u{2588}\u{2588}\u{2588}\u{2588}\u{2588}\u{2588}\u{2588}\u{2588}\u{2588}\u{2588}\u{2588}\u{2588}\u{2588}\u{2588}\u{2588}\u{2588}\u{2588}\u{2588}\u{2588}\u{2588}\u{2588}\n  \u{2588}\u{2588}\u{2588}\u{2588}\u{2588}\u{2588}\u{2588}\u{2588}\u{2588}\u{2588}\u{2588}\u{2588}\u{2588}\u{2588}\u{2588}\u{2588}\u{2588}\u{2588}\u{2588}\u{2588}  \n    \u{2588}\u{2588}\u{2588}\u{2588}\u{2588}\u{2588}\u{2588}\u{2588}\u{2588}\u{2588}\u{2588}\u{2588}\u{2588}\u{2588}\u{2588}\u{2588}    \n        \u{2588}\u{2588}\u{2588}\u{2588}\u{2588}\u{2588}\u{2588}\u{2588}\u{2588}\u{2588}        \n";

const UNSUPPORTED: &str = "Unsupported distro for artwork display";

const STRIP: &str = "\x1b[91m\u{2588}\x1b[92m\u{2588}\x1b[93m\u{2588}\x1b[94m\u{2588}\x1b[95m\u{2588}\x1b[96m\u{2588}\x1b[97m\u{2588}\x1b[91m\u{2588}\x1b[92m\u{2588}\x1b[93m\u{2588}\x1b[94m\u{2588}\x1b[95m\u{2588}\x1b[96m\u{2588}\x1b[97m\u{2588}\x1b[0m";

const GIB: f64 = 1024.0 * 1024.0 * 1024.0;

fn gib(bytes: u64) -> String {
    format!("{:.2}", bytes as f64 / GIB)
}

fn amount(used: u64, total: u64) -> Amount {
    Amount { used: gib(used), total: gib(total) }
}

fn volume(mount_point: &str, used: u64, total: u64) -> Volume {
    Volume { mount_point: mount_point.to_string(), amount: amount(used, total) }
}

fn summary(os: &str) -> Summary {
    Summary {
        user: "ada".to_string(),
        hostname: "engine".to_string(),
        os: os.to_string(),
        kernel: "6.5.0-21-generic".to_string(),
        architecture: "x86_64".to_string(),
        cpu: "AMD Ryzen 7 5800X 8-Core Processor".to_string(),
        cores: 16,
        gpu: "NVIDIA GeForce RTX 3060".to_string(),
        memory: amount(6_442_450_944, 34_359_738_368),
        swap: amount(0, 2_147_483_648),
        uptime: "5h 3m 20s".to_string(),
        resolution: "2560x1440".to_string(),
        desktop_environment: "GNOME".to_string(),
        window_manager: "Wayland".to_string(),
        window_manager_theme: "Adwaita".to_string(),
        gtk_theme: "Yaru-dark".to_string(),
        icon_theme: "Yaru".to_string(),
        terminal: "truecolor".to_string(),
        terminal_font: "Ubuntu Mono 13".to_string(),
        system_font: "Ubuntu 11".to_string(),
        disks: vec![
            volume("/", 53_687_091_200, 107_374_182_400),
            volume("/home", 1_610_612_736, 1_099_511_627_776),
        ],
        local_ip: "192.168.1.20".to_string(),
        battery: "85% [discharging]".to_string(),
        locale: "en_US.UTF-8".to_string(),
        packages: vec![("dpkg".to_string(), 2150), ("snap".to_string(), 12)],
    }
}

fn empty_summary() -> Summary {
    Summary {
        user: String::new(),
        hostname: String::new(),
        os: String::new(),
        kernel: String::new(),
        architecture: String::new(),
        cpu: String::new(),
        cores: 0,
        gpu: String::new(),
        memory: amount(0, 0),
        swap: amount(0, 0),
        uptime: String::new(),
        resolution: String::new(),
        desktop_environment: String::new(),
        window_manager: String::new(),
        window_manager_theme: String::new(),
        gtk_theme: String::new(),
        icon_theme: String::new(),
        terminal: String::new(),
        terminal_font: String::new(),
        system_font: String::new(),
        disks: Vec::new(),
        local_ip: String::new(),
        battery: String::new(),
        locale: String::new(),
        packages: Vec::new(),
    }
}

const OPENING: &str = "User: ada@engine\nOS: Zorin OS 17\nKernel: 6.5.0-21-generic\nArchitecture: x86_64\nCPU: AMD Ryzen 7 5800X 8-Core Processor (16 cores)\nGPU: NVIDIA GeForce RTX 3060\nMemory: 6.00GiB / 32.00GiB\nSwap: 0.00GiB / 2.00GiB\nUptime: 5h 3m 20s\nResolution: 2560x1440\nDE: GNOME\nWM: Wayland\nWM Theme: Adwaita\nTheme: Yaru-dark\nIcons: Yaru\nTerminal: truecolor\nTerminal Font: Ubuntu Mono 13\nSystem Font: Ubuntu 11\n";

const DISKS: &str = "Disk (/): 50.00GiB / 100.00GiB\nDisk (/home): 1.50GiB / 1024.00GiB\n";

const CLOSING: &str = "Local IP: 192.168.1.20\nBattery: 85% [discharging]\nLocale: en_US.UTF-8\n";

const PACKAGES: &str = "Dpkg: 2150 packages\nSnap: 12 packages\n";

#[test]
fn logo_of_zorin_is_its_artwork() {
    assert_eq!(get_distro_logo("Zorin OS 17.1"), LOGO);
    assert_eq!(get_distro_logo("Zorin"), LOGO);
    assert_eq!(get_distro_logo("the Zorin"), LOGO);
}

#[test]
fn logo_has_ten_rows_after_an_empty_line() {
    let logo = get_distro_logo("Zorin");
    let rows: Vec<&str> = logo.split('\n').collect();
    assert_eq!(rows.len(), 12);
    assert_eq!(rows[0], "");
    assert_eq!(rows[11], "");
    let widths: Vec<usize> = rows[1..11].iter().map(|r| r.matches('\u{2588}').count()).collect();
    assert_eq!(widths, vec![10, 16, 20, 24, 24, 24, 24, 20, 16, 10]);
    let lengths: Vec<usize> = rows[1..11].iter().map(|r| r.chars().count()).collect();
    assert_eq!(lengths, vec![26, 24, 24, 24, 24, 24, 24, 24, 24, 26]);
}

#[test]
fn logo_of_another_distribution_is_unsupported() {
    assert_eq!(get_distro_logo("Ubuntu 22.04"), UNSUPPORTED);
    assert_eq!(get_distro_logo("zorin"), UNSUPPORTED);
    assert_eq!(get_distro_logo("ZORIN"), UNSUPPORTED);
    assert_eq!(get_distro_logo(""), UNSUPPORTED);
}

#[test]
fn artwork_is_supported_for_zorin_alone() {
    assert!(supports_artwork("Zorin OS 17"));
    assert!(!supports_artwork("Zori"));
    assert!(!supports_artwork("Debian GNU/Linux 12"));
}

#[test]
fn strip_has_fourteen_cells_in_seven_colours() {
    assert_eq!(get_color_strip(), STRIP);
    assert_eq!(get_color_strip().matches('\u{2588}').count(), 14);
    assert_eq!(get_strip_line(), format!("{}\n", STRIP));
}

#[test]
fn lines_end_with_a_line_feed() {
    assert_eq!(get_line("OS: ", "Debian"), "OS: Debian\n");
    assert_eq!(get_line("", ""), "\n");
}

#[test]
fn amounts_show_use_then_size() {
    assert_eq!(get_amount(&amount(1_073_741_824, 8_589_934_592)), "1.00GiB / 8.00GiB");
    assert_eq!(get_amount(&amount(0, 0)), "0.00GiB / 0.00GiB");
    assert_eq!(get_amount(&Amount { used: String::new(), total: String::new() }), "GiB / GiB");
}

#[test]
fn count_lines_name_the_manager() {
    assert_eq!(get_count_line("Dpkg", 2150), "Dpkg: 2150 packages\n");
    assert_eq!(get_count_line("", 0), ": 0 packages\n");
    assert_eq!(get_count_line("x", u64::MAX), "x: 18446744073709551615 packages\n");
}

#[test]
fn opening_has_eighteen_lines() {
    assert_eq!(get_opening(&summary("Zorin OS 17")), OPENING);
    assert_eq!(get_opening(&summary("Zorin OS 17")).lines().count(), 18);
}

#[test]
fn volume_lines_name_the_mount_point() {
    assert_eq!(get_volume_line(&volume("/", 0, 1_073_741_824)), "Disk (/): 0.00GiB / 1.00GiB\n");
    assert_eq!(get_volume_lines(&summary("x").disks), DISKS);
    assert_eq!(get_volume_lines(&Vec::new()), "");
}

#[test]
fn closing_has_three_lines() {
    assert_eq!(get_closing(&summary("x")), CLOSING);
}

#[test]
fn package_lines_capitalize_the_manager() {
    assert_eq!(get_package_lines(&summary("x").packages), PACKAGES);
    assert_eq!(get_package_lines(&Vec::new()), "");
    assert_eq!(get_package_lines(&vec![(String::new(), 1)]), ": 1 packages\n");
}

#[test]
fn plain_report_puts_the_disks_before_the_network() {
    let expected = format!("{}{}{}{}{}\n", OPENING, DISKS, CLOSING, PACKAGES, STRIP);
    assert_eq!(get_plain_report(&summary("Zorin OS 17")), expected);
    assert_eq!(get_report(&summary("Zorin OS 17"), false), expected);
}

#[test]
fn artwork_report_puts_the_disks_after_the_locale() {
    let expected = format!("{}\n{}{}{}{}\n{}\n", LOGO, OPENING, CLOSING, DISKS, PACKAGES, STRIP);
    assert_eq!(get_artwork_report(&summary("Zorin OS 17")), expected);
    assert_eq!(get_report(&summary("Zorin OS 17"), true), expected);
}

#[test]
fn report_without_artwork_is_plain_whatever_is_asked() {
    let given = summary("Ubuntu 22.04.4 LTS");
    let opening = OPENING.replace("Zorin OS 17", "Ubuntu 22.04.4 LTS");
    let expected = format!("{}{}{}{}{}\n", opening, DISKS, CLOSING, PACKAGES, STRIP);
    assert_eq!(get_report(&given, true), expected);
    assert_eq!(get_report(&given, false), expected);
}

#[test]
fn report_of_an_empty_summary_has_every_line() {
    let expected = format!(
        "User: @\nOS: \nKernel: \nArchitecture: \nCPU:  (0 cores)\nGPU: \nMemory: 0.00GiB / 0.00GiB\nSwap: 0.00GiB / 0.00GiB\nUptime: \nResolution: \nDE: \nWM: \nWM Theme: \nTheme: \nIcons: \nTerminal: \nTerminal Font: \nSystem Font: \nLocal IP: \nBattery: \nLocale: \n{}\n",
        STRIP
    );
    assert_eq!(get_report(&empty_summary(), false), expected);
    assert_eq!(get_report(&empty_summary(), true), expected);
}

#[test]
fn report_shows_as_many_cores_as_there_are() {
    let mut given = empty_summary();
    given.cores = usize::MAX;
    let text = get_opening(&given);
    assert!(text.contains(&format!("CPU:  ({} cores)\n", usize::MAX)));
}
