use quickfetch::inquiry::{
    advance, after_session_kind, count_request, first_question, request, Fact, Probe, Question,
    Request, Step,
};
use quickfetch::desktop::SessionKind;
use quickfetch::packages::Manager;

/// What a host of the tests is asked: a variable by its name, a command by
/// its words with spaces between them, a file by its path, a fact by name.
fn key(request: &Request) -> String {
    match request {
        Request::Variable(name) => format!("${}", name),
        Request::Command(words) => words.join(" "),
        Request::File(path) => format!("<{}", path),
        Request::Fact(fact) => format!("{:?}", fact),
    }
}

/// Asks question by question, on a host that replies what `replies` pairs
/// with a request, and nothing to any other. Gives the answer and the
/// requests that were made, in their order.
fn ask(probe: Probe, replies: &[(&str, &str)]) -> (String, Vec<String>) {
    let mut asked = Vec::new();
    let mut question = first_question(probe);
    loop {
        let wanted = key(&request(&question));
        let reply = replies.iter().find(|(k, _)| *k == wanted).map(|(_, v)| *v);
        asked.push(wanted);
        assert!(asked.len() <= 3);
        match advance(question, reply) {
            Step::Ask(following) => question = following,
            Step::Done(answer) => return (answer, asked),
        }
    }
}

fn answer(probe: Probe, replies: &[(&str, &str)]) -> String {
    ask(probe, replies).0
}

fn all_probes() -> Vec<Probe> {
    vec![
        Probe::Os,
        Probe::Kernel,
        Probe::Hostname,
        Probe::Locale,
        Probe::Battery,
        Probe::Gpu,
        Probe::Resolution,
        Probe::DesktopEnvironment,
        Probe::WindowManager,
        Probe::WindowManagerTheme,
        Probe::GtkTheme,
        Probe::IconTheme,
        Probe::Terminal,
        Probe::TerminalFont,
        Probe::SystemFont,
    ]
}

#[test]
fn a_silent_host_gives_the_sentinels() {
    for probe in all_probes() {
        let expected = match probe {
            Probe::Battery => "No Battery",
            Probe::Gpu => "No GPU found",
            _ => "Unknown",
        };
        assert_eq!(answer(probe, &[]), expected, "{:?}", probe);
    }
}

#[test]
fn a_host_that_knows_only_its_platform_gives_the_sentinels_of_the_system() {
    assert_eq!(answer(Probe::Os, &[("Platform", "linux")]), "Linux");
    assert_eq!(answer(Probe::Os, &[("Platform", "macos")]), "macos Unknown");
}

#[test]
fn requests_are_put_as_the_tools_expect() {
    let expected = [
        (Question::Platform, "Platform"),
        (Question::OsName, "OsName"),
        (Question::OsRelease, "</etc/os-release"),
        (Question::OsVersion("macos".to_string()), "OsVersion"),
        (Question::Kernel, "KernelVersion"),
        (Question::Hostname, "Hostname"),
        (Question::Locale, "$LANG"),
        (Question::Battery, "upower -i /org/freedesktop/UPower/devices/battery_BAT0"),
        (Question::Gpu, "lspci"),
        (Question::Modes, "xrandr"),
        (Question::Display, "xdpyinfo"),
        (Question::DesktopSession, "$DESKTOP_SESSION"),
        (Question::SessionType, "$XDG_SESSION_TYPE"),
        (Question::ManagerName, "wmctrl -m"),
        (Question::ThemeSession, "$DESKTOP_SESSION"),
        (Question::GnomeTheme, "gsettings get org.gnome.desktop.wm.preferences theme"),
        (Question::KdeTheme, "kreadconfig5 --group WM --key theme"),
        (Question::GtkTheme, "gsettings get org.gnome.desktop.interface gtk-theme"),
        (Question::IconTheme, "gsettings get org.gnome.desktop.interface icon-theme"),
        (Question::Terminal, "$TERMINAL"),
        (Question::Colorterm, "$COLORTERM"),
        (Question::Term, "$TERM"),
        (Question::MonospaceFont, "gsettings get org.gnome.desktop.interface monospace-font-name"),
        (Question::Profiles, "konsole --list-profiles"),
        (Question::ProfileFont("Main".to_string()), "konsoleprofile Profile Main -p Font"),
        (Question::FontSession, "$DESKTOP_SESSION"),
        (Question::GnomeFont, "gsettings get org.gnome.desktop.interface font-name"),
        (Question::KdeFont, "kreadconfig5 --group General --key font"),
    ];
    for (question, wanted) in expected {
        assert_eq!(key(&request(&question)), wanted);
    }
}

#[test]
fn commands_keep_their_words_apart() {
    match request(&Question::ProfileFont("My Profile".to_string())) {
        Request::Command(words) => {
            assert_eq!(words, vec!["konsoleprofile", "Profile", "My Profile", "-p", "Font"]);
        }
        _ => panic!("the font of a profile is asked of a program"),
    }
    match request(&Question::Battery) {
        Request::Command(words) => {
            assert_eq!(
                words,
                vec!["upower", "-i", "/org/freedesktop/UPower/devices/battery_BAT0"]
            );
        }
        _ => panic!("the battery is asked of a program"),
    }
}

#[test]
fn counts_are_asked_of_the_shell() {
    let expected = [
        (Manager::Dpkg, "dpkg-query -f '.\n' -W 2>/dev/null | wc -l"),
        (Manager::Apt, "apt list --installed 2>/dev/null | wc -l"),
        (Manager::Rpm, "rpm -qa 2>/dev/null | wc -l"),
        (Manager::Pacman, "pacman -Q 2>/dev/null | wc -l"),
        (Manager::Dnf, "dnf list installed 2>/dev/null | wc -l"),
        (Manager::Snap, "snap list 2>/dev/null | wc -l"),
        (Manager::Flatpak, "flatpak list 2>/dev/null | wc -l"),
    ];
    for (manager, script) in expected {
        match count_request(manager) {
            Request::Command(words) => assert_eq!(words, vec!["sh", "-c", script]),
            _ => panic!("a count is asked of a program"),
        }
    }
}

#[test]
fn the_system_is_asked_for_its_name_first() {
    let host = [
        ("Platform", "linux"),
        ("OsName", "Ubuntu"),
        ("</etc/os-release", "PRETTY_NAME=\"Ubuntu 22.04.4 LTS\"\n"),
        ("OsVersion", "22.04"),
    ];
    let (found, asked) = ask(Probe::Os, &host);
    assert_eq!(found, "Ubuntu");
    assert_eq!(asked, vec!["Platform", "OsName"]);
}

#[test]
fn the_release_file_is_read_where_the_system_gives_no_name() {
    let host = [("Platform", "linux"), ("</etc/os-release", "ID=x\nPRETTY_NAME=\"Zorin OS 17\"\n")];
    let (found, asked) = ask(Probe::Os, &host);
    assert_eq!(found, "Zorin OS 17");
    assert_eq!(asked, vec!["Platform", "OsName", "</etc/os-release"]);
}

#[test]
fn another_platform_is_asked_for_its_version() {
    let host = [("Platform", "macos"), ("OsName", "Darwin"), ("OsVersion", "14.3")];
    let (found, asked) = ask(Probe::Os, &host);
    assert_eq!(found, "macos 14.3");
    assert_eq!(asked, vec!["Platform", "OsVersion"]);
}

#[test]
fn simple_facts_take_one_request() {
    let host = [
        ("KernelVersion", "6.5.0-21-generic"),
        ("Hostname", "box"),
        ("$LANG", "en_US.UTF-8"),
        ("lspci", "00:02.0 VGA compatible controller: Intel UHD\n"),
        (
            "upower -i /org/freedesktop/UPower/devices/battery_BAT0",
            "  state: charging\n  percentage: 42%\n",
        ),
        ("gsettings get org.gnome.desktop.interface gtk-theme", "'Yaru-dark'\n"),
        ("gsettings get org.gnome.desktop.interface icon-theme", "'Yaru'\n"),
        ("$DESKTOP_SESSION", "ubuntu-GNOME"),
    ];
    assert_eq!(ask(Probe::Kernel, &host), ("6.5.0-21-generic".to_string(), vec!["KernelVersion".to_string()]));
    assert_eq!(answer(Probe::Hostname, &host), "box");
    assert_eq!(answer(Probe::Locale, &host), "en_US.UTF-8");
    assert_eq!(answer(Probe::Gpu, &host), "Intel UHD");
    assert_eq!(answer(Probe::Battery, &host), "42% [charging]");
    assert_eq!(answer(Probe::GtkTheme, &host), "Yaru-dark");
    assert_eq!(answer(Probe::IconTheme, &host), "Yaru");
    assert_eq!(ask(Probe::DesktopEnvironment, &host), ("GNOME".to_string(), vec!["$DESKTOP_SESSION".to_string()]));
}

#[test]
fn the_display_is_asked_only_where_no_mode_is_in_use() {
    let modes = "   1920x1080     60.01*+\n";
    let display = "  dimensions:    1280x720 pixels\n";
    let (found, asked) = ask(Probe::Resolution, &[("xrandr", modes), ("xdpyinfo", display)]);
    assert_eq!(found, "1920x1080");
    assert_eq!(asked, vec!["xrandr"]);
    let (found, asked) = ask(Probe::Resolution, &[("xrandr", "nothing\n"), ("xdpyinfo", display)]);
    assert_eq!(found, "1280x720");
    assert_eq!(asked, vec!["xrandr", "xdpyinfo"]);
    let (found, asked) = ask(Probe::Resolution, &[("xdpyinfo", display)]);
    assert_eq!(found, "1280x720");
    assert_eq!(asked, vec!["xrandr", "xdpyinfo"]);
}

#[test]
fn the_window_manager_is_asked_only_in_x11() {
    let name = ("wmctrl -m", "Name: Mutter\n");
    let (found, asked) = ask(Probe::WindowManager, &[("$XDG_SESSION_TYPE", "wayland"), name]);
    assert_eq!(found, "Wayland");
    assert_eq!(asked, vec!["$XDG_SESSION_TYPE"]);
    let (found, asked) = ask(Probe::WindowManager, &[("$XDG_SESSION_TYPE", "X11"), name]);
    assert_eq!(found, "Mutter");
    assert_eq!(asked, vec!["$XDG_SESSION_TYPE", "wmctrl -m"]);
    let (found, asked) = ask(Probe::WindowManager, &[("$XDG_SESSION_TYPE", "tty"), name]);
    assert_eq!(found, "Unknown");
    assert_eq!(asked, vec!["$XDG_SESSION_TYPE"]);
    let (found, asked) = ask(Probe::WindowManager, &[name]);
    assert_eq!(found, "Unknown");
    assert_eq!(asked, vec!["$XDG_SESSION_TYPE"]);
}

#[test]
fn the_theme_is_asked_of_the_tool_of_the_session() {
    let gnome = ("gsettings get org.gnome.desktop.wm.preferences theme", "'Adwaita'\n");
    let kde = ("kreadconfig5 --group WM --key theme", "Breeze\n");
    let (found, asked) = ask(Probe::WindowManagerTheme, &[("$DESKTOP_SESSION", "zorin"), gnome, kde]);
    assert_eq!(found, "Adwaita");
    assert_eq!(asked, vec!["$DESKTOP_SESSION", gnome.0]);
    let (found, asked) = ask(Probe::WindowManagerTheme, &[("$DESKTOP_SESSION", "KDE"), gnome, kde]);
    assert_eq!(found, "Breeze");
    assert_eq!(asked, vec!["$DESKTOP_SESSION", kde.0]);
    let (found, asked) = ask(Probe::WindowManagerTheme, &[("$DESKTOP_SESSION", "xfce"), gnome, kde]);
    assert_eq!(found, "Unknown");
    assert_eq!(asked, vec!["$DESKTOP_SESSION"]);
    assert_eq!(answer(Probe::WindowManagerTheme, &[("$DESKTOP_SESSION", "gnome")]), "Unknown");
}

#[test]
fn the_font_is_asked_of_the_tool_of_the_session() {
    let gnome = ("gsettings get org.gnome.desktop.interface font-name", "'Cantarell 11'\n");
    let kde = ("kreadconfig5 --group General --key font", "Noto Sans,10\n");
    let (found, asked) = ask(Probe::SystemFont, &[("$DESKTOP_SESSION", "gnome"), gnome, kde]);
    assert_eq!(found, "Cantarell 11");
    assert_eq!(asked, vec!["$DESKTOP_SESSION", gnome.0]);
    let (found, asked) = ask(Probe::SystemFont, &[("$DESKTOP_SESSION", "plasma-kde"), gnome, kde]);
    assert_eq!(found, "Noto Sans,10");
    assert_eq!(asked, vec!["$DESKTOP_SESSION", kde.0]);
    let (found, asked) = ask(Probe::SystemFont, &[("$DESKTOP_SESSION", "zorin"), gnome, kde]);
    assert_eq!(found, "Unknown");
    assert_eq!(asked, vec!["$DESKTOP_SESSION"]);
}

#[test]
fn the_terminal_is_asked_of_three_variables_in_turn() {
    let all = [("$TERMINAL", "kitty"), ("$COLORTERM", "truecolor"), ("$TERM", "xterm")];
    assert_eq!(ask(Probe::Terminal, &all), ("kitty".to_string(), vec!["$TERMINAL".to_string()]));
    let (found, asked) = ask(Probe::Terminal, &all[1..]);
    assert_eq!(found, "truecolor");
    assert_eq!(asked, vec!["$TERMINAL", "$COLORTERM"]);
    let (found, asked) = ask(Probe::Terminal, &all[2..]);
    assert_eq!(found, "xterm");
    assert_eq!(asked, vec!["$TERMINAL", "$COLORTERM", "$TERM"]);
}

#[test]
fn the_terminal_font_is_asked_of_the_desktop_then_of_the_first_profile() {
    let desktop = ("gsettings get org.gnome.desktop.interface monospace-font-name", "'Mono 12'\n");
    let blank = (desktop.0, "\n");
    let profiles = ("konsole --list-profiles", "Main\nOther\n");
    let main = ("konsoleprofile Profile Main -p Font", " Hack,10 \n");
    let other = ("konsoleprofile Profile Other -p Font", "Fira\n");
    let (found, asked) = ask(Probe::TerminalFont, &[desktop, profiles, main, other]);
    assert_eq!(found, "Mono 12");
    assert_eq!(asked, vec![desktop.0]);
    let (found, asked) = ask(Probe::TerminalFont, &[blank, profiles, main, other]);
    assert_eq!(found, "Hack,10");
    assert_eq!(asked, vec![desktop.0, profiles.0, main.0]);
    let (found, asked) = ask(Probe::TerminalFont, &[profiles, other]);
    assert_eq!(found, "Unknown");
    assert_eq!(asked, vec![desktop.0, profiles.0, main.0]);
    let (found, asked) = ask(Probe::TerminalFont, &[("konsole --list-profiles", ""), main]);
    assert_eq!(found, "Unknown");
    assert_eq!(asked, vec![desktop.0, profiles.0]);
}

#[test]
fn a_tool_that_printed_nothing_leaves_the_fact_unknown() {
    let blank = [
        ("gsettings get org.gnome.desktop.interface gtk-theme", ""),
        ("gsettings get org.gnome.desktop.interface icon-theme", "\n"),
        ("$DESKTOP_SESSION", "gnome"),
        ("gsettings get org.gnome.desktop.wm.preferences theme", " \n"),
        ("gsettings get org.gnome.desktop.interface font-name", ""),
    ];
    assert_eq!(answer(Probe::GtkTheme, &blank), "Unknown");
    assert_eq!(answer(Probe::IconTheme, &blank), "Unknown");
    assert_eq!(answer(Probe::WindowManagerTheme, &blank), "Unknown");
    assert_eq!(answer(Probe::SystemFont, &blank), "Unknown");
    let kde = [
        ("$DESKTOP_SESSION", "plasma-kde"),
        ("kreadconfig5 --group WM --key theme", "\n"),
        ("kreadconfig5 --group General --key font", ""),
    ];
    assert_eq!(answer(Probe::WindowManagerTheme, &kde), "Unknown");
    assert_eq!(answer(Probe::SystemFont, &kde), "Unknown");
}

#[test]
fn a_step_after_the_kind_of_session() {
    assert!(matches!(after_session_kind(SessionKind::Wayland), Step::Done(a) if a == "Wayland"));
    assert!(matches!(after_session_kind(SessionKind::X11), Step::Ask(Question::ManagerName)));
    assert!(matches!(after_session_kind(SessionKind::Other), Step::Done(a) if a == "Unknown"));
}

#[test]
fn facts_are_told_apart() {
    assert_ne!(Fact::OsName, Fact::OsVersion);
    assert_eq!(Fact::Platform, Fact::Platform);
}
