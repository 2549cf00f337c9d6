//! The questions that are put to a host, one after another, and what is made
//! of its replies.
//!
//! A fact is found by asking: `first_question` gives the question to begin
//! with, `request` says how a question is put to the host, and `advance`
//! makes of the reply either the answer or the next question. Whoever has
//! the host at hand carries the requests out; nothing here does.

use vstd::prelude::*;
use crate::case::lowercase;
use crate::desktop::{
    desktop_environment,
    font_toolkit,
    get_desktop_environment,
    get_font_toolkit,
    get_session_kind,
    get_setting,
    get_theme_toolkit,
    get_trimmed,
    get_window_manager_name,
    session_kind,
    setting,
    theme_toolkit,
    trimmed,
    window_manager_name,
    SessionKind,
    Toolkit,
};
use crate::hardware::{battery_info, get_battery_info, get_gpu_info, gpu_info};
use crate::packages::{count_script, get_count_script, Manager};
use crate::reading::{first_in_reply, read_first_in_reply, Reader};
use crate::reply::{
    get_or_unknown,
    or_unknown,
    reply_says_something,
    says_something,
    text_of,
    unknown,
};
use crate::system::{
    get_os_release_name,
    get_other_os_info,
    is_linux,
    linux_platform,
    os_release_name,
    other_os_info,
};
use crate::terminal::{
    first_profile,
    get_first_profile,
    get_profile_font,
    profile_font,
};

verus! {

/// What the host knows of itself without a tool or a file.
#[derive(Clone, Copy, Debug, PartialEq, Eq, Structural)]
pub enum Fact {
    /// The platform that the program was built for.
    Platform,
    /// The name of the operating system.
    OsName,
    /// The version of the operating system.
    OsVersion,
    /// The version of the kernel.
    KernelVersion,
    /// The name of the host.
    Hostname,
}

/// What the host is asked to do.
#[derive(Clone, Debug, PartialEq, Eq)]
pub enum Request {
    /// To give the value of a variable of the environment.
    Variable(String),
    /// To run a program, given with its arguments, and give what it
    /// printed.
    Command(Vec<String>),
    /// To give what a file holds.
    File(String),
    /// To give what it knows of itself.
    Fact(Fact),
}

/// A request, as a value of specifications.
pub enum RequestView {
    Variable(Seq<char>),
    Command(Seq<Seq<char>>),
    File(Seq<char>),
    Fact(Fact),
}

/// The facts that are found by asking.
#[derive(Clone, Copy, Debug, PartialEq, Eq, Structural)]
pub enum Probe {
    Os,
    Kernel,
    Hostname,
    Locale,
    Battery,
    Gpu,
    Resolution,
    DesktopEnvironment,
    WindowManager,
    WindowManagerTheme,
    GtkTheme,
    IconTheme,
    Terminal,
    TerminalFont,
    SystemFont,
}

/// A question to the host.
#[derive(Clone, Debug, PartialEq, Eq)]
pub enum Question {
    /// For which platform the program was built.
    Platform,
    /// What the operating system calls itself.
    OsName,
    /// What the file of the release holds.
    OsRelease,
    /// Which version the operating system of this platform has.
    OsVersion(String),
    /// Which version the kernel has.
    Kernel,
    /// What the host is called.
    Hostname,
    /// Which locale is set.
    Locale,
    /// What the power supply reports of the battery.
    Battery,
    /// Which PCI devices there are.
    Gpu,
    /// Which modes the screens have.
    Modes,
    /// What the display reports of itself.
    Display,
    /// What the session is called, for the desktop environment.
    DesktopSession,
    /// Of which type the session is.
    SessionType,
    /// What the window manager reports of itself.
    ManagerName,
    /// What the session is called, for the window manager's theme.
    ThemeSession,
    /// Which theme the window manager of GNOME has.
    GnomeTheme,
    /// Which theme the window manager of KDE has.
    KdeTheme,
    /// Which theme the widgets have.
    GtkTheme,
    /// Which theme the icons have.
    IconTheme,
    /// What the variable `TERMINAL` holds.
    Terminal,
    /// What the variable `COLORTERM` holds.
    Colorterm,
    /// What the variable `TERM` holds.
    Term,
    /// Which fixed-width font the desktop has.
    MonospaceFont,
    /// Which profiles the terminal has.
    Profiles,
    /// Which font this profile of the terminal has.
    ProfileFont(String),
    /// What the session is called, for the system's font.
    FontSession,
    /// Which font GNOME has.
    GnomeFont,
    /// Which font KDE has.
    KdeFont,
}

/// A question, as a value of specifications.
pub enum QuestionView {
    Platform,
    OsName,
    OsRelease,
    OsVersion(Seq<char>),
    Kernel,
    Hostname,
    Locale,
    Battery,
    Gpu,
    Modes,
    Display,
    DesktopSession,
    SessionType,
    ManagerName,
    ThemeSession,
    GnomeTheme,
    KdeTheme,
    GtkTheme,
    IconTheme,
    Terminal,
    Colorterm,
    Term,
    MonospaceFont,
    Profiles,
    ProfileFont(Seq<char>),
    FontSession,
    GnomeFont,
    KdeFont,
}

/// What a reply leads to.
#[derive(Clone, Debug, PartialEq, Eq)]
pub enum Step {
    /// Another question.
    Ask(Question),
    /// The answer.
    Done(String),
}

/// A step, as a value of specifications.
pub enum StepView {
    Ask(QuestionView),
    Done(Seq<char>),
}

/// The texts of the strings.
pub open spec fn texts(words: Seq<String>) -> Seq<Seq<char>> {
    words.map_values(|w: String| w@)
}

/// The texts of the string slices.
pub open spec fn slice_texts(words: Seq<&str>) -> Seq<Seq<char>> {
    words.map_values(|w: &str| w@)
}

impl View for Request {
    type V = RequestView;

    open spec fn view(&self) -> RequestView {
        match self {
            Request::Variable(name) => RequestView::Variable(name@),
            Request::Command(words) => RequestView::Command(texts(words@)),
            Request::File(path) => RequestView::File(path@),
            Request::Fact(fact) => RequestView::Fact(*fact),
        }
    }
}

impl View for Question {
    type V = QuestionView;

    open spec fn view(&self) -> QuestionView {
        match self {
            Question::Platform => QuestionView::Platform,
            Question::OsName => QuestionView::OsName,
            Question::OsRelease => QuestionView::OsRelease,
            Question::OsVersion(platform) => QuestionView::OsVersion(platform@),
            Question::Kernel => QuestionView::Kernel,
            Question::Hostname => QuestionView::Hostname,
            Question::Locale => QuestionView::Locale,
            Question::Battery => QuestionView::Battery,
            Question::Gpu => QuestionView::Gpu,
            Question::Modes => QuestionView::Modes,
            Question::Display => QuestionView::Display,
            Question::DesktopSession => QuestionView::DesktopSession,
            Question::SessionType => QuestionView::SessionType,
            Question::ManagerName => QuestionView::ManagerName,
            Question::ThemeSession => QuestionView::ThemeSession,
            Question::GnomeTheme => QuestionView::GnomeTheme,
            Question::KdeTheme => QuestionView::KdeTheme,
            Question::GtkTheme => QuestionView::GtkTheme,
            Question::IconTheme => QuestionView::IconTheme,
            Question::Terminal => QuestionView::Terminal,
            Question::Colorterm => QuestionView::Colorterm,
            Question::Term => QuestionView::Term,
            Question::MonospaceFont => QuestionView::MonospaceFont,
            Question::Profiles => QuestionView::Profiles,
            Question::ProfileFont(profile) => QuestionView::ProfileFont(profile@),
            Question::FontSession => QuestionView::FontSession,
            Question::GnomeFont => QuestionView::GnomeFont,
            Question::KdeFont => QuestionView::KdeFont,
        }
    }
}

impl View for Step {
    type V = StepView;

    open spec fn view(&self) -> StepView {
        match self {
            Step::Ask(question) => StepView::Ask(question@),
            Step::Done(answer) => StepView::Done(answer@),
        }
    }
}

/// The request for a setting of the desktop: `gsettings get`, the schema
/// and the key.
pub open spec fn gsettings_get(schema: Seq<char>, key: Seq<char>) -> RequestView {
    RequestView::Command(seq!["gsettings"@, "get"@, schema, key])
}

/// The request for a setting of KDE: `kreadconfig5`, the group and the key.
pub open spec fn kreadconfig(group: Seq<char>, key: Seq<char>) -> RequestView {
    RequestView::Command(seq!["kreadconfig5"@, "--group"@, group, "--key"@, key])
}

/// The request for the name of the session.
pub open spec fn session_name() -> RequestView {
    RequestView::Variable("DESKTOP_SESSION"@)
}

/// The question with which the search for a fact begins.
pub open spec fn first(probe: Probe) -> QuestionView {
    match probe {
        Probe::Os => QuestionView::Platform,
        Probe::Kernel => QuestionView::Kernel,
        Probe::Hostname => QuestionView::Hostname,
        Probe::Locale => QuestionView::Locale,
        Probe::Battery => QuestionView::Battery,
        Probe::Gpu => QuestionView::Gpu,
        Probe::Resolution => QuestionView::Modes,
        Probe::DesktopEnvironment => QuestionView::DesktopSession,
        Probe::WindowManager => QuestionView::SessionType,
        Probe::WindowManagerTheme => QuestionView::ThemeSession,
        Probe::GtkTheme => QuestionView::GtkTheme,
        Probe::IconTheme => QuestionView::IconTheme,
        Probe::Terminal => QuestionView::Terminal,
        Probe::TerminalFont => QuestionView::MonospaceFont,
        Probe::SystemFont => QuestionView::FontSession,
    }
}

/// How a question is put to the host.
pub open spec fn request_of(question: QuestionView) -> RequestView {
    match question {
        QuestionView::Platform => RequestView::Fact(Fact::Platform),
        QuestionView::OsName => RequestView::Fact(Fact::OsName),
        QuestionView::OsRelease => RequestView::File("/etc/os-release"@),
        QuestionView::OsVersion(_) => RequestView::Fact(Fact::OsVersion),
        QuestionView::Kernel => RequestView::Fact(Fact::KernelVersion),
        QuestionView::Hostname => RequestView::Fact(Fact::Hostname),
        QuestionView::Locale => RequestView::Variable("LANG"@),
        QuestionView::Battery => RequestView::Command(
            seq!["upower"@, "-i"@, "/org/freedesktop/UPower/devices/battery_BAT0"@],
        ),
        QuestionView::Gpu => RequestView::Command(seq!["lspci"@]),
        QuestionView::Modes => RequestView::Command(seq!["xrandr"@]),
        QuestionView::Display => RequestView::Command(seq!["xdpyinfo"@]),
        QuestionView::DesktopSession => session_name(),
        QuestionView::SessionType => RequestView::Variable("XDG_SESSION_TYPE"@),
        QuestionView::ManagerName => RequestView::Command(seq!["wmctrl"@, "-m"@]),
        QuestionView::ThemeSession => session_name(),
        QuestionView::GnomeTheme => gsettings_get("org.gnome.desktop.wm.preferences"@, "theme"@),
        QuestionView::KdeTheme => kreadconfig("WM"@, "theme"@),
        QuestionView::GtkTheme => gsettings_get("org.gnome.desktop.interface"@, "gtk-theme"@),
        QuestionView::IconTheme => gsettings_get("org.gnome.desktop.interface"@, "icon-theme"@),
        QuestionView::Terminal => RequestView::Variable("TERMINAL"@),
        QuestionView::Colorterm => RequestView::Variable("COLORTERM"@),
        QuestionView::Term => RequestView::Variable("TERM"@),
        QuestionView::MonospaceFont => gsettings_get(
            "org.gnome.desktop.interface"@,
            "monospace-font-name"@,
        ),
        QuestionView::Profiles => RequestView::Command(seq!["konsole"@, "--list-profiles"@]),
        QuestionView::ProfileFont(profile) => RequestView::Command(
            seq!["konsoleprofile"@, "Profile"@, profile, "-p"@, "Font"@],
        ),
        QuestionView::FontSession => session_name(),
        QuestionView::GnomeFont => gsettings_get("org.gnome.desktop.interface"@, "font-name"@),
        QuestionView::KdeFont => kreadconfig("General"@, "font"@),
    }
}

/// The request that counts the packages of a package manager: the shell,
/// with the line that counts them.
pub open spec fn count_request_of(manager: Manager) -> RequestView {
    RequestView::Command(seq!["sh"@, "-c"@, count_script(manager)])
}

/// What the unknown answer is.
pub open spec fn nothing_found() -> StepView {
    StepView::Done(unknown())
}

/// What the reply to a question leads to: the answer, or the question to
/// ask next. A host that does not say for which platform it was built has
/// an operating system that is `unknown()`.
pub open spec fn next(question: QuestionView, reply: Option<Seq<char>>) -> StepView {
    match question {
        QuestionView::Platform => match reply {
            Some(platform) => if platform == linux_platform() {
                StepView::Ask(QuestionView::OsName)
            } else {
                StepView::Ask(QuestionView::OsVersion(platform))
            },
            None => nothing_found(),
        },
        QuestionView::OsName => match reply {
            Some(name) => StepView::Done(name),
            None => StepView::Ask(QuestionView::OsRelease),
        },
        QuestionView::OsRelease => StepView::Done(os_release_name(reply)),
        QuestionView::OsVersion(platform) => StepView::Done(other_os_info(platform, reply)),
        QuestionView::Kernel => StepView::Done(or_unknown(reply)),
        QuestionView::Hostname => StepView::Done(or_unknown(reply)),
        QuestionView::Locale => StepView::Done(or_unknown(reply)),
        QuestionView::Battery => StepView::Done(battery_info(reply)),
        QuestionView::Gpu => StepView::Done(gpu_info(reply)),
        QuestionView::Modes => match first_in_reply(Reader::ActiveMode, reply) {
            Some(mode) => StepView::Done(mode),
            None => StepView::Ask(QuestionView::Display),
        },
        QuestionView::Display => StepView::Done(
            or_unknown(first_in_reply(Reader::Dimensions, reply)),
        ),
        QuestionView::DesktopSession => StepView::Done(desktop_environment(reply)),
        QuestionView::SessionType => match reply {
            Some(kind) => match session_kind(lowercase(kind)) {
                SessionKind::Wayland => StepView::Done("Wayland"@),
                SessionKind::X11 => StepView::Ask(QuestionView::ManagerName),
                SessionKind::Other => nothing_found(),
            },
            None => nothing_found(),
        },
        QuestionView::ManagerName => StepView::Done(window_manager_name(reply)),
        QuestionView::ThemeSession => match reply {
            Some(name) => match theme_toolkit(lowercase(name)) {
                Toolkit::Gnome => StepView::Ask(QuestionView::GnomeTheme),
                Toolkit::Kde => StepView::Ask(QuestionView::KdeTheme),
                Toolkit::Other => nothing_found(),
            },
            None => nothing_found(),
        },
        QuestionView::GnomeTheme => StepView::Done(setting(reply)),
        QuestionView::KdeTheme => StepView::Done(trimmed(reply)),
        QuestionView::GtkTheme => StepView::Done(setting(reply)),
        QuestionView::IconTheme => StepView::Done(setting(reply)),
        QuestionView::Terminal => match reply {
            Some(name) => StepView::Done(name),
            None => StepView::Ask(QuestionView::Colorterm),
        },
        QuestionView::Colorterm => match reply {
            Some(name) => StepView::Done(name),
            None => StepView::Ask(QuestionView::Term),
        },
        QuestionView::Term => StepView::Done(or_unknown(reply)),
        QuestionView::MonospaceFont => if says_something(reply) {
            StepView::Done(setting(reply))
        } else {
            StepView::Ask(QuestionView::Profiles)
        },
        QuestionView::Profiles => match first_profile(reply) {
            Some(profile) => StepView::Ask(QuestionView::ProfileFont(profile)),
            None => nothing_found(),
        },
        QuestionView::ProfileFont(_) => StepView::Done(profile_font(reply)),
        QuestionView::FontSession => match reply {
            Some(name) => match font_toolkit(lowercase(name)) {
                Toolkit::Gnome => StepView::Ask(QuestionView::GnomeFont),
                Toolkit::Kde => StepView::Ask(QuestionView::KdeFont),
                Toolkit::Other => nothing_found(),
            },
            None => nothing_found(),
        },
        QuestionView::GnomeFont => StepView::Done(setting(reply)),
        QuestionView::KdeFont => StepView::Done(trimmed(reply)),
    }
}

/// The number of questions that can still follow `question`.
pub open spec fn depth(question: QuestionView) -> nat {
    match question {
        QuestionView::Platform => 2,
        QuestionView::OsName => 1,
        QuestionView::Modes => 1,
        QuestionView::SessionType => 1,
        QuestionView::ThemeSession => 1,
        QuestionView::Terminal => 2,
        QuestionView::Colorterm => 1,
        QuestionView::MonospaceFont => 2,
        QuestionView::Profiles => 1,
        QuestionView::FontSession => 1,
        _ => 0,
    }
}

/// The question with which the search for a fact begins.
pub fn first_question(probe: Probe) -> (r: Question)
    ensures
        r@ == first(probe),
{
    match probe {
        Probe::Os => Question::Platform,
        Probe::Kernel => Question::Kernel,
        Probe::Hostname => Question::Hostname,
        Probe::Locale => Question::Locale,
        Probe::Battery => Question::Battery,
        Probe::Gpu => Question::Gpu,
        Probe::Resolution => Question::Modes,
        Probe::DesktopEnvironment => Question::DesktopSession,
        Probe::WindowManager => Question::SessionType,
        Probe::WindowManagerTheme => Question::ThemeSession,
        Probe::GtkTheme => Question::GtkTheme,
        Probe::IconTheme => Question::IconTheme,
        Probe::Terminal => Question::Terminal,
        Probe::TerminalFont => Question::MonospaceFont,
        Probe::SystemFont => Question::FontSession,
    }
}

/// The request to run the program `words[0]` with the arguments that follow
/// it.
fn command(words: Vec<&str>) -> (r: Request)
    ensures
        r@ == RequestView::Command(slice_texts(words@)),
{
    let mut owned: Vec<String> = Vec::new();
    let mut i: usize = 0;
    while i < words.len()
        invariant
            i <= words.len(),
            owned@.len() == i,
            forall|j: int| 0 <= j < i ==> (#[trigger] owned@[j])@ == words@[j]@,
        decreases words.len() - i,
    {
        owned.push(words[i].to_owned());
        i += 1;
    }
    assert(texts(owned@) =~= slice_texts(words@));
    Request::Command(owned)
}

/// The request to run a program without arguments.
fn program(name: &str) -> (r: Request)
    ensures
        r@ == RequestView::Command(seq![name@]),
{
    let words = vec![name];
    assert(slice_texts(words@) =~= seq![name@]);
    command(words)
}

/// The request for a setting of the desktop.
fn ask_gsettings(schema: &str, key: &str) -> (r: Request)
    ensures
        r@ == gsettings_get(schema@, key@),
{
    let r = command(vec!["gsettings", "get", schema, key]);
    assert(slice_texts(seq!["gsettings", "get", schema, key]) =~= seq![
        "gsettings"@,
        "get"@,
        schema@,
        key@,
    ]);
    r
}

/// The request for a setting of KDE.
fn ask_kreadconfig(group: &str, key: &str) -> (r: Request)
    ensures
        r@ == kreadconfig(group@, key@),
{
    let r = command(vec!["kreadconfig5", "--group", group, "--key", key]);
    assert(slice_texts(seq!["kreadconfig5", "--group", group, "--key", key]) =~= seq![
        "kreadconfig5"@,
        "--group"@,
        group@,
        "--key"@,
        key@,
    ]);
    r
}

/// The request for the value of a variable of the environment.
fn variable(name: &str) -> (r: Request)
    ensures
        r@ == RequestView::Variable(name@),
{
    Request::Variable(name.to_owned())
}

/// How a question is put to the host.
pub fn request(question: &Question) -> (r: Request)
    ensures
        r@ == request_of(question@),
{
    match question {
        Question::Platform => Request::Fact(Fact::Platform),
        Question::OsName => Request::Fact(Fact::OsName),
        Question::OsRelease => Request::File("/etc/os-release".to_owned()),
        Question::OsVersion(_) => Request::Fact(Fact::OsVersion),
        Question::Kernel => Request::Fact(Fact::KernelVersion),
        Question::Hostname => Request::Fact(Fact::Hostname),
        Question::Locale => variable("LANG"),
        Question::Battery => {
            let r = command(vec!["upower", "-i", "/org/freedesktop/UPower/devices/battery_BAT0"]);
            assert(slice_texts(
                seq!["upower", "-i", "/org/freedesktop/UPower/devices/battery_BAT0"],
            ) =~= seq!["upower"@, "-i"@, "/org/freedesktop/UPower/devices/battery_BAT0"@]);
            r
        },
        Question::Gpu => program("lspci"),
        Question::Modes => program("xrandr"),
        Question::Display => program("xdpyinfo"),
        Question::DesktopSession => variable("DESKTOP_SESSION"),
        Question::SessionType => variable("XDG_SESSION_TYPE"),
        Question::ManagerName => {
            let r = command(vec!["wmctrl", "-m"]);
            assert(slice_texts(seq!["wmctrl", "-m"]) =~= seq!["wmctrl"@, "-m"@]);
            r
        },
        Question::ThemeSession => variable("DESKTOP_SESSION"),
        Question::GnomeTheme => ask_gsettings("org.gnome.desktop.wm.preferences", "theme"),
        Question::KdeTheme => ask_kreadconfig("WM", "theme"),
        Question::GtkTheme => ask_gsettings("org.gnome.desktop.interface", "gtk-theme"),
        Question::IconTheme => ask_gsettings("org.gnome.desktop.interface", "icon-theme"),
        Question::Terminal => variable("TERMINAL"),
        Question::Colorterm => variable("COLORTERM"),
        Question::Term => variable("TERM"),
        Question::MonospaceFont => ask_gsettings(
            "org.gnome.desktop.interface",
            "monospace-font-name",
        ),
        Question::Profiles => {
            let r = command(vec!["konsole", "--list-profiles"]);
            assert(slice_texts(seq!["konsole", "--list-profiles"]) =~= seq![
                "konsole"@,
                "--list-profiles"@,
            ]);
            r
        },
        Question::ProfileFont(profile) => {
            let name = profile.as_str();
            let r = command(vec!["konsoleprofile", "Profile", name, "-p", "Font"]);
            assert(slice_texts(seq!["konsoleprofile", "Profile", name, "-p", "Font"]) =~= seq![
                "konsoleprofile"@,
                "Profile"@,
                profile@,
                "-p"@,
                "Font"@,
            ]);
            r
        },
        Question::FontSession => variable("DESKTOP_SESSION"),
        Question::GnomeFont => ask_gsettings("org.gnome.desktop.interface", "font-name"),
        Question::KdeFont => ask_kreadconfig("General", "font"),
    }
}

/// The request that counts the packages of a package manager.
pub fn count_request(manager: Manager) -> (r: Request)
    ensures
        r@ == count_request_of(manager),
{
    let script = get_count_script(manager);
    let line = script.as_str();
    let r = command(vec!["sh", "-c", line]);
    assert(slice_texts(seq!["sh", "-c", line]) =~= seq!["sh"@, "-c"@, count_script(manager)]);
    r
}

/// The answer that nothing was found.
fn done_unknown() -> (r: Step)
    ensures
        r@ == nothing_found(),
{
    Step::Done("Unknown".to_owned())
}

/// What the session's type, in lower case, leads to in the search for the
/// window manager.
pub fn after_session_kind(kind: SessionKind) -> (r: Step)
    ensures
        r@ == match kind {
            SessionKind::Wayland => StepView::Done("Wayland"@),
            SessionKind::X11 => StepView::Ask(QuestionView::ManagerName),
            SessionKind::Other => nothing_found(),
        },
{
    match kind {
        SessionKind::Wayland => Step::Done("Wayland".to_owned()),
        SessionKind::X11 => Step::Ask(Question::ManagerName),
        SessionKind::Other => done_unknown(),
    }
}

/// What the reply to a question leads to: the answer, or the question to
/// ask next, which fewer questions can follow than the one replied to.
pub fn advance(question: Question, reply: Option<&str>) -> (r: Step)
    ensures
        r@ == next(question@, text_of(reply)),
        r matches Step::Ask(following) ==> depth(following@) < depth(question@),
{
    match question {
        Question::Platform => match reply {
            Some(platform) => if is_linux(platform) {
                Step::Ask(Question::OsName)
            } else {
                Step::Ask(Question::OsVersion(platform.to_owned()))
            },
            None => done_unknown(),
        },
        Question::OsName => match reply {
            Some(name) => Step::Done(name.to_owned()),
            None => Step::Ask(Question::OsRelease),
        },
        Question::OsRelease => Step::Done(get_os_release_name(reply)),
        Question::OsVersion(platform) => Step::Done(get_other_os_info(platform.as_str(), reply)),
        Question::Kernel => Step::Done(get_or_unknown(reply)),
        Question::Hostname => Step::Done(get_or_unknown(reply)),
        Question::Locale => Step::Done(get_or_unknown(reply)),
        Question::Battery => Step::Done(get_battery_info(reply)),
        Question::Gpu => Step::Done(get_gpu_info(reply)),
        Question::Modes => match read_first_in_reply(Reader::ActiveMode, reply) {
            Some(mode) => Step::Done(mode),
            None => Step::Ask(Question::Display),
        },
        Question::Display => match read_first_in_reply(Reader::Dimensions, reply) {
            Some(dimensions) => Step::Done(dimensions),
            None => done_unknown(),
        },
        Question::DesktopSession => Step::Done(get_desktop_environment(reply)),
        Question::SessionType => match reply {
            Some(kind) => {
                let lowered = kind.to_lowercase();
                after_session_kind(get_session_kind(lowered.as_str()))
            },
            None => done_unknown(),
        },
        Question::ManagerName => Step::Done(get_window_manager_name(reply)),
        Question::ThemeSession => match reply {
            Some(name) => {
                let lowered = name.to_lowercase();
                match get_theme_toolkit(lowered.as_str()) {
                    Toolkit::Gnome => Step::Ask(Question::GnomeTheme),
                    Toolkit::Kde => Step::Ask(Question::KdeTheme),
                    Toolkit::Other => done_unknown(),
                }
            },
            None => done_unknown(),
        },
        Question::GnomeTheme => Step::Done(get_setting(reply)),
        Question::KdeTheme => Step::Done(get_trimmed(reply)),
        Question::GtkTheme => Step::Done(get_setting(reply)),
        Question::IconTheme => Step::Done(get_setting(reply)),
        Question::Terminal => match reply {
            Some(name) => Step::Done(name.to_owned()),
            None => Step::Ask(Question::Colorterm),
        },
        Question::Colorterm => match reply {
            Some(name) => Step::Done(name.to_owned()),
            None => Step::Ask(Question::Term),
        },
        Question::Term => Step::Done(get_or_unknown(reply)),
        Question::MonospaceFont => if reply_says_something(reply) {
            Step::Done(get_setting(reply))
        } else {
            Step::Ask(Question::Profiles)
        },
        Question::Profiles => match get_first_profile(reply) {
            Some(profile) => Step::Ask(Question::ProfileFont(profile)),
            None => done_unknown(),
        },
        Question::ProfileFont(_) => Step::Done(get_profile_font(reply)),
        Question::FontSession => match reply {
            Some(name) => {
                let lowered = name.to_lowercase();
                match get_font_toolkit(lowered.as_str()) {
                    Toolkit::Gnome => Step::Ask(Question::GnomeFont),
                    Toolkit::Kde => Step::Ask(Question::KdeFont),
                    Toolkit::Other => done_unknown(),
                }
            },
            None => done_unknown(),
        },
        Question::GnomeFont => Step::Done(get_setting(reply)),
        Question::KdeFont => Step::Done(get_trimmed(reply)),
    }
}

} // verus!
