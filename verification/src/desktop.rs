//! The desktop environment, the window manager, the themes and the fonts.

use vstd::prelude::*;
use crate::case::{capitalize, capitalized, lowercase};
use crate::reading::{first_in_reply, read_first_in_reply, Reader};
use crate::reply::{chars_of_reply, or_unknown, says_something, text_of, unknown};
use crate::scan;
use crate::text;

verus! {

/// The kinds of session that the window manager is told from.
#[derive(Clone, Copy, Debug, PartialEq, Eq, Structural)]
pub enum SessionKind {
    /// A Wayland session, which has no window manager to ask.
    Wayland,
    /// An X11 session, whose window manager can be asked for its name.
    X11,
    /// Any other session.
    Other,
}

/// The families of desktop whose settings can be asked.
#[derive(Clone, Copy, Debug, PartialEq, Eq, Structural)]
pub enum Toolkit {
    /// Settings kept by `gsettings`.
    Gnome,
    /// Settings kept by `kreadconfig5`.
    Kde,
    /// No settings that are known how to ask.
    Other,
}

/// The desktop environment of a session whose name, in lower case, is
/// `session`: the first of the known desktops whose name the session's name
/// holds; `unknown()` for the empty name; any other name with its first
/// character in upper case.
pub open spec fn desktop_name(session: Seq<char>) -> Seq<char> {
    if text::contains(session, "zorin"@) {
        "Zorin"@
    } else if text::contains(session, "gnome"@) {
        "GNOME"@
    } else if text::contains(session, "kde"@) {
        "KDE Plasma"@
    } else if text::contains(session, "xfce"@) {
        "XFCE"@
    } else if text::contains(session, "lxqt"@) {
        "LXQt"@
    } else if text::contains(session, "lxde"@) {
        "LXDE"@
    } else if text::contains(session, "mate"@) {
        "MATE"@
    } else if text::contains(session, "cinnamon"@) {
        "Cinnamon"@
    } else if text::contains(session, "budgie"@) {
        "Budgie"@
    } else if text::contains(session, "pantheon"@) {
        "Pantheon"@
    } else if session.len() == 0 {
        unknown()
    } else {
        capitalized(session)
    }
}

/// The desktop environment, from the name of the session; `unknown()` where
/// the session has no name.
pub open spec fn desktop_environment(session: Option<Seq<char>>) -> Seq<char> {
    match session {
        Some(name) => desktop_name(lowercase(name)),
        None => unknown(),
    }
}

/// The kind of the session whose type, in lower case, is `session_type`.
pub open spec fn session_kind(session_type: Seq<char>) -> SessionKind {
    if session_type == "wayland"@ {
        SessionKind::Wayland
    } else if session_type == "x11"@ {
        SessionKind::X11
    } else {
        SessionKind::Other
    }
}

/// The name of the window manager of an X11 session, from what it reports
/// of itself.
pub open spec fn window_manager_name(report: Option<Seq<char>>) -> Seq<char> {
    or_unknown(first_in_reply(Reader::ManagerName, report))
}

/// The window manager: "Wayland" in a Wayland session; in an X11 session
/// the name that the window manager reports; `unknown()` in any other
/// session, and where the type of the session cannot be had.
pub open spec fn window_manager(session_type: Option<Seq<char>>, report: Option<Seq<char>>) -> Seq<
    char,
> {
    match session_type {
        Some(kind) => match session_kind(lowercase(kind)) {
            SessionKind::Wayland => "Wayland"@,
            SessionKind::X11 => window_manager_name(report),
            SessionKind::Other => unknown(),
        },
        None => unknown(),
    }
}

/// The family that keeps the window manager's theme for the session whose
/// name, in lower case, is `session`.
pub open spec fn theme_toolkit(session: Seq<char>) -> Toolkit {
    if text::contains(session, "gnome"@) || text::contains(session, "zorin"@) {
        Toolkit::Gnome
    } else if text::contains(session, "kde"@) {
        Toolkit::Kde
    } else {
        Toolkit::Other
    }
}

/// The family that keeps the system's font for the session whose name, in
/// lower case, is `session`.
pub open spec fn font_toolkit(session: Seq<char>) -> Toolkit {
    if text::contains(session, "gnome"@) {
        Toolkit::Gnome
    } else if text::contains(session, "kde"@) {
        Toolkit::Kde
    } else {
        Toolkit::Other
    }
}

/// A value as `gsettings` prints it, trimmed and without the single quotes
/// around it.
pub open spec fn unquoted(printed: Seq<char>) -> Seq<char> {
    text::trim_matches(text::trim(printed), '\'')
}

/// A setting that `gsettings` was asked for: what it printed, unquoted;
/// `unknown()` where it printed nothing but white space or gave no reply.
pub open spec fn setting(reply: Option<Seq<char>>) -> Seq<char> {
    match reply {
        Some(printed) => if text::trim(printed).len() > 0 {
            unquoted(printed)
        } else {
            unknown()
        },
        None => unknown(),
    }
}

/// A setting that a tool prints as it is, as `kreadconfig5` does: what it
/// printed, trimmed; `unknown()` where it printed nothing but white space or
/// gave no reply.
pub open spec fn trimmed(reply: Option<Seq<char>>) -> Seq<char> {
    match reply {
        Some(printed) => if text::trim(printed).len() > 0 {
            text::trim(printed)
        } else {
            unknown()
        },
        None => unknown(),
    }
}

/// A tool that printed nothing but white space has told no setting: what is
/// made of its reply is `unknown()`, as of no reply at all.
pub proof fn lemma_blank_reply(reply: Option<Seq<char>>)
    requires
        !says_something(reply),
    ensures
        setting(reply) == unknown(),
        trimmed(reply) == unknown(),
{
}

/// A tool that printed nothing at all has told no setting.
pub proof fn lemma_empty_reply()
    ensures
        setting(Some(Seq::<char>::empty())) == unknown(),
        trimmed(Some(Seq::<char>::empty())) == unknown(),
{
    lemma_blank_reply(Some(Seq::<char>::empty()));
}

/// What is made of the reply of such a tool is never the empty text.
pub proof fn lemma_trimmed_is_not_empty(reply: Option<Seq<char>>)
    ensures
        trimmed(reply).len() > 0,
{
    reveal_strlit("Unknown");
}

/// A setting of the family `toolkit`, from the replies of the two tools.
pub open spec fn toolkit_setting(
    toolkit: Toolkit,
    gnome: Option<Seq<char>>,
    kde: Option<Seq<char>>,
) -> Seq<char> {
    match toolkit {
        Toolkit::Gnome => setting(gnome),
        Toolkit::Kde => trimmed(kde),
        Toolkit::Other => unknown(),
    }
}

/// The theme of the window manager, from the name of the session and the
/// replies of the two tools; `unknown()` where the session has no name.
pub open spec fn window_manager_theme(
    session: Option<Seq<char>>,
    gnome: Option<Seq<char>>,
    kde: Option<Seq<char>>,
) -> Seq<char> {
    match session {
        Some(name) => toolkit_setting(theme_toolkit(lowercase(name)), gnome, kde),
        None => unknown(),
    }
}

/// The system's font, from the name of the session and the replies of the
/// two tools; `unknown()` where the session has no name.
pub open spec fn system_font(
    session: Option<Seq<char>>,
    gnome: Option<Seq<char>>,
    kde: Option<Seq<char>>,
) -> Seq<char> {
    match session {
        Some(name) => toolkit_setting(font_toolkit(lowercase(name)), gnome, kde),
        None => unknown(),
    }
}

/// Whether `session` holds `word`.
fn holds(session: &[char], word: &str) -> (b: bool)
    ensures
        b == text::contains(session@, word@),
{
    let pat = scan::chars_of(word);
    scan::contains(session, pat.as_slice())
}

/// The desktop environment of a session whose name, in lower case, is
/// `session`.
pub fn get_desktop_name(session: &str) -> (r: String)
    ensures
        r@ == desktop_name(session@),
{
    let name = scan::chars_of(session);
    let s = name.as_slice();
    if holds(s, "zorin") {
        "Zorin".to_owned()
    } else if holds(s, "gnome") {
        "GNOME".to_owned()
    } else if holds(s, "kde") {
        "KDE Plasma".to_owned()
    } else if holds(s, "xfce") {
        "XFCE".to_owned()
    } else if holds(s, "lxqt") {
        "LXQt".to_owned()
    } else if holds(s, "lxde") {
        "LXDE".to_owned()
    } else if holds(s, "mate") {
        "MATE".to_owned()
    } else if holds(s, "cinnamon") {
        "Cinnamon".to_owned()
    } else if holds(s, "budgie") {
        "Budgie".to_owned()
    } else if holds(s, "pantheon") {
        "Pantheon".to_owned()
    } else if s.len() == 0 {
        "Unknown".to_owned()
    } else {
        capitalize(session)
    }
}

/// The desktop environment, from the name of the session.
pub fn get_desktop_environment(session: Option<&str>) -> (r: String)
    ensures
        r@ == desktop_environment(text_of(session)),
{
    match session {
        Some(name) => {
            let lowered = name.to_lowercase();
            get_desktop_name(lowered.as_str())
        },
        None => "Unknown".to_owned(),
    }
}

/// The kind of the session whose type, in lower case, is `session_type`.
pub fn get_session_kind(session_type: &str) -> (r: SessionKind)
    ensures
        r == session_kind(session_type@),
{
    let given = scan::chars_of(session_type);
    let wayland = scan::chars_of("wayland");
    let x11 = scan::chars_of("x11");
    if scan::equal(given.as_slice(), wayland.as_slice()) {
        SessionKind::Wayland
    } else if scan::equal(given.as_slice(), x11.as_slice()) {
        SessionKind::X11
    } else {
        SessionKind::Other
    }
}

/// The name of the window manager, from what `wmctrl` printed.
pub fn get_window_manager_name(report: Option<&str>) -> (r: String)
    ensures
        r@ == window_manager_name(text_of(report)),
{
    match read_first_in_reply(Reader::ManagerName, report) {
        Some(name) => name,
        None => "Unknown".to_owned(),
    }
}

/// The window manager, from the type of the session and what `wmctrl`
/// printed.
pub fn get_window_manager(session_type: Option<&str>, report: Option<&str>) -> (r: String)
    ensures
        r@ == window_manager(text_of(session_type), text_of(report)),
{
    match session_type {
        Some(kind) => {
            let lowered = kind.to_lowercase();
            match get_session_kind(lowered.as_str()) {
                SessionKind::Wayland => "Wayland".to_owned(),
                SessionKind::X11 => get_window_manager_name(report),
                SessionKind::Other => "Unknown".to_owned(),
            }
        },
        None => "Unknown".to_owned(),
    }
}

/// The family that keeps the window manager's theme for the session whose
/// name, in lower case, is `session`.
pub fn get_theme_toolkit(session: &str) -> (r: Toolkit)
    ensures
        r == theme_toolkit(session@),
{
    let name = scan::chars_of(session);
    let s = name.as_slice();
    if holds(s, "gnome") || holds(s, "zorin") {
        Toolkit::Gnome
    } else if holds(s, "kde") {
        Toolkit::Kde
    } else {
        Toolkit::Other
    }
}

/// The family that keeps the system's font for the session whose name, in
/// lower case, is `session`.
pub fn get_font_toolkit(session: &str) -> (r: Toolkit)
    ensures
        r == font_toolkit(session@),
{
    let name = scan::chars_of(session);
    let s = name.as_slice();
    if holds(s, "gnome") {
        Toolkit::Gnome
    } else if holds(s, "kde") {
        Toolkit::Kde
    } else {
        Toolkit::Other
    }
}

/// A setting, from what `gsettings` printed.
pub fn get_setting(reply: Option<&str>) -> (r: String)
    ensures
        r@ == setting(text_of(reply)),
{
    match chars_of_reply(reply) {
        Some(printed) => {
            let value = scan::trim(printed.as_slice());
            if value.len() > 0 {
                scan::string_of(scan::trim_matches(value, '\''))
            } else {
                "Unknown".to_owned()
            }
        },
        None => "Unknown".to_owned(),
    }
}

/// A setting, from what a tool printed that prints it as it is.
pub fn get_trimmed(reply: Option<&str>) -> (r: String)
    ensures
        r@ == trimmed(text_of(reply)),
{
    match chars_of_reply(reply) {
        Some(printed) => {
            let value = scan::trim(printed.as_slice());
            if value.len() > 0 {
                scan::string_of(value)
            } else {
                "Unknown".to_owned()
            }
        },
        None => "Unknown".to_owned(),
    }
}

/// A setting of the family `toolkit`, from the replies of the two tools.
pub fn get_toolkit_setting(toolkit: Toolkit, gnome: Option<&str>, kde: Option<&str>) -> (r: String)
    ensures
        r@ == toolkit_setting(toolkit, text_of(gnome), text_of(kde)),
{
    match toolkit {
        Toolkit::Gnome => get_setting(gnome),
        Toolkit::Kde => get_trimmed(kde),
        Toolkit::Other => "Unknown".to_owned(),
    }
}

/// The theme of the window manager, from the name of the session and what
/// `gsettings` and `kreadconfig5` printed.
pub fn get_window_manager_theme(
    session: Option<&str>,
    gnome: Option<&str>,
    kde: Option<&str>,
) -> (r: String)
    ensures
        r@ == window_manager_theme(text_of(session), text_of(gnome), text_of(kde)),
{
    match session {
        Some(name) => {
            let lowered = name.to_lowercase();
            get_toolkit_setting(get_theme_toolkit(lowered.as_str()), gnome, kde)
        },
        None => "Unknown".to_owned(),
    }
}

/// The theme of the widgets, from what `gsettings` printed.
pub fn get_gtk_theme(reply: Option<&str>) -> (r: String)
    ensures
        r@ == setting(text_of(reply)),
{
    get_setting(reply)
}

/// The theme of the icons, from what `gsettings` printed.
pub fn get_icon_theme(reply: Option<&str>) -> (r: String)
    ensures
        r@ == setting(text_of(reply)),
{
    get_setting(reply)
}

/// The system's font, from the name of the session and what `gsettings` and
/// `kreadconfig5` printed.
pub fn get_system_font(session: Option<&str>, gnome: Option<&str>, kde: Option<&str>) -> (r:
    String)
    ensures
        r@ == system_font(text_of(session), text_of(gnome), text_of(kde)),
{
    match session {
        Some(name) => {
            let lowered = name.to_lowercase();
            get_toolkit_setting(get_font_toolkit(lowered.as_str()), gnome, kde)
        },
        None => "Unknown".to_owned(),
    }
}

} // verus!
