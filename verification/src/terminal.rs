//! The terminal and its font.

use vstd::prelude::*;
use crate::desktop::{get_setting, get_trimmed, setting, trimmed};
use crate::reply::{
    chars_of_reply,
    get_or_unknown,
    or_unknown,
    reply_says_something,
    says_something,
    text_of,
    unknown,
};
use crate::scan;
use crate::text;

verus! {

/// The terminal: the first that is set of three variables of the
/// environment; `unknown()` where none is.
pub open spec fn terminal(
    terminal: Option<Seq<char>>,
    colorterm: Option<Seq<char>>,
    term: Option<Seq<char>>,
) -> Seq<char> {
    match terminal {
        Some(name) => name,
        None => match colorterm {
            Some(name) => name,
            None => or_unknown(term),
        },
    }
}

/// The first of the profiles that are listed; nothing where none is listed
/// or where there is no list.
pub open spec fn first_profile(profiles: Option<Seq<char>>) -> Option<Seq<char>> {
    match profiles {
        Some(list) => if text::lines(list).len() > 0 {
            Some(text::lines(list)[0])
        } else {
            None
        },
        None => None,
    }
}

/// The font of a profile, from what was printed of it: the reply, trimmed;
/// `unknown()` where it holds nothing but white space or is missing.
pub open spec fn profile_font(reply: Option<Seq<char>>) -> Seq<char> {
    trimmed(reply)
}

/// The font of the terminal: the fixed-width font of the desktop's
/// settings, where they say anything; failing that, the font of the first
/// profile, where a profile is listed; failing both, `unknown()`.
pub open spec fn terminal_font(
    monospace: Option<Seq<char>>,
    profiles: Option<Seq<char>>,
    font: Option<Seq<char>>,
) -> Seq<char> {
    if says_something(monospace) {
        setting(monospace)
    } else if first_profile(profiles) is Some {
        profile_font(font)
    } else {
        unknown()
    }
}

/// The terminal, from the variables `TERMINAL`, `COLORTERM` and `TERM`.
pub fn get_terminal(terminal: Option<&str>, colorterm: Option<&str>, term: Option<&str>) -> (r:
    String)
    ensures
        r@ == self::terminal(text_of(terminal), text_of(colorterm), text_of(term)),
{
    match terminal {
        Some(name) => name.to_owned(),
        None => match colorterm {
            Some(name) => name.to_owned(),
            None => get_or_unknown(term),
        },
    }
}

/// The first of the profiles that `konsole` listed.
pub fn get_first_profile(profiles: Option<&str>) -> (r: Option<String>)
    ensures
        match r {
            Some(name) => first_profile(text_of(profiles)) == Some(name@),
            None => first_profile(text_of(profiles)) is None,
        },
{
    match chars_of_reply(profiles) {
        Some(list) => {
            let lines = scan::lines(list.as_slice());
            if lines.len() > 0 {
                assert(text::views(lines@)[0] == lines@[0]@);
                Some(scan::string_of(lines[0]))
            } else {
                assert(text::views(lines@).len() == 0);
                None
            }
        },
        None => None,
    }
}

/// The font of a profile, from what `konsoleprofile` printed.
pub fn get_profile_font(reply: Option<&str>) -> (r: String)
    ensures
        r@ == profile_font(text_of(reply)),
{
    get_trimmed(reply)
}

/// The font of the terminal, from what `gsettings` printed, the profiles
/// that `konsole` listed, and what `konsoleprofile` printed of the first.
pub fn get_terminal_font(monospace: Option<&str>, profiles: Option<&str>, font: Option<&str>) -> (r:
    String)
    ensures
        r@ == terminal_font(text_of(monospace), text_of(profiles), text_of(font)),
{
    if reply_says_something(monospace) {
        get_setting(monospace)
    } else if get_first_profile(profiles).is_some() {
        get_profile_font(font)
    } else {
        "Unknown".to_owned()
    }
}

} // verus!
