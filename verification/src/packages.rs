//! The number of packages that each package manager has installed.

use vstd::prelude::*;
use crate::reply::{chars_of_reply, text_of};
use crate::scan;
use crate::text;

verus! {

/// The package managers that are asked, in the order in which they are
/// asked and reported.
#[derive(Clone, Copy, Debug, PartialEq, Eq, Structural)]
pub enum Manager {
    Dpkg,
    Apt,
    Rpm,
    Pacman,
    Dnf,
    Snap,
    Flatpak,
}

/// The number of package managers.
pub const MANAGERS: usize = 7;

/// The package manager number `i`.
pub open spec fn manager(i: int) -> Manager {
    if i == 0 {
        Manager::Dpkg
    } else if i == 1 {
        Manager::Apt
    } else if i == 2 {
        Manager::Rpm
    } else if i == 3 {
        Manager::Pacman
    } else if i == 4 {
        Manager::Dnf
    } else if i == 5 {
        Manager::Snap
    } else {
        Manager::Flatpak
    }
}

/// The name of the package manager.
pub open spec fn manager_name(manager: Manager) -> Seq<char> {
    match manager {
        Manager::Dpkg => "dpkg"@,
        Manager::Apt => "apt"@,
        Manager::Rpm => "rpm"@,
        Manager::Pacman => "pacman"@,
        Manager::Dnf => "dnf"@,
        Manager::Snap => "snap"@,
        Manager::Flatpak => "flatpak"@,
    }
}

/// The line of shell that counts the packages of the package manager: it
/// prints one line for each and counts the lines.
pub open spec fn count_script(manager: Manager) -> Seq<char> {
    match manager {
        Manager::Dpkg => "dpkg-query -f '.\n' -W 2>/dev/null | wc -l"@,
        Manager::Apt => "apt list --installed 2>/dev/null | wc -l"@,
        Manager::Rpm => "rpm -qa 2>/dev/null | wc -l"@,
        Manager::Pacman => "pacman -Q 2>/dev/null | wc -l"@,
        Manager::Dnf => "dnf list installed 2>/dev/null | wc -l"@,
        Manager::Snap => "snap list 2>/dev/null | wc -l"@,
        Manager::Flatpak => "flatpak list 2>/dev/null | wc -l"@,
    }
}

/// The number that a count printed: the reply, trimmed, read as a decimal
/// number, where that gives a number above zero.
pub open spec fn package_count(reply: Option<Seq<char>>) -> Option<u64> {
    match reply {
        Some(printed) => match text::parse_u64(text::trim(printed)) {
            Some(n) => if n > 0 {
                Some(n)
            } else {
                None
            },
            None => None,
        },
        None => None,
    }
}

/// The reply number `i` of `replies`; none where there are not so many.
pub open spec fn reply_at(replies: Seq<Option<Seq<char>>>, i: int) -> Option<Seq<char>> {
    if 0 <= i < replies.len() {
        replies[i]
    } else {
        None
    }
}

/// The first `n` package managers that have packages installed, each with
/// their number, where reply number `i` is what the count of package manager
/// number `i` printed.
pub open spec fn installed(replies: Seq<Option<Seq<char>>>, n: nat) -> Seq<(Seq<char>, u64)>
    decreases n,
{
    if n == 0 {
        Seq::empty()
    } else {
        match package_count(reply_at(replies, n - 1)) {
            Some(count) => installed(replies, (n - 1) as nat).push(
                (manager_name(manager(n - 1)), count),
            ),
            None => installed(replies, (n - 1) as nat),
        }
    }
}

/// The package managers that have packages installed, each with their
/// number.
pub open spec fn package_manager_info(replies: Seq<Option<Seq<char>>>) -> Seq<(Seq<char>, u64)> {
    installed(replies, MANAGERS as nat)
}

/// The texts of the replies.
pub open spec fn reply_texts(replies: Seq<Option<String>>) -> Seq<Option<Seq<char>>> {
    replies.map_values(
        |r: Option<String>|
            match r {
                Some(s) => Some(s@),
                None => None,
            },
    )
}

/// The entries as values of specifications.
pub open spec fn entry_views(entries: Seq<(String, u64)>) -> Seq<(Seq<char>, u64)> {
    entries.map_values(|e: (String, u64)| (e.0@, e.1))
}

/// The package manager number `i`.
pub fn get_manager(i: usize) -> (r: Manager)
    ensures
        r == manager(i as int),
{
    if i == 0 {
        Manager::Dpkg
    } else if i == 1 {
        Manager::Apt
    } else if i == 2 {
        Manager::Rpm
    } else if i == 3 {
        Manager::Pacman
    } else if i == 4 {
        Manager::Dnf
    } else if i == 5 {
        Manager::Snap
    } else {
        Manager::Flatpak
    }
}

/// The name of the package manager.
pub fn get_manager_name(manager: Manager) -> (r: String)
    ensures
        r@ == manager_name(manager),
{
    match manager {
        Manager::Dpkg => "dpkg".to_owned(),
        Manager::Apt => "apt".to_owned(),
        Manager::Rpm => "rpm".to_owned(),
        Manager::Pacman => "pacman".to_owned(),
        Manager::Dnf => "dnf".to_owned(),
        Manager::Snap => "snap".to_owned(),
        Manager::Flatpak => "flatpak".to_owned(),
    }
}

/// The line of shell that counts the packages of the package manager.
pub fn get_count_script(manager: Manager) -> (r: String)
    ensures
        r@ == count_script(manager),
{
    match manager {
        Manager::Dpkg => "dpkg-query -f '.\n' -W 2>/dev/null | wc -l".to_owned(),
        Manager::Apt => "apt list --installed 2>/dev/null | wc -l".to_owned(),
        Manager::Rpm => "rpm -qa 2>/dev/null | wc -l".to_owned(),
        Manager::Pacman => "pacman -Q 2>/dev/null | wc -l".to_owned(),
        Manager::Dnf => "dnf list installed 2>/dev/null | wc -l".to_owned(),
        Manager::Snap => "snap list 2>/dev/null | wc -l".to_owned(),
        Manager::Flatpak => "flatpak list 2>/dev/null | wc -l".to_owned(),
    }
}

/// The number that a count printed.
pub fn get_package_count(reply: Option<&str>) -> (r: Option<u64>)
    ensures
        r == package_count(text_of(reply)),
{
    match chars_of_reply(reply) {
        Some(printed) => match scan::parse_u64(scan::trim(printed.as_slice())) {
            Some(n) => if n > 0 {
                Some(n)
            } else {
                None
            },
            None => None,
        },
        None => None,
    }
}

/// The package managers that have packages installed, each with their
/// number, where reply number `i` is what the count of package manager
/// number `i` printed.
pub fn get_package_manager_info(replies: &Vec<Option<String>>) -> (r: Vec<(String, u64)>)
    ensures
        entry_views(r@) == package_manager_info(reply_texts(replies@)),
{
    let mut out: Vec<(String, u64)> = Vec::new();
    let mut i: usize = 0;
    assert(entry_views(out@) =~= Seq::<(Seq<char>, u64)>::empty());
    while i < MANAGERS
        invariant
            i <= MANAGERS,
            entry_views(out@) == installed(reply_texts(replies@), i as nat),
        decreases MANAGERS - i,
    {
        let ghost before = entry_views(out@);
        let reply: Option<&str> = if i < replies.len() {
            assert(reply_texts(replies@)[i as int] == match replies@[i as int] {
                Some(s) => Some(s@),
                None => None,
            });
            match &replies[i] {
                Some(s) => Some(s.as_str()),
                None => None,
            }
        } else {
            None
        };
        assert(text_of(reply) == reply_at(reply_texts(replies@), i as int));
        if let Some(count) = get_package_count(reply) {
            let name = get_manager_name(get_manager(i));
            out.push((name, count));
            assert(entry_views(out@) =~= before.push((manager_name(manager(i as int)), count)));
        }
        i += 1;
    }
    out
}

} // verus!
