//! The operating system's name.

use vstd::prelude::*;
use crate::reading::{first_in_reply, read_first_in_reply, Reader};
use crate::reply::{get_or_unknown, or_unknown, text_of};
use crate::scan;

verus! {

/// The name of the platform on which the system's own name is looked for.
pub open spec fn linux_platform() -> Seq<char> {
    "linux"@
}

/// What stands for the name of a Linux system that gives none.
pub open spec fn linux() -> Seq<char> {
    "Linux"@
}

/// The name that the file of the release gives the system; `linux()` where
/// the file gives none or cannot be read.
pub open spec fn os_release_name(os_release: Option<Seq<char>>) -> Seq<char> {
    match first_in_reply(Reader::PrettyName, os_release) {
        Some(name) => name,
        None => linux(),
    }
}

/// The name of a system on another platform: the platform, a space, and the
/// version, or `unknown()` in place of a version that cannot be had.
pub open spec fn other_os_info(platform: Seq<char>, version: Option<Seq<char>>) -> Seq<char> {
    platform + " "@ + or_unknown(version)
}

/// The name of the operating system. On Linux it is the name that the
/// system reports; failing that, the name in the file of its release. On
/// another platform it is made of the platform and the version.
pub open spec fn os_info(
    platform: Seq<char>,
    name: Option<Seq<char>>,
    os_release: Option<Seq<char>>,
    version: Option<Seq<char>>,
) -> Seq<char> {
    if platform == linux_platform() {
        match name {
            Some(n) => n,
            None => os_release_name(os_release),
        }
    } else {
        other_os_info(platform, version)
    }
}

/// Whether `platform` is Linux.
pub fn is_linux(platform: &str) -> (b: bool)
    ensures
        b == (platform@ == linux_platform()),
{
    let given = scan::chars_of(platform);
    let linux = scan::chars_of("linux");
    scan::equal(given.as_slice(), linux.as_slice())
}

/// The name that the file of the release gives the system.
pub fn get_os_release_name(os_release: Option<&str>) -> (r: String)
    ensures
        r@ == os_release_name(text_of(os_release)),
{
    match read_first_in_reply(Reader::PrettyName, os_release) {
        Some(name) => name,
        None => "Linux".to_owned(),
    }
}

/// The name of a system on another platform than Linux.
pub fn get_other_os_info(platform: &str, version: Option<&str>) -> (r: String)
    ensures
        r@ == other_os_info(platform@, text_of(version)),
{
    let tail = get_or_unknown(version);
    platform.to_owned().concat(" ").concat(tail.as_str())
}

/// The name of the operating system, from the platform, the name that the
/// system reports, the file of its release and its version.
pub fn get_os_info(
    platform: &str,
    name: Option<&str>,
    os_release: Option<&str>,
    version: Option<&str>,
) -> (r: String)
    ensures
        r@ == os_info(platform@, text_of(name), text_of(os_release), text_of(version)),
{
    if is_linux(platform) {
        match name {
            Some(n) => n.to_owned(),
            None => get_os_release_name(os_release),
        }
    } else {
        get_other_os_info(platform, version)
    }
}

} // verus!
