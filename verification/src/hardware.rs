//! The battery, the graphics adapter and the resolution of the screen.

use vstd::prelude::*;
use crate::reading::{
    first_in_reply,
    last_reading,
    read_first_in_reply,
    read_last,
    Reader,
};
use crate::reply::{chars_of_reply, or_unknown, text_of};
use crate::scan;
use crate::text;

verus! {

/// What stands for the battery of a host that cannot be asked for one.
pub open spec fn no_battery() -> Seq<char> {
    "No Battery"@
}

/// What stands for the adapter where none is listed.
pub open spec fn no_gpu() -> Seq<char> {
    "No GPU found"@
}

/// The battery: the charge and, in square brackets, the state, each as the
/// last line that gives it has it, and `unknown()` for one that no line
/// gives; `no_battery()` where there is no report.
pub open spec fn battery_info(report: Option<Seq<char>>) -> Seq<char> {
    match report {
        Some(output) => or_unknown(last_reading(Reader::Percentage, text::lines(output))) + " ["@
            + or_unknown(last_reading(Reader::State, text::lines(output))) + "]"@,
        None => no_battery(),
    }
}

/// The graphics adapter: the first that the listing names; `no_gpu()` where
/// it names none or where there is no listing.
pub open spec fn gpu_info(listing: Option<Seq<char>>) -> Seq<char> {
    match first_in_reply(Reader::Adapter, listing) {
        Some(name) => name,
        None => no_gpu(),
    }
}

/// The resolution: the mode that the screens' settings mark as in use;
/// failing that, the dimensions that the display reports; failing both,
/// `unknown()`.
pub open spec fn resolution(modes: Option<Seq<char>>, display: Option<Seq<char>>) -> Seq<char> {
    match first_in_reply(Reader::ActiveMode, modes) {
        Some(mode) => mode,
        None => or_unknown(first_in_reply(Reader::Dimensions, display)),
    }
}

/// The text of the slice, or "Unknown" where there is none.
fn owned_or_unknown(found: Option<&[char]>) -> (r: String)
    ensures
        r@ == or_unknown(text::view_of(found)),
{
    match found {
        Some(value) => scan::string_of(value),
        None => "Unknown".to_owned(),
    }
}

/// The battery, from what `upower` printed of it.
pub fn get_battery_info(report: Option<&str>) -> (r: String)
    ensures
        r@ == battery_info(text_of(report)),
{
    match chars_of_reply(report) {
        Some(output) => {
            let percentage = owned_or_unknown(read_last(Reader::Percentage, output.as_slice()));
            let state = owned_or_unknown(read_last(Reader::State, output.as_slice()));
            percentage.concat(" [").concat(state.as_str()).concat("]")
        },
        None => "No Battery".to_owned(),
    }
}

/// The graphics adapter, from what `lspci` printed.
pub fn get_gpu_info(listing: Option<&str>) -> (r: String)
    ensures
        r@ == gpu_info(text_of(listing)),
{
    match read_first_in_reply(Reader::Adapter, listing) {
        Some(name) => name,
        None => "No GPU found".to_owned(),
    }
}

/// The resolution, from what `xrandr` and `xdpyinfo` printed.
pub fn get_resolution(modes: Option<&str>, display: Option<&str>) -> (r: String)
    ensures
        r@ == resolution(text_of(modes), text_of(display)),
{
    match read_first_in_reply(Reader::ActiveMode, modes) {
        Some(mode) => mode,
        None => match read_first_in_reply(Reader::Dimensions, display) {
            Some(dimensions) => dimensions,
            None => "Unknown".to_owned(),
        },
    }
}

} // verus!
