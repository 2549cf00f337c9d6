//! The time that the host has been up.

use vstd::prelude::*;
use crate::scan;
use crate::text;

verus! {

/// The whole hours in `seconds`.
pub open spec fn hours(seconds: nat) -> nat {
    seconds / 3600
}

/// The whole minutes in `seconds` beyond the whole hours.
pub open spec fn minutes(seconds: nat) -> nat {
    (seconds % 3600) / 60
}

/// The seconds in `seconds` beyond the whole minutes.
pub open spec fn odd_seconds(seconds: nat) -> nat {
    seconds % 60
}

/// `seconds` written as hours, minutes and seconds.
pub open spec fn uptime_info(seconds: nat) -> Seq<char> {
    text::decimal(hours(seconds)) + "h "@ + text::decimal(minutes(seconds)) + "m "@
        + text::decimal(odd_seconds(seconds)) + "s"@
}

/// The time that the host has been up, from its length in seconds.
pub fn get_uptime_info(seconds: u64) -> (r: String)
    ensures
        r@ == uptime_info(seconds as nat),
{
    let h = scan::string_of(scan::decimal(seconds / 3600).as_slice());
    let m = scan::string_of(scan::decimal((seconds % 3600) / 60).as_slice());
    let s = scan::string_of(scan::decimal(seconds % 60).as_slice());
    h.concat("h ").concat(m.as_str()).concat("m ").concat(s.as_str()).concat("s")
}

} // verus!
