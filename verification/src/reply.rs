//! What a host answers to one request: a text, or nothing where the request
//! could not be served.

use vstd::prelude::*;
use crate::scan;
use crate::text;

verus! {

/// The text of the reply, where there is one.
pub open spec fn text_of(reply: Option<&str>) -> Option<Seq<char>> {
    match reply {
        Some(s) => Some(s@),
        None => None,
    }
}

/// What stands for a fact that could not be found.
pub open spec fn unknown() -> Seq<char> {
    "Unknown"@
}

/// The reply, or `unknown()` in its place.
pub open spec fn or_unknown(reply: Option<Seq<char>>) -> Seq<char> {
    match reply {
        Some(s) => s,
        None => unknown(),
    }
}

/// Whether the reply holds anything but white space. A tool that printed
/// nothing else has failed as much as one that could not be run.
pub open spec fn says_something(reply: Option<Seq<char>>) -> bool {
    match reply {
        Some(printed) => text::trim(printed).len() > 0,
        None => false,
    }
}

/// The characters of the reply, where there is one.
pub fn chars_of_reply(reply: Option<&str>) -> (r: Option<Vec<char>>)
    ensures
        match r {
            Some(v) => text_of(reply) == Some(v@),
            None => text_of(reply) is None,
        },
{
    match reply {
        Some(s) => Some(scan::chars_of(s)),
        None => None,
    }
}

/// The reply, or "Unknown" in its place.
pub fn get_or_unknown(reply: Option<&str>) -> (r: String)
    ensures
        r@ == or_unknown(text_of(reply)),
{
    match reply {
        Some(s) => s.to_owned(),
        None => "Unknown".to_owned(),
    }
}

/// Whether the reply holds anything but white space.
pub fn reply_says_something(reply: Option<&str>) -> (b: bool)
    ensures
        b == says_something(text_of(reply)),
{
    match chars_of_reply(reply) {
        Some(printed) => scan::trim(printed.as_slice()).len() > 0,
        None => false,
    }
}

} // verus!
