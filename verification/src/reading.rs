//! What single lines of a tool's output say, and the search of an output
//! for the line that says it.

use vstd::prelude::*;
use vstd::slice::slice_subrange;
use crate::reply::{chars_of_reply, text_of};
use crate::scan;
use crate::text;

verus! {

/// The kinds of line that are looked for.
#[derive(Clone, Copy, Debug, PartialEq, Eq, Structural)]
pub enum Reader {
    /// A graphics adapter in the listing of the PCI devices.
    Adapter,
    /// The charge of a battery.
    Percentage,
    /// The state of a battery.
    State,
    /// The mode of a screen that is in use.
    ActiveMode,
    /// The dimensions of a display.
    Dimensions,
    /// The name of a window manager.
    ManagerName,
    /// The name under which a system presents itself.
    PrettyName,
}

/// What follows the first colon of a line that holds `label`, up to the next
/// colon, trimmed.
pub open spec fn labelled(line: Seq<char>, label: Seq<char>) -> Option<Seq<char>> {
    if text::contains(line, label) {
        match text::field(line, ':', 1) {
            Some(value) => Some(text::trim(value)),
            None => None,
        }
    } else {
        None
    }
}

/// What follows the first colon and space, trimmed, in a line that holds
/// "VGA" or "3D controller".
pub open spec fn adapter(line: Seq<char>) -> Option<Seq<char>> {
    if text::contains(line, "VGA"@) || text::contains(line, "3D controller"@) {
        match text::find(line, ": "@) {
            Some(i) => Some(text::trim(line.skip(i + 2))),
            None => None,
        }
    } else {
        None
    }
}

/// The first word of a line that holds an asterisk.
pub open spec fn active_mode(line: Seq<char>) -> Option<Seq<char>> {
    if text::contains(line, "*"@) {
        text::word(line, 0)
    } else {
        None
    }
}

/// The second word of a line that holds "dimensions:".
pub open spec fn dimensions(line: Seq<char>) -> Option<Seq<char>> {
    if text::contains(line, "dimensions:"@) {
        text::word(line, 1)
    } else {
        None
    }
}

/// What follows "PRETTY_NAME=" at the start of a line, without the double
/// quotes around it.
pub open spec fn pretty_name(line: Seq<char>) -> Option<Seq<char>> {
    if text::starts_with(line, "PRETTY_NAME="@) {
        Some(text::trim_matches(line.skip(12), '"'))
    } else {
        None
    }
}

/// What `line` says to `reader`; nothing where it is not the kind of line
/// that `reader` looks for.
pub open spec fn reading(reader: Reader, line: Seq<char>) -> Option<Seq<char>> {
    match reader {
        Reader::Adapter => adapter(line),
        Reader::Percentage => labelled(line, "percentage:"@),
        Reader::State => labelled(line, "state:"@),
        Reader::ActiveMode => active_mode(line),
        Reader::Dimensions => dimensions(line),
        Reader::ManagerName => labelled(line, "Name:"@),
        Reader::PrettyName => pretty_name(line),
    }
}

/// What the first of `lines` that says anything to `reader` says.
pub open spec fn first_reading(reader: Reader, lines: Seq<Seq<char>>) -> Option<Seq<char>>
    decreases lines.len(),
{
    if lines.len() == 0 {
        None
    } else if reading(reader, lines[0]) is Some {
        reading(reader, lines[0])
    } else {
        first_reading(reader, lines.drop_first())
    }
}

/// What the last of `lines` that says anything to `reader` says.
pub open spec fn last_reading(reader: Reader, lines: Seq<Seq<char>>) -> Option<Seq<char>>
    decreases lines.len(),
{
    if lines.len() == 0 {
        None
    } else if reading(reader, lines.last()) is Some {
        reading(reader, lines.last())
    } else {
        last_reading(reader, lines.drop_last())
    }
}

/// What the first line of the reply that says anything to `reader` says;
/// nothing where there is no reply.
pub open spec fn first_in_reply(reader: Reader, reply: Option<Seq<char>>) -> Option<Seq<char>> {
    match reply {
        Some(output) => first_reading(reader, text::lines(output)),
        None => None,
    }
}

/// A line that holds a label with a colon in it has a second piece between
/// colons: of such a label `labelled` finds a value in exactly the lines that
/// hold the label.
pub proof fn lemma_labelled(line: Seq<char>, label: Seq<char>)
    requires
        exists|p: int| 0 <= p < label.len() && label[p] == ':',
    ensures
        labelled(line, label) is Some <==> text::contains(line, label),
{
    if text::contains(line, label) {
        let i = choose|i: int| text::occurs_at(line, label, i);
        let p = choose|p: int| 0 <= p < label.len() && label[p] == ':';
        assert(line.subrange(i, i + label.len())[p] == line[i + p]);
        text::lemma_index_of_first(line, ':', i + p);
        let n = text::index_of(line, ':');
        assert(text::field(line.skip(n + 1), ':', 0) is Some);
        assert(text::field(line, ':', 1) == text::field(line.skip(n + 1), ':', 0));
    }
}

/// What follows the first colon of a line that holds `label`.
pub fn read_labelled<'a>(line: &'a [char], label: &str) -> (r: Option<&'a [char]>)
    ensures
        text::view_of(r) == labelled(line@, label@),
{
    let pat = scan::chars_of(label);
    if scan::contains(line, pat.as_slice()) {
        match scan::field(line, ':', 1) {
            Some(value) => Some(scan::trim(value)),
            None => None,
        }
    } else {
        None
    }
}

/// The adapter that `line` names.
pub fn read_adapter<'a>(line: &'a [char]) -> (r: Option<&'a [char]>)
    ensures
        text::view_of(r) == adapter(line@),
{
    let vga = scan::chars_of("VGA");
    let controller = scan::chars_of("3D controller");
    let colon = scan::chars_of(": ");
    if scan::contains(line, vga.as_slice()) || scan::contains(line, controller.as_slice()) {
        match scan::find(line, colon.as_slice()) {
            Some(i) => {
                proof {
                    reveal_strlit(": ");
                    text::lemma_find(line@, ": "@);
                }
                let end = line.len();
                let rest = slice_subrange(line, i + 2, end);
                assert(rest@ =~= line@.skip(i + 2));
                Some(scan::trim(rest))
            },
            None => None,
        }
    } else {
        None
    }
}

/// The mode that `line` marks as in use.
pub fn read_active_mode<'a>(line: &'a [char]) -> (r: Option<&'a [char]>)
    ensures
        text::view_of(r) == active_mode(line@),
{
    let star = scan::chars_of("*");
    if scan::contains(line, star.as_slice()) {
        scan::word(line, 0)
    } else {
        None
    }
}

/// The dimensions that `line` gives.
pub fn read_dimensions<'a>(line: &'a [char]) -> (r: Option<&'a [char]>)
    ensures
        text::view_of(r) == dimensions(line@),
{
    let label = scan::chars_of("dimensions:");
    if scan::contains(line, label.as_slice()) {
        scan::word(line, 1)
    } else {
        None
    }
}

/// The name that `line` gives the system.
pub fn read_pretty_name<'a>(line: &'a [char]) -> (r: Option<&'a [char]>)
    ensures
        text::view_of(r) == pretty_name(line@),
{
    let key = scan::chars_of("PRETTY_NAME=");
    if scan::starts_with(line, key.as_slice()) {
        proof {
            reveal_strlit("PRETTY_NAME=");
        }
        let end = line.len();
        let rest = slice_subrange(line, 12, end);
        assert(rest@ =~= line@.skip(12));
        Some(scan::trim_matches(rest, '"'))
    } else {
        None
    }
}

/// What `line` says to `reader`.
pub fn read_line<'a>(reader: Reader, line: &'a [char]) -> (r: Option<&'a [char]>)
    ensures
        text::view_of(r) == reading(reader, line@),
{
    match reader {
        Reader::Adapter => read_adapter(line),
        Reader::Percentage => read_labelled(line, "percentage:"),
        Reader::State => read_labelled(line, "state:"),
        Reader::ActiveMode => read_active_mode(line),
        Reader::Dimensions => read_dimensions(line),
        Reader::ManagerName => read_labelled(line, "Name:"),
        Reader::PrettyName => read_pretty_name(line),
    }
}

/// What the first line of `output` that says anything to `reader` says.
pub fn read_first<'a>(reader: Reader, output: &'a [char]) -> (r: Option<&'a [char]>)
    ensures
        text::view_of(r) == first_reading(reader, text::lines(output@)),
{
    let lines = scan::lines(output);
    let ghost all = text::lines(output@);
    let mut k: usize = 0;
    assert(all.skip(0) =~= all);
    while k < lines.len()
        invariant
            k <= lines.len(),
            all == text::lines(output@),
            text::views(lines@) == all,
            first_reading(reader, all) == first_reading(reader, all.skip(k as int)),
        decreases lines.len() - k,
    {
        assert(all.skip(k as int).drop_first() =~= all.skip(k + 1));
        assert(text::views(lines@)[k as int] == lines@[k as int]@);
        let found = read_line(reader, lines[k]);
        if found.is_some() {
            return found;
        }
        k += 1;
    }
    None
}

/// What the last line of `output` that says anything to `reader` says.
pub fn read_last<'a>(reader: Reader, output: &'a [char]) -> (r: Option<&'a [char]>)
    ensures
        text::view_of(r) == last_reading(reader, text::lines(output@)),
{
    let lines = scan::lines(output);
    let ghost all = text::lines(output@);
    let mut k: usize = lines.len();
    assert(all.take(k as int) =~= all);
    while k > 0
        invariant
            k <= lines.len(),
            all == text::lines(output@),
            text::views(lines@) == all,
            last_reading(reader, all) == last_reading(reader, all.take(k as int)),
        decreases k,
    {
        assert(all.take(k as int).drop_last() =~= all.take(k - 1));
        assert(text::views(lines@)[k - 1] == lines@[k - 1]@);
        let found = read_line(reader, lines[k - 1]);
        if found.is_some() {
            return found;
        }
        k -= 1;
    }
    None
}

/// What the first line of the reply that says anything to `reader` says.
pub fn read_first_in_reply(reader: Reader, reply: Option<&str>) -> (r: Option<String>)
    ensures
        match r {
            Some(found) => first_in_reply(reader, text_of(reply)) == Some(found@),
            None => first_in_reply(reader, text_of(reply)) is None,
        },
{
    match chars_of_reply(reply) {
        Some(output) => match read_first(reader, output.as_slice()) {
            Some(found) => Some(scan::string_of(found)),
            None => None,
        },
        None => None,
    }
}

} // verus!
