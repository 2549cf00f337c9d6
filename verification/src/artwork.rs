//! The artwork of the distributions that have one, and the strip of colours
//! that closes the summary.

use vstd::prelude::*;
use crate::scan;
use crate::text;

verus! {

/// `n` times the character `c`.
pub open spec fn repeated(c: char, n: nat) -> Seq<char> {
    Seq::new(n, |i: int| c)
}

/// One row of the artwork: `width` blocks between two margins of `margin`
/// spaces, and a line feed.
pub open spec fn row(margin: nat, width: nat) -> Seq<char> {
    repeated(' ', margin) + repeated('\u{2588}', width) + repeated(' ', margin) + seq!['\n']
}

/// The artwork of Zorin: a line feed, then ten rows.
pub open spec fn zorin_logo() -> Seq<char> {
    seq!['\n'] + row(8, 10) + row(4, 16) + row(2, 20) + row(0, 24) + row(0, 24) + row(0, 24) + row(
        0,
        24,
    ) + row(2, 20) + row(4, 16) + row(8, 10)
}

/// What is said in place of the artwork of a distribution that has none.
pub open spec fn unsupported() -> Seq<char> {
    "Unsupported distro for artwork display"@
}

/// Whether the distribution of that name has an artwork.
pub open spec fn has_artwork(distro_name: Seq<char>) -> bool {
    text::contains(distro_name, "Zorin"@)
}

/// The artwork of the distribution of that name, or `unsupported()`.
pub open spec fn distro_logo(distro_name: Seq<char>) -> Seq<char> {
    if has_artwork(distro_name) {
        zorin_logo()
    } else {
        unsupported()
    }
}

/// The escape sequence that sets the colour of cell `i` of the strip: the
/// seven bright colours, 91 to 97, in turn.
pub open spec fn cell_color(i: nat) -> Seq<char> {
    "\x1b["@ + text::decimal(91 + i % 7) + "m"@
}

/// The first `n` cells of the strip: for each its colour and one block.
pub open spec fn cells(n: nat) -> Seq<char>
    decreases n,
{
    if n == 0 {
        Seq::empty()
    } else {
        cells((n - 1) as nat) + cell_color((n - 1) as nat) + seq!['\u{2588}']
    }
}

/// The strip of colours: fourteen cells, then the escape sequence that
/// resets the colour.
pub open spec fn color_strip() -> Seq<char> {
    cells(14) + "\x1b[0m"@
}

/// Appends `n` times the character `c`.
fn push_repeated(out: &mut Vec<char>, c: char, n: usize)
    ensures
        final(out)@ == old(out)@ + repeated(c, n as nat),
{
    let mut i: usize = 0;
    assert(out@ =~= old(out)@ + repeated(c, 0));
    while i < n
        invariant
            i <= n,
            out@ == old(out)@ + repeated(c, i as nat),
        decreases n - i,
    {
        out.push(c);
        i += 1;
        assert(out@ =~= old(out)@ + repeated(c, i as nat));
    }
}

/// Appends one row of the artwork.
fn push_row(out: &mut Vec<char>, margin: usize, width: usize)
    ensures
        final(out)@ == old(out)@ + row(margin as nat, width as nat),
{
    push_repeated(out, ' ', margin);
    push_repeated(out, '\u{2588}', width);
    push_repeated(out, ' ', margin);
    out.push('\n');
    assert(out@ =~= old(out)@ + row(margin as nat, width as nat));
}

/// Whether the distribution of that name has an artwork.
pub fn supports_artwork(distro_name: &str) -> (b: bool)
    ensures
        b == has_artwork(distro_name@),
{
    let name = scan::chars_of(distro_name);
    let zorin = scan::chars_of("Zorin");
    scan::contains(name.as_slice(), zorin.as_slice())
}

/// The artwork of the distribution of that name, or a sentence that says
/// that it has none.
pub fn get_distro_logo(distro_name: &str) -> (r: String)
    ensures
        r@ == distro_logo(distro_name@),
{
    if !supports_artwork(distro_name) {
        return "Unsupported distro for artwork display".to_owned();
    }
    let mut out: Vec<char> = Vec::new();
    out.push('\n');
    push_row(&mut out, 8, 10);
    push_row(&mut out, 4, 16);
    push_row(&mut out, 2, 20);
    push_row(&mut out, 0, 24);
    push_row(&mut out, 0, 24);
    push_row(&mut out, 0, 24);
    push_row(&mut out, 0, 24);
    push_row(&mut out, 2, 20);
    push_row(&mut out, 4, 16);
    push_row(&mut out, 8, 10);
    assert(out@ =~= zorin_logo());
    scan::string_of(out.as_slice())
}

/// The strip of colours.
pub fn get_color_strip() -> (r: String)
    ensures
        r@ == color_strip(),
{
    let mut out = String::new();
    let mut i: u64 = 0;
    assert(out@ =~= cells(0));
    while i < 14
        invariant
            i <= 14,
            out@ == cells(i as nat),
        decreases 14 - i,
    {
        let number = scan::decimal(91 + i % 7);
        let digits = scan::string_of(number.as_slice());
        out.append("\x1b[");
        out.append(digits.as_str());
        out.append("m");
        out.push('\u{2588}');
        i += 1;
        assert(out@ =~= cells(i as nat));
    }
    out.append("\x1b[0m");
    out
}

} // verus!
