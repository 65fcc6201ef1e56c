//! The format of a word list, as functions on sequences of characters.

use crate::text::{is_white_space, lowercase};
use vstd::prelude::*;

verus! {

/// The part of `text` before its first line feed; all of it where it has none.
pub open spec fn first_line(text: Seq<char>) -> Seq<char>
    decreases text.len(),
{
    if text.len() == 0 || text.first() == '\n' {
        Seq::empty()
    } else {
        seq![text.first()] + first_line(text.drop_first())
    }
}

/// The lines of `text`: the stretches between its line feeds, in order.
/// The empty text has one line, which is empty, and a text that ends with a
/// line feed has an empty last line.
pub open spec fn lines(text: Seq<char>) -> Seq<Seq<char>>
    decreases text.len(),
{
    let head = first_line(text);
    if head.len() < text.len() {
        seq![head] + lines(text.skip((head.len() + 1) as int))
    } else {
        seq![head]
    }
}

/// The text that has the given lines: one after the other, a line feed
/// between each and the next.
pub open spec fn joined(lines: Seq<Seq<char>>) -> Seq<char>
    decreases lines.len(),
{
    if lines.len() == 0 {
        Seq::empty()
    } else if lines.len() == 1 {
        lines.first()
    } else {
        lines.first() + seq!['\n'] + joined(lines.drop_first())
    }
}

/// `line` without the white space it starts with.
pub open spec fn trim_start(line: Seq<char>) -> Seq<char>
    decreases line.len(),
{
    if line.len() > 0 && is_white_space(line.first()) {
        trim_start(line.drop_first())
    } else {
        line
    }
}

/// `line` without the white space it ends with.
pub open spec fn trim_end(line: Seq<char>) -> Seq<char>
    decreases line.len(),
{
    if line.len() > 0 && is_white_space(line.last()) {
        trim_end(line.drop_last())
    } else {
        line
    }
}

/// `line` without the white space on either side.
pub open spec fn trim(line: Seq<char>) -> Seq<char> {
    trim_end(trim_start(line))
}

/// What a line holds: the line trimmed and, where `lowered` is set, turned
/// to lower case.
pub open spec fn entry(line: Seq<char>, lowered: bool) -> Seq<char> {
    if lowered {
        lowercase(trim(line))
    } else {
        trim(line)
    }
}

/// The words that the given lines hold: the entry of each line, in the order
/// of the lines, the empty entries left out.
pub open spec fn entries(lines: Seq<Seq<char>>, lowered: bool) -> Seq<Seq<char>> {
    lines.map_values(|line: Seq<char>| entry(line, lowered)).filter(
        |word: Seq<char>| word.len() > 0,
    )
}

/// The words of a word list: its lines, trimmed, without the blank ones.
pub open spec fn word_list(text: Seq<char>) -> Seq<Seq<char>> {
    entries(lines(text), false)
}

/// The words of a word list in lower case.
pub open spec fn lowered_word_list(text: Seq<char>) -> Seq<Seq<char>> {
    entries(lines(text), true)
}

} // verus!
