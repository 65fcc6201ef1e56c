//! Reading a word list.

use super::format::{entries, entry, first_line, lines, lowered_word_list, trim, word_list};
use super::lemmas::{
    lemma_entries_push, lemma_first_line_ends_at, lemma_trim_end_at, lemma_trim_start_at,
};
use crate::text::{chars_of, is_white_space, is_whitespace, text_of, to_lowercase};
use vstd::prelude::*;

verus! {

/// Where the line that starts at `start` ends: at the next line feed, or at
/// the end of the text.
fn line_end(chars: &Vec<char>, start: usize) -> (end: usize)
    requires
        start <= chars.len(),
    ensures
        start <= end <= chars.len(),
        end < chars.len() ==> chars[end as int] == '\n',
        first_line(chars@.skip(start as int)) == chars@.subrange(start as int, end as int),
{
    let mut end: usize = start;
    while end < chars.len() && chars[end] != '\n'
        invariant
            start <= end <= chars.len(),
            forall|k: int| start <= k < end ==> chars[k] != '\n',
        decreases chars.len() - end,
    {
        end += 1;
    }
    proof {
        let rest = chars@.skip(start as int);
        lemma_first_line_ends_at(rest, end - start);
        assert(rest.take(end - start) =~= chars@.subrange(start as int, end as int));
    }
    end
}

/// The bounds of what is left of the line `start..end` once the white space
/// on both sides is gone.
fn trim_bounds(chars: &Vec<char>, start: usize, end: usize) -> (bounds: (usize, usize))
    requires
        start <= end <= chars.len(),
    ensures
        start <= bounds.0 <= bounds.1 <= end,
        chars@.subrange(bounds.0 as int, bounds.1 as int) == trim(
            chars@.subrange(start as int, end as int),
        ),
{
    let mut from: usize = start;
    while from < end && is_whitespace(chars[from])
        invariant
            start <= from <= end <= chars.len(),
            forall|k: int| start <= k < from ==> is_white_space(chars[k]),
        decreases end - from,
    {
        from += 1;
    }
    let mut to: usize = end;
    while to > from && is_whitespace(chars[to - 1])
        invariant
            from <= to <= end <= chars.len(),
            forall|k: int| to <= k < end ==> is_white_space(chars[k]),
        decreases to - from,
    {
        to -= 1;
    }
    proof {
        let line = chars@.subrange(start as int, end as int);
        lemma_trim_start_at(line, from - start);
        let rest = line.skip(from - start);
        lemma_trim_end_at(rest, to - from);
        assert(rest.take(to - from) =~= chars@.subrange(from as int, to as int));
    }
    (from, to)
}

/// Reads a word list: splits the text at its line feeds, takes the entry of
/// every line, and returns the entries that are not empty, in the order of
/// the text.
fn parse(content: &str, lowered: bool) -> (words: Vec<String>)
    ensures
        words.deep_view() == entries(lines(content@), lowered),
{
    let chars = chars_of(content);
    let mut words: Vec<String> = Vec::new();
    let ghost mut seen: Seq<Seq<char>> = Seq::empty();
    let mut start: usize = 0;
    let mut done = false;
    assert(chars@.skip(0) =~= chars@);
    assert(words.deep_view() =~= Seq::<Seq<char>>::empty());
    assert(entries(seen, lowered) =~= Seq::<Seq<char>>::empty()) by {
        reveal_with_fuel(Seq::filter, 1);
    }
    assert(seen + lines(chars@) =~= lines(chars@));
    while !done
        invariant
            chars@ == content@,
            start <= chars.len(),
            words.deep_view() == entries(seen, lowered),
            lines(chars@) == if done {
                seen
            } else {
                seen + lines(chars@.skip(start as int))
            },
        decreases chars.len() - start + if done { 0int } else { 1int },
    {
        let end = line_end(&chars, start);
        let (from, to) = trim_bounds(&chars, start, end);
        let ghost line = chars@.subrange(start as int, end as int);
        let ghost rest = chars@.skip(start as int);
        let trimmed = text_of(&chars, from, to);
        let word = if lowered {
            to_lowercase(trimmed.as_str())
        } else {
            trimmed
        };
        proof {
            lemma_entries_push(seen, line, lowered);
        }
        if !word.as_str().is_empty() {
            let ghost before = words.deep_view();
            words.push(word);
            assert(words.deep_view() =~= before.push(entry(line, lowered)));
        }
        if end < chars.len() {
            proof {
                assert(rest.skip((line.len() + 1) as int) =~= chars@.skip(end + 1));
                assert(seen + (seq![line] + lines(chars@.skip(end + 1))) =~= seen.push(line)
                    + lines(chars@.skip(end + 1)));
            }
            start = end + 1;
        } else {
            proof {
                assert(seen + seq![line] =~= seen.push(line));
            }
            done = true;
        }
        proof {
            seen = seen.push(line);
        }
    }
    words
}

/// Reads a word list: the lines of the text, each without the white space
/// around it, the blank ones left out, in the order of the text.
pub fn parse_words(content: &str) -> (words: Vec<String>)
    ensures
        words.deep_view() == word_list(content@),
{
    parse(content, false)
}

/// Reads a word list as `parse_words` does, and turns every word to lower
/// case.
pub fn parse_lowered_words(content: &str) -> (words: Vec<String>)
    ensures
        words.deep_view() == lowered_word_list(content@),
{
    parse(content, true)
}

} // verus!
