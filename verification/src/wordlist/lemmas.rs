//! What holds of the word-list format.

use super::format::{
    entries, entry, first_line, joined, lines, lowered_word_list, trim, trim_end, trim_start,
    word_list,
};
use crate::text::is_white_space;
use vstd::prelude::*;

verus! {

/// The first line of a text is its longest start without a line feed.
pub proof fn lemma_first_line(text: Seq<char>)
    ensures
        first_line(text).len() <= text.len(),
        first_line(text) == text.take(first_line(text).len() as int),
        !first_line(text).contains('\n'),
        first_line(text).len() < text.len() ==> text[first_line(text).len() as int] == '\n',
    decreases text.len(),
{
    let head = first_line(text);
    if text.len() == 0 || text.first() == '\n' {
        assert(text.take(0) =~= head);
    } else {
        let rest = text.drop_first();
        lemma_first_line(rest);
        let tail = first_line(rest);
        assert(text.take(head.len() as int) =~= seq![text.first()] + rest.take(tail.len() as int));
        assert forall|k: int| 0 <= k < head.len() implies head[k] != '\n' by {
            if k > 0 {
                assert(tail.contains(tail[k - 1]) ==> tail[k - 1] != '\n');
                assert(tail[k - 1] == head[k]);
            }
        }
    }
}

/// A text without a line feed is one line.
pub proof fn lemma_one_line(text: Seq<char>)
    requires
        !text.contains('\n'),
    ensures
        lines(text) == seq![text],
{
    lemma_first_line(text);
    let head = first_line(text);
    if head.len() < text.len() {
        assert(text.contains(text[head.len() as int]));
    }
    assert(text.take(text.len() as int) =~= text);
}

/// A line feed between two texts parts their lines: those of the first text
/// come first, those of the second follow, and none runs across.
pub proof fn lemma_lines_split(before: Seq<char>, after: Seq<char>)
    ensures
        lines(before + seq!['\n'] + after) == lines(before) + lines(after),
    decreases before.len(),
{
    let text = before + seq!['\n'] + after;
    lemma_first_line(before);
    let head = first_line(before);
    let end = head.len() as int;
    assert(first_line(text) == head) by {
        assert forall|k: int| 0 <= k < end implies text[k] != '\n' by {
            assert(head.contains(head[k]) ==> head[k] != '\n');
            assert(text[k] == head[k]);
        }
        lemma_first_line_ends_at(text, end);
        assert(text.take(end) =~= before.take(end));
    }
    if end < before.len() {
        let rest = before.skip(end + 1);
        lemma_lines_split(rest, after);
        assert(text.skip(end + 1) =~= rest + seq!['\n'] + after);
        assert(seq![head] + (lines(rest) + lines(after)) =~= (seq![head] + lines(rest)) + lines(
            after,
        ));
    } else {
        assert(text.skip(end + 1) =~= after);
    }
}

/// A text has at least one line, and it is its lines joined.
pub proof fn lemma_joined_lines(text: Seq<char>)
    ensures
        lines(text).len() > 0,
        joined(lines(text)) == text,
    decreases text.len(),
{
    lemma_first_line(text);
    let head = first_line(text);
    let end = head.len() as int;
    if end < text.len() {
        let rest = text.skip(end + 1);
        lemma_joined_lines(rest);
        let all = seq![head] + lines(rest);
        assert(all.drop_first() =~= lines(rest));
        assert(head + seq!['\n'] + rest =~= text);
    } else {
        assert(text.take(end) =~= text);
    }
}

/// Lines joined to a text are the lines of that text, as long as there is
/// one at least and none holds a line feed.
pub proof fn lemma_lines_of_joined(list: Seq<Seq<char>>)
    requires
        list.len() > 0,
        forall|at: int| 0 <= at < list.len() ==> !(#[trigger] list[at]).contains('\n'),
    ensures
        lines(joined(list)) == list,
    decreases list.len(),
{
    lemma_one_line(list.first());
    if list.len() == 1 {
        assert(seq![list.first()] =~= list);
    } else {
        let rest = list.drop_first();
        assert forall|at: int| 0 <= at < rest.len() implies !(#[trigger] rest[at]).contains(
            '\n',
        ) by {
            assert(rest[at] == list[at + 1]);
        }
        lemma_lines_of_joined(rest);
        lemma_lines_split(list.first(), joined(rest));
        assert(seq![list.first()] + rest =~= list);
    }
}

/// Reading a list discards exactly the blank lines: of lines joined to a
/// text, none with a line feed in it, the words are the lines themselves,
/// trimmed, in their order, without those of which nothing is left.
pub proof fn lemma_words_of_joined(list: Seq<Seq<char>>)
    requires
        forall|at: int| 0 <= at < list.len() ==> !(#[trigger] list[at]).contains('\n'),
    ensures
        word_list(joined(list)) == entries(list, false),
        list.len() > 0 ==> lowered_word_list(joined(list)) == entries(list, true),
{
    if list.len() > 0 {
        lemma_lines_of_joined(list);
    } else {
        let none = Seq::<char>::empty();
        assert(!none.contains('\n'));
        lemma_one_line(none);
        lemma_entries_of_one(none, false);
        assert(entries(list, false) =~= Seq::<Seq<char>>::empty()) by {
            reveal_with_fuel(Seq::filter, 1);
        }
    }
}

/// The words of lines put one after the other are the words of the first
/// lines, then those of the others.
pub proof fn lemma_entries_concat(first: Seq<Seq<char>>, second: Seq<Seq<char>>, lowered: bool)
    ensures
        entries(first + second, lowered) == entries(first, lowered) + entries(second, lowered),
{
    let held = |line: Seq<char>| entry(line, lowered);
    let filled = |word: Seq<char>| word.len() > 0;
    assert((first + second).map_values(held) =~= first.map_values(held) + second.map_values(held));
    Seq::filter_distributes_over_add(first.map_values(held), second.map_values(held), filled);
    assert(entries(first + second, lowered) == (first + second).map_values(held).filter(filled));
    assert(entries(first, lowered) == first.map_values(held).filter(filled));
    assert(entries(second, lowered) == second.map_values(held).filter(filled));
}

/// One line holds one word, what is left of it once trimmed, or none where
/// nothing is left.
pub proof fn lemma_entries_of_one(line: Seq<char>, lowered: bool)
    ensures
        entries(seq![line], lowered) == if entry(line, lowered).len() > 0 {
            seq![entry(line, lowered)]
        } else {
            Seq::<Seq<char>>::empty()
        },
{
    let none = Seq::<Seq<char>>::empty();
    lemma_entries_push(none, line, lowered);
    assert(none.push(line) =~= seq![line]);
    assert(entries(none, lowered) =~= none) by {
        reveal_with_fuel(Seq::filter, 1);
    }
    assert(none.push(entry(line, lowered)) =~= seq![entry(line, lowered)]);
}

/// The words of a word list are those of the text before any one of its
/// line feeds, then those of the text after it.
pub proof fn lemma_word_list_split(before: Seq<char>, after: Seq<char>)
    ensures
        word_list(before + seq!['\n'] + after) == word_list(before) + word_list(after),
        lowered_word_list(before + seq!['\n'] + after) == lowered_word_list(before)
            + lowered_word_list(after),
{
    lemma_lines_split(before, after);
    lemma_entries_concat(lines(before), lines(after), false);
    lemma_entries_concat(lines(before), lines(after), true);
}

/// A line of white space alone, or an empty one, adds no word to a list.
pub proof fn lemma_blank_line_adds_nothing(before: Seq<char>, blank: Seq<char>, after: Seq<char>)
    requires
        !blank.contains('\n'),
        trim(blank).len() == 0,
    ensures
        word_list(before + seq!['\n'] + blank + seq!['\n'] + after) == word_list(
            before + seq!['\n'] + after,
        ),
{
    lemma_word_list_split(before + seq!['\n'] + blank, after);
    lemma_word_list_split(before, blank);
    lemma_word_list_split(before, after);
    lemma_one_line(blank);
    lemma_entries_of_one(blank, false);
    assert(word_list(before) + Seq::<Seq<char>>::empty() =~= word_list(before));
}

/// What is left of a line once trimmed is a stretch of the line that
/// neither starts nor ends with white space, and all that the line holds
/// before and after it is white space.
pub proof fn lemma_trim(line: Seq<char>)
    ensures
        trim(line).len() > 0 ==> !is_white_space(trim(line).first()) && !is_white_space(
            trim(line).last(),
        ),
        exists|from: int, to: int|
            0 <= from <= to <= line.len() && #[trigger] line.subrange(from, to) == trim(line) && (
            forall|k: int| 0 <= k < from || to <= k < line.len() ==> is_white_space(line[k])),
{
    let from = lemma_trim_start_found(line);
    let rest = line.skip(from);
    let to = lemma_trim_end_found(rest);
    assert(rest.take(to) =~= line.subrange(from, from + to));
    assert forall|k: int| 0 <= k < from || from + to <= k < line.len() implies is_white_space(
        line[k],
    ) by {
        if k >= from + to {
            assert(rest[k - from] == line[k]);
        }
    }
}

/// A line that neither starts nor ends with white space is left as it is.
pub proof fn lemma_trim_keeps_trimmed(line: Seq<char>)
    requires
        line.len() > 0 ==> !is_white_space(line.first()) && !is_white_space(line.last()),
    ensures
        trim(line) == line,
{
}

/// Every word of a word list is a trimmed line of the text: it is not
/// empty, and it neither starts nor ends with white space.
pub proof fn lemma_words_are_trimmed(text: Seq<char>, at: int)
    requires
        0 <= at < word_list(text).len(),
    ensures
        word_list(text)[at].len() > 0,
        !is_white_space(word_list(text)[at].first()),
        !is_white_space(word_list(text)[at].last()),
        exists|line: int|
            0 <= line < lines(text).len() && word_list(text)[at] == trim(
                #[trigger] lines(text)[line],
            ),
{
    let held = |line: Seq<char>| entry(line, false);
    let filled = |word: Seq<char>| word.len() > 0;
    let all = lines(text).map_values(held);
    let word = word_list(text)[at];
    assert(word_list(text) == all.filter(filled));
    all.lemma_filter_pred(filled, at);
    all.lemma_filter_contains_rev(filled, word);
    let line = choose|line: int| 0 <= line < all.len() && all[line] == word;
    assert(word == trim(lines(text)[line]));
    lemma_trim(lines(text)[line]);
}

/// The first line ends where the first line feed stands, or where the text
/// ends.
pub(crate) proof fn lemma_first_line_ends_at(text: Seq<char>, end: int)
    requires
        0 <= end <= text.len(),
        forall|k: int| 0 <= k < end ==> text[k] != '\n',
        end < text.len() ==> text[end] == '\n',
    ensures
        first_line(text) == text.take(end),
{
    lemma_first_line(text);
    let head = first_line(text);
    if head.len() > end {
        assert(head.contains(head[end]));
        assert(head[end] == text[end]);
    }
}

/// The white space that a line starts with ends before its first character
/// that is none.
pub(crate) proof fn lemma_trim_start_at(line: Seq<char>, from: int)
    requires
        0 <= from <= line.len(),
        forall|k: int| 0 <= k < from ==> is_white_space(line[k]),
        from < line.len() ==> !is_white_space(line[from]),
    ensures
        trim_start(line) == line.skip(from),
{
    let found = lemma_trim_start_found(line);
    assert(found == from);
}

/// The white space that a line ends with starts after its last character
/// that is none.
pub(crate) proof fn lemma_trim_end_at(line: Seq<char>, to: int)
    requires
        0 <= to <= line.len(),
        forall|k: int| to <= k < line.len() ==> is_white_space(line[k]),
        to > 0 ==> !is_white_space(line[to - 1]),
    ensures
        trim_end(line) == line.take(to),
{
    let found = lemma_trim_end_found(line);
    assert(found == to);
}

/// One more line adds its entry to the words, unless the entry is empty.
pub(crate) proof fn lemma_entries_push(lines: Seq<Seq<char>>, line: Seq<char>, lowered: bool)
    ensures
        entries(lines.push(line), lowered) == if entry(line, lowered).len() > 0 {
            entries(lines, lowered).push(entry(line, lowered))
        } else {
            entries(lines, lowered)
        },
{
    let held = |line: Seq<char>| entry(line, lowered);
    let filled = |word: Seq<char>| word.len() > 0;
    let all = lines.push(line).map_values(held);
    assert(all =~= lines.map_values(held).push(entry(line, lowered)));
    assert(all.drop_last() =~= lines.map_values(held));
    reveal_with_fuel(Seq::filter, 2);
    assert(entries(lines.push(line), lowered) == all.filter(filled));
    assert(entries(lines, lowered) == lines.map_values(held).filter(filled));
}

/// Where the white space that a line starts with ends.
proof fn lemma_trim_start_found(line: Seq<char>) -> (from: int)
    ensures
        0 <= from <= line.len(),
        forall|k: int| 0 <= k < from ==> is_white_space(line[k]),
        from < line.len() ==> !is_white_space(line[from]),
        trim_start(line) == line.skip(from),
    decreases line.len(),
{
    if line.len() > 0 && is_white_space(line.first()) {
        let from = lemma_trim_start_found(line.drop_first()) + 1;
        assert(line.drop_first().skip(from - 1) =~= line.skip(from));
        assert forall|k: int| 0 <= k < from implies is_white_space(line[k]) by {
            if k > 0 {
                assert(line.drop_first()[k - 1] == line[k]);
            }
        }
        from
    } else {
        assert(line.skip(0) =~= line);
        0
    }
}

/// Where the white space that a line ends with starts.
proof fn lemma_trim_end_found(line: Seq<char>) -> (to: int)
    ensures
        0 <= to <= line.len(),
        forall|k: int| to <= k < line.len() ==> is_white_space(line[k]),
        to > 0 ==> !is_white_space(line[to - 1]),
        trim_end(line) == line.take(to),
    decreases line.len(),
{
    if line.len() > 0 && is_white_space(line.last()) {
        let to = lemma_trim_end_found(line.drop_last());
        assert(line.drop_last().take(to) =~= line.take(to));
        assert forall|k: int| to <= k < line.len() implies is_white_space(line[k]) by {
            if k < line.len() - 1 {
                assert(line.drop_last()[k] == line[k]);
            }
        }
        to
    } else {
        assert(line.take(line.len() as int) =~= line);
        line.len() as int
    }
}

} // verus!
