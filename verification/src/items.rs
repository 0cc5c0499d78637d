//! Splitting a configuration text into its items.
//!
//! A configuration text is read line by line. The item of a line is its
//! first run of characters that are not white space; whatever follows it on
//! the line is commentary. Lines without such a run hold no item.

use vstd::prelude::*;
use crate::text::chars_of;

verus! {

/// Whether `c` is white space in the sense of Unicode (the characters with
/// the property `White_Space`).
pub open spec fn is_space(c: char) -> bool {
    ||| '\u{9}' <= c <= '\u{d}'
    ||| c == ' '
    ||| c == '\u{85}'
    ||| c == '\u{a0}'
    ||| c == '\u{1680}'
    ||| '\u{2000}' <= c <= '\u{200a}'
    ||| c == '\u{2028}'
    ||| c == '\u{2029}'
    ||| c == '\u{202f}'
    ||| c == '\u{205f}'
    ||| c == '\u{3000}'
}

/// The number of characters of `s` before its first line feed, or its
/// length where it holds none.
pub open spec fn line_len(s: Seq<char>) -> int
    decreases s.len(),
{
    if s.len() == 0 || s[0] == '\n' {
        0
    } else {
        1 + line_len(s.skip(1))
    }
}

/// The number of white-space characters that `s` starts with.
pub open spec fn blank_len(s: Seq<char>) -> int
    decreases s.len(),
{
    if s.len() == 0 || !is_space(s[0]) {
        0
    } else {
        1 + blank_len(s.skip(1))
    }
}

/// The number of characters other than white space that `s` starts with.
pub open spec fn word_len(s: Seq<char>) -> int
    decreases s.len(),
{
    if s.len() == 0 || is_space(s[0]) {
        0
    } else {
        1 + word_len(s.skip(1))
    }
}

/// The first run of characters other than white space in `line`, if there
/// is one.
pub open spec fn first_word(line: Seq<char>) -> Option<Seq<char>> {
    let rest = line.skip(blank_len(line));
    if rest.len() == 0 {
        None
    } else {
        Some(rest.take(word_len(rest)))
    }
}

/// The items of a configuration text: the first word of each of its lines
/// that has one, in order. Lines end at line feeds; a carriage return
/// before the line feed is white space like any other.
pub open spec fn config_items(text: Seq<char>) -> Seq<Seq<char>>
    decreases text.len(),
{
    if text.len() == 0 {
        Seq::empty()
    } else {
        let n = line_len(text);
        let rest = if 0 <= n < text.len() {
            config_items(text.skip(n + 1))
        } else {
            Seq::empty()
        };
        match first_word(text.take(n)) {
            Some(word) => seq![word] + rest,
            None => rest,
        }
    }
}

/// Whether `c` is white space.
pub fn is_whitespace(c: char) -> (r: bool)
    ensures
        r == is_space(c),
{
    ('\u{9}' <= c && c <= '\u{d}') || c == ' ' || c == '\u{85}' || c == '\u{a0}' || c
        == '\u{1680}' || ('\u{2000}' <= c && c <= '\u{200a}') || c == '\u{2028}' || c
        == '\u{2029}' || c == '\u{202f}' || c == '\u{205f}' || c == '\u{3000}'
}

/// A line is no longer than the text it starts.
pub proof fn lemma_line_len_bounds(s: Seq<char>)
    ensures
        0 <= line_len(s) <= s.len(),
        line_len(s) < s.len() ==> s[line_len(s)] == '\n',
        forall|i: int| 0 <= i < line_len(s) ==> s[i] != '\n',
    decreases s.len(),
{
    if s.len() == 0 || s[0] == '\n' {
    } else {
        let t = s.skip(1);
        lemma_line_len_bounds(t);
        assert forall|i: int| 0 <= i < line_len(s) implies s[i] != '\n' by {
            if i > 0 {
                assert(t[i - 1] == s[i]);
            }
        }
    }
}

/// The leading white space of a text is a prefix of it, and ends at a
/// character that is none.
pub proof fn lemma_blank_len_bounds(s: Seq<char>)
    ensures
        0 <= blank_len(s) <= s.len(),
        blank_len(s) < s.len() ==> !is_space(s[blank_len(s)]),
        forall|i: int| 0 <= i < blank_len(s) ==> is_space(s[i]),
    decreases s.len(),
{
    if s.len() == 0 || !is_space(s[0]) {
    } else {
        let t = s.skip(1);
        lemma_blank_len_bounds(t);
        assert forall|i: int| 0 <= i < blank_len(s) implies is_space(s[i]) by {
            if i > 0 {
                assert(t[i - 1] == s[i]);
            }
        }
    }
}

/// The leading word of a text is a prefix of it, holds no white space, and
/// ends at white space.
pub proof fn lemma_word_len_bounds(s: Seq<char>)
    ensures
        0 <= word_len(s) <= s.len(),
        word_len(s) < s.len() ==> is_space(s[word_len(s)]),
        forall|i: int| 0 <= i < word_len(s) ==> !is_space(s[i]),
    decreases s.len(),
{
    if s.len() == 0 || is_space(s[0]) {
    } else {
        let t = s.skip(1);
        lemma_word_len_bounds(t);
        assert forall|i: int| 0 <= i < word_len(s) implies !is_space(s[i]) by {
            if i > 0 {
                assert(t[i - 1] == s[i]);
            }
        }
    }
}

/// Every item is a word: it is not empty and holds no white space.
pub proof fn lemma_items_are_words(text: Seq<char>, k: int)
    requires
        0 <= k < config_items(text).len(),
    ensures
        config_items(text)[k].len() > 0,
        forall|i: int| 0 <= i < config_items(text)[k].len() ==> !is_space(config_items(text)[k][i]),
    decreases text.len(),
{
    let n = line_len(text);
    lemma_line_len_bounds(text);
    let line = text.take(n);
    lemma_blank_len_bounds(line);
    let tail = line.skip(blank_len(line));
    lemma_word_len_bounds(tail);
    if first_word(line) is Some && k == 0 {
    } else if n < text.len() {
        let shift: int = if first_word(line) is Some {
            1
        } else {
            0
        };
        lemma_items_are_words(text.skip(n + 1), k - shift);
    }
}

/// The position at which the line that starts at `from` ends.
fn line_end(chars: &Vec<char>, from: usize) -> (end: usize)
    requires
        from <= chars.len(),
    ensures
        from <= end <= chars.len(),
        end - from == line_len(chars@.skip(from as int)),
{
    let mut i: usize = from;
    while i < chars.len() && chars[i] != '\n'
        invariant
            from <= i <= chars.len(),
            line_len(chars@.skip(from as int)) == (i - from) + line_len(chars@.skip(i as int)),
        decreases chars.len() - i,
    {
        assert(chars@.skip(i as int).skip(1) =~= chars@.skip(i + 1));
        i += 1;
    }
    i
}

/// The position of the first character at or after `from` and before `to`
/// that is no white space, or `to`.
fn blank_end(chars: &Vec<char>, from: usize, to: usize) -> (end: usize)
    requires
        from <= to <= chars.len(),
    ensures
        from <= end <= to,
        end - from == blank_len(chars@.subrange(from as int, to as int)),
{
    let mut i: usize = from;
    while i < to && is_whitespace(chars[i])
        invariant
            from <= i <= to <= chars.len(),
            blank_len(chars@.subrange(from as int, to as int)) == (i - from) + blank_len(
                chars@.subrange(i as int, to as int),
            ),
        decreases to - i,
    {
        assert(chars@.subrange(i as int, to as int).skip(1) =~= chars@.subrange(
            i + 1,
            to as int,
        ));
        i += 1;
    }
    i
}

/// The position of the first white-space character at or after `from` and
/// before `to`, or `to`.
fn word_end(chars: &Vec<char>, from: usize, to: usize) -> (end: usize)
    requires
        from <= to <= chars.len(),
    ensures
        from <= end <= to,
        end - from == word_len(chars@.subrange(from as int, to as int)),
{
    let mut i: usize = from;
    while i < to && !is_whitespace(chars[i])
        invariant
            from <= i <= to <= chars.len(),
            word_len(chars@.subrange(from as int, to as int)) == (i - from) + word_len(
                chars@.subrange(i as int, to as int),
            ),
        decreases to - i,
    {
        assert(chars@.subrange(i as int, to as int).skip(1) =~= chars@.subrange(
            i + 1,
            to as int,
        ));
        i += 1;
    }
    i
}

/// Splits a configuration text into its items.
pub fn split_items<'a>(text: &'a str) -> (items: Vec<&'a str>)
    ensures
        items@.len() == config_items(text@).len(),
        forall|k: int| 0 <= k < items@.len() ==> (#[trigger] items@[k])@ == config_items(text@)[k],
{
    let chars = chars_of(text);
    let mut items: Vec<&'a str> = Vec::new();
    let ghost mut done: Seq<Seq<char>> = Seq::empty();
    let mut pos: usize = 0;
    proof {
        assert(chars@.skip(0) =~= chars@);
        assert(done + config_items(chars@) =~= config_items(chars@));
    }
    while pos < chars.len()
        invariant
            pos <= chars.len(),
            chars@ == text@,
            items@.len() == done.len(),
            forall|k: int| 0 <= k < items@.len() ==> (#[trigger] items@[k])@ == done[k],
            done + config_items(chars@.skip(pos as int)) == config_items(chars@),
        decreases chars.len() - pos,
    {
        let ghost here = chars@.skip(pos as int);
        let end = line_end(&chars, pos);
        let ghost line = here.take(end - pos);
        assert(line =~= chars@.subrange(pos as int, end as int));
        let start = blank_end(&chars, pos, end);
        let ghost found: Seq<Seq<char>>;
        if start < end {
            let stop = word_end(&chars, start, end);
            let word = text.substring_char(start, stop);
            proof {
                let tail = line.skip(blank_len(line));
                assert(tail =~= chars@.subrange(start as int, end as int));
                assert(word@ =~= tail.take(word_len(tail)));
                found = seq![word@];
            }
            items.push(word);
        } else {
            proof {
                found = Seq::empty();
            }
        }
        proof {
            let rest = if end < chars.len() {
                config_items(here.skip(end - pos + 1))
            } else {
                Seq::empty()
            };
            assert(config_items(here) == found + rest);
            if end < chars.len() {
                assert(here.skip(end - pos + 1) =~= chars@.skip(end + 1));
            } else {
                assert(config_items(chars@.skip(chars@.len() as int)) =~= Seq::empty());
            }
            assert((done + found) + rest =~= done + (found + rest));
            done = done + found;
        }
        pos = if end < chars.len() {
            end + 1
        } else {
            end
        };
    }
    proof {
        assert(config_items(chars@.skip(pos as int)) =~= Seq::empty());
        assert(done + Seq::<Seq<char>>::empty() =~= done);
    }
    items
}

} // verus!
