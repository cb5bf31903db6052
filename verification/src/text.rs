//! Operations on text that the generator's rules are stated with: matching
//! and removing prefixes, and removing one trailing line terminator.

use vstd::prelude::*;
use vstd::string::*;

verus! {

broadcast use vstd::seq::group_seq_axioms;

/// `text` without `prefix` in front: where `text` starts with `prefix`, what
/// follows that one occurrence; else `text` itself. What follows is not
/// looked at again, so a second occurrence stays.
pub open spec fn without_prefix(text: Seq<char>, prefix: Seq<char>) -> Seq<char> {
    if prefix.is_prefix_of(text) {
        text.skip(prefix.len() as int)
    } else {
        text
    }
}

/// The two-character line terminator: carriage return, line feed.
pub open spec fn crlf() -> Seq<char> {
    seq!['\r', '\n']
}

/// The one-character line terminator: line feed.
pub open spec fn lf() -> Seq<char> {
    seq!['\n']
}

/// `text` without one trailing line terminator: the two-character one where
/// `text` ends with it, else the one-character one where `text` ends with
/// that, else `text` itself.
pub open spec fn without_line_end(text: Seq<char>) -> Seq<char> {
    if crlf().is_suffix_of(text) {
        text.take(text.len() - 2)
    } else if lf().is_suffix_of(text) {
        text.take(text.len() - 1)
    } else {
        text
    }
}

/// Whether `pattern` stands in `text` at character position `start`.
pub fn matches_at(text: &str, start: usize, pattern: &str) -> (found: bool)
    requires
        start <= text@.len(),
    ensures
        found == pattern@.is_prefix_of(text@.skip(start as int)),
{
    let n = text.unicode_len();
    let m = pattern.unicode_len();
    if m > n - start {
        return false;
    }
    let ghost rest = text@.skip(start as int);
    let mut i: usize = 0;
    while i < m
        invariant
            i <= m,
            m <= n - start,
            n == text@.len(),
            m == pattern@.len(),
            rest == text@.skip(start as int),
            forall|j: int| 0 <= j < i ==> rest[j] == pattern@[j],
        decreases m - i,
    {
        if text.get_char(start + i) != pattern.get_char(i) {
            assert(rest.subrange(0, m as int)[i as int] != pattern@[i as int]);
            return false;
        }
        i += 1;
    }
    assert(pattern@ =~= rest.subrange(0, m as int));
    true
}

/// Removes `prefix` from the front of `text`, once, where `text` starts
/// with it.
pub fn strip_prefix<'a>(text: &'a str, prefix: &str) -> (rest: &'a str)
    ensures
        rest@ == without_prefix(text@, prefix@),
{
    assert(text@.skip(0) =~= text@);
    if matches_at(text, 0, prefix) {
        text.substring_char(prefix.unicode_len(), text.unicode_len())
    } else {
        text
    }
}

/// Removes one trailing line terminator from `text`, if it has one.
pub fn trim_line_end<'a>(text: &'a str) -> (rest: &'a str)
    ensures
        rest@ == without_line_end(text@),
{
    let n = text.unicode_len();
    if n >= 2 && text.get_char(n - 2) == '\r' && text.get_char(n - 1) == '\n' {
        assert(crlf() =~= text@.subrange(n - 2, n as int));
        return text.substring_char(0, n - 2);
    }
    if n >= 2 {
        assert(text@.subrange(n - 2, n as int)[0] == text@[n - 2]);
        assert(text@.subrange(n - 2, n as int)[1] == text@[n - 1]);
    }
    if n >= 1 && text.get_char(n - 1) == '\n' {
        assert(lf() =~= text@.subrange(n - 1, n as int));
        return text.substring_char(0, n - 1);
    }
    if n >= 1 {
        assert(text@.subrange(n - 1, n as int)[0] == text@[n - 1]);
    }
    text
}

} // verus!

verus! {

/// Removing a prefix leaves a tail of the text: all of it where the text
/// does not start with the prefix, else all but the prefix.
pub proof fn lemma_without_prefix(text: Seq<char>, prefix: Seq<char>)
    ensures
        without_prefix(text, prefix).is_suffix_of(text),
        prefix.is_prefix_of(text) ==> without_prefix(text, prefix).len() == text.len()
            - prefix.len(),
        !prefix.is_prefix_of(text) ==> without_prefix(text, prefix) == text,
        prefix + without_prefix(prefix + text, prefix) == prefix + text,
{
    let left = without_prefix(text, prefix);
    assert(left =~= text.subrange(text.len() - left.len(), text.len() as int));
    assert(prefix =~= (prefix + text).subrange(0, prefix.len() as int));
    assert((prefix + text).skip(prefix.len() as int) =~= text);
}

/// Removing one line terminator removes at most two characters from the end
/// and leaves the rest as it was.
pub proof fn lemma_without_line_end_is_prefix(text: Seq<char>)
    ensures
        without_line_end(text).is_prefix_of(text),
        text.len() - 2 <= without_line_end(text).len() <= text.len(),
        without_line_end(text) == text <==> !lf().is_suffix_of(text),
{
    let rest = without_line_end(text);
    assert(rest =~= text.subrange(0, rest.len() as int));
    if crlf().is_suffix_of(text) {
        assert(text.subrange(text.len() - 2, text.len() as int)[1] == '\n');
        assert(lf() =~= text.subrange(text.len() - 1, text.len() as int));
    }
}

} // verus!

verus! {

/// The texts of a sequence of strings, in order.
pub open spec fn texts(strings: Seq<String>) -> Seq<Seq<char>> {
    Seq::new(strings.len(), |i: int| strings[i]@)
}

/// Copies a list of strings.
pub fn copy_texts(strings: &Vec<String>) -> (copy: Vec<String>)
    ensures
        texts(copy@) == texts(strings@),
{
    let mut copy: Vec<String> = Vec::new();
    let mut i: usize = 0;
    while i < strings.len()
        invariant
            i <= strings.len(),
            copy@.len() == i,
            forall|j: int| 0 <= j < i ==> copy@[j]@ == strings@[j]@,
        decreases strings.len() - i,
    {
        copy.push(strings[i].clone());
        i += 1;
    }
    assert(texts(copy@) =~= texts(strings@));
    copy
}

} // verus!

verus! {

/// The text of an optional string.
pub open spec fn optional_text(string: Option<String>) -> Option<Seq<char>> {
    match string {
        Some(s) => Some(s@),
        None => None,
    }
}

/// The texts of a sequence of optional strings, in order.
pub open spec fn optional_texts(strings: Seq<Option<String>>) -> Seq<Option<Seq<char>>> {
    Seq::new(strings.len(), |i: int| optional_text(strings[i]))
}

/// Whether every entry holds a text.
pub open spec fn all_present(entries: Seq<Option<Seq<char>>>) -> bool {
    forall|i: int| 0 <= i < entries.len() ==> (#[trigger] entries[i]) is Some
}

/// The texts that the entries hold, in order.
pub open spec fn present(entries: Seq<Option<Seq<char>>>) -> Seq<Seq<char>> {
    Seq::new(entries.len(), |i: int| entries[i]->0)
}

/// The strings of a list of optional strings, where every entry holds one;
/// nothing where one is missing.
pub fn require_all(strings: &Vec<Option<String>>) -> (all: Option<Vec<String>>)
    ensures
        match all {
            Some(found) => all_present(optional_texts(strings@)) && texts(found@) == present(
                optional_texts(strings@),
            ),
            None => !all_present(optional_texts(strings@)),
        },
{
    let ghost entries = optional_texts(strings@);
    let mut found: Vec<String> = Vec::new();
    let mut i: usize = 0;
    while i < strings.len()
        invariant
            i <= strings.len(),
            entries == optional_texts(strings@),
            found@.len() == i,
            forall|j: int| 0 <= j < i ==> (#[trigger] entries[j]) is Some,
            forall|j: int| 0 <= j < i ==> found@[j]@ == entries[j]->0,
        decreases strings.len() - i,
    {
        match &strings[i] {
            Some(s) => {
                found.push(s.clone());
            },
            None => {
                assert(entries[i as int] is None);
                return None;
            },
        }
        i += 1;
    }
    assert(texts(found@) =~= present(entries));
    Some(found)
}

} // verus!
