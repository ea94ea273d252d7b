//! Looking things up inside text: substrings, prefixes, lines and the fields
//! of a delimited line.

use crate::text::{chars_of, views};
use vstd::prelude::*;

verus! {

// ---------------------------------------------------------------------------
// Substrings
// ---------------------------------------------------------------------------
/// Whether `part` occurs in `whole` starting at position `at`.
pub open spec fn occurs_at(whole: Seq<char>, part: Seq<char>, at: int) -> bool {
    0 <= at && at + part.len() <= whole.len() && whole.subrange(at, at + part.len()) == part
}

/// Whether `part` occurs anywhere in `whole`.
pub open spec fn contains(whole: Seq<char>, part: Seq<char>) -> bool {
    exists|at: int| #[trigger] occurs_at(whole, part, at)
}

/// Whether `at` is where `part` first occurs in `whole`.
pub open spec fn first_occurs_at(whole: Seq<char>, part: Seq<char>, at: int) -> bool {
    occurs_at(whole, part, at) && forall|other: int|
        0 <= other < at ==> !#[trigger] occurs_at(whole, part, other)
}

/// What follows the first occurrence of `part` in `whole`, if there is one.
pub open spec fn after_first(whole: Seq<char>, part: Seq<char>) -> Option<Seq<char>> {
    if contains(whole, part) {
        let at = choose|at: int| first_occurs_at(whole, part, at);
        Some(whole.skip(at + part.len()))
    } else {
        None
    }
}

/// There is only one first occurrence.
pub proof fn lemma_after_first(whole: Seq<char>, part: Seq<char>, at: int)
    requires
        first_occurs_at(whole, part, at),
    ensures
        after_first(whole, part) == Some(whole.skip(at + part.len())),
{
    let found = choose|i: int| first_occurs_at(whole, part, i);
    assert(first_occurs_at(whole, part, found));
    if found < at {
        assert(!occurs_at(whole, part, found));
    }
    if at < found {
        assert(!occurs_at(whole, part, at));
    }
}

/// Text put together around `part` contains it.
pub proof fn lemma_contains_middle(before: Seq<char>, part: Seq<char>, after: Seq<char>)
    ensures
        contains(before + part + after, part),
{
    let whole = before + part + after;
    let at = before.len() as int;
    assert(whole.subrange(at, at + part.len()) =~= part);
    assert(occurs_at(whole, part, at));
}

/// Whether `part` sits in `whole` at `at`.
fn sits_at(whole: &Vec<char>, part: &Vec<char>, at: usize) -> (found: bool)
    requires
        at <= whole.len(),
    ensures
        found == occurs_at(whole@, part@, at as int),
{
    if part.len() > whole.len() - at {
        return false;
    }
    for i in 0..part.len()
        invariant
            at + part.len() <= whole.len(),
            forall|j: int| 0 <= j < i ==> whole@[at + j] == part@[j],
    {
        if whole[at + i] != part[i] {
            assert(whole@.subrange(at as int, at + part.len())[i as int] != part@[i as int]);
            return false;
        }
    }
    assert(whole@.subrange(at as int, at + part.len()) =~= part@);
    true
}

/// Where `part` first occurs in `whole`, in characters.
pub fn position_of(whole: &str, part: &str) -> (at: Option<usize>)
    ensures
        at matches Some(i) ==> first_occurs_at(whole@, part@, i as int),
        at is None ==> !contains(whole@, part@),
{
    let chars = chars_of(whole);
    let sought = chars_of(part);
    let mut i: usize = 0;
    while i < chars.len()
        invariant
            chars@ == whole@,
            sought@ == part@,
            i <= chars.len(),
            forall|j: int| 0 <= j < i ==> !#[trigger] occurs_at(whole@, part@, j),
        decreases chars.len() - i,
    {
        if sits_at(&chars, &sought, i) {
            return Some(i);
        }
        i = i + 1;
    }
    if sits_at(&chars, &sought, i) {
        return Some(i);
    }
    assert forall|j: int| !#[trigger] occurs_at(whole@, part@, j) by {
        if occurs_at(whole@, part@, j) {
            assert(j <= i);
        }
    }
    None
}

/// Whether `part` occurs anywhere in `whole`.
pub fn contains_text(whole: &str, part: &str) -> (found: bool)
    ensures
        found == contains(whole@, part@),
{
    match position_of(whole, part) {
        Some(_at) => {
            assert(occurs_at(whole@, part@, _at as int));
            true
        },
        None => false,
    }
}

/// What follows the first occurrence of `part` in `whole`.
pub fn text_after<'a>(whole: &'a str, part: &str) -> (rest: Option<&'a str>)
    ensures
        rest matches Some(r) ==> after_first(whole@, part@) == Some(r@),
        rest is None ==> after_first(whole@, part@) is None,
{
    match position_of(whole, part) {
        Some(at) => {
            assert(occurs_at(whole@, part@, at as int));
            proof {
                lemma_after_first(whole@, part@, at as int);
            }
            let total = chars_of(whole).len();
            let skipped = chars_of(part).len();
            let rest = whole.substring_char(at + skipped, total);
            assert(rest@ =~= whole@.skip(at + skipped));
            Some(rest)
        },
        None => None,
    }
}

// ---------------------------------------------------------------------------
// Prefixes
// ---------------------------------------------------------------------------
/// What is left of `whole` once `prefix` is taken off its front, if `whole`
/// starts with it.
pub open spec fn without_prefix(whole: Seq<char>, prefix: Seq<char>) -> Option<Seq<char>> {
    if prefix.len() <= whole.len() && whole.take(prefix.len() as int) == prefix {
        Some(whole.skip(prefix.len() as int))
    } else {
        None
    }
}

/// What is left of `whole` once `prefix` is taken off its front.
pub fn strip_prefix<'a>(whole: &'a str, prefix: &str) -> (rest: Option<&'a str>)
    ensures
        rest matches Some(r) ==> without_prefix(whole@, prefix@) == Some(r@),
        rest is None ==> without_prefix(whole@, prefix@) is None,
{
    let chars = chars_of(whole);
    let sought = chars_of(prefix);
    if sits_at(&chars, &sought, 0) {
        assert(whole@.take(prefix@.len() as int) =~= whole@.subrange(0, prefix@.len() as int));
        let rest = whole.substring_char(sought.len(), chars.len());
        assert(rest@ =~= whole@.skip(prefix@.len() as int));
        Some(rest)
    } else {
        assert(prefix@.len() <= whole@.len() ==> whole@.take(prefix@.len() as int)
            =~= whole@.subrange(0, prefix@.len() as int));
        None
    }
}

// ---------------------------------------------------------------------------
// Fields and lines
// ---------------------------------------------------------------------------
/// How many characters of `s` come before the first `c`: all of them when
/// there is none.
pub open spec fn length_before(s: Seq<char>, c: char) -> nat
    decreases s.len(),
{
    if s.len() == 0 || s[0] == c {
        0
    } else {
        1 + length_before(s.skip(1), c)
    }
}

/// `s` cut at every `separator`. There is always at least one field, and two
/// separators in a row leave an empty one between them.
pub open spec fn fields(s: Seq<char>, separator: char) -> Seq<Seq<char>>
    decreases s.len(),
{
    let k = length_before(s, separator);
    if k < s.len() {
        seq![s.take(k as int)] + fields(s.skip(k as int + 1), separator)
    } else {
        seq![s]
    }
}

/// One line's text, without the carriage return that may come before its line
/// feed.
pub open spec fn without_carriage_return(line: Seq<char>) -> Seq<char> {
    if line.len() > 0 && line.last() == '\r' {
        line.drop_last()
    } else {
        line
    }
}

/// The lines of `s`. A line ends at a line feed, or a carriage return and a
/// line feed; the end of the text ends the last line only if that line holds
/// anything.
pub open spec fn lines(s: Seq<char>) -> Seq<Seq<char>>
    decreases s.len(),
{
    let k = length_before(s, '\n');
    if s.len() == 0 {
        Seq::empty()
    } else if k < s.len() {
        seq![without_carriage_return(s.take(k as int))] + lines(s.skip(k as int + 1))
    } else {
        seq![s]
    }
}

/// Where the first `c` at or after `from` is, or the end of the text.
fn next_char(chars: &Vec<char>, from: usize, c: char) -> (at: usize)
    requires
        from <= chars.len(),
    ensures
        from <= at <= chars.len(),
        length_before(chars@.skip(from as int), c) == at - from,
{
    let mut at: usize = from;
    while at < chars.len() && chars[at] != c
        invariant
            from <= at <= chars.len(),
            length_before(chars@.skip(from as int), c) == at - from + length_before(
                chars@.skip(at as int),
                c,
            ),
        decreases chars.len() - at,
    {
        assert(chars@.skip(at as int).skip(1) =~= chars@.skip(at as int + 1));
        at = at + 1;
    }
    at
}

/// The fields of `text`; see [`fields`].
pub fn fields_of<'a>(text: &'a str, separator: char) -> (list: Vec<&'a str>)
    ensures
        views(list@) == fields(text@, separator),
{
    let chars = chars_of(text);
    let mut list: Vec<&'a str> = Vec::new();
    let mut from: usize = 0;
    assert(text@.skip(0) =~= text@);
    assert(views(list@) + fields(text@, separator) =~= fields(text@, separator));
    loop
        invariant
            chars@ == text@,
            from <= chars.len(),
            fields(text@, separator) == views(list@) + fields(text@.skip(from as int), separator),
        decreases chars.len() - from,
    {
        let ghost rest = text@.skip(from as int);
        let ghost before = views(list@);
        let at = next_char(&chars, from, separator);
        let field = text.substring_char(from, at);
        assert(field@ =~= rest.take(at - from));
        list.push(field);
        assert(views(list@) =~= before + seq![field@]);
        if at == chars.len() {
            assert(field@ =~= rest);
            assert(fields(text@, separator) =~= views(list@));
            return list;
        }
        assert(rest.skip(at - from + 1) =~= text@.skip(at as int + 1));
        assert(before + (seq![field@] + fields(text@.skip(at as int + 1), separator)) =~= views(
            list@,
        ) + fields(text@.skip(at as int + 1), separator));
        from = at + 1;
    }
}

/// The lines of `text`; see [`lines`].
pub fn lines_of<'a>(text: &'a str) -> (list: Vec<&'a str>)
    ensures
        views(list@) == lines(text@),
{
    let chars = chars_of(text);
    let mut list: Vec<&'a str> = Vec::new();
    let mut from: usize = 0;
    assert(text@.skip(0) =~= text@);
    assert(views(list@) + lines(text@) =~= lines(text@));
    while from < chars.len()
        invariant
            chars@ == text@,
            from <= chars.len(),
            lines(text@) == views(list@) + lines(text@.skip(from as int)),
        decreases chars.len() - from,
    {
        let ghost rest = text@.skip(from as int);
        let ghost before = views(list@);
        let at = next_char(&chars, from, '\n');
        assert(text@.subrange(from as int, at as int) =~= rest.take(at - from));
        if at == chars.len() {
            let line = text.substring_char(from, at);
            assert(line@ =~= rest);
            list.push(line);
            assert(views(list@) =~= before + seq![line@]);
            from = at;
            assert(lines(text@.skip(from as int)) =~= Seq::<Seq<char>>::empty());
            assert(views(list@) + Seq::<Seq<char>>::empty() =~= views(list@));
        } else {
            let end: usize = if at > from && chars[at - 1] == '\r' {
                at - 1
            } else {
                at
            };
            let line = text.substring_char(from, end);
            assert(line@ =~= without_carriage_return(rest.take(at - from)));
            list.push(line);
            assert(views(list@) =~= before + seq![line@]);
            assert(rest.skip(at - from + 1) =~= text@.skip(at as int + 1));
            assert(before + (seq![line@] + lines(text@.skip(at as int + 1))) =~= views(list@)
                + lines(text@.skip(at as int + 1)));
            from = at + 1;
        }
    }
    assert(lines(text@.skip(from as int)) =~= Seq::<Seq<char>>::empty());
    assert(views(list@) + Seq::<Seq<char>>::empty() =~= views(list@));
    list
}

} // verus!
