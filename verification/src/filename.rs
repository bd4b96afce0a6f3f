//! Splitting a photo's file stem into a display name and an optional job title.
//!
//! A stem such as `Jane Doe - Manager` carries the name before the separator
//! `" - "` and the job title after it. When the separator occurs more than once,
//! the last occurrence is the one that splits.

use vstd::prelude::*;
use vstd::string::*;

verus! {

/// Number of characters in the separator `" - "`.
pub const SEPARATOR_LEN: usize = 3;

/// The separator between name and job title: space, hyphen, space.
pub open spec fn separator() -> Seq<char> {
    seq![' ', '-', ' ']
}

/// The separator occurs in `stem` starting at index `i`.
pub open spec fn separator_at(stem: Seq<char>, i: int) -> bool {
    &&& 0 <= i
    &&& i + 3 <= stem.len()
    &&& stem[i] == ' '
    &&& stem[i + 1] == '-'
    &&& stem[i + 2] == ' '
}

/// The separator occurs somewhere in `stem`.
pub open spec fn has_separator(stem: Seq<char>) -> bool {
    exists|i: int| separator_at(stem, i)
}

/// Index `i` is where the last occurrence of the separator starts.
pub open spec fn is_last_separator(stem: Seq<char>, i: int) -> bool {
    &&& separator_at(stem, i)
    &&& forall|j: int| separator_at(stem, j) ==> j <= i
}

/// Start of the last occurrence of the separator, where there is one.
pub open spec fn last_separator(stem: Seq<char>) -> int {
    choose|i: int| is_last_separator(stem, i)
}

/// Name and job title that a stem stands for.
pub open spec fn parsed(stem: Seq<char>) -> (Seq<char>, Option<Seq<char>>) {
    if has_separator(stem) {
        let at = last_separator(stem);
        (stem.subrange(0, at), Some(stem.subrange(at + 3, stem.len() as int)))
    } else {
        (stem, None)
    }
}

/// The characters of an optional string.
pub open spec fn opt_view(text: Option<String>) -> Option<Seq<char>> {
    match text {
        Some(t) => Some(t@),
        None => None,
    }
}

/// The characters of a string, in order.
pub fn chars_of(text: &str) -> (chars: Vec<char>)
    ensures
        chars@ == text@,
{
    let mut chars: Vec<char> = Vec::new();
    for c in it: text.chars()
        invariant
            chars@ == it.seq().take(it.index() as int),
    {
        chars.push(c);
    }
    chars
}

/// Finds where the last occurrence of the separator starts.
pub fn find_last_separator(stem: &Vec<char>) -> (found: Option<usize>)
    ensures
        found is Some <==> has_separator(stem@),
        found matches Some(at) ==> is_last_separator(stem@, at as int),
{
    let n = stem.len();
    if n < SEPARATOR_LEN {
        return None;
    }
    let mut i: usize = n - SEPARATOR_LEN + 1;
    while i > 0
        invariant
            n == stem.len(),
            i + 2 <= n,
            forall|j: int| i <= j ==> !separator_at(stem@, j),
        decreases i,
    {
        i = i - 1;
        if stem[i] == ' ' && stem[i + 1] == '-' && stem[i + 2] == ' ' {
            assert(separator_at(stem@, i as int));
            return Some(i);
        }
    }
    None
}

/// Splits a file stem at the last `" - "` into the name before it and the job
/// title after it; a stem without the separator is a name without a title.
pub fn parse_filename(filename: &str) -> (r: (String, Option<String>))
    ensures
        (r.0@, opt_view(r.1)) == parsed(filename@),
{
    let chars = chars_of(filename);
    match find_last_separator(&chars) {
        Some(at) => {
            let n = chars.len();
            let name = filename.substring_char(0, at).to_owned();
            let title = filename.substring_char(at + SEPARATOR_LEN, n).to_owned();
            proof {
                lemma_last_separator_is(filename@, at as int);
            }
            (name, Some(title))
        },
        None => (filename.to_owned(), None),
    }
}

/// The last occurrence is unique: an index that starts it is `last_separator`.
pub proof fn lemma_last_separator_is(stem: Seq<char>, at: int)
    requires
        is_last_separator(stem, at),
    ensures
        has_separator(stem),
        last_separator(stem) == at,
{
    let chosen = last_separator(stem);
    assert(is_last_separator(stem, chosen));
}

/// Where the separator occurs at all, it has a last occurrence.
pub proof fn lemma_last_separator_exists(stem: Seq<char>, from: int)
    requires
        separator_at(stem, from),
    ensures
        is_last_separator(stem, last_separator(stem)),
    decreases stem.len() - from,
{
    if exists|j: int| from < j && separator_at(stem, j) {
        let j = choose|j: int| from < j && separator_at(stem, j);
        lemma_last_separator_exists(stem, j);
    } else {
        assert(is_last_separator(stem, from));
    }
}

/// A stem without the separator is a name without a job title.
pub proof fn law_no_separator(stem: Seq<char>)
    requires
        !has_separator(stem),
    ensures
        parsed(stem) == (stem, None::<Seq<char>>),
{
}

/// A name, the separator and a title, put together, parse back into that name
/// and that title, provided that the title holds no separator and does not
/// begin with `"- "` (which, behind the separator's closing space, would make a
/// later occurrence).
pub proof fn law_single_separator(name: Seq<char>, title: Seq<char>)
    requires
        !has_separator(title),
        !(title.len() >= 2 && title[0] == '-' && title[1] == ' '),
    ensures
        parsed(name + separator() + title) == (name, Some(title)),
{
    let stem = name + separator() + title;
    let at = name.len() as int;
    assert(separator_at(stem, at));
    assert forall|j: int| separator_at(stem, j) implies j <= at by {
        if j >= at + 3 {
            assert(separator_at(title, j - at - 3));
        }
    }
    lemma_last_separator_is(stem, at);
    assert(stem.subrange(0, at) =~= name);
    assert(stem.subrange(at + 3, stem.len() as int) =~= title);
}

/// Where the separator occurs, the split is at its last occurrence: the name is
/// all that stands before it, the title all that stands behind it, and no
/// occurrence starts later.
pub proof fn law_splits_at_last_separator(stem: Seq<char>)
    requires
        has_separator(stem),
    ensures
        parsed(stem).1 is Some,
        is_last_separator(stem, parsed(stem).0.len() as int),
        parsed(stem).0 + separator() + parsed(stem).1->0 == stem,
        forall|i: int| separator_at(stem, i) ==> i <= parsed(stem).0.len(),
{
    let first = choose|i: int| separator_at(stem, i);
    lemma_last_separator_exists(stem, first);
    let at = last_separator(stem);
    assert(stem.subrange(0, at).len() == at);
    assert(stem.subrange(0, at) + separator() + stem.subrange(at + 3, stem.len() as int) =~= stem);
}

} // verus!
