//! Ticket keys: one or more capital letters, a hyphen, one or more digits.
//!
//! A key is looked for in free text. The search reports the match that begins
//! furthest to the left, and of the matches that begin there the longest.

use crate::text::chars_of;
use vstd::prelude::*;
use vstd::string::StrSliceExecFns;

verus! {

/// A capital letter of the ASCII alphabet.
pub open spec fn is_capital(c: char) -> bool {
    'A' <= c && c <= 'Z'
}

/// A decimal digit of ASCII.
pub open spec fn is_digit(c: char) -> bool {
    '0' <= c && c <= '9'
}

/// `text[from..to]` is a key whose hyphen stands at index `hyphen` of `text`.
pub open spec fn key_with_hyphen(text: Seq<char>, from: int, hyphen: int, to: int) -> bool {
    &&& 0 <= from < hyphen
    &&& hyphen + 1 < to <= text.len()
    &&& text[hyphen] == '-'
    &&& forall|i: int| from <= i < hyphen ==> is_capital(#[trigger] text[i])
    &&& forall|i: int| hyphen < i < to ==> is_digit(#[trigger] text[i])
}

/// `text[from..to]` is a key.
pub open spec fn key_at(text: Seq<char>, from: int, to: int) -> bool {
    exists|hyphen: int| key_with_hyphen(text, from, hyphen, to)
}

/// The whole of `s` is a key.
pub open spec fn is_ticket_key(s: Seq<char>) -> bool {
    key_at(s, 0, s.len() as int)
}

/// Some part of `text` is a key.
pub open spec fn has_key(text: Seq<char>) -> bool {
    exists|from: int, to: int| key_at(text, from, to)
}

/// `text[from..to]` is the key that a search reports: no key begins before
/// `from`, and none that begins at `from` ends after `to`.
pub open spec fn first_key_at(text: Seq<char>, from: int, to: int) -> bool {
    &&& key_at(text, from, to)
    &&& forall|f: int, t: int| #[trigger] key_at(text, f, t) ==> from < f || (from == f && t <= to)
}

/// The key that a search of `text` reports, if `text` holds one.
pub open spec fn first_key(text: Seq<char>) -> Option<Seq<char>> {
    if has_key(text) {
        let (from, to) = choose|from: int, to: int| first_key_at(text, from, to);
        Some(text.subrange(from, to))
    } else {
        None
    }
}

/// At most one part of a text is the key that a search reports.
pub proof fn lemma_first_key_unique(text: Seq<char>, f1: int, t1: int, f2: int, t2: int)
    requires
        first_key_at(text, f1, t1),
        first_key_at(text, f2, t2),
    ensures
        f1 == f2,
        t1 == t2,
{
}

/// A part of a text that is a key is a key when taken out of the text.
pub proof fn lemma_key_stands_alone(text: Seq<char>, from: int, to: int)
    requires
        key_at(text, from, to),
    ensures
        is_ticket_key(text.subrange(from, to)),
{
    let hyphen = choose|hyphen: int| key_with_hyphen(text, from, hyphen, to);
    let part = text.subrange(from, to);
    assert(key_with_hyphen(part, 0, hyphen - from, part.len() as int)) by {
        assert forall|i: int| 0 <= i < hyphen - from implies is_capital(#[trigger] part[i]) by {
            assert(part[i] == text[from + i]);
        }
        assert forall|i: int| hyphen - from < i < part.len() implies is_digit(
            #[trigger] part[i],
        ) by {
            assert(part[i] == text[from + i]);
        }
    }
}

/// Where the search has found `text[from..to]`, `first_key` is that part.
pub proof fn lemma_first_key_is(text: Seq<char>, from: int, to: int)
    requires
        first_key_at(text, from, to),
    ensures
        first_key(text) == Some(text.subrange(from, to)),
        is_ticket_key(text.subrange(from, to)),
{
    let (f, t) = choose|f: int, t: int| first_key_at(text, f, t);
    lemma_first_key_unique(text, from, to, f, t);
    lemma_key_stands_alone(text, from, to);
}

/// Small letters are no capital letters: a text without a capital ASCII
/// letter holds no key.
pub proof fn lemma_no_capital_no_key(text: Seq<char>)
    requires
        forall|i: int| 0 <= i < text.len() ==> !is_capital(#[trigger] text[i]),
    ensures
        !has_key(text),
        first_key(text) is None,
{
    assert forall|from: int, to: int| !#[trigger] key_at(text, from, to) by {
        if key_at(text, from, to) {
            let hyphen = choose|hyphen: int| key_with_hyphen(text, from, hyphen, to);
            assert(is_capital(text[from]));
        }
    }
}

/// A key that begins inside a run of capital letters has its hyphen right
/// behind the run.
proof fn lemma_hyphen_ends_the_run(text: Seq<char>, from: int, end: int, hyphen: int, to: int)
    requires
        0 <= from < end <= text.len(),
        forall|i: int| from <= i < end ==> is_capital(#[trigger] text[i]),
        end < text.len() ==> !is_capital(text[end]),
        key_with_hyphen(text, from, hyphen, to),
    ensures
        hyphen == end,
{
    if hyphen < end {
        assert(is_capital(text[hyphen]));
    } else if hyphen > end {
        assert(is_capital(text[end]));
    }
}

fn is_capital_char(c: char) -> (r: bool)
    ensures
        r == is_capital(c),
{
    'A' <= c && c <= 'Z'
}

fn is_digit_char(c: char) -> (r: bool)
    ensures
        r == is_digit(c),
{
    '0' <= c && c <= '9'
}

/// Searches `chars` for a key and reports where it begins and ends.
pub fn find_ticket_key(chars: &[char]) -> (found: Option<(usize, usize)>)
    ensures
        match found {
            Some((from, to)) => first_key_at(chars@, from as int, to as int),
            None => !has_key(chars@),
        },
{
    let n = chars.len();
    let mut start: usize = 0;
    while start < n
        invariant
            start <= n,
            n == chars@.len(),
            forall|f: int, t: int| 0 <= f < start ==> !#[trigger] key_at(chars@, f, t),
        decreases n - start,
    {
        if !is_capital_char(chars[start]) {
            assert forall|t: int| !#[trigger] key_at(chars@, start as int, t) by {
                if key_at(chars@, start as int, t) {
                    let h = choose|h: int| key_with_hyphen(chars@, start as int, h, t);
                    assert(is_capital(chars@[start as int]));
                }
            }
            start += 1;
        } else {
            let mut hyphen = start + 1;
            while hyphen < n && is_capital_char(chars[hyphen])
                invariant
                    start < hyphen <= n,
                    n == chars@.len(),
                    forall|i: int| start <= i < hyphen ==> is_capital(#[trigger] chars@[i]),
                decreases n - hyphen,
            {
                hyphen += 1;
            }
            let mut end = hyphen;
            if hyphen < n && chars[hyphen] == '-' {
                end = hyphen + 1;
                while end < n && is_digit_char(chars[end])
                    invariant
                        hyphen < end <= n,
                        n == chars@.len(),
                        forall|i: int| hyphen < i < end ==> is_digit(#[trigger] chars@[i]),
                    decreases n - end,
                {
                    end += 1;
                }
                if end > hyphen + 1 {
                    proof {
                        assert(key_with_hyphen(chars@, start as int, hyphen as int, end as int));
                        assert forall|f: int, t: int| #[trigger]
                            key_at(chars@, f, t) implies start < f || (start == f && t <= end) by {
                            let h = choose|h: int| key_with_hyphen(chars@, f, h, t);
                            if f == start {
                                lemma_hyphen_ends_the_run(
                                    chars@,
                                    start as int,
                                    hyphen as int,
                                    h,
                                    t,
                                );
                                if t > end {
                                    assert(is_digit(chars@[end as int]));
                                }
                            }
                        }
                    }
                    return Some((start, end));
                }
            }
            assert forall|f: int, t: int| start <= f < hyphen implies !#[trigger] key_at(
                chars@,
                f,
                t,
            ) by {
                if key_at(chars@, f, t) {
                    let h = choose|h: int| key_with_hyphen(chars@, f, h, t);
                    lemma_hyphen_ends_the_run(chars@, f, hyphen as int, h, t);
                    assert(is_digit(chars@[hyphen + 1]));
                }
            }
            start = hyphen;
        }
    }
    None
}

/// The first ticket key in `input`: the leftmost part of it that is a key,
/// taken as far to the right as the digits go. `None` where `input` holds no
/// key. Small letters do not count as capital letters.
pub fn extract_jira_issue_key(input: &str) -> (key: Option<&str>)
    ensures
        key is Some <==> has_key(input@),
        match key {
            Some(k) => first_key(input@) == Some(k@) && is_ticket_key(k@),
            None => first_key(input@) is None,
        },
        key matches Some(k) ==> exists|from: int, to: int|
            first_key_at(input@, from, to) && k@ == input@.subrange(from, to),
{
    let chars = chars_of(input);
    match find_ticket_key(chars.as_slice()) {
        Some((from, to)) => {
            proof {
                lemma_first_key_is(input@, from as int, to as int);
            }
            Some(input.substring_char(from, to))
        },
        None => None,
    }
}

} // verus!
