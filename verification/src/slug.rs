//! Slugs: what is left of a title when it is put in lower case, each run of
//! whitespace is replaced by one hyphen, and every character but small ASCII
//! letters, digits and hyphens is dropped.

use vstd::prelude::*;
use vstd::utf8::is_ascii_chars;

verus! {

/// A character with the Unicode property `White_Space`.
pub open spec fn is_whitespace(c: char) -> bool {
    ||| ('\u{9}' <= c && c <= '\u{d}')
    ||| c == ' '
    ||| c == '\u{85}'
    ||| c == '\u{a0}'
    ||| c == '\u{1680}'
    ||| ('\u{2000}' <= c && c <= '\u{200a}')
    ||| c == '\u{2028}'
    ||| c == '\u{2029}'
    ||| c == '\u{202f}'
    ||| c == '\u{205f}'
    ||| c == '\u{3000}'
}

/// A character that a slug may hold: a small ASCII letter, a digit, a hyphen.
pub open spec fn is_slug_char(c: char) -> bool {
    ||| ('a' <= c && c <= 'z')
    ||| ('0' <= c && c <= '9')
    ||| c == '-'
}

/// Every character of `s` may stand in a slug.
pub open spec fn is_slug(s: Seq<char>) -> bool {
    forall|i: int| 0 <= i < s.len() ==> is_slug_char(#[trigger] s[i])
}

/// The small letter for a capital ASCII letter; any other character itself.
pub open spec fn ascii_lower(c: char) -> char {
    if 'A' <= c && c <= 'Z' {
        ((c as u8) + 32) as char
    } else {
        c
    }
}

/// `s` with each capital ASCII letter replaced by its small letter.
pub open spec fn ascii_lowercase(s: Seq<char>) -> Seq<char> {
    Seq::new(s.len(), |i: int| ascii_lower(s[i]))
}

/// What `str::to_lowercase` makes of a text: its lower case by the rules of
/// Unicode, which may change the number of characters.
pub uninterp spec fn unicode_lowercase(text: Seq<char>) -> Seq<char>;

/// `str::to_lowercase` returns the lower case of the text by the rules of
/// Unicode. Nothing more is said of it here than that the same text has the
/// same lower case.
pub assume_specification[ str::to_lowercase ](s: &str) -> (lowered: String)
    ensures
        lowered@ == unicode_lowercase(s@),
;

/// The lower case of a title. An ASCII title is lowered letter by letter; any
/// other title has the lower case that Unicode gives it.
pub open spec fn lowercase_of(title: Seq<char>) -> Seq<char> {
    if is_ascii_chars(title) {
        ascii_lowercase(title)
    } else {
        unicode_lowercase(title)
    }
}

/// `s` with each run of whitespace replaced by one hyphen.
pub open spec fn hyphenate(s: Seq<char>) -> Seq<char>
    decreases s.len(),
{
    if s.len() == 0 {
        s
    } else {
        let before = s.drop_last();
        if !is_whitespace(s.last()) {
            hyphenate(before).push(s.last())
        } else if before.len() > 0 && is_whitespace(before.last()) {
            hyphenate(before)
        } else {
            hyphenate(before).push('-')
        }
    }
}

/// The characters of `s` that may stand in a slug, in their order.
pub open spec fn retain_slug_chars(s: Seq<char>) -> Seq<char> {
    s.filter(|c: char| is_slug_char(c))
}

/// The slug of a text that is in lower case already.
pub open spec fn slug_of_lowered(lowered: Seq<char>) -> Seq<char> {
    retain_slug_chars(hyphenate(lowered))
}

/// The slug of a title.
pub open spec fn slug_of(title: Seq<char>) -> Seq<char> {
    slug_of_lowered(lowercase_of(title))
}

/// What one more character at the end of a text adds to its slug.
pub proof fn lemma_slug_of_lowered_push(s: Seq<char>, c: char)
    ensures
        slug_of_lowered(s.push(c)) == if is_whitespace(c) {
            if s.len() > 0 && is_whitespace(s.last()) {
                slug_of_lowered(s)
            } else {
                slug_of_lowered(s).push('-')
            }
        } else if is_slug_char(c) {
            slug_of_lowered(s).push(c)
        } else {
            slug_of_lowered(s)
        },
{
    let longer = s.push(c);
    assert(longer.drop_last() == s);
    assert(longer.last() == c);
    let keep = |c: char| is_slug_char(c);
    if !is_whitespace(c) {
        assert(hyphenate(longer) == hyphenate(s).push(c));
        hyphenate(s).lemma_filter_push(c, keep);
    } else if s.len() > 0 && is_whitespace(s.last()) {
        assert(hyphenate(longer) == hyphenate(s));
    } else {
        assert(hyphenate(longer) == hyphenate(s).push('-'));
        hyphenate(s).lemma_filter_push('-', keep);
    }
}

/// A slug holds small ASCII letters, digits and hyphens, and nothing else.
pub proof fn lemma_slug_of_lowered_is_slug(lowered: Seq<char>)
    ensures
        is_slug(slug_of_lowered(lowered)),
{
    let keep = |c: char| is_slug_char(c);
    let kept = hyphenate(lowered).filter(keep);
    assert forall|i: int| 0 <= i < kept.len() implies is_slug_char(#[trigger] kept[i]) by {
        hyphenate(lowered).lemma_filter_pred(keep, i);
    }
}

/// A text made of slug characters is its own slug.
pub proof fn lemma_slug_of_slug(s: Seq<char>)
    requires
        is_slug(s),
    ensures
        slug_of(s) == s,
        slug_of_lowered(s) == s,
    decreases s.len(),
{
    assert(is_ascii_chars(s)) by {
        assert forall|i: int| 0 <= i < s.len() implies '\0' <= #[trigger] s[i] <= '\u{7f}' by {
            assert(is_slug_char(s[i]));
        }
    }
    assert(ascii_lowercase(s) =~= s) by {
        assert forall|i: int| 0 <= i < s.len() implies ascii_lower(s[i]) == s[i] by {
            assert(is_slug_char(s[i]));
        }
    }
    if s.len() == 0 {
        assert(slug_of_lowered(s) =~= s) by {
            reveal(Seq::filter);
        }
    } else {
        let before = s.drop_last();
        assert(is_slug(before)) by {
            assert forall|i: int| 0 <= i < before.len() implies is_slug_char(
                #[trigger] before[i],
            ) by {
                assert(before[i] == s[i]);
            }
        }
        lemma_slug_of_slug(before);
        assert(is_slug_char(s.last()));
        assert(before.push(s.last()) =~= s);
        lemma_slug_of_lowered_push(before, s.last());
    }
}

/// Taking the slug of a slug changes nothing.
pub proof fn lemma_slug_idempotent(title: Seq<char>)
    ensures
        slug_of(slug_of(title)) == slug_of(title),
{
    lemma_slug_of_lowered_is_slug(lowercase_of(title));
    lemma_slug_of_slug(slug_of(title));
}

/// Whether `c` has the Unicode property `White_Space`.
pub fn is_whitespace_char(c: char) -> (r: bool)
    ensures
        r == is_whitespace(c),
{
    ('\u{9}' <= c && c <= '\u{d}')
        || c == ' '
        || c == '\u{85}'
        || c == '\u{a0}'
        || c == '\u{1680}'
        || ('\u{2000}' <= c && c <= '\u{200a}')
        || c == '\u{2028}'
        || c == '\u{2029}'
        || c == '\u{202f}'
        || c == '\u{205f}'
        || c == '\u{3000}'
}

fn is_kept_char(c: char) -> (r: bool)
    ensures
        r == is_slug_char(c),
{
    ('a' <= c && c <= 'z') || ('0' <= c && c <= '9') || c == '-'
}

fn ascii_lower_char(c: char) -> (r: char)
    ensures
        r == ascii_lower(c),
{
    if 'A' <= c && c <= 'Z' {
        ((c as u8) + 32) as char
    } else {
        c
    }
}

/// `text` with each capital ASCII letter replaced by its small letter.
pub fn to_ascii_lowercase(text: &str) -> (lowered: String)
    ensures
        lowered@ == ascii_lowercase(text@),
{
    let mut lowered = String::new();
    for c in it: text.chars()
        invariant
            it.seq() == text@,
            lowered@ == ascii_lowercase(it.seq().take(it.index() as int)),
    {
        assert(ascii_lowercase(it.seq().take(it.index() + 1)) =~= ascii_lowercase(
            it.seq().take(it.index() as int),
        ).push(ascii_lower(c)));
        lowered.push(ascii_lower_char(c));
    }
    assert(text@.take(text@.len() as int) =~= text@);
    lowered
}

/// The lower case of a title.
pub fn lowercase(title: &str) -> (lowered: String)
    ensures
        lowered@ == lowercase_of(title@),
{
    if title.is_ascii() {
        to_ascii_lowercase(title)
    } else {
        title.to_lowercase()
    }
}

/// The slug of a text that is in lower case already: runs of whitespace
/// become one hyphen each, and of the rest only small ASCII letters, digits
/// and hyphens stay.
pub fn slug_from_lowered(lowered: &str) -> (slug: String)
    ensures
        slug@ == slug_of_lowered(lowered@),
        is_slug(slug@),
{
    let mut slug = String::new();
    let mut after_space = false;
    assert(slug_of_lowered(Seq::<char>::empty()) =~= Seq::<char>::empty()) by {
        reveal(Seq::filter);
    }
    for c in it: lowered.chars()
        invariant
            it.seq() == lowered@,
            slug@ == slug_of_lowered(it.seq().take(it.index() as int)),
            after_space == (it.index() > 0 && is_whitespace(it.seq()[it.index() - 1])),
    {
        proof {
            let seen = it.seq().take(it.index() as int);
            assert(it.seq().take(it.index() + 1) =~= seen.push(c));
            lemma_slug_of_lowered_push(seen, c);
        }
        if is_whitespace_char(c) {
            if !after_space {
                slug.push('-');
            }
            after_space = true;
        } else {
            if is_kept_char(c) {
                slug.push(c);
            }
            after_space = false;
        }
    }
    proof {
        assert(lowered@.take(lowered@.len() as int) =~= lowered@);
        lemma_slug_of_lowered_is_slug(lowered@);
    }
    slug
}

/// The slug of a title: the title in lower case, each run of whitespace
/// replaced by one hyphen, and of the rest only small ASCII letters, digits
/// and hyphens kept.
pub fn slugify(title: &str) -> (slug: String)
    ensures
        slug@ == slug_of(title@),
        is_slug(slug@),
{
    let lowered = lowercase(title);
    slug_from_lowered(lowered.as_str())
}

} // verus!
