use git_jira::slug::{
    is_whitespace_char, lowercase, slug_from_lowered, slugify, to_ascii_lowercase,
};

const TITLES: [&str; 14] = [
    "",
    "Fix Login Bug! #42",
    "Add OAuth Support",
    "  leading and trailing  ",
    "tabs\tand\nnewlines\r\n here",
    "already-a-slug-42",
    "UPPER lower 123",
    "a - b",
    "a ! b",
    "!!!",
    "\u{dc}ber Gr\u{f6}\u{df}e",
    "\u{212a}elvin scale",
    "\u{130}stanbul",
    "no\u{a0}break\u{2003}space",
];

#[test]
fn symbols_are_stripped_from_a_title() {
    assert_eq!(slugify("Fix Login Bug! #42"), "fix-login-bug-42");
}

#[test]
fn a_title_is_lowered_and_hyphenated() {
    assert_eq!(slugify("Add OAuth Support"), "add-oauth-support");
    assert_eq!(slugify("UPPER lower 123"), "upper-lower-123");
}

#[test]
fn a_run_of_whitespace_becomes_one_hyphen() {
    assert_eq!(slugify("a   b"), "a-b");
    assert_eq!(slugify("a \t\n b"), "a-b");
    assert_eq!(slugify("tabs\tand\nnewlines\r\n here"), "tabs-and-newlines-here");
    assert_eq!(slugify("  leading and trailing  "), "-leading-and-trailing-");
    assert_eq!(slugify("   "), "-");
}

#[test]
fn whitespace_outside_ascii_counts() {
    assert_eq!(slugify("no\u{a0}break\u{2003}space"), "no-break-space");
    assert_eq!(slugify("a\u{3000}\u{2028} b"), "a-b");
    // A zero width space is not whitespace.
    assert_eq!(slugify("a\u{200b}b"), "ab");
}

#[test]
fn hyphens_of_the_title_stay() {
    assert_eq!(slugify("already-a-slug-42"), "already-a-slug-42");
    assert_eq!(slugify("a - b"), "a---b");
    assert_eq!(slugify("--"), "--");
}

#[test]
fn what_is_dropped_does_not_join_two_runs_of_whitespace() {
    assert_eq!(slugify("a ! b"), "a--b");
    assert_eq!(slugify("Bug! #42"), "bug-42");
}

#[test]
fn a_title_without_slug_characters_has_the_empty_slug() {
    assert_eq!(slugify(""), "");
    assert_eq!(slugify("!!!"), "");
    assert_eq!(slugify("\u{4e2d}\u{6587}"), "");
}

#[test]
fn letters_outside_ascii_are_dropped() {
    assert_eq!(slugify("\u{dc}ber Gr\u{f6}\u{df}e"), "ber-gre");
    assert_eq!(slugify("caf\u{e9}"), "caf");
}

#[test]
fn lower_case_is_taken_by_the_rules_of_unicode() {
    // The Kelvin sign has the small letter k as its lower case, and the
    // dotted capital I a small i followed by a combining dot.
    assert_eq!(slugify("\u{212a}elvin scale"), "kelvin-scale");
    assert_eq!(slugify("\u{130}stanbul"), "istanbul");
    assert_eq!(lowercase("\u{212a}"), "k");
    assert_eq!(lowercase("\u{c9}T\u{c9}"), "\u{e9}t\u{e9}");
}

#[test]
fn lower_case_agrees_with_std() {
    for title in TITLES {
        assert_eq!(lowercase(title), title.to_lowercase(), "for {:?}", title);
    }
    let mut ascii = String::new();
    for code in 0u8..128 {
        ascii.push(code as char);
    }
    assert_eq!(lowercase(&ascii), ascii.to_lowercase());
    assert_eq!(to_ascii_lowercase(&ascii), ascii.to_ascii_lowercase());
    assert_eq!(to_ascii_lowercase("\u{c9}T\u{c9}"), "\u{c9}t\u{c9}");
}

#[test]
fn of_a_lowered_text_only_slug_characters_stay() {
    assert_eq!(slug_from_lowered("fix login bug! #42"), "fix-login-bug-42");
    assert_eq!(slug_from_lowered("Ab Cd"), "b-d");
    assert_eq!(slug_from_lowered(""), "");
}

#[test]
fn the_slug_of_a_slug_is_that_slug() {
    for title in TITLES {
        let once = slugify(title);
        let twice = slugify(&once);
        assert_eq!(twice, once, "for {:?}", title);
    }
}

#[test]
fn a_slug_holds_small_letters_digits_and_hyphens_only() {
    for title in TITLES {
        let slug = slugify(title);
        assert!(
            slug.chars().all(|c| c.is_ascii_lowercase() || c.is_ascii_digit() || c == '-'),
            "{:?} for {:?}",
            slug,
            title
        );
    }
}

#[test]
fn whitespace_is_what_std_calls_whitespace() {
    for code in 0u32..=0x10ffff {
        if let Some(c) = char::from_u32(code) {
            assert_eq!(is_whitespace_char(c), c.is_whitespace(), "for U+{:04X}", code);
        }
    }
}
