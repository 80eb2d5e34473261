use retsurf::browser::try_into_url;
use retsurf::text::{is_domain_like_str, replace_placeholder_str, str_contains_char, str_starts_with_char, trim_str};

const SEARCH: &str = "https://duckduckgo.com/?q=%s";

#[test]
fn bare_domain_goes_https() {
    assert_eq!(try_into_url("google.com", SEARCH).unwrap(), "https://google.com/");
}

#[test]
fn plain_words_fall_through_to_search() {
    assert_eq!(
        try_into_url("not a url", SEARCH).unwrap(),
        "https://duckduckgo.com/?q=not%20a%20url"
    );
}

#[test]
fn absolute_paths_become_file_urls() {
    assert_eq!(try_into_url("/etc/hosts", SEARCH).unwrap(), "file:///etc/hosts");
}

#[test]
fn absolute_urls_pass_straight_through() {
    assert_eq!(
        try_into_url("https://example.net/a?b=c", SEARCH).unwrap(),
        "https://example.net/a?b=c"
    );
}

#[test]
fn input_is_trimmed_first() {
    assert_eq!(try_into_url("  google.com \n", SEARCH).unwrap(), "https://google.com/");
}

#[test]
fn empty_input_resolves_nowhere() {
    assert_eq!(try_into_url("", SEARCH), None);
    assert_eq!(try_into_url("   ", SEARCH), None);
}

#[test]
fn dotted_path_without_scheme_counts_as_domain() {
    // A slash not at the front marks a domain-with-path shape.
    assert_eq!(
        try_into_url("example.org/page", SEARCH).unwrap(),
        "https://example.org/page"
    );
}

#[test]
fn leading_dot_is_not_a_domain() {
    // ".com" fails the domain shape and becomes a query instead.
    assert_eq!(try_into_url(".com", SEARCH).unwrap(), "https://duckduckgo.com/?q=.com");
}

#[test]
fn trim_handles_whitespace() {
    assert_eq!(trim_str("  a b \t\r\n"), "a b");
    assert_eq!(trim_str(""), "");
    assert_eq!(trim_str(" \t "), "");
    assert_eq!(trim_str("xy"), "xy");
    // The full Unicode white-space set is trimmed, as the standard trim
    // does: no-break space, ideographic space, line separator.
    assert_eq!(trim_str("\u{a0}a\u{3000}"), "a");
    assert_eq!(trim_str("\u{2028}\u{2009}x"), "x");
}

#[test]
fn unicode_padded_input_still_resolves() {
    assert_eq!(
        try_into_url("\u{a0}google.com\u{3000}", SEARCH).unwrap(),
        "https://google.com/"
    );
}

#[test]
fn contains_and_starts_with() {
    assert!(str_contains_char("a.b", '.'));
    assert!(!str_contains_char("ab", '.'));
    assert!(str_starts_with_char("/etc", '/'));
    assert!(!str_starts_with_char("", '/'));
}

#[test]
fn placeholder_replacement_exact() {
    assert_eq!(replace_placeholder_str("https://d.d/?q=%s", "x y"), "https://d.d/?q=x y");
    assert_eq!(replace_placeholder_str("%s and %s", "q"), "q and q");
    assert_eq!(replace_placeholder_str("%%s", "q"), "%q");
    assert_eq!(replace_placeholder_str("no placeholder", "q"), "no placeholder");
}

#[test]
fn domain_shape() {
    assert!(is_domain_like_str("google.com"));
    assert!(is_domain_like_str("example.org/page"));
    assert!(!is_domain_like_str("not a url"));
    assert!(!is_domain_like_str(".com"));
    assert!(!is_domain_like_str("/etc/hosts"));
    assert!(!is_domain_like_str("plainword"));
}
